//! Failures of enumeration, capture and region extraction.

use vstd::prelude::*;
use crate::SCREEN_CAP_ERROR_SPACE;

verus! {

/// The kinds of capture failure.
#[derive(Debug, Clone, Copy, PartialEq, Eq, Structural)]
pub enum ScreenCapErrorCode {
    /// The chosen monitor or window does not exist (any more).
    TargetNotFound,
    /// The host could not deliver a frame of the bound target.
    CaptureFailed,
    /// The requested rectangle does not lie inside the captured frame.
    SubImageOutOfBounds,
    /// The host could not list its monitors or windows.
    TargetEnumerationFailed,
}

impl ScreenCapErrorCode {
    /// The number of this kind inside the band reserved for capture failures.
    pub open spec fn spec_number(self) -> int {
        match self {
            ScreenCapErrorCode::TargetNotFound => SCREEN_CAP_ERROR_SPACE as int,
            ScreenCapErrorCode::CaptureFailed => SCREEN_CAP_ERROR_SPACE + 1,
            ScreenCapErrorCode::SubImageOutOfBounds => SCREEN_CAP_ERROR_SPACE + 2,
            ScreenCapErrorCode::TargetEnumerationFailed => SCREEN_CAP_ERROR_SPACE + 3,
        }
    }

    /// The name of this kind, as it is written in messages.
    pub open spec fn spec_name(self) -> Seq<char> {
        match self {
            ScreenCapErrorCode::TargetNotFound => "TargetNotFound"@,
            ScreenCapErrorCode::CaptureFailed => "CaptureFailed"@,
            ScreenCapErrorCode::SubImageOutOfBounds => "SubImageOutOfBounds"@,
            ScreenCapErrorCode::TargetEnumerationFailed => "TargetEnumerationFailed"@,
        }
    }

    /// The numeric code of this kind.
    pub fn number(self) -> (n: isize)
        ensures
            n == self.spec_number(),
            SCREEN_CAP_ERROR_SPACE <= n < SCREEN_CAP_ERROR_SPACE + 100,
    {
        match self {
            ScreenCapErrorCode::TargetNotFound => SCREEN_CAP_ERROR_SPACE,
            ScreenCapErrorCode::CaptureFailed => SCREEN_CAP_ERROR_SPACE + 1,
            ScreenCapErrorCode::SubImageOutOfBounds => SCREEN_CAP_ERROR_SPACE + 2,
            ScreenCapErrorCode::TargetEnumerationFailed => SCREEN_CAP_ERROR_SPACE + 3,
        }
    }

    /// The name of this kind.
    pub fn name(self) -> (s: &'static str)
        ensures
            s@ == self.spec_name(),
    {
        match self {
            ScreenCapErrorCode::TargetNotFound => "TargetNotFound",
            ScreenCapErrorCode::CaptureFailed => "CaptureFailed",
            ScreenCapErrorCode::SubImageOutOfBounds => "SubImageOutOfBounds",
            ScreenCapErrorCode::TargetEnumerationFailed => "TargetEnumerationFailed",
        }
    }
}

/// A capture failure: its kind and, where there is one, a free-text context.
#[derive(Debug, Clone)]
pub struct ScreenCapError {
    pub code: ScreenCapErrorCode,
    pub message: Option<String>,
}

impl ScreenCapError {
    /// The context, or the empty text where there is none.
    pub open spec fn context(self) -> Seq<char> {
        match self.message {
            Some(m) => m@,
            None => Seq::<char>::empty(),
        }
    }

    /// What `describe` returns: the context for a missing target, and only the
    /// kind's name for the kinds that are internal.
    pub open spec fn description(self) -> Seq<char> {
        match self.code {
            ScreenCapErrorCode::TargetNotFound => "Cannot find monitor: "@ + self.context(),
            _ => "Internal Error: "@ + self.code.spec_name(),
        }
    }

    /// What `debug_text` returns: kind and context in full.
    pub open spec fn debug_description(self) -> Seq<char> {
        "ScreenCap Error { code: "@ + self.code.spec_name() + ", message: "@ + self.context()
            + " }"@
    }

    /// Whether this error has kind `code` and context `message`.
    pub open spec fn is(self, code: ScreenCapErrorCode, message: Option<Seq<char>>) -> bool {
        &&& self.code == code
        &&& match message {
            Some(m) => self.message matches Some(own) && own@ == m,
            None => self.message is None,
        }
    }

    /// An error of kind `code` with a copy of `message` as its context.
    pub fn new(code: ScreenCapErrorCode, message: Option<&str>) -> (e: Self)
        ensures
            e.is(
                code,
                match message {
                    Some(m) => Some(m@),
                    None => None,
                },
            ),
    {
        let new_message: Option<String> = match message {
            Some(m) => Some(String::from_str(m)),
            None => None,
        };
        ScreenCapError { code, message: new_message }
    }

    /// The text for end users.
    pub fn describe(&self) -> (s: String)
        ensures
            s@ == self.description(),
    {
        match self.code {
            ScreenCapErrorCode::TargetNotFound => {
                let mut s = String::from_str("Cannot find monitor: ");
                match &self.message {
                    Some(m) => s.append(m.as_str()),
                    None => {},
                }
                assert(s@ =~= self.description());
                s
            },
            _ => {
                let mut s = String::from_str("Internal Error: ");
                s.append(self.code.name());
                s
            },
        }
    }

    /// The text for logs.
    pub fn debug_text(&self) -> (s: String)
        ensures
            s@ == self.debug_description(),
    {
        let mut s = String::from_str("ScreenCap Error { code: ");
        s.append(self.code.name());
        s.append(", message: ");
        match &self.message {
            Some(m) => s.append(m.as_str()),
            None => {},
        }
        assert(s@ =~= "ScreenCap Error { code: "@ + self.code.spec_name() + ", message: "@
            + self.context());
        s.append(" }");
        s
    }
}

} // verus!
