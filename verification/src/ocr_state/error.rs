//! Failures of text recognition.

use vstd::prelude::*;
use crate::OCR_ERROR_SPACE;

verus! {

/// The kinds of text recognition failure.
#[derive(Debug, Clone, Copy, PartialEq, Eq, Structural)]
pub enum OcrErrorCode {
    /// No text could be read from the image.
    ImageToTextFailed,
}

impl OcrErrorCode {
    /// The number of this kind inside the band reserved for text recognition.
    pub open spec fn spec_number(self) -> int {
        OCR_ERROR_SPACE as int
    }

    /// The name of this kind, as it is written in messages.
    pub open spec fn spec_name(self) -> Seq<char> {
        "ImageToTextFailed"@
    }

    /// The numeric code of this kind.
    pub fn number(self) -> (n: isize)
        ensures
            n == self.spec_number(),
            OCR_ERROR_SPACE <= n < OCR_ERROR_SPACE + 100,
    {
        OCR_ERROR_SPACE
    }

    /// The name of this kind.
    pub fn name(self) -> (s: &'static str)
        ensures
            s@ == self.spec_name(),
    {
        "ImageToTextFailed"
    }
}

/// A text recognition failure: its kind and, where there is one, a free-text
/// context.
#[derive(Debug, Clone)]
pub struct OcrError {
    pub code: OcrErrorCode,
    pub message: Option<String>,
}

impl OcrError {
    /// The context, or the empty text where there is none.
    pub open spec fn context(self) -> Seq<char> {
        match self.message {
            Some(m) => m@,
            None => Seq::<char>::empty(),
        }
    }

    /// What `describe` returns: only the kind's name, the kind being internal.
    pub open spec fn description(self) -> Seq<char> {
        "Internal Error: "@ + self.code.spec_name()
    }

    /// What `debug_text` returns: kind and context in full.
    pub open spec fn debug_description(self) -> Seq<char> {
        "Ocr Error { code: "@ + self.code.spec_name() + ", message: "@ + self.context() + " }"@
    }

    /// Whether this error has kind `code` and context `message`.
    pub open spec fn is(self, code: OcrErrorCode, message: Option<Seq<char>>) -> bool {
        &&& self.code == code
        &&& match message {
            Some(m) => self.message matches Some(own) && own@ == m,
            None => self.message is None,
        }
    }

    /// An error of kind `code` with a copy of `message` as its context.
    pub fn new(code: OcrErrorCode, message: Option<&str>) -> (e: Self)
        ensures
            e.is(
                code,
                match message {
                    Some(m) => Some(m@),
                    None => None,
                },
            ),
    {
        let new_message: Option<String> = match message {
            Some(m) => Some(String::from_str(m)),
            None => None,
        };
        OcrError { code, message: new_message }
    }

    /// The text for end users.
    pub fn describe(&self) -> (s: String)
        ensures
            s@ == self.description(),
    {
        let mut s = String::from_str("Internal Error: ");
        s.append(self.code.name());
        s
    }

    /// The text for logs.
    pub fn debug_text(&self) -> (s: String)
        ensures
            s@ == self.debug_description(),
    {
        let mut s = String::from_str("Ocr Error { code: ");
        s.append(self.code.name());
        s.append(", message: ");
        match &self.message {
            Some(m) => s.append(m.as_str()),
            None => {},
        }
        assert(s@ =~= "Ocr Error { code: "@ + self.code.spec_name() + ", message: "@
            + self.context());
        s.append(" }");
        s
    }
}

} // verus!
