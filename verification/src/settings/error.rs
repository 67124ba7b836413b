//! Failures of reading, decoding, encoding and writing the settings.

use vstd::prelude::*;
use crate::SETTINGS_ERROR_SPACE;

verus! {

/// The kinds of settings failure.
#[derive(Debug, Clone, Copy, PartialEq, Eq, Structural)]
pub enum SettingsErrorCode {
    /// The settings file could not be opened, created or written.
    IoError,
    /// The settings could not be put into text.
    SerializeError,
    /// The text of the settings file is not a settings record.
    DeserializeError,
}

impl SettingsErrorCode {
    /// The number of this kind inside the band reserved for settings failures.
    pub open spec fn spec_number(self) -> int {
        match self {
            SettingsErrorCode::IoError => SETTINGS_ERROR_SPACE as int,
            SettingsErrorCode::SerializeError => SETTINGS_ERROR_SPACE + 1,
            SettingsErrorCode::DeserializeError => SETTINGS_ERROR_SPACE + 2,
        }
    }

    /// The name of this kind, as it is written in messages.
    pub open spec fn spec_name(self) -> Seq<char> {
        match self {
            SettingsErrorCode::IoError => "IoError"@,
            SettingsErrorCode::SerializeError => "SerializeError"@,
            SettingsErrorCode::DeserializeError => "DeserializeError"@,
        }
    }

    /// The numeric code of this kind.
    pub fn number(self) -> (n: isize)
        ensures
            n == self.spec_number(),
            SETTINGS_ERROR_SPACE <= n < SETTINGS_ERROR_SPACE + 100,
    {
        match self {
            SettingsErrorCode::IoError => SETTINGS_ERROR_SPACE,
            SettingsErrorCode::SerializeError => SETTINGS_ERROR_SPACE + 1,
            SettingsErrorCode::DeserializeError => SETTINGS_ERROR_SPACE + 2,
        }
    }

    /// The name of this kind.
    pub fn name(self) -> (s: &'static str)
        ensures
            s@ == self.spec_name(),
    {
        match self {
            SettingsErrorCode::IoError => "IoError",
            SettingsErrorCode::SerializeError => "SerializeError",
            SettingsErrorCode::DeserializeError => "DeserializeError",
        }
    }
}

/// A settings failure: its kind and, where there is one, a free-text context.
#[derive(Debug, Clone)]
pub struct SettingsError {
    pub code: SettingsErrorCode,
    pub message: Option<String>,
}

impl SettingsError {
    /// The context, or the empty text where there is none.
    pub open spec fn context(self) -> Seq<char> {
        match self.message {
            Some(m) => m@,
            None => Seq::<char>::empty(),
        }
    }

    /// What `describe` returns: the context for a failure of the file, and
    /// only the kind's name for the kinds that are internal.
    pub open spec fn description(self) -> Seq<char> {
        match self.code {
            SettingsErrorCode::IoError => "Issue With Settings File: "@ + self.context(),
            _ => "Internal Error: "@ + self.code.spec_name(),
        }
    }

    /// What `debug_text` returns: kind and context in full.
    pub open spec fn debug_description(self) -> Seq<char> {
        "SettingsError { code: "@ + self.code.spec_name() + ", message: "@ + self.context()
            + " }"@
    }

    /// Whether this error has kind `code` and context `message`.
    pub open spec fn is(self, code: SettingsErrorCode, message: Option<Seq<char>>) -> bool {
        &&& self.code == code
        &&& match message {
            Some(m) => self.message matches Some(own) && own@ == m,
            None => self.message is None,
        }
    }

    /// An error of kind `code` with a copy of `message` as its context.
    pub fn new(code: SettingsErrorCode, message: Option<&str>) -> (e: Self)
        ensures
            e.is(
                code,
                match message {
                    Some(m) => Some(m@),
                    None => None,
                },
            ),
    {
        let new_message: Option<String> = match message {
            Some(m) => Some(String::from_str(m)),
            None => None,
        };
        SettingsError { code, message: new_message }
    }

    /// The text for end users.
    pub fn describe(&self) -> (s: String)
        ensures
            s@ == self.description(),
    {
        match self.code {
            SettingsErrorCode::IoError => {
                let mut s = String::from_str("Issue With Settings File: ");
                match &self.message {
                    Some(m) => s.append(m.as_str()),
                    None => {},
                }
                assert(s@ =~= self.description());
                s
            },
            _ => {
                let mut s = String::from_str("Internal Error: ");
                s.append(self.code.name());
                s
            },
        }
    }

    /// The text for logs.
    pub fn debug_text(&self) -> (s: String)
        ensures
            s@ == self.debug_description(),
    {
        let mut s = String::from_str("SettingsError { code: ");
        s.append(self.code.name());
        s.append(", message: ");
        match &self.message {
            Some(m) => s.append(m.as_str()),
            None => {},
        }
        assert(s@ =~= "SettingsError { code: "@ + self.code.spec_name() + ", message: "@
            + self.context());
        s.append(" }");
        s
    }
}

} // verus!
