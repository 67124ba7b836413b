//! The settings record, its text form, and the shared instance.

use vstd::prelude::*;
use crate::settings::error::{SettingsError, SettingsErrorCode};
use crate::text::text_equal;

pub mod error;

verus! {

/// Where the settings are kept, relative to the working directory.
pub const SETTINGS_FILE: &'static str = "settings.json";

/// The version of the settings file that this library writes and reads.
pub const SETTINGS_VERSION: u32 = 1;

/// For each of the two named regions, `ocr` and `icon`: the number of the
/// capture target to take it from, and its rectangle in the pixel
/// coordinates of the captured frame.
#[derive(Debug, Clone, Copy, PartialEq, Eq, Structural)]
pub struct Settings {
    pub ocr_monitor_number: u32,
    pub ocr_x: u32,
    pub ocr_y: u32,
    pub ocr_width: u32,
    pub ocr_height: u32,
    pub icon_monitor_number: u32,
    pub icon_x: u32,
    pub icon_y: u32,
    pub icon_width: u32,
    pub icon_height: u32,
}

/// The text of a record with the given members, as `serde_json` writes it, or
/// the words of its failure.
pub uninterp spec fn rendered_object(members: Seq<(Seq<char>, u32)>) -> Result<
    Seq<char>,
    Seq<char>,
>;

/// The members of the record that `serde_json` reads from the given bytes,
/// each with its value where that is a whole number from zero to
/// `u64::MAX` and `None` where it is anything else, or the words of its
/// failure where the bytes are not one JSON object.
pub uninterp spec fn parsed_object(bytes: Seq<u8>) -> Result<
    Seq<(Seq<char>, Option<u64>)>,
    Seq<char>,
>;

/// The contents of a list of members that are to be written.
pub open spec fn written_model(members: Seq<(String, u32)>) -> Seq<(Seq<char>, u32)> {
    members.map_values(|m: (String, u32)| (m.0@, m.1))
}

/// The contents of a list of members that were read.
pub open spec fn read_model(members: Seq<(String, Option<u64>)>) -> Seq<
    (Seq<char>, Option<u64>),
> {
    members.map_values(|m: (String, Option<u64>)| (m.0@, m.1))
}

/// Writes the members as one JSON object, in their order.
///
/// Trusted: collects the members into a `serde_json::Map` (which keeps the
/// order of insertion) with each value as a `serde_json::Value` number, and
/// calls `serde_json::to_string` on it. The contract only names the outcome:
/// the text, or the text of the error, as a function of the members.
#[verifier::external_body]
fn render_object(members: &Vec<(String, u32)>) -> (r: Result<String, String>)
    ensures
        match r {
            Ok(text) => rendered_object(written_model(members@)) == Ok::<Seq<char>, Seq<char>>(
                text@,
            ),
            Err(words) => rendered_object(written_model(members@)) == Err::<
                Seq<char>,
                Seq<char>,
            >(words@),
        },
{
    let object: serde_json::Map<String, serde_json::Value> = members.iter().map(
        |(name, value)| (name.clone(), serde_json::Value::from(*value)),
    ).collect();
    match serde_json::to_string(&object) {
        Ok(text) => Ok(text),
        Err(error) => Err(error.to_string()),
    }
}

/// Reads one JSON object and hands out its members.
///
/// Trusted: calls `serde_json::from_slice` for a `serde_json::Map`, which
/// fails unless the bytes are exactly one JSON object, and hands out each
/// member with `serde_json::Value::as_u64` of its value. The contract only
/// names the outcome: the members, or the text of the error, as a function of
/// the bytes.
#[verifier::external_body]
fn parse_object(bytes: &[u8]) -> (r: Result<Vec<(String, Option<u64>)>, String>)
    ensures
        match r {
            Ok(members) => parsed_object(bytes@) == Ok::<
                Seq<(Seq<char>, Option<u64>)>,
                Seq<char>,
            >(read_model(members@)),
            Err(words) => parsed_object(bytes@) == Err::<
                Seq<(Seq<char>, Option<u64>)>,
                Seq<char>,
            >(words@),
        },
{
    match serde_json::from_slice::<serde_json::Map<String, serde_json::Value>>(bytes) {
        Ok(object) => Ok(
            object.iter().map(|(name, value)| (name.clone(), value.as_u64())).collect(),
        ),
        Err(error) => Err(error.to_string()),
    }
}

/// The value of the last member called `name`; `None` where there is none.
pub open spec fn member(members: Seq<(Seq<char>, Option<u64>)>, name: Seq<char>) -> Option<
    Option<u64>,
>
    decreases members.len(),
{
    if members.len() == 0 {
        None
    } else if members.last().0 == name {
        Some(members.last().1)
    } else {
        member(members.drop_last(), name)
    }
}

/// The context of the failure for a field that the record lacks.
pub open spec fn missing_field(name: Seq<char>) -> Seq<char> {
    "missing field `"@ + name + "`"@
}

/// The context of the failure for a field whose value is no `u32`.
pub open spec fn invalid_field(name: Seq<char>) -> Seq<char> {
    "invalid value for field `"@ + name + "`, expected u32"@
}

/// The field `name` as the members give it: its value, or the context of the
/// failure where it is missing, no whole number, negative or above `u32::MAX`.
pub open spec fn field_value(members: Seq<(Seq<char>, Option<u64>)>, name: Seq<char>) -> Result<
    u32,
    Seq<char>,
> {
    match member(members, name) {
        None => Err(missing_field(name)),
        Some(None) => Err(invalid_field(name)),
        Some(Some(v)) => if v <= u32::MAX {
            Ok(v as u32)
        } else {
            Err(invalid_field(name))
        },
    }
}

/// The context of the failure for a file of another version.
pub open spec fn unsupported_version() -> Seq<char> {
    "unsupported settings version"@
}

/// The record that the members give: the version must be the one of this
/// library; then every field by its name, members of other names passed
/// over. Else the context of the first failure: of the version, then of the
/// first field, in the record's order, that the members do not give.
pub open spec fn decoded(members: Seq<(Seq<char>, Option<u64>)>) -> Result<Settings, Seq<char>> {
    let version = field_value(members, "version"@);
    let ocr_monitor_number = field_value(members, "ocr_monitor_number"@);
    let ocr_x = field_value(members, "ocr_x"@);
    let ocr_y = field_value(members, "ocr_y"@);
    let ocr_width = field_value(members, "ocr_width"@);
    let ocr_height = field_value(members, "ocr_height"@);
    let icon_monitor_number = field_value(members, "icon_monitor_number"@);
    let icon_x = field_value(members, "icon_x"@);
    let icon_y = field_value(members, "icon_y"@);
    let icon_width = field_value(members, "icon_width"@);
    let icon_height = field_value(members, "icon_height"@);
    if version is Err {
        Err(version->Err_0)
    } else if version->Ok_0 != SETTINGS_VERSION {
        Err(unsupported_version())
    } else if ocr_monitor_number is Err {
        Err(ocr_monitor_number->Err_0)
    } else if ocr_x is Err {
        Err(ocr_x->Err_0)
    } else if ocr_y is Err {
        Err(ocr_y->Err_0)
    } else if ocr_width is Err {
        Err(ocr_width->Err_0)
    } else if ocr_height is Err {
        Err(ocr_height->Err_0)
    } else if icon_monitor_number is Err {
        Err(icon_monitor_number->Err_0)
    } else if icon_x is Err {
        Err(icon_x->Err_0)
    } else if icon_y is Err {
        Err(icon_y->Err_0)
    } else if icon_width is Err {
        Err(icon_width->Err_0)
    } else if icon_height is Err {
        Err(icon_height->Err_0)
    } else {
        Ok(
            Settings {
                ocr_monitor_number: ocr_monitor_number->Ok_0,
                ocr_x: ocr_x->Ok_0,
                ocr_y: ocr_y->Ok_0,
                ocr_width: ocr_width->Ok_0,
                ocr_height: ocr_height->Ok_0,
                icon_monitor_number: icon_monitor_number->Ok_0,
                icon_x: icon_x->Ok_0,
                icon_y: icon_y->Ok_0,
                icon_width: icon_width->Ok_0,
                icon_height: icon_height->Ok_0,
            },
        )
    }
}

/// The record that the outcome of reading a text gives.
pub open spec fn decoded_text(parsed: Result<Seq<(Seq<char>, Option<u64>)>, Seq<char>>) -> Result<
    Settings,
    Seq<char>,
> {
    match parsed {
        Ok(members) => decoded(members),
        Err(words) => Err(words),
    }
}

/// Members as they are read back after they were written: each value as a
/// whole number.
pub open spec fn read_back(members: Seq<(Seq<char>, u32)>) -> Seq<(Seq<char>, Option<u64>)> {
    members.map_values(|m: (Seq<char>, u32)| (m.0, Some(m.1 as u64)))
}

/// Whether `r` is the decoding outcome `expected`: the record itself, or a
/// `DeserializeError` with the context of the failure.
pub open spec fn is_decoding(r: Result<Settings, SettingsError>, expected: Result<
    Settings,
    Seq<char>,
>) -> bool {
    match expected {
        Ok(settings) => r == Ok::<Settings, SettingsError>(settings),
        Err(words) => r matches Err(e) && e.is(SettingsErrorCode::DeserializeError, Some(words)),
    }
}

/// The names of the record's members are told apart by `member`: among the
/// members of a record, each name finds its own value.
proof fn lemma_member_of_record(settings: Settings)
    ensures
        member(read_back(settings.members()), "version"@) == Some(Some(SETTINGS_VERSION as u64)),
        member(read_back(settings.members()), "ocr_monitor_number"@) == Some(
            Some(settings.ocr_monitor_number as u64),
        ),
        member(read_back(settings.members()), "ocr_x"@) == Some(
            Some(settings.ocr_x as u64),
        ),
        member(read_back(settings.members()), "ocr_y"@) == Some(
            Some(settings.ocr_y as u64),
        ),
        member(read_back(settings.members()), "ocr_width"@) == Some(
            Some(settings.ocr_width as u64),
        ),
        member(read_back(settings.members()), "ocr_height"@) == Some(
            Some(settings.ocr_height as u64),
        ),
        member(read_back(settings.members()), "icon_monitor_number"@) == Some(
            Some(settings.icon_monitor_number as u64),
        ),
        member(read_back(settings.members()), "icon_x"@) == Some(
            Some(settings.icon_x as u64),
        ),
        member(read_back(settings.members()), "icon_y"@) == Some(
            Some(settings.icon_y as u64),
        ),
        member(read_back(settings.members()), "icon_width"@) == Some(
            Some(settings.icon_width as u64),
        ),
        member(read_back(settings.members()), "icon_height"@) == Some(
            Some(settings.icon_height as u64),
        ),
{
    reveal_strlit("version");
    reveal_strlit("ocr_monitor_number");
    reveal_strlit("ocr_x");
    reveal_strlit("ocr_y");
    reveal_strlit("ocr_width");
    reveal_strlit("ocr_height");
    reveal_strlit("icon_monitor_number");
    reveal_strlit("icon_x");
    reveal_strlit("icon_y");
    reveal_strlit("icon_width");
    reveal_strlit("icon_height");
    let all = read_back(settings.members());
    assert(all.len() == 11);
    assert(all.last().0 == "icon_height"@);
    let m10 = all.drop_last();
    assert(m10.last().0 == "icon_width"@);
    let m9 = m10.drop_last();
    assert(m9.last().0 == "icon_y"@);
    let m8 = m9.drop_last();
    assert(m8.last().0 == "icon_x"@);
    let m7 = m8.drop_last();
    assert(m7.last().0 == "icon_monitor_number"@);
    let m6 = m7.drop_last();
    assert(m6.last().0 == "ocr_height"@);
    let m5 = m6.drop_last();
    assert(m5.last().0 == "ocr_width"@);
    let m4 = m5.drop_last();
    assert(m4.last().0 == "ocr_y"@);
    let m3 = m4.drop_last();
    assert(m3.last().0 == "ocr_x"@);
    let m2 = m3.drop_last();
    assert(m2.last().0 == "ocr_monitor_number"@);
    let m1 = m2.drop_last();
    assert(m1.last().0 == "version"@);
    assert("ocr_x"@[4] != "ocr_y"@[4]);
    assert("icon_x"@[5] != "icon_y"@[5]);
    assert("ocr_height"@[0] != "icon_width"@[0]);
    reveal_with_fuel(member, 12);
}

/// Round trip: a record that is put into members and read back from them is
/// the same record, field for field.
pub proof fn lemma_round_trip(settings: Settings)
    ensures
        decoded(read_back(settings.members())) == Ok::<Settings, Seq<char>>(settings),
{
    lemma_member_of_record(settings);
}

/// The value of the last member called `name`.
fn find_member(members: &Vec<(String, Option<u64>)>, name: &str) -> (found: Option<Option<u64>>)
    ensures
        found == member(read_model(members@), name@),
{
    let ghost all = read_model(members@);
    let mut k: usize = members.len();
    assert(all.take(k as int) =~= all);
    while k > 0
        invariant
            k <= members@.len(),
            all == read_model(members@),
            member(all, name@) == member(all.take(k as int), name@),
        decreases k,
    {
        k -= 1;
        proof {
            let part = all.take(k + 1);
            assert(part.last() == all[k as int]);
            assert(part.drop_last() =~= all.take(k as int));
        }
        if text_equal(members[k].0.as_str(), name) {
            return Some(members[k].1);
        }
    }
    None
}

/// The field `name` as the members give it.
fn read_field(members: &Vec<(String, Option<u64>)>, name: &str) -> (r: Result<u32, String>)
    ensures
        match field_value(read_model(members@), name@) {
            Ok(v) => r == Ok::<u32, String>(v),
            Err(words) => r matches Err(e) && e@ == words,
        },
{
    match find_member(members, name) {
        Some(Some(v)) if v <= 0xffff_ffff => Ok(v as u32),
        None => {
            let mut words = String::from_str("missing field `");
            words.append(name);
            words.append("`");
            Err(words)
        },
        _ => {
            let mut words = String::from_str("invalid value for field `");
            words.append(name);
            words.append("`, expected u32");
            Err(words)
        },
    }
}

/// What the file system said when the settings file was to be read.
#[derive(Debug, Clone)]
pub enum ReadOutcome {
    /// The file could not be opened.
    OpenFailed,
    /// The file was opened, but reading it failed; the host's words.
    ReadFailed(String),
    /// The bytes of the file.
    Contents(Vec<u8>),
}

/// What the file system said when the settings file was to be written.
#[derive(Debug, Clone, Copy, PartialEq, Eq, Structural)]
pub enum WriteOutcome {
    /// The file could not be created.
    CreateFailed,
    /// The file was created, but writing the text to it failed.
    WriteFailed,
    /// The file holds the text and nothing else.
    Written,
}

impl WriteOutcome {
    /// What saving comes to: success where the text was written, else an
    /// `IoError` that says which step failed.
    pub fn into_result(self) -> (r: Result<(), SettingsError>)
        ensures
            match self {
                WriteOutcome::Written => r is Ok,
                WriteOutcome::CreateFailed => r matches Err(e) && e.is(
                    SettingsErrorCode::IoError,
                    Some("Failed to create settings file"@),
                ),
                WriteOutcome::WriteFailed => r matches Err(e) && e.is(
                    SettingsErrorCode::IoError,
                    Some("Failed to write to settings file"@),
                ),
            },
    {
        match self {
            WriteOutcome::Written => Ok(()),
            WriteOutcome::CreateFailed => Err(
                SettingsError::new(
                    SettingsErrorCode::IoError,
                    Some("Failed to create settings file"),
                ),
            ),
            WriteOutcome::WriteFailed => Err(
                SettingsError::new(
                    SettingsErrorCode::IoError,
                    Some("Failed to write to settings file"),
                ),
            ),
        }
    }
}

impl Settings {
    /// The record with every field zero.
    pub open spec fn zeroed() -> Settings {
        Settings {
            ocr_monitor_number: 0,
            ocr_x: 0,
            ocr_y: 0,
            ocr_width: 0,
            ocr_height: 0,
            icon_monitor_number: 0,
            icon_x: 0,
            icon_y: 0,
            icon_width: 0,
            icon_height: 0,
        }
    }

    /// The members of the record's text form: the version, then every field
    /// under its name, in the record's order.
    pub open spec fn members(self) -> Seq<(Seq<char>, u32)> {
        seq![
            ("version"@, SETTINGS_VERSION),
            ("ocr_monitor_number"@, self.ocr_monitor_number),
            ("ocr_x"@, self.ocr_x),
            ("ocr_y"@, self.ocr_y),
            ("ocr_width"@, self.ocr_width),
            ("ocr_height"@, self.ocr_height),
            ("icon_monitor_number"@, self.icon_monitor_number),
            ("icon_x"@, self.icon_x),
            ("icon_y"@, self.icon_y),
            ("icon_width"@, self.icon_width),
            ("icon_height"@, self.icon_height),
        ]
    }

    /// The members of the record's text form.
    pub fn to_members(&self) -> (members: Vec<(String, u32)>)
        ensures
            written_model(members@) == self.members(),
    {
        let mut members: Vec<(String, u32)> = Vec::new();
        members.push((String::from_str("version"), SETTINGS_VERSION));
        members.push((String::from_str("ocr_monitor_number"), self.ocr_monitor_number));
        members.push((String::from_str("ocr_x"), self.ocr_x));
        members.push((String::from_str("ocr_y"), self.ocr_y));
        members.push((String::from_str("ocr_width"), self.ocr_width));
        members.push((String::from_str("ocr_height"), self.ocr_height));
        members.push((String::from_str("icon_monitor_number"), self.icon_monitor_number));
        members.push((String::from_str("icon_x"), self.icon_x));
        members.push((String::from_str("icon_y"), self.icon_y));
        members.push((String::from_str("icon_width"), self.icon_width));
        members.push((String::from_str("icon_height"), self.icon_height));
        assert(written_model(members@) =~= self.members());
        members
    }

    /// The record that `members` give: every field by its name, the last
    /// member of a name counting, members of other names passed over.
    /// `DeserializeError` where the member `version` is missing or is not the
    /// version of this library, and else for the first field, in the record's
    /// order, that is missing or whose value is no `u32`.
    pub fn from_members(members: &Vec<(String, Option<u64>)>) -> (r: Result<
        Settings,
        SettingsError,
    >)
        ensures
            is_decoding(r, decoded(read_model(members@))),
    {
        let version = match read_field(members, "version") {
            Ok(v) => v,
            Err(words) => { return Err(Self::malformed(words)); },
        };
        if version != SETTINGS_VERSION {
            return Err(
                SettingsError::new(
                    SettingsErrorCode::DeserializeError,
                    Some("unsupported settings version"),
                ),
            );
        }
        let ocr_monitor_number = match read_field(members, "ocr_monitor_number") {
            Ok(v) => v,
            Err(words) => { return Err(Self::malformed(words)); },
        };
        let ocr_x = match read_field(members, "ocr_x") {
            Ok(v) => v,
            Err(words) => { return Err(Self::malformed(words)); },
        };
        let ocr_y = match read_field(members, "ocr_y") {
            Ok(v) => v,
            Err(words) => { return Err(Self::malformed(words)); },
        };
        let ocr_width = match read_field(members, "ocr_width") {
            Ok(v) => v,
            Err(words) => { return Err(Self::malformed(words)); },
        };
        let ocr_height = match read_field(members, "ocr_height") {
            Ok(v) => v,
            Err(words) => { return Err(Self::malformed(words)); },
        };
        let icon_monitor_number = match read_field(members, "icon_monitor_number") {
            Ok(v) => v,
            Err(words) => { return Err(Self::malformed(words)); },
        };
        let icon_x = match read_field(members, "icon_x") {
            Ok(v) => v,
            Err(words) => { return Err(Self::malformed(words)); },
        };
        let icon_y = match read_field(members, "icon_y") {
            Ok(v) => v,
            Err(words) => { return Err(Self::malformed(words)); },
        };
        let icon_width = match read_field(members, "icon_width") {
            Ok(v) => v,
            Err(words) => { return Err(Self::malformed(words)); },
        };
        let icon_height = match read_field(members, "icon_height") {
            Ok(v) => v,
            Err(words) => { return Err(Self::malformed(words)); },
        };
        Ok(
            Settings {
                ocr_monitor_number,
                ocr_x,
                ocr_y,
                ocr_width,
                ocr_height,
                icon_monitor_number,
                icon_x,
                icon_y,
                icon_width,
                icon_height,
            },
        )
    }

    /// The `DeserializeError` with the given context.
    fn malformed(words: String) -> (e: SettingsError)
        ensures
            e.is(SettingsErrorCode::DeserializeError, Some(words@)),
    {
        SettingsError { code: SettingsErrorCode::DeserializeError, message: Some(words) }
    }

    /// The record as the text of the settings file: one JSON object that
    /// holds the version and every field under its name, in the record's
    /// order.
    /// `SerializeError` carries the encoder's words where it fails.
    pub fn to_json(&self) -> (r: Result<String, SettingsError>)
        ensures
            match rendered_object(self.members()) {
                Ok(text) => r matches Ok(own) && own@ == text,
                Err(words) => r matches Err(e) && e.is(
                    SettingsErrorCode::SerializeError,
                    Some(words),
                ),
            },
    {
        let members = self.to_members();
        match render_object(&members) {
            Ok(text) => Ok(text),
            Err(words) => Err(
                SettingsError { code: SettingsErrorCode::SerializeError, message: Some(words) },
            ),
        }
    }

    /// The record that the text of a settings file holds. `DeserializeError`
    /// carries the decoder's words where the bytes are not one JSON object;
    /// where they are, it says that the version is not supported, or names
    /// the first field that is missing or no `u32`.
    pub fn from_json(bytes: &[u8]) -> (r: Result<Settings, SettingsError>)
        ensures
            is_decoding(r, decoded_text(parsed_object(bytes@))),
    {
        match parse_object(bytes) {
            Ok(members) => Self::from_members(&members),
            Err(words) => Err(Self::malformed(words)),
        }
    }

    /// Replaces every field by what the settings file holds. `read` is what
    /// came of reading the file. On any failure the record stays as it was:
    /// `IoError` where the file could not be opened, `DeserializeError` where
    /// it could not be read to its end or does not hold a settings record.
    pub fn load(&mut self, read: ReadOutcome) -> (r: Result<(), SettingsError>)
        ensures
            match read {
                ReadOutcome::OpenFailed => {
                    &&& r matches Err(e) && e.is(
                        SettingsErrorCode::IoError,
                        Some("Failed to open settings file"@),
                    )
                    &&& *final(self) == *old(self)
                },
                ReadOutcome::ReadFailed(words) => {
                    &&& r matches Err(e) && e.is(
                        SettingsErrorCode::DeserializeError,
                        Some(words@),
                    )
                    &&& *final(self) == *old(self)
                },
                ReadOutcome::Contents(bytes) => match decoded_text(parsed_object(bytes@)) {
                    Ok(settings) => r is Ok && *final(self) == settings,
                    Err(words) => {
                        &&& r matches Err(e) && e.is(
                            SettingsErrorCode::DeserializeError,
                            Some(words),
                        )
                        &&& *final(self) == *old(self)
                    },
                },
            },
    {
        match read {
            ReadOutcome::OpenFailed => Err(
                SettingsError::new(SettingsErrorCode::IoError, Some("Failed to open settings file")),
            ),
            ReadOutcome::ReadFailed(words) => Err(Self::malformed(words)),
            ReadOutcome::Contents(bytes) => match Self::from_json(bytes.as_slice()) {
                Ok(settings) => {
                    *self = settings;
                    Ok(())
                },
                Err(e) => Err(e),
            },
        }
    }
}

/// The one settings record that the parts of a process share: empty until
/// `init_settings` has filled it, and filled once only.
#[derive(Debug)]
pub struct SettingsStore {
    slot: Option<Settings>,
}

impl View for SettingsStore {
    type V = Option<Settings>;

    closed spec fn view(&self) -> Option<Settings> {
        self.slot
    }
}

impl SettingsStore {
    /// A store that holds no record yet.
    pub fn new() -> (store: SettingsStore)
        ensures
            store@ is None,
    {
        SettingsStore { slot: None }
    }

    /// Whether `init_settings` has filled this store.
    pub fn is_initialized(&self) -> (filled: bool)
        ensures
            filled == (self@ is Some),
    {
        self.slot.is_some()
    }
}

/// Fills the store with the zeroed record. A store is filled once: to fill
/// it a second time is a fault of the program, which the precondition rules
/// out.
pub fn init_settings(store: &mut SettingsStore)
    requires
        old(store)@ is None,
    ensures
        final(store)@ == Some(Settings::zeroed()),
{
    store.slot = Some(Settings::default());
}

/// The shared record, to be read or changed in place. The store must have
/// been filled by `init_settings`; whatever the caller leaves in the record
/// is what the store holds afterwards.
pub fn global_settings(store: &mut SettingsStore) -> (settings: &mut Settings)
    requires
        old(store)@ is Some,
    ensures
        *settings == old(store)@->0,
        final(store)@ == Some(*final(settings)),
{
    match &mut store.slot {
        Some(settings) => settings,
        None => vstd::pervasive::unreached(),
    }
}

impl Default for Settings {
    /// The record with every field zero.
    fn default() -> (settings: Settings)
        ensures
            settings == Settings::zeroed(),
    {
        Settings {
            ocr_monitor_number: 0,
            ocr_x: 0,
            ocr_y: 0,
            ocr_width: 0,
            ocr_height: 0,
            icon_monitor_number: 0,
            icon_x: 0,
            icon_y: 0,
            icon_width: 0,
            icon_height: 0,
        }
    }
}

} // verus!
