//! Capture-and-extract core of a day/night detector: window registry, region
//! extraction, capture sessions, the settings record and the error kinds.

use vstd::prelude::*;
use crate::ocr_state::error::OcrErrorCode;
use crate::screen_cap::error::ScreenCapErrorCode;
use crate::settings::error::SettingsErrorCode;
use crate::text::push_char;
use vstd::std_specs::iter::IteratorSpec;

pub mod ocr_state;
pub mod screen_cap;
pub mod settings;
pub mod text;

verus! {

/// First numeric code of the settings failures; the band is a hundred wide.
pub const SETTINGS_ERROR_SPACE: isize = 100;

/// First numeric code of the capture failures; the band is a hundred wide.
pub const SCREEN_CAP_ERROR_SPACE: isize = 200;

/// First numeric code of the text recognition failures; the band is a hundred wide.
pub const OCR_ERROR_SPACE: isize = 300;

/// The numeric code tells the family: every kind's number lies in the band
/// of its own family, and no number stands for kinds of two families.
pub proof fn lemma_code_bands(
    settings: SettingsErrorCode,
    capture: ScreenCapErrorCode,
    recognition: OcrErrorCode,
)
    ensures
        SETTINGS_ERROR_SPACE <= settings.spec_number() < SETTINGS_ERROR_SPACE + 100,
        SCREEN_CAP_ERROR_SPACE <= capture.spec_number() < SCREEN_CAP_ERROR_SPACE + 100,
        OCR_ERROR_SPACE <= recognition.spec_number() < OCR_ERROR_SPACE + 100,
        settings.spec_number() != capture.spec_number(),
        settings.spec_number() != recognition.spec_number(),
        capture.spec_number() != recognition.spec_number(),
{
}

/// Whether `c` is one of the four characters that a file name must not hold.
pub open spec fn is_stripped(c: char) -> bool {
    c == '|' || c == '\\' || c == ':' || c == '/'
}

/// `name` without the characters `| \ : /`, the others in their order.
pub open spec fn normalized(name: Seq<char>) -> Seq<char> {
    name.filter(|c: char| !is_stripped(c))
}

/// Strips the characters `| \ : /` from `filename`.
pub fn normalize_filename(filename: &str) -> (out: String)
    ensures
        out@ == normalized(filename@),
{
    broadcast use vstd::string::group_string_axioms;

    let mut out = String::new();
    let mut rest = filename.chars();
    let ghost keep = |c: char| !is_stripped(c);
    let ghost mut consumed: nat = 0;
    assert(rest.remaining() == filename@);
    loop
        invariant
            filename@.filter(keep) == out@ + rest.remaining().filter(keep),
            keep == |c: char| !is_stripped(c),
            consumed + rest.remaining().len() == filename@.len(),
        decreases filename@.len() - consumed,
    {
        let ghost before = rest.remaining();
        match rest.next() {
            Some(c) => {
                proof {
                    assert(before =~= seq![c] + before.drop_first());
                    before.drop_first().lemma_filter_prepend(c, keep);
                    consumed = consumed + 1;
                }
                if !(c == '|' || c == '\\' || c == ':' || c == '/') {
                    push_char(&mut out, c);
                }
                assert(filename@.filter(keep) =~= out@ + rest.remaining().filter(keep));
            },
            None => {
                proof {
                    reveal(Seq::filter);
                    assert(rest.remaining().filter(keep) =~= Seq::<char>::empty());
                    assert(out@ =~= filename@.filter(keep));
                }
                return out;
            },
        }
    }
}

} // verus!
