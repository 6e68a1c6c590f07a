//! Rules on status codes: which codes are reported, and how a code is shown.

use crate::config::RinzlerSettings;
use crate::text::{decimal, to_decimal};
use vstd::prelude::*;
use vstd::string::*;

verus! {

/// The status filter: a code is reported when the inclusion list is empty or
/// holds it, and the exclusion list is empty or does not hold it.
pub open spec fn status_allowed(included: Seq<u16>, excluded: Seq<u16>, code: u16) -> bool {
    &&& included.len() == 0 || included.contains(code)
    &&& excluded.len() == 0 || !excluded.contains(code)
}

/// Whether `codes` holds `code`.
pub fn holds_code(codes: &Vec<u16>, code: u16) -> (found: bool)
    ensures
        found == codes@.contains(code),
{
    let mut i: usize = 0;
    while i < codes.len()
        invariant
            i <= codes.len(),
            forall|k: int| 0 <= k < i ==> codes@[k] != code,
        decreases codes.len() - i,
    {
        if codes[i] == code {
            return true;
        }
        i += 1;
    }
    false
}

/// The status filter on two lists.
pub fn allows(included: &Vec<u16>, excluded: &Vec<u16>, code: u16) -> (allow: bool)
    ensures
        allow == status_allowed(included@, excluded@, code),
{
    let mut allow = true;
    if included.len() != 0 {
        allow = allow && holds_code(included, code);
    }
    if excluded.len() != 0 {
        allow = allow && !holds_code(excluded, code);
    }
    allow
}

/// The status filter of a configuration: whether a response with this code
/// is reported.
pub fn is_code_filtered(code: u16, settings: &RinzlerSettings) -> (allow: bool)
    ensures
        allow == status_allowed(settings.status_include@, settings.status_exclude@, code),
{
    allows(&settings.status_include, &settings.status_exclude, code)
}

/// With no inclusion list and no exclusion list every code is reported; a
/// code on the exclusion list never is; and with an inclusion list, a code
/// that is not on it never is.
pub proof fn lemma_status_filter(included: Seq<u16>, excluded: Seq<u16>, code: u16)
    ensures
        status_allowed(included, excluded, code) <==> (included.len() == 0 || included.contains(
            code,
        )) && (excluded.len() == 0 || !excluded.contains(code)),
        included.len() == 0 && excluded.len() == 0 ==> status_allowed(included, excluded, code),
        excluded.contains(code) ==> !status_allowed(included, excluded, code),
        included.len() > 0 && !included.contains(code) ==> !status_allowed(included, excluded, code),
{
}

/// Forced browsing that was configured with no exclusion list does not
/// report "not found": the default exclusion takes the code 404 out,
/// whatever the inclusion list holds.
pub proof fn lemma_not_found_is_suppressed(included: Seq<u16>)
    ensures
        !status_allowed(included, crate::config::effective_exclusions(true, Seq::empty()), 404),
{
    let excluded = crate::config::effective_exclusions(true, Seq::<u16>::empty());
    assert(excluded[0] == 404u16);
}

/// The status of a record in words: the numeral of the code, or three
/// question marks where no request has been answered yet.
pub open spec fn status_words(status_code: Option<u16>) -> Seq<char> {
    match status_code {
        Some(code) => decimal(code as nat),
        None => "???"@,
    }
}

/// Writes the status of a record.
pub fn status_text(status_code: Option<u16>) -> (text: String)
    ensures
        text@ == status_words(status_code),
{
    match status_code {
        Some(code) => to_decimal(code as u64),
        None => String::from_str("???"),
    }
}

/// The tone in which a status code is shown.
#[derive(Clone, Copy, Debug, PartialEq, Eq, Structural)]
pub enum Tone {
    BrightWhite,
    White,
    Cyan,
    Green,
    BrightYellow,
    Yellow,
    Red,
}

/// The tone of a status code in a record line: by its hundred.
pub fn status_tone(status_code: u16) -> (tone: Tone)
    ensures
        tone == if status_code <= 199 {
            Tone::BrightWhite
        } else if status_code <= 299 {
            Tone::Green
        } else if status_code <= 399 {
            Tone::BrightYellow
        } else if status_code <= 499 {
            Tone::Yellow
        } else {
            Tone::Red
        },
{
    if status_code <= 199 {
        Tone::BrightWhite
    } else if status_code <= 299 {
        Tone::Green
    } else if status_code <= 399 {
        Tone::BrightYellow
    } else if status_code <= 499 {
        Tone::Yellow
    } else {
        Tone::Red
    }
}

/// The tone of a status code in a progress line: success in cyan,
/// redirection in yellow, errors above 400 in red, the codes in between in white.
pub fn progress_tone(status_code: u16) -> (tone: Tone)
    ensures
        tone == if status_code < 299 {
            Tone::Cyan
        } else if 300 <= status_code < 399 {
            Tone::Yellow
        } else if status_code > 400 {
            Tone::Red
        } else {
            Tone::White
        },
{
    if status_code < 299 {
        Tone::Cyan
    } else if status_code >= 300 && status_code < 399 {
        Tone::Yellow
    } else if status_code > 400 {
        Tone::Red
    } else {
        Tone::White
    }
}

} // verus!
