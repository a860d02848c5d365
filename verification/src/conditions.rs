//! Tri-state condition status and its wire form.
//!
//! On the wire a condition status is one of the strings `True`, `False` or
//! `Unknown`; internally it is an optional boolean, with `None` standing for
//! `Unknown`.
use vstd::prelude::*;

use crate::text::str_eq;

verus! {

/// Wire form of a tri-state condition status.
pub open spec fn spec_status_str(status: Option<bool>) -> Seq<char> {
    match status {
        Some(true) => "True"@,
        Some(false) => "False"@,
        None => "Unknown"@,
    }
}

/// Parse of a wire condition status; `None` when the string is not one of the
/// three legal forms.
pub open spec fn spec_status_parse(s: Seq<char>) -> Option<Option<bool>> {
    if s == "True"@ {
        Some(Some(true))
    } else if s == "False"@ {
        Some(Some(false))
    } else if s == "Unknown"@ {
        Some(None)
    } else {
        None
    }
}

/// Serialize a condition status to its wire form.
pub fn condition_status_ser(status: Option<bool>) -> (r: &'static str)
    ensures
        r@ == spec_status_str(status),
{
    match status {
        Some(true) => "True",
        Some(false) => "False",
        None => "Unknown",
    }
}

/// Deserialize a wire condition status; rejects anything but the three legal
/// forms.
pub fn condition_status_de(s: &str) -> (r: Option<Option<bool>>)
    ensures
        r == spec_status_parse(s@),
{
    if str_eq(s, "True") {
        Some(Some(true))
    } else if str_eq(s, "False") {
        Some(Some(false))
    } else if str_eq(s, "Unknown") {
        Some(None)
    } else {
        None
    }
}

/// Serializing any status and parsing the result yields the status back.
pub proof fn lemma_status_round_trip(status: Option<bool>)
    ensures
        spec_status_parse(spec_status_str(status)) == Some(status),
{
    reveal_strlit("True");
    reveal_strlit("False");
    reveal_strlit("Unknown");
    assert("True"@.len() == 4);
    assert("False"@.len() == 5);
    assert("Unknown"@.len() == 7);
}

/// Parsing a legal wire status and serializing the result yields the same
/// string: the wire form of each status is unique.
pub proof fn lemma_status_parse_round_trip(s: Seq<char>, status: Option<bool>)
    requires
        spec_status_parse(s) == Some(status),
    ensures
        spec_status_str(status) == s,
{
    reveal_strlit("True");
    reveal_strlit("False");
    reveal_strlit("Unknown");
}

} // verus!
