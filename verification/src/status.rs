//! HTTP status numbers and how they are shown to a person.

use vstd::prelude::*;
use crate::text::{append_str, decimal_chars, decimal_text, string_of};

verus! {

/// What stands in place of the reason of a status that has none.
pub const UNKNOWN_REASON: &'static str = "<unknown status code>";

#[verifier::external_type_specification]
#[verifier::external_body]
pub struct ExStatusCode(reqwest::StatusCode);

/// The number that a status code holds.
pub uninterp spec fn status_number(status: reqwest::StatusCode) -> u16;

/// The reason phrase that `StatusCode::canonical_reason` gives for the
/// status code with the given number, if it gives one.
pub uninterp spec fn reason_phrase(number: u16) -> Option<Seq<char>>;

/// `StatusCode::from_u16`: the status code with the given number. There is
/// one exactly for the numbers from 100 to 999.
#[verifier::external_body]
fn status_code(number: u16) -> (out: Option<reqwest::StatusCode>)
    ensures
        out is Some <==> 100 <= number <= 999,
        out matches Some(status) ==> status_number(status) == number,
{
    reqwest::StatusCode::from_u16(number).ok()
}

/// `StatusCode::canonical_reason`: the registered reason phrase of a status
/// code, which depends on its number alone, or nothing if none is
/// registered.
#[verifier::external_body]
fn canonical_reason(status: &reqwest::StatusCode) -> (out: Option<&'static str>)
    ensures
        match out {
            Some(reason) => reason_phrase(status_number(*status)) == Some(reason@),
            None => reason_phrase(status_number(*status)) is None,
        },
{
    status.canonical_reason()
}

/// The reason of a status number: the registered phrase if the number is
/// that of a status code and has one.
pub open spec fn reason_of(number: u16) -> Option<Seq<char>> {
    if 100 <= number <= 999 {
        reason_phrase(number)
    } else {
        None
    }
}

/// A status as it is shown, given its reason: the number, a space, and the
/// reason or, without one, `<unknown status code>`.
pub open spec fn status_line_with(number: u16, reason: Option<Seq<char>>) -> Seq<char> {
    decimal_text(number as nat) + " "@ + match reason {
        Some(phrase) => phrase,
        None => UNKNOWN_REASON@,
    }
}

/// A status as it is shown, such as `404 Not Found`.
pub open spec fn status_line_text(number: u16) -> Seq<char> {
    status_line_with(number, reason_of(number))
}

/// The reason of a status number.
pub fn reason_for(number: u16) -> (out: Option<&'static str>)
    ensures
        match out {
            Some(reason) => reason_of(number) == Some(reason@),
            None => reason_of(number) is None,
        },
{
    match status_code(number) {
        Some(status) => canonical_reason(&status),
        None => None,
    }
}

/// A status as it is shown, given its reason.
pub fn show_status(number: u16, reason: Option<&str>) -> (out: String)
    ensures
        out@ == status_line_with(
            number,
            match reason {
                Some(phrase) => Some(phrase@),
                None => None,
            },
        ),
{
    let mut out = string_of(&decimal_chars(number as u64));
    append_str(&mut out, " ");
    match reason {
        Some(phrase) => append_str(&mut out, phrase),
        None => append_str(&mut out, UNKNOWN_REASON),
    }
    out
}

/// A status as it is shown, such as `404 Not Found`.
pub fn status_line(number: u16) -> (out: String)
    ensures
        out@ == status_line_text(number),
{
    show_status(number, reason_for(number))
}

} // verus!
