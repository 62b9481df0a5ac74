//! HTTP status codes as a backend's answer carries them.

use vstd::prelude::*;

verus! {

/// Whether a status code lies in the success class, 200 to 299.
pub open spec fn status_is_success(code: u16) -> bool {
    200 <= code < 300
}

/// Tells whether a status code lies in the success class.
#[verifier::when_used_as_spec(status_is_success)]
pub fn is_success(code: u16) -> (ok: bool)
    ensures
        ok == status_is_success(code),
{
    200 <= code && code < 300
}

/// The decimal digit for a number below ten.
pub open spec fn digit(n: int) -> char {
    if n == 0 {
        '0'
    } else if n == 1 {
        '1'
    } else if n == 2 {
        '2'
    } else if n == 3 {
        '3'
    } else if n == 4 {
        '4'
    } else if n == 5 {
        '5'
    } else if n == 6 {
        '6'
    } else if n == 7 {
        '7'
    } else if n == 8 {
        '8'
    } else {
        '9'
    }
}

/// The three decimal digits of a status code between 100 and 999.
pub open spec fn status_digits(code: u16) -> Seq<char> {
    seq![digit(code as int / 100), digit((code as int / 10) % 10), digit(code as int % 10)]
}

/// The reason phrase that `reqwest::StatusCode` knows for the status with
/// this code, as `canonical_reason` gives it; `<unknown status code>` for a
/// code that has none.
pub uninterp spec fn status_reason(code: u16) -> Seq<char>;

/// How a status code reads in a message: the code in decimal, a space and
/// its reason phrase. A number outside 100 to 999 is no status code, and
/// reads as that.
pub open spec fn status_line(code: u16) -> Seq<char> {
    if 100 <= code <= 999 {
        status_digits(code) + seq![' '] + status_reason(code)
    } else {
        "invalid status code"@
    }
}

/// Calls `reqwest::StatusCode::from_u16` and formats what it returns by its
/// `Display`. A code from 100 to 999 is accepted, and its `Display` writes the
/// code as a number, a space, and the canonical reason phrase or, for a code
/// that has none, `<unknown status code>`. Any other number is refused, and
/// the `Display` of the refusal writes `invalid status code`.
#[verifier::external_body]
pub(crate) fn status_text(code: u16) -> (text: String)
    ensures
        100 <= code <= 999 ==> text@ == status_digits(code) + seq![' '] + status_reason(code),
        !(100 <= code <= 999) ==> text@ == "invalid status code"@,
{
    match reqwest::StatusCode::from_u16(code) {
        Ok(status) => status.to_string(),
        Err(refusal) => refusal.to_string(),
    }
}

} // verus!
