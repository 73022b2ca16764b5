//! HTTP status codes: which ones mean success, and how one is worded.

use crate::decimal::{decimal, decimal_string};
use vstd::prelude::*;
use vstd::string::StringExecFns;

verus! {

/// A status code means success where it lies in 200..=299.
pub open spec fn is_success_code(code: u16) -> bool {
    200 <= code <= 299
}

/// Tells whether `code` means success.
pub fn is_success(code: u16) -> (b: bool)
    ensures
        b == is_success_code(code),
{
    200 <= code && code <= 299
}

/// The reason phrase that goes with a status code: what
/// `StatusCode::canonical_reason` returns for the code, and `None` also
/// where `StatusCode::from_u16` refuses the code. `StatusCode` is the type
/// of the `http` crate that `reqwest` hands on.
pub uninterp spec fn canonical_reason(code: u16) -> Option<Seq<char>>;

/// Calls `reqwest::StatusCode::from_u16` and, on the status it gives,
/// `StatusCode::canonical_reason`.
///
/// Trusted: the phrase is a function of the code alone, named
/// [`canonical_reason`]. Nothing is claimed of which codes have a phrase.
#[verifier::external_body]
fn reason_phrase(code: u16) -> (phrase: Option<&'static str>)
    ensures
        match phrase {
            Some(p) => canonical_reason(code) == Some(p@),
            None => canonical_reason(code) is None,
        },
{
    match reqwest::StatusCode::from_u16(code) {
        Ok(status) => status.canonical_reason(),
        Err(_) => None,
    }
}

/// How a status is worded: the code in decimal, a space, and the reason
/// phrase, or a fixed remark where the code has none.
pub open spec fn status_words(code: u16) -> Seq<char> {
    decimal(code as nat) + " "@ + match canonical_reason(code) {
        Some(phrase) => phrase,
        None => "<unknown status code>"@,
    }
}

/// Words a status code, as in "404 Not Found".
pub fn status_text(code: u16) -> (text: String)
    ensures
        text@ == status_words(code),
{
    let head: String = decimal_string(code as u64).concat(" ");
    match reason_phrase(code) {
        Some(phrase) => head.concat(phrase),
        None => head.concat("<unknown status code>"),
    }
}

} // verus!
