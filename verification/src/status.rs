//! HTTP status codes as a probe reads them: the number, its class, and the
//! text that stands for it in a diagnostic.

use crate::text::decimal;
use vstd::prelude::*;

verus! {

/// The reason phrase that the `http` crate gives for a status code: what
/// `StatusCode::canonical_reason` returns, or `<unknown status code>` where
/// it returns nothing. The table belongs to that crate and is not repeated
/// here.
pub uninterp spec fn reason_phrase(code: u16) -> Seq<char>;

/// Whether `code` is of the 2xx class.
pub open spec fn is_success_code(code: u16) -> bool {
    200 <= code < 300
}

/// How a status code reads in a diagnostic: the number in decimal, a space,
/// and the reason phrase, as in `500 Internal Server Error`.
pub open spec fn status_text(code: u16) -> Seq<char> {
    decimal(code as nat) + seq![' '] + reason_phrase(code)
}

/// Formats a status code with `reqwest::StatusCode` (the `http` crate's type):
/// `StatusCode::from_u16`, then the `Display` of the status code.
///
/// Trusted: `from_u16` accepts exactly the codes from 100 to 999, and
/// `Display` writes the number, one space, and the canonical reason phrase
/// (`<unknown status code>` where the crate knows none).
#[verifier::external_body]
fn display_status(code: u16) -> (text: Option<String>)
    ensures
        text is Some <==> 100 <= code <= 999,
        text matches Some(t) ==> t@ == decimal(code as nat) + seq![' '] + reason_phrase(code),
{
    match reqwest::StatusCode::from_u16(code) {
        Ok(status) => Some(status.to_string()),
        Err(_) => None,
    }
}

/// A status code that a server can send: a number from 100 to 999.
#[derive(Clone, Copy, Debug, PartialEq, Eq)]
pub struct HttpStatus {
    code: u16,
}

impl View for HttpStatus {
    type V = u16;

    closed spec fn view(&self) -> u16 {
        self.code
    }
}

impl HttpStatus {
    #[verifier::type_invariant]
    spec fn in_range(self) -> bool {
        100 <= self.code <= 999
    }

    /// The status with number `code`, where there is one.
    pub fn new(code: u16) -> (status: Option<HttpStatus>)
        ensures
            status is Some <==> 100 <= code <= 999,
            status matches Some(s) ==> s@ == code,
    {
        if 100 <= code && code <= 999 {
            Some(HttpStatus { code })
        } else {
            None
        }
    }

    /// The number of the status.
    pub fn as_u16(&self) -> (code: u16)
        ensures
            code == self@,
            100 <= code <= 999,
    {
        proof {
            use_type_invariant(self);
        }
        self.code
    }

    /// Whether the status is of the 2xx class.
    pub fn is_success(&self) -> (success: bool)
        ensures
            success == is_success_code(self@),
    {
        200 <= self.code && self.code < 300
    }

    /// The status as it reads in a diagnostic.
    pub fn to_text(&self) -> (text: String)
        ensures
            text@ == status_text(self@),
    {
        proof {
            use_type_invariant(self);
        }
        display_status(self.code).unwrap()
    }
}

} // verus!
