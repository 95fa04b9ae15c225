//! The status of an HTTP response.

use vstd::prelude::*;

verus! {

/// The status code of an HTTP response: a number from 100 to 999.
#[derive(Debug, Clone, Copy)]
pub struct StatusCode {
    code: u16,
}

/// The text under which the `reqwest` crate displays the status `code`.
pub uninterp spec fn status_text(code: u16) -> Seq<char>;

/// Displays a status code as `reqwest::StatusCode` does: `from_u16` accepts
/// every number from 100 to 999, and `to_string` of the value it returns is
/// the text that [`status_text`] names.
#[verifier::external_body]
fn display_status(code: u16) -> (text: String)
    requires
        100 <= code < 1000,
    ensures
        text@ == status_text(code),
{
    match reqwest::StatusCode::from_u16(code) {
        Ok(status) => status.to_string(),
        Err(error) => error.to_string(),
    }
}

impl StatusCode {
    #[verifier::type_invariant]
    spec fn in_range(self) -> bool {
        100 <= self.code < 1000
    }

    /// The number of the status.
    pub closed spec fn value(self) -> u16 {
        self.code
    }

    /// Whether a status of this number reports a success.
    pub open spec fn succeeded(self) -> bool {
        200 <= self.value() < 300
    }

    /// The status of the number `code`, where there is one.
    pub fn from_u16(code: u16) -> (r: Option<StatusCode>)
        ensures
            r is Some <==> 100 <= code < 1000,
            r matches Some(status) ==> status.value() == code,
    {
        if 100 <= code && code < 1000 {
            Some(StatusCode { code })
        } else {
            None
        }
    }

    /// The number of the status.
    pub fn as_u16(&self) -> (code: u16)
        ensures
            code == self.value(),
            100 <= code < 1000,
    {
        proof {
            use_type_invariant(self);
        }
        self.code
    }

    /// Check if status is within 200-299.
    pub fn is_success(&self) -> (b: bool)
        ensures
            b == self.succeeded(),
    {
        200 <= self.code && self.code < 300
    }

    /// The number of the status and its canonical reason.
    pub fn to_string(&self) -> (text: String)
        ensures
            text@ == status_text(self.value()),
    {
        proof {
            use_type_invariant(self);
        }
        display_status(self.code)
    }
}

} // verus!
