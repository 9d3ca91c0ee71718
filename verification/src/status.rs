//! HTTP status codes.

use vstd::prelude::*;

verus! {

/// A status code with its canonical reason, such as `200 OK`.
pub uninterp spec fn status_text(code: u16) -> Seq<char>;

/// Calls `http::StatusCode::from_u16` and renders the status code. Believed:
/// there is one for the numbers 100 to 999 and no others, and its text is a
/// function of the number alone.
#[verifier::external_body]
fn render(code: u16) -> (text: Option<String>)
    ensures
        text is Some <==> 100 <= code <= 999,
        text matches Some(text) ==> text@ == status_text(code),
{
    match http::StatusCode::from_u16(code) {
        Ok(status) => Some(status.to_string()),
        Err(_) => None,
    }
}

/// Status code of an HTTP response.
#[derive(Debug, PartialEq, Eq)]
pub struct Status {
    code: u16,
    text: String,
}

impl DeepView for Status {
    type V = u16;

    closed spec fn deep_view(&self) -> u16 {
        self.code
    }
}

/// Whether a status code reports success.
pub open spec fn is_success(code: u16) -> bool {
    200 <= code < 300
}

impl Status {
    #[verifier::type_invariant]
    spec fn well_formed(self) -> bool {
        &&& 100 <= self.code <= 999
        &&& self.text@ == status_text(self.code)
    }

    /// The status code with the number `code`, if there is one.
    pub fn from_u16(code: u16) -> (status: Option<Status>)
        ensures
            status is Some <==> 100 <= code <= 999,
            status matches Some(status) ==> status.deep_view() == code,
    {
        match render(code) {
            Some(text) => Some(Status { code, text }),
            None => None,
        }
    }

    /// The number of the status code.
    pub fn as_u16(&self) -> (code: u16)
        ensures
            code == self.deep_view(),
            100 <= code <= 999,
    {
        proof {
            use_type_invariant(self);
        }
        self.code
    }

    /// Whether the status code reports success (200 to 299).
    pub fn is_success(&self) -> (b: bool)
        ensures
            b == is_success(self.deep_view()),
    {
        200 <= self.code && self.code < 300
    }

    /// The number and the canonical reason, such as `200 OK`.
    pub fn text(&self) -> (text: String)
        ensures
            text@ == status_text(self.deep_view()),
    {
        proof {
            use_type_invariant(self);
        }
        self.text.clone()
    }
}

} // verus!
