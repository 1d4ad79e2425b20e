//! HTTP status codes.
use crate::text::decimal_of;
use vstd::prelude::*;

verus! {

/// An HTTP status code, from 100 to 999.
#[derive(Clone, Copy, Debug, PartialEq, Eq)]
pub struct Status {
    code: u16,
}

impl View for Status {
    type V = u16;

    closed spec fn view(&self) -> u16 {
        self.code
    }
}

/// The words that go with a status code.
pub uninterp spec fn reason_phrase(code: u16) -> Seq<char>;

/// The code in decimal, a space, and the words that go with it.
pub open spec fn status_line(code: u16) -> Seq<char> {
    decimal_of(code as nat) + seq![' '] + reason_phrase(code)
}

/// Trusted: `http::StatusCode::from_u16` and the `Display` of the code that it gives. Codes from
/// 100 to 999 are accepted and print as the number, a space and the reason phrase.
#[verifier::external_body]
fn status_display(code: u16) -> (line: Option<String>)
    ensures
        match line {
            Some(text) => {
                &&& 100 <= code <= 999
                &&& text@ == decimal_of(code as nat) + seq![' '] + reason_phrase(code)
            },
            None => !(100 <= code <= 999),
        },
{
    match axum::http::StatusCode::from_u16(code) {
        Ok(status) => Some(status.to_string()),
        Err(_) => None,
    }
}

impl Status {
    #[verifier::type_invariant]
    spec fn in_range(self) -> bool {
        100 <= self.code <= 999
    }

    /// The status with this code; nothing where the code is out of range.
    pub fn new(code: u16) -> (status: Option<Status>)
        ensures
            match status {
                Some(s) => 100 <= code <= 999 && s@ == code,
                None => !(100 <= code <= 999),
            },
    {
        if 100 <= code && code <= 999 {
            Some(Status { code })
        } else {
            None
        }
    }

    /// The numeric code.
    pub fn code(&self) -> (code: u16)
        ensures
            code == self@,
            100 <= code <= 999,
    {
        proof {
            use_type_invariant(self);
        }
        self.code
    }

    /// The code and its reason phrase, as in "409 Conflict".
    pub fn line(&self) -> (text: String)
        ensures
            text@ == status_line(self@),
    {
        proof {
            use_type_invariant(self);
        }
        status_display(self.code).unwrap()
    }

    /// 400: the request cannot be served as it stands.
    pub fn bad_request() -> (status: Status)
        ensures
            status@ == 400,
    {
        Status { code: 400 }
    }

    /// 401: no valid credentials.
    pub fn unauthorized() -> (status: Status)
        ensures
            status@ == 401,
    {
        Status { code: 401 }
    }

    /// 403: valid credentials that do not suffice.
    pub fn forbidden() -> (status: Status)
        ensures
            status@ == 403,
    {
        Status { code: 403 }
    }

    /// 409: the environment asks for an approval first.
    pub fn conflict() -> (status: Status)
        ensures
            status@ == 409,
    {
        Status { code: 409 }
    }

    /// 500: a lookup failed.
    pub fn internal_server_error() -> (status: Status)
        ensures
            status@ == 500,
    {
        Status { code: 500 }
    }

    /// 503: credentials cannot be checked now.
    pub fn service_unavailable() -> (status: Status)
        ensures
            status@ == 503,
    {
        Status { code: 503 }
    }
}

} // verus!
