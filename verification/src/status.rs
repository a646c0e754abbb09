//! HTTP status codes.

use vstd::prelude::*;

verus! {

/// Whether a number is an HTTP status code: three digits.
pub open spec fn is_status_code(code: int) -> bool {
    100 <= code <= 999
}

/// The status line that `http` writes for a status code: the code, a
/// space, and the reason phrase that belongs to it.
pub uninterp spec fn status_line_text(code: int) -> Seq<char>;

/// `StatusCode::from_u16`, then `ToString::to_string`: numbers of three
/// digits are status codes, and each has its line.
#[verifier::external_body]
fn write_status_line(code: u16) -> (line: Option<String>)
    ensures
        line is Some <==> is_status_code(code as int),
        line is Some ==> line->0@ == status_line_text(code as int),
{
    reqwest::StatusCode::from_u16(code).ok().map(|status| status.to_string())
}

/// The status code of a response.
#[derive(Clone, Copy, Debug, PartialEq, Eq, Structural)]
pub struct StatusCode {
    code: u16,
}

impl StatusCode {
    #[verifier::type_invariant]
    spec fn three_digits(self) -> bool {
        is_status_code(self.code as int)
    }

    /// The number of the status code.
    pub closed spec fn spec_as_u16(self) -> u16 {
        self.code
    }

    /// Whether the code says that the request succeeded.
    pub open spec fn spec_is_success(self) -> bool {
        200 <= self.as_u16() < 300
    }

    /// The status code of a number, where the number has three digits.
    pub fn new(code: u16) -> (status: Option<StatusCode>)
        ensures
            status is Some <==> is_status_code(code as int),
            status is Some ==> status->0.as_u16() == code,
    {
        if 100 <= code && code <= 999 {
            Some(StatusCode { code })
        } else {
            None
        }
    }

    #[verifier::when_used_as_spec(spec_as_u16)]
    pub fn as_u16(self) -> (code: u16)
        ensures
            code == self.spec_as_u16(),
            is_status_code(code as int),
    {
        proof {
            use_type_invariant(self);
        }
        self.code
    }

    #[verifier::when_used_as_spec(spec_is_success)]
    pub fn is_success(self) -> (success: bool)
        ensures
            success == self.spec_is_success(),
    {
        200 <= self.code && self.code < 300
    }

    /// The status line: the code and its reason phrase.
    pub fn to_string(self) -> (line: String)
        ensures
            line@ == status_line_text(self.as_u16() as int),
    {
        proof {
            use_type_invariant(self);
        }
        match write_status_line(self.code) {
            Some(line) => line,
            None => vstd::pervasive::unreached(),
        }
    }
}

} // verus!
