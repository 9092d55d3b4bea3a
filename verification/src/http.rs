//! Requests as plain values, and the status of an answer.

use vstd::prelude::*;
use vstd::string::*;
use crate::types::{ExecuteQueryRequest, ExecuteSqlRequest};

verus! {

/// The verb of a request.
#[derive(Clone, Copy, Debug, PartialEq, Eq, Structural)]
pub enum HttpMethod {
    Get,
    Post,
}

/// What a request carries as its JSON body.
#[derive(Clone, Debug, PartialEq, Eq)]
pub enum RequestBody {
    Empty,
    Sql(ExecuteSqlRequest),
    Query(ExecuteQueryRequest),
}

/// A request that is ready to be sent: where it goes and what it carries.
/// The credential header is not part of it; it belongs to the connection.
#[derive(Clone, Debug, PartialEq, Eq)]
pub struct ApiRequest {
    pub method: HttpMethod,
    pub url: String,
    pub query: Vec<(String, String)>,
    pub body: RequestBody,
}

/// A character that may stand in a header value: a tab, or anything that is
/// neither a control character nor DEL.
pub open spec fn is_header_char(c: char) -> bool {
    (c as u32 >= 32 && c as u32 != 127) || c == '\t'
}

/// A text that may be sent as a header value.
pub open spec fn is_header_text(text: Seq<char>) -> bool {
    forall|i: int| 0 <= i < text.len() ==> is_header_char(#[trigger] text[i])
}

/// Asks `reqwest::header::HeaderValue::from_str` whether it accepts a text.
/// Trusted: it accepts exactly the texts whose bytes are each a tab, or at
/// least 32 and not 127; every byte of a character beyond ASCII is above 127.
#[verifier::external_body]
pub(crate) fn header_value_accepts(text: &str) -> (r: bool)
    ensures
        r == is_header_text(text@),
{
    reqwest::header::HeaderValue::from_str(text).is_ok()
}

/// The text that `reqwest::StatusCode` displays for a status code: the
/// number and its canonical reason phrase.
pub uninterp spec fn status_display(code: u16) -> Seq<char>;

/// Formats a status code as `reqwest::StatusCode` displays it. Trusted: the
/// result is the named display text of the code. `StatusCode::from_u16`
/// accepts every code from 100 to 999.
#[verifier::external_body]
fn display_status(code: u16) -> (r: String)
    requires
        100 <= code <= 999,
    ensures
        r@ == status_display(code),
{
    match reqwest::StatusCode::from_u16(code) {
        Ok(status) => status.to_string(),
        Err(_) => String::new(),
    }
}

/// The status code of an answer: a number of three digits.
#[derive(Clone, Copy, Debug, PartialEq, Eq)]
pub struct HttpStatus {
    code: u16,
}

impl HttpStatus {
    #[verifier::type_invariant]
    spec fn well_formed(self) -> bool {
        100 <= self.code <= 999
    }

    /// The numeric code.
    pub closed spec fn spec_code(self) -> u16 {
        self.code
    }

    /// Success is a code from 200 to 299.
    pub open spec fn spec_is_success(self) -> bool {
        200 <= self.spec_code() <= 299
    }

    /// The status with the given code, if the code has three digits.
    pub fn from_u16(code: u16) -> (r: Option<HttpStatus>)
        ensures
            r.is_some() == (100 <= code <= 999),
            r matches Some(s) ==> s.spec_code() == code,
    {
        if 100 <= code && code <= 999 {
            Some(HttpStatus { code })
        } else {
            None
        }
    }

    /// The numeric code.
    pub fn code(&self) -> (r: u16)
        ensures
            r == self.spec_code(),
            100 <= r <= 999,
    {
        proof {
            use_type_invariant(self);
        }
        self.code
    }

    /// Whether the code is in the success range.
    pub fn is_success(&self) -> (r: bool)
        ensures
            r == self.spec_is_success(),
    {
        200 <= self.code && self.code <= 299
    }

    /// The code followed by its reason phrase.
    pub fn display(&self) -> (r: String)
        ensures
            r@ == status_display(self.spec_code()),
    {
        proof {
            use_type_invariant(self);
        }
        display_status(self.code)
    }
}

} // verus!
