//! The HTTP response that an execution is answered with.

use crate::headers::pairs;
use crate::json::{build_object1, json_render, json_string, object1, string_text};
use vstd::prelude::*;
use vstd::string::*;
use vstd::utf8::encode_utf8;

verus! {

/// An HTTP response: status, headers in order, and body.
#[derive(Debug, Clone)]
pub struct WasmHttpResponse {
    pub status: u16,
    pub headers: Vec<(String, String)>,
    pub body: Vec<u8>,
}

/// The header list that declares one content type.
pub open spec fn content_type_only(content_type: Seq<char>) -> Seq<(Seq<char>, Seq<char>)> {
    seq![("content-type"@, content_type)]
}

/// The body of an error response: the JSON object whose member `error`
/// holds the message.
pub open spec fn error_body(message: Seq<char>) -> Seq<u8> {
    encode_utf8(object1("error"@, string_text(message)))
}

impl WasmHttpResponse {
    /// A response with a body of a given content type.
    fn with_content(status: u16, content_type: &str, body: &str) -> (response: Self)
        ensures
            response.status == status,
            pairs(response.headers@) == content_type_only(content_type@),
            response.body@ == body.spec_bytes(),
    {
        let mut headers: Vec<(String, String)> = Vec::new();
        headers.push((String::from_str("content-type"), String::from_str(content_type)));
        assert(pairs(headers@) =~= content_type_only(content_type@));
        WasmHttpResponse { status, headers, body: body.as_bytes_vec() }
    }

    /// A plain text response.
    pub fn text(status: u16, body: &str) -> (response: Self)
        ensures
            response.status == status,
            pairs(response.headers@) == content_type_only("text/plain; charset=utf-8"@),
            response.body@ == body.spec_bytes(),
    {
        Self::with_content(status, "text/plain; charset=utf-8", body)
    }

    /// A JSON response; the body is taken as it is.
    pub fn json(status: u16, body: &str) -> (response: Self)
        ensures
            response.status == status,
            pairs(response.headers@) == content_type_only("application/json"@),
            response.body@ == body.spec_bytes(),
    {
        Self::with_content(status, "application/json", body)
    }

    /// A JSON response that reports an error message.
    pub fn error(status: u16, message: &str) -> (response: Self)
        ensures
            response.status == status,
            pairs(response.headers@) == content_type_only("application/json"@),
            response.body@ == error_body(message@),
    {
        let document = build_object1("error", json_string(message));
        let body = json_render(&document);
        Self::json(status, body.as_str())
    }

    /// A response without headers and body.
    pub fn empty(status: u16) -> (response: Self)
        ensures
            response.status == status,
            response.headers@.len() == 0,
            response.body@.len() == 0,
    {
        WasmHttpResponse { status, headers: Vec::new(), body: Vec::new() }
    }

    /// The response with one more header at the end.
    pub fn with_header(self, name: &str, value: &str) -> (response: Self)
        ensures
            response.status == self.status,
            pairs(response.headers@) == pairs(self.headers@).push((name@, value@)),
            response.body == self.body,
    {
        let mut response = self;
        let ghost before = response.headers@;
        response.headers.push((String::from_str(name), String::from_str(value)));
        assert(pairs(response.headers@) =~= pairs(before).push((name@, value@)));
        response
    }
}

impl Default for WasmHttpResponse {
    fn default() -> (response: Self)
        ensures
            response.status == 200,
            pairs(response.headers@) == content_type_only("text/plain; charset=utf-8"@),
            response.body@ == "OK".spec_bytes(),
    {
        WasmHttpResponse::text(200, "OK")
    }
}

} // verus!
