//! The HTTP request as a function sees it.

use crate::headers::{keep_text_headers, pairs, text_pairs};
use crate::text::{chars_of, contains_text, has_substring, lowercase, same_text, to_lowercase};
use vstd::prelude::*;
use vstd::string::*;

verus! {

/// An HTTP request in the form handed to a function.
#[derive(Debug, Clone)]
pub struct WasmHttpRequest {
    /// Method, such as `GET`.
    pub method: String,
    /// Request URI.
    pub uri: String,
    /// Headers, in order.
    pub headers: Vec<(String, String)>,
    /// Body, where there is one.
    pub body: Option<Vec<u8>>,
}

/// The value of the first header whose name equals `name` when both are
/// compared in lowercase.
pub open spec fn find_header(headers: Seq<(String, String)>, name: Seq<char>) -> Option<Seq<char>>
    decreases headers.len(),
{
    if headers.len() == 0 {
        None
    } else if lowercase(headers[0].0@) == lowercase(name) {
        Some(headers[0].1@)
    } else {
        find_header(headers.drop_first(), name)
    }
}

/// Whether a header list declares a JSON body: its content type holds
/// `application/json`.
pub open spec fn declares_json(headers: Seq<(String, String)>) -> bool {
    match find_header(headers, "content-type"@) {
        Some(value) => contains_text(value, "application/json"@),
        None => false,
    }
}

impl WasmHttpRequest {
    /// A request without headers and body.
    pub fn new(method: &str, uri: &str) -> (request: Self)
        ensures
            request.method@ == method@,
            request.uri@ == uri@,
            request.headers@.len() == 0,
            request.body is None,
    {
        WasmHttpRequest {
            method: String::from_str(method),
            uri: String::from_str(uri),
            headers: Vec::new(),
            body: None,
        }
    }

    /// A request from the parts of an incoming request. Headers whose
    /// value is not text are left out; an empty body is no body.
    pub fn from_parts(
        method: &str,
        uri: &str,
        headers: &Vec<(String, Option<String>)>,
        body: Vec<u8>,
    ) -> (request: Self)
        ensures
            request.method@ == method@,
            request.uri@ == uri@,
            pairs(request.headers@) == text_pairs(headers@),
            body@.len() == 0 ==> request.body is None,
            body@.len() > 0 ==> request.body == Some(body),
    {
        let kept = keep_text_headers(headers);
        let body = if body.len() == 0 {
            None
        } else {
            Some(body)
        };
        WasmHttpRequest {
            method: String::from_str(method),
            uri: String::from_str(uri),
            headers: kept,
            body,
        }
    }

    /// The value of the first header of that name; names are compared
    /// without regard to case.
    pub fn get_header(&self, name: &str) -> (value: Option<&str>)
        ensures
            match find_header(self.headers@, name@) {
                Some(text) => value matches Some(v) && v@ == text,
                None => value is None,
            },
    {
        let wanted = to_lowercase(name);
        let mut i: usize = 0;
        assert(self.headers@.skip(0) =~= self.headers@);
        while i < self.headers.len()
            invariant
                i <= self.headers@.len(),
                wanted@ == lowercase(name@),
                find_header(self.headers@, name@) == find_header(
                    self.headers@.skip(i as int),
                    name@,
                ),
            decreases self.headers@.len() - i,
        {
            let lowered = to_lowercase(self.headers[i].0.as_str());
            proof {
                let rest = self.headers@.skip(i as int);
                assert(rest[0] == self.headers@[i as int]);
                assert(rest.drop_first() =~= self.headers@.skip(i + 1));
            }
            if same_text(lowered.as_str(), wanted.as_str()) {
                return Some(self.headers[i].1.as_str());
            }
            i += 1;
        }
        None
    }

    /// The content type of the request.
    pub fn content_type(&self) -> (value: Option<&str>)
        ensures
            match find_header(self.headers@, "content-type"@) {
                Some(text) => value matches Some(v) && v@ == text,
                None => value is None,
            },
    {
        self.get_header("content-type")
    }

    /// Whether the request declares a JSON body.
    pub fn is_json(&self) -> (r: bool)
        ensures
            r == declares_json(self.headers@),
    {
        match self.content_type() {
            Some(value) => {
                let text = chars_of(value);
                let wanted = chars_of("application/json");
                has_substring(text.as_slice(), wanted.as_slice())
            },
            None => false,
        }
    }
}

} // verus!
