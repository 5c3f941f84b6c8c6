//! An asynchronous HTTP client library: a request is described by an
//! immutable descriptor, executed over a transfer handle, and delivered
//! as an immutable response.

use vstd::prelude::*;

mod error;
mod native;
mod request;
mod response;
mod text;

pub use error::RequestError;
pub use native::{is_parsed_url, json_ok, merged_url_of, mime_ok};
pub use request::{
    fresh_descriptor, lemma_equal_descriptors_equal_wire, line_to_forward, plan_of, trimmed_pairs,
    wire_header_lines, InFlight, PlanView, Request, RequestView, TransferPlan, LOW_SPEED_LIMIT,
    LOW_SPEED_TIME, MAX_REDIRECTS,
};
pub use response::{first_header_match, status_of_code, Response, ResponseView};
pub use text::{
    find_sep, header_line_of, is_sep_at, is_space, lemma_find_sep, lemma_header_line_round_trip,
    lemma_malformed_line_dropped, lemma_trimmed_idempotent, make_header_line, parse_header_line,
    parse_header_lines, parsed_headers, split_header_line, trim_str, trimmed,
};

verus! {

/// Issues a GET request descriptor for the given URL.
pub fn get(url: &str) -> (r: Result<Request, RequestError>)
    ensures
        (r is Ok) == is_parsed_url(url@),
        r matches Ok(req) ==> req@ == fresh_descriptor(Method::Get, url@),
        r matches Err(e) ==> e == RequestError::InvalidUrl,
{
    request(url, Method::Get)
}

/// Issues a DELETE request descriptor for the given URL.
pub fn delete(url: &str) -> (r: Result<Request, RequestError>)
    ensures
        (r is Ok) == is_parsed_url(url@),
        r matches Ok(req) ==> req@ == fresh_descriptor(Method::Delete, url@),
        r matches Err(e) ==> e == RequestError::InvalidUrl,
{
    request(url, Method::Delete)
}

/// Issues a POST request descriptor for the given URL.
pub fn post(url: &str) -> (r: Result<Request, RequestError>)
    ensures
        (r is Ok) == is_parsed_url(url@),
        r matches Ok(req) ==> req@ == fresh_descriptor(Method::Post, url@),
        r matches Err(e) ==> e == RequestError::InvalidUrl,
{
    request(url, Method::Post)
}

/// Issues a PUT request descriptor for the given URL.
pub fn put(url: &str) -> (r: Result<Request, RequestError>)
    ensures
        (r is Ok) == is_parsed_url(url@),
        r matches Ok(req) ==> req@ == fresh_descriptor(Method::Put, url@),
        r matches Err(e) ==> e == RequestError::InvalidUrl,
{
    request(url, Method::Put)
}

/// Issues a request descriptor with the given method for the given URL.
pub fn request(url: &str, method: Method) -> (r: Result<Request, RequestError>)
    ensures
        (r is Ok) == is_parsed_url(url@),
        r matches Ok(req) ==> req@ == fresh_descriptor(method, url@),
        r matches Err(e) ==> e == RequestError::InvalidUrl,
{
    Request::new(url, method)
}

/// An HTTP method, either one of the nine standard verbs or a custom one.
#[derive(Clone, Debug)]
pub enum Method {
    /// GET
    Get,
    /// POST
    Post,
    /// PUT
    Put,
    /// DELETE
    Delete,
    /// HEAD
    Head,
    /// TRACE
    Trace,
    /// CONNECT
    Connect,
    /// PATCH
    Patch,
    /// OPTIONS
    Options,
    /// A custom HTTP verb.
    Custom(String),
}

impl Method {
    /// The wire representation of the verb.
    pub open spec fn verb_spec(&self) -> Seq<char> {
        match self {
            Method::Connect => "CONNECT"@,
            Method::Custom(m) => m@,
            Method::Delete => "DELETE"@,
            Method::Get => "GET"@,
            Method::Head => "HEAD"@,
            Method::Options => "OPTIONS"@,
            Method::Patch => "PATCH"@,
            Method::Post => "POST"@,
            Method::Put => "PUT"@,
            Method::Trace => "TRACE"@,
        }
    }

    /// Returns the verb string that is put on the wire for this method.
    pub fn as_str(&self) -> (r: String)
        ensures
            r@ == self.verb_spec(),
    {
        match self {
            Method::Connect => "CONNECT".to_owned(),
            Method::Custom(m) => m.clone(),
            Method::Delete => "DELETE".to_owned(),
            Method::Get => "GET".to_owned(),
            Method::Head => "HEAD".to_owned(),
            Method::Options => "OPTIONS".to_owned(),
            Method::Patch => "PATCH".to_owned(),
            Method::Post => "POST".to_owned(),
            Method::Put => "PUT".to_owned(),
            Method::Trace => "TRACE".to_owned(),
        }
    }
}

impl PartialEq for Method {
    /// Two methods are equal when they are the same verb.
    fn eq(&self, other: &Method) -> (r: bool) {
        match (self, other) {
            (Method::Connect, Method::Connect) => true,
            (Method::Custom(a), Method::Custom(b)) => *a == *b,
            (Method::Delete, Method::Delete) => true,
            (Method::Get, Method::Get) => true,
            (Method::Head, Method::Head) => true,
            (Method::Options, Method::Options) => true,
            (Method::Patch, Method::Patch) => true,
            (Method::Post, Method::Post) => true,
            (Method::Put, Method::Put) => true,
            (Method::Trace, Method::Trace) => true,
            _ => false,
        }
    }
}

impl vstd::std_specs::cmp::PartialEqSpecImpl for Method {
    open spec fn obeys_eq_spec() -> bool {
        true
    }

    open spec fn eq_spec(&self, other: &Method) -> bool {
        match (self, other) {
            (Method::Connect, Method::Connect) => true,
            (Method::Custom(a), Method::Custom(b)) => a@ == b@,
            (Method::Delete, Method::Delete) => true,
            (Method::Get, Method::Get) => true,
            (Method::Head, Method::Head) => true,
            (Method::Options, Method::Options) => true,
            (Method::Patch, Method::Patch) => true,
            (Method::Post, Method::Post) => true,
            (Method::Put, Method::Put) => true,
            (Method::Trace, Method::Trace) => true,
            _ => false,
        }
    }
}

impl Default for Method {
    /// The default method is GET.
    fn default() -> (r: Self)
        ensures
            r is Get,
    {
        Method::Get
    }
}

} // verus!
