//! The response assembler: builds an immutable response value from the
//! terminal state of one transfer, and exposes its status code, parsed
//! headers and body.

use vstd::prelude::*;

use crate::error::RequestError;
use crate::native;
use crate::native::{json_ok, mime_ok};
use crate::text::{parse_header_lines, parsed_headers};
use vstd::utf8::{decode_utf8, valid_utf8};

verus! {

/// The mathematical content of a response.
#[verifier::ext_equal]
pub ghost struct ResponseView {
    /// The status code the transfer handle reported.
    pub status_code: u16,
    /// The parsed header pairs, in wire order, duplicates preserved.
    pub headers: Seq<(Seq<char>, Seq<char>)>,
    /// The accumulated body bytes, verbatim.
    pub body: Seq<u8>,
}

impl ResponseView {
    /// Success means a status code in the inclusive range 200 to 299 and
    /// nothing else.
    pub open spec fn is_success(self) -> bool {
        200 <= self.status_code <= 299
    }
}

/// The value of the first header with the given name, if any.
pub open spec fn first_header_match(
    headers: Seq<(Seq<char>, Seq<char>)>,
    name: Seq<char>,
) -> Option<Seq<char>>
    decreases headers.len(),
{
    if headers.len() == 0 {
        None
    } else if headers[0].0 == name {
        Some(headers[0].1)
    } else {
        first_header_match(headers.drop_first(), name)
    }
}

proof fn lemma_first_header_match_skip(
    headers: Seq<(Seq<char>, Seq<char>)>,
    name: Seq<char>,
    i: int,
)
    requires
        0 <= i <= headers.len(),
        forall|k: int| 0 <= k < i ==> (#[trigger] headers[k]).0 != name,
    ensures
        first_header_match(headers, name) == first_header_match(headers.skip(i), name),
    decreases i,
{
    if i > 0 {
        assert(headers.drop_first() =~= headers.skip(1));
        lemma_first_header_match_skip(headers.skip(1), name, i - 1);
        assert(headers.skip(1).skip(i - 1) =~= headers.skip(i));
    } else {
        assert(headers.skip(0) =~= headers);
    }
}

/// Renders the code a transfer handle reported as a response status: the
/// code itself when it fits the status-code width, and the
/// contract-violation error for any other value, since an HTTP status code
/// never exceeds three digits.
pub fn status_of_code(code: u32) -> (r: Result<u16, RequestError>)
    ensures
        (r is Ok) == (code <= 0xFFFF),
        r matches Ok(c) ==> c as u32 == code,
        r matches Err(e) ==> e == RequestError::ContractViolation,
{
    if code <= 0xFFFF {
        Ok(code as u16)
    } else {
        Err(RequestError::ContractViolation)
    }
}

/// An HTTP response: the terminal state of one successful transfer.
///
/// Headers are kept as an ordered multi-map, duplicates preserved in wire
/// order; lookup by name returns the first match.
pub struct Response {
    body: Vec<u8>,
    handle: curl::easy::Easy,
    headers: Vec<(String, String)>,
    status_code: u16,
}

impl View for Response {
    type V = ResponseView;

    closed spec fn view(&self) -> ResponseView {
        ResponseView {
            status_code: self.status_code,
            headers: self.headers.deep_view(),
            body: self.body@,
        }
    }
}

impl Response {
    /// Assembles a response from the parts of a completed transfer: the
    /// completed handle, the status code it reported, the collected header
    /// lines, and the collected body bytes. Header lines are parsed as
    /// `parsed_headers` describes; the body is stored verbatim.
    pub fn from_parts(
        handle: curl::easy::Easy,
        status_code: u16,
        header_lines: Vec<String>,
        body: Vec<u8>,
    ) -> (r: Response)
        ensures
            r@ == (ResponseView {
                status_code: status_code,
                headers: parsed_headers(header_lines.deep_view()),
                body: body@,
            }),
    {
        let headers = parse_header_lines(&header_lines);
        let r = Response { body, handle, headers, status_code };
        proof {
            assert(r@ =~= (ResponseView {
                status_code: status_code,
                headers: parsed_headers(header_lines.deep_view()),
                body: body@,
            }));
        }
        r
    }

    /// Assembles a response from a completed transfer handle and the
    /// collected header lines and body bytes, asking the handle for the
    /// status code it observed. The code is never invented: when the handle
    /// cannot report one that `status_of_code` accepts, the collaborator's
    /// contract is broken and the assembly fails.
    pub fn new(easy: curl::easy::Easy, headers: Vec<String>, body: Vec<u8>) -> (r: Result<
        Response,
        RequestError,
    >)
        ensures
            r matches Ok(resp) ==> resp@.headers == parsed_headers(headers.deep_view())
                && resp@.body == body@,
            r matches Err(e) ==> e == RequestError::ContractViolation,
    {
        match easy.response_code() {
            Ok(code) => {
                match status_of_code(code) {
                    Ok(status) => Ok(Self::from_parts(easy, status, headers, body)),
                    Err(e) => Err(e),
                }
            },
            Err(_) => Err(RequestError::ContractViolation),
        }
    }

    /// The response body's bytes.
    pub fn body(&self) -> (r: &[u8])
        ensures
            r@ == self@.body,
    {
        self.body.as_slice()
    }

    /// A mutable view of the response body's bytes.
    pub fn body_mut(&mut self) -> (r: &mut Vec<u8>)
        ensures
            r@ == old(self)@.body,
            final(self)@ == (ResponseView { body: final(r)@, ..old(self)@ }),
    {
        let r = &mut self.body;
        r
    }

    /// The body read as UTF-8, when it is valid UTF-8.
    pub fn body_str(&self) -> (r: Option<&str>)
        ensures
            (r is Some) == valid_utf8(self@.body),
            r matches Some(s) ==> s@ == decode_utf8(self@.body),
    {
        native::utf8_str(self.body.as_slice())
    }

    /// The media type parsed from the first `Content-Type` header, when
    /// that header exists and parses.
    pub fn content_type(&self) -> (r: Option<mime::Mime>)
        ensures
            (r is Some) == (first_header_match(self@.headers, "Content-Type"@) matches Some(v)
                && mime_ok(v)),
    {
        match self.header("Content-Type") {
            Some(value) => native::parse_mime(value.as_str()),
            None => None,
        }
    }

    /// The value of the first header with the given name, if any. Later
    /// duplicates are reached through `headers`.
    pub fn header(&self, name: &str) -> (r: Option<&String>)
        ensures
            r.deep_view() == first_header_match(self@.headers, name@),
    {
        let key: String = name.to_owned();
        let n = self.headers.len();
        let mut i: usize = 0;
        while i < n
            invariant
                i <= n,
                n == self.headers.len(),
                key@ == name@,
                forall|k: int| 0 <= k < i ==> (#[trigger] self@.headers[k]).0 != name@,
            decreases n - i,
        {
            proof {
                assert(self.headers.deep_view()[i as int] == (self.headers@[i as int].0@,
                self.headers@[i as int].1@));
            }
            if self.headers[i].0 == key {
                proof {
                    lemma_first_header_match_skip(self@.headers, name@, i as int);
                    let rest = self@.headers.skip(i as int);
                    assert(rest[0] == self@.headers[i as int]);
                }
                return Some(&self.headers[i].1);
            }
            i = i + 1;
        }
        proof {
            lemma_first_header_match_skip(self@.headers, name@, n as int);
            assert(self@.headers.skip(n as int).len() == 0);
        }
        None
    }

    /// All response headers, parsed, in wire order.
    pub fn headers(&self) -> (r: &Vec<(String, String)>)
        ensures
            r.deep_view() == self@.headers,
    {
        &self.headers
    }

    /// Whether the status code means success: in the inclusive range 200
    /// to 299. Redirects and client or server errors are not success, but
    /// they are not transfer failures either.
    pub fn is_success(&self) -> (r: bool)
        ensures
            r == self@.is_success(),
    {
        200 <= self.status_code && self.status_code <= 299
    }

    /// The body decoded as a JSON document, when it is one.
    pub fn json_value(&self) -> (r: Result<serde_json::Value, RequestError>)
        ensures
            (r is Ok) == json_ok(self@.body),
            r matches Err(e) ==> e == RequestError::Decoding,
    {
        match native::decode_json(self.body.as_slice()) {
            Some(v) => Ok(v),
            None => Err(RequestError::Decoding),
        }
    }

    /// Consumes the response and hands the completed transfer handle back
    /// to the caller for reuse in a subsequent request.
    pub fn reuse(self) -> curl::easy::Easy {
        self.handle
    }

    /// The response status code, as the transfer handle reported it.
    pub fn status_code(&self) -> (r: u16)
        ensures
            r == self@.status_code,
    {
        self.status_code
    }
}

} // verus!
