//! The request descriptor: an immutable description of one HTTP request,
//! accumulated through builder calls and consumed by submission.

use vstd::prelude::*;

use crate::error::RequestError;
use crate::native;
use crate::native::{is_parsed_url, merged_url_of};
use crate::response::Response;
use crate::text::{header_line_of, make_header_line, trim_str, trimmed};
use crate::Method;
use vstd::string::*;
use vstd::utf8::{decode_utf8, valid_utf8};

verus! {

/// The default minimum average byte rate of the low-speed abort.
pub const LOW_SPEED_LIMIT: u32 = 10;

/// The default low-speed time window in seconds.
pub const LOW_SPEED_TIME: u32 = 10;

/// The default cap on followed redirects for a single request.
pub const MAX_REDIRECTS: u32 = 10;

/// The mathematical content of a request descriptor.
#[verifier::ext_equal]
pub ghost struct RequestView {
    /// The HTTP method.
    pub method: Method,
    /// The destination URL text, accepted by the URL parser.
    pub url: Seq<char>,
    /// The header name/value pairs, in the order they were added.
    pub headers: Seq<(Seq<char>, Seq<char>)>,
    /// The query name/value pairs, in the order they were added.
    pub params: Seq<(Seq<char>, Seq<char>)>,
    /// The raw request body, if any.
    pub body: Option<Seq<u8>>,
    /// Whether redirects are followed.
    pub follow_redirects: bool,
    /// The redirect cap, meaningful when redirects are followed.
    pub max_redirects: u32,
    /// The low-speed abort thresholds: minimum bytes per window, window in
    /// seconds; `None` disables the abort.
    pub lowspeed: Option<(u32, u64)>,
    /// The hard wall-clock limit in milliseconds, if any.
    pub timeout_ms: Option<u64>,
    /// Whether a previously used transfer handle is supplied for reuse.
    pub has_handle: bool,
}

/// An HTTP request descriptor.
///
/// Built through a fluent sequence of setters and consumed, exactly once,
/// by submission. Headers are kept as an ordered multi-map: adding a header
/// never overwrites an earlier one. A header whose value is empty removes
/// the header from the wire request, which is how the transfer engine treats
/// an empty header line.
pub struct Request {
    body: Option<Vec<u8>>,
    follow_redirects: bool,
    handle: Option<curl::easy::Easy>,
    headers: Vec<(String, String)>,
    lowspeed_limits: Option<(u32, u64)>,
    max_redirects: u32,
    method: Method,
    params: Vec<(String, String)>,
    timeout_ms: Option<u64>,
    url: String,
}

impl View for Request {
    type V = RequestView;

    closed spec fn view(&self) -> RequestView {
        RequestView {
            method: self.method,
            url: self.url@,
            headers: self.headers.deep_view(),
            params: self.params.deep_view(),
            body: self.body.deep_view(),
            follow_redirects: self.follow_redirects,
            max_redirects: self.max_redirects,
            lowspeed: self.lowspeed_limits,
            timeout_ms: self.timeout_ms,
            has_handle: self.handle is Some,
        }
    }
}

/// The descriptor that `Request::new` yields: the given method and URL,
/// no headers, parameters or body, redirects followed up to the default
/// cap, the default low-speed thresholds, no timeout, no reused handle.
pub open spec fn fresh_descriptor(method: Method, url: Seq<char>) -> RequestView {
    RequestView {
        method: method,
        url: url,
        headers: Seq::empty(),
        params: Seq::empty(),
        body: None,
        follow_redirects: true,
        max_redirects: MAX_REDIRECTS,
        lowspeed: Some((LOW_SPEED_LIMIT, LOW_SPEED_TIME as u64)),
        timeout_ms: None,
        has_handle: false,
    }
}

impl Request {
    /// The URL text of a descriptor is always accepted by the URL parser.
    #[verifier::type_invariant]
    spec fn url_accepted(self) -> bool {
        is_parsed_url(self.url@)
    }

    /// Creates a descriptor for the given URL and method, with the default
    /// redirect cap and low-speed thresholds, or fails when the URL does not
    /// parse.
    pub fn new(url: &str, method: Method) -> (r: Result<Request, RequestError>)
        ensures
            (r is Ok) == is_parsed_url(url@),
            r matches Ok(req) ==> req@ == fresh_descriptor(method, url@),
            r matches Err(e) ==> e == RequestError::InvalidUrl,
    {
        match native::check_url(url) {
            Ok(()) => {
                let req = Request {
                    body: None,
                    follow_redirects: true,
                    handle: None,
                    headers: Vec::new(),
                    lowspeed_limits: Some((LOW_SPEED_LIMIT, LOW_SPEED_TIME as u64)),
                    max_redirects: MAX_REDIRECTS,
                    method: method,
                    params: Vec::new(),
                    timeout_ms: None,
                    url: url.to_owned(),
                };
                proof {
                    assert(req@ =~= fresh_descriptor(req@.method, url@));
                }
                Ok(req)
            },
            Err(e) => Err(e),
        }
    }

    /// Sets the body of the request as a raw byte array.
    pub fn body(self, body: Vec<u8>) -> (r: Self)
        ensures
            r@ == (RequestView { body: Some(body@), ..self@ }),
    {
        proof {
            use_type_invariant(&self);
        }
        let r = Request { body: Some(body), ..self };
        proof {
            assert(r@ =~= (RequestView { body: Some(body@), ..self@ }));
        }
        r
    }

    /// Sets whether 3xx-redirects are followed. Defaults to `true`.
    pub fn follow_redirects(self, follow: bool) -> (r: Self)
        ensures
            r@ == (RequestView { follow_redirects: follow, ..self@ }),
    {
        proof {
            use_type_invariant(&self);
        }
        Request { follow_redirects: follow, ..self }
    }

    /// Adds an HTTP header to the request, after all headers added so far.
    pub fn header(self, name: &str, value: &str) -> (r: Self)
        ensures
            r@ == (RequestView { headers: self@.headers.push((name@, value@)), ..self@ }),
    {
        proof {
            use_type_invariant(&self);
        }
        let mut headers = self.headers;
        headers.push((name.to_owned(), value.to_owned()));
        let r = Request { headers, ..self };
        proof {
            assert(r@.headers =~= self@.headers.push((name@, value@)));
        }
        r
    }

    /// Sets the request headers, overwriting all previously set headers.
    pub fn headers(self, headers: Vec<(String, String)>) -> (r: Self)
        ensures
            r@ == (RequestView { headers: headers.deep_view(), ..self@ }),
    {
        proof {
            use_type_invariant(&self);
        }
        Request { headers, ..self }
    }

    /// Sets the thresholds below which a transfer is aborted as too slow:
    /// at least `bytes` bytes on average per `per_secs` seconds. Passing
    /// zero for either parameter disables the low-speed abort.
    pub fn lowspeed_limit(self, bytes: u32, per_secs: u64) -> (r: Self)
        ensures
            r@ == (RequestView {
                lowspeed: if bytes > 0 && per_secs > 0 {
                    Some((bytes, per_secs))
                } else {
                    None
                },
                ..self@
            }),
    {
        proof {
            use_type_invariant(&self);
        }
        let lowspeed_limits = if bytes > 0 && per_secs > 0 {
            Some((bytes, per_secs))
        } else {
            None
        };
        Request { lowspeed_limits, ..self }
    }

    /// Sets the maximum number of redirects followed when
    /// `follow_redirects` is enabled.
    pub fn max_redirects(self, max_redirects: u32) -> (r: Self)
        ensures
            r@ == (RequestView { max_redirects: max_redirects, ..self@ }),
    {
        proof {
            use_type_invariant(&self);
        }
        Request { max_redirects, ..self }
    }

    /// Adds a URL query parameter to the request, after all parameters
    /// added so far.
    pub fn param(self, name: &str, value: &str) -> (r: Self)
        ensures
            r@ == (RequestView { params: self@.params.push((name@, value@)), ..self@ }),
    {
        proof {
            use_type_invariant(&self);
        }
        let mut params = self.params;
        params.push((name.to_owned(), value.to_owned()));
        let r = Request { params, ..self };
        proof {
            assert(r@.params =~= self@.params.push((name@, value@)));
        }
        r
    }

    /// Sets the URL query parameters, overwriting all previously set
    /// parameters.
    pub fn params(self, params: Vec<(String, String)>) -> (r: Self)
        ensures
            r@ == (RequestView { params: params.deep_view(), ..self@ }),
    {
        proof {
            use_type_invariant(&self);
        }
        Request { params, ..self }
    }

    /// Sets the given bytes, expected to be a JSON document, as the request
    /// body, and adds a `Content-Type: application/json` header.
    pub fn set_json(self, body: Vec<u8>) -> (r: Self)
        ensures
            r@ == (RequestView {
                body: Some(body@),
                headers: self@.headers.push(("Content-Type"@, "application/json"@)),
                ..self@
            }),
    {
        self.body(body).header("Content-Type", "application/json")
    }

    /// Sets the maximum wall-clock time, in milliseconds, the whole request
    /// is allowed to take. Disabled by default in favor of the low-speed
    /// thresholds.
    pub fn timeout(self, ms: u64) -> (r: Self)
        ensures
            r@ == (RequestView { timeout_ms: Some(ms), ..self@ }),
    {
        proof {
            use_type_invariant(&self);
        }
        Request { timeout_ms: Some(ms), ..self }
    }

    /// Supplies a previously used transfer handle, reusing its resources
    /// for this request. A fresh handle is created at submission otherwise.
    pub fn use_handle(self, handle: curl::easy::Easy) -> (r: Self)
        ensures
            r@ == (RequestView { has_handle: true, ..self@ }),
    {
        proof {
            use_type_invariant(&self);
        }
        Request { handle: Some(handle), ..self }
    }

    /// The request line in words: the verb and the URL.
    pub fn describe(&self) -> (r: String)
        ensures
            r@ == self@.method.verb_spec() + " "@ + self@.url,
    {
        let mut s = self.method.as_str();
        s.append(" ");
        s.append(self.url.as_str());
        s
    }

    /// Materializes the descriptor into the values that are put on the
    /// wire: the verb string, the URL with the trimmed query parameters
    /// merged into its query string, the trimmed header lines, and every
    /// transfer option. Also hands back the reusable transfer handle, if
    /// one was supplied.
    pub fn prepare(self) -> (r: (TransferPlan, Option<curl::easy::Easy>))
        ensures
            r.0@ == plan_of(self@),
            (r.1 is Some) == self@.has_handle,
    {
        proof {
            use_type_invariant(&self);
        }
        let ghost rv = self@;
        let Request {
            body,
            follow_redirects,
            handle,
            headers,
            lowspeed_limits,
            max_redirects,
            method,
            params,
            timeout_ms,
            url,
        } = self;
        let mut trimmed_params: Vec<(String, String)> = Vec::new();
        let mut i: usize = 0;
        while i < params.len()
            invariant
                i <= params.len(),
                params.deep_view() == rv.params,
                trimmed_params@.len() == i,
                forall|k: int|
                    0 <= k < i ==> (#[trigger] trimmed_params@[k]).0@ == trimmed(rv.params[k].0)
                        && trimmed_params@[k].1@ == trimmed(rv.params[k].1),
            decreases params.len() - i,
        {
            let name = trim_str(params[i].0.as_str());
            let value = trim_str(params[i].1.as_str());
            trimmed_params.push((name, value));
            proof {
                assert(params.deep_view()[i as int] == rv.params[i as int]);
                assert(params.deep_view()[i as int] == (params@[i as int].0@, params@[
                    i as int
                ].1@));
            }
            i = i + 1;
        }
        proof {
            assert(rv.params.len() == params@.len());
            let lhs = trimmed_params.deep_view();
            let rhs = trimmed_pairs(rv.params);
            assert forall|k: int| 0 <= k < lhs.len() implies lhs[k] == rhs[k] by {
                assert(lhs[k] == trimmed_params@[k].deep_view());
                assert(rhs[k] == (trimmed(rv.params[k].0), trimmed(rv.params[k].1)));
            }
            assert(lhs =~= rhs);
        }
        let merged = native::merge_query_params(url.as_str(), &trimmed_params);
        let mut header_lines: Vec<String> = Vec::new();
        let mut j: usize = 0;
        while j < headers.len()
            invariant
                j <= headers.len(),
                headers.deep_view() == rv.headers,
                header_lines@.len() == j,
                forall|k: int|
                    0 <= k < j ==> (#[trigger] header_lines@[k])@ == header_line_of(
                        rv.headers[k].0,
                        rv.headers[k].1,
                    ),
            decreases headers.len() - j,
        {
            let line = make_header_line(headers[j].0.as_str(), headers[j].1.as_str());
            header_lines.push(line);
            proof {
                assert(headers.deep_view()[j as int] == rv.headers[j as int]);
                assert(headers.deep_view()[j as int] == (headers@[j as int].0@, headers@[
                    j as int
                ].1@));
            }
            j = j + 1;
        }
        proof {
            assert(rv.headers.len() == headers@.len());
            let lhs = header_lines.deep_view();
            let rhs = wire_header_lines(rv.headers);
            assert forall|k: int| 0 <= k < lhs.len() implies lhs[k] == rhs[k] by {
                assert(lhs[k] == header_lines@[k].deep_view());
                assert(rhs[k] == header_line_of(rv.headers[k].0, rv.headers[k].1));
            }
            assert(lhs =~= rhs);
        }
        let verb = method.as_str();
        let nobody = matches!(method, Method::Head);
        let plan = TransferPlan {
            verb,
            url: merged,
            header_lines,
            follow_redirects,
            max_redirects,
            lowspeed: lowspeed_limits,
            timeout_ms,
            nobody,
            body,
        };
        proof {
            assert(plan@ =~= plan_of(rv));
        }
        (plan, handle)
    }

    /// Submits this descriptor through the given session: materializes the
    /// plan, configures a transfer handle, wires the two delivery channels
    /// to the handle's callbacks, and starts the transfer. A configuration
    /// failure is reported before any network traffic happens.
    pub fn send_with_session(self, session: &tokio_curl::Session) -> (r: Result<
        InFlight,
        RequestError,
    >)
        ensures
            r matches Err(e) ==> e == RequestError::Configuration,
    {
        let (plan, reused) = self.prepare();
        let mut easy = match reused {
            Some(e) => e,
            None => curl::easy::Easy::new(),
        };
        let (header_tx, header_rx) = std::sync::mpsc::channel();
        let (body_tx, body_rx) = std::sync::mpsc::channel();
        match configure(&mut easy, &plan, header_tx, body_tx) {
            Ok(()) => {},
            Err(e) => {
                return Err(e);
            },
        }
        let transfer = session.perform(easy);
        Ok(InFlight { transfer, header_rx, body_rx })
    }

    /// Creates a new session on the given event loop and submits this
    /// descriptor through it, as `send_with_session` does.
    pub fn send(self, evloop: tokio_core::reactor::Handle) -> (r: Result<InFlight, RequestError>)
        ensures
            r matches Err(e) ==> e == RequestError::Configuration,
    {
        let session = tokio_curl::Session::new(evloop);
        self.send_with_session(&session)
    }
}

/// The pairs with surrounding white space removed from names and values.
pub open spec fn trimmed_pairs(ps: Seq<(Seq<char>, Seq<char>)>) -> Seq<(Seq<char>, Seq<char>)> {
    ps.map_values(|p: (Seq<char>, Seq<char>)| (trimmed(p.0), trimmed(p.1)))
}

/// The wire header line of each pair, in order.
pub open spec fn wire_header_lines(hs: Seq<(Seq<char>, Seq<char>)>) -> Seq<Seq<char>> {
    hs.map_values(|p: (Seq<char>, Seq<char>)| header_line_of(p.0, p.1))
}

/// The wire content of a transfer plan.
#[verifier::ext_equal]
pub ghost struct PlanView {
    /// The verb string put on the request line.
    pub verb: Seq<char>,
    /// The destination URL with the query parameters merged in.
    pub url: Seq<char>,
    /// The custom header lines, in order.
    pub header_lines: Seq<Seq<char>>,
    /// Whether redirects are followed.
    pub follow_redirects: bool,
    /// The redirect cap.
    pub max_redirects: u32,
    /// The low-speed abort thresholds, if enabled.
    pub lowspeed: Option<(u32, u64)>,
    /// The hard wall-clock limit in milliseconds, if any.
    pub timeout_ms: Option<u64>,
    /// Whether the response body is suppressed, true exactly for HEAD.
    pub nobody: bool,
    /// The request body, if any.
    pub body: Option<Seq<u8>>,
}

/// The plan that a descriptor materializes to: every component is a
/// function of the descriptor's content alone.
pub open spec fn plan_of(rv: RequestView) -> PlanView {
    PlanView {
        verb: rv.method.verb_spec(),
        url: merged_url_of(rv.url, trimmed_pairs(rv.params)),
        header_lines: wire_header_lines(rv.headers),
        follow_redirects: rv.follow_redirects,
        max_redirects: rv.max_redirects,
        lowspeed: rv.lowspeed,
        timeout_ms: rv.timeout_ms,
        nobody: rv.method is Head,
        body: rv.body,
    }
}

/// Building a descriptor with the same configuration twice produces the
/// same wire request: the materialized plan is a function of the
/// descriptor's content alone, so descriptors with equal content are
/// submitted identically.
pub proof fn lemma_equal_descriptors_equal_wire(a: RequestView, b: RequestView)
    requires
        a == b,
    ensures
        plan_of(a) == plan_of(b),
{
}

/// The wire values that one transfer is configured with.
pub struct TransferPlan {
    /// The verb string put on the request line.
    pub verb: String,
    /// The destination URL with the query parameters merged in.
    pub url: String,
    /// The custom header lines, in order.
    pub header_lines: Vec<String>,
    /// Whether redirects are followed.
    pub follow_redirects: bool,
    /// The redirect cap.
    pub max_redirects: u32,
    /// The low-speed abort thresholds, if enabled.
    pub lowspeed: Option<(u32, u64)>,
    /// The hard wall-clock limit in milliseconds, if any.
    pub timeout_ms: Option<u64>,
    /// Whether the response body is suppressed.
    pub nobody: bool,
    /// The request body, if any.
    pub body: Option<Vec<u8>>,
}

impl View for TransferPlan {
    type V = PlanView;

    open spec fn view(&self) -> PlanView {
        PlanView {
            verb: self.verb@,
            url: self.url@,
            header_lines: self.header_lines.deep_view(),
            follow_redirects: self.follow_redirects,
            max_redirects: self.max_redirects,
            lowspeed: self.lowspeed,
            timeout_ms: self.timeout_ms,
            nobody: self.nobody,
            body: self.body.deep_view(),
        }
    }
}

/// A submitted transfer: the completion future together with the two
/// delivery channels that the transfer's callbacks feed. Dropping the
/// future cancels the transfer and stops the callbacks.
pub struct InFlight {
    /// Resolves to the transfer handle once the transfer finished.
    pub transfer: tokio_curl::Perform,
    /// Receives every response header line past the status line.
    pub header_rx: std::sync::mpsc::Receiver<String>,
    /// Receives every response body chunk.
    pub body_rx: std::sync::mpsc::Receiver<Vec<u8>>,
}

impl InFlight {
    /// Assembles the response of a finished transfer: drains the collected
    /// header lines, then the collected body chunks, concatenates the
    /// chunks in arrival order, and reads the status code from the
    /// completed handle. The handle is the one the completion future
    /// resolved to.
    pub fn finish(self, handle: curl::easy::Easy) -> (r: Result<Response, RequestError>)
        ensures
            r matches Err(e) ==> e == RequestError::ContractViolation,
    {
        let InFlight { transfer: _, header_rx, body_rx } = self;
        let lines = native::drain(&header_rx);
        let chunks = native::drain(&body_rx);
        let body = concat_chunks(chunks);
        Response::new(handle, lines, body)
    }
}

/// Concatenates the body chunks in order into one byte sequence.
fn concat_chunks(chunks: Vec<Vec<u8>>) -> (r: Vec<u8>)
    ensures
        r@ == chunks.deep_view().flatten(),
{
    let mut out: Vec<u8> = Vec::new();
    let mut i: usize = 0;
    while i < chunks.len()
        invariant
            i <= chunks.len(),
            out@ == chunks.deep_view().take(i as int).flatten(),
        decreases chunks.len() - i,
    {
        let ghost prev = out@;
        out.extend_from_slice(chunks[i].as_slice());
        proof {
            assert(chunks.deep_view()[i as int] == chunks@[i as int]@);
            let piece = chunks.deep_view()[i as int];
            chunks.deep_view().take(i as int).lemma_flatten_push(piece);
            assert(chunks.deep_view().take(i as int).push(piece) =~= chunks.deep_view().take(
                i + 1,
            ));
            let target = prev + piece;
            assert forall|k: int| 0 <= k < out@.len() implies out@[k] == target[k] by {
                if k < prev.len() {
                } else {
                    assert(cloned::<u8>(piece[k - prev.len()], out@[k]));
                }
            }
            assert(out@ =~= target);
        }
        i = i + 1;
    }
    proof {
        assert(chunks.deep_view().take(chunks.len() as int) =~= chunks.deep_view());
    }
    out
}

/// Decides what one invocation of the per-header-line callback delivers:
/// the received line, trimmed, unless the line is not valid UTF-8, is the
/// very first line of the response (the HTTP status line, not a header),
/// or trims to nothing.
pub fn line_to_forward(data: &[u8], first: bool) -> (r: Option<String>)
    ensures
        (r is Some) == (valid_utf8(data@) && !first && trimmed(decode_utf8(data@)).len() > 0),
        r matches Some(s) ==> s@ == trimmed(decode_utf8(data@)),
{
    match native::utf8_str(data) {
        Some(s) => {
            let line = trim_str(s);
            if !first && line.as_str().unicode_len() > 0 {
                Some(line)
            } else {
                None
            }
        },
        None => None,
    }
}

/// Handles one invocation of the per-header-line callback: forwards
/// exactly what `line_to_forward` decides into the header channel.
///
/// Returns whether the line was accepted and whether the next invocation
/// is still the first: the first accepted line consumes the status line.
pub(crate) fn forward_header(
    data: &[u8],
    first: bool,
    tx: &std::sync::mpsc::Sender<String>,
) -> (r: (bool, bool))
    ensures
        r.0 == valid_utf8(data@),
        r.1 == (first && !valid_utf8(data@)),
{
    match line_to_forward(data, first) {
        Some(line) => {
            let _ = tx.send(line);
        },
        None => {},
    }
    let accepted = native::utf8_str(data).is_some();
    (accepted, first && !accepted)
}

/// Handles one invocation of the per-body-chunk callback: copies the
/// chunk, whose backing buffer does not outlive the callback, forwards the
/// copy into the body channel, and accepts exactly the chunk's length.
pub(crate) fn forward_body(data: &[u8], tx: &std::sync::mpsc::Sender<Vec<u8>>) -> (n: usize)
    ensures
        n == data@.len(),
{
    let chunk = vstd::slice::slice_to_vec(data);
    let n = chunk.len();
    let _ = tx.send(chunk);
    n
}

/// Relies on `curl::easy::Easy::header_function`: the given callback runs
/// once per received header line, and its boolean result tells the engine
/// whether to continue the transfer.
#[verifier::external_body]
fn install_header_callback(easy: &mut curl::easy::Easy, tx: std::sync::mpsc::Sender<String>) -> (r:
    Result<(), curl::Error>)
{
    let mut first = true;
    easy.header_function(move |data| {
        let (accepted, still_first) = forward_header(data, first, &tx);
        first = still_first;
        accepted
    })
}

/// Relies on `curl::easy::Easy::write_function`: the given callback runs
/// once per received body chunk and reports how many bytes it accepted;
/// accepting fewer than given makes the engine abort the transfer.
#[verifier::external_body]
fn install_body_callback(easy: &mut curl::easy::Easy, tx: std::sync::mpsc::Sender<Vec<u8>>) -> (r:
    Result<(), curl::Error>)
{
    easy.write_function(move |data| Ok(forward_body(data, &tx)))
}

/// Materializes the header lines into the engine's list form.
fn build_header_list(lines: &Vec<String>) -> (r: Result<curl::easy::List, RequestError>)
    ensures
        r matches Ok(l) ==> native::list_lines(l) == lines.deep_view(),
        r matches Err(e) ==> e == RequestError::Configuration,
{
    let mut list = curl::easy::List::new();
    let mut i: usize = 0;
    while i < lines.len()
        invariant
            i <= lines.len(),
            native::list_lines(list) == lines.deep_view().take(i as int),
        decreases lines.len() - i,
    {
        match list.append(lines[i].as_str()) {
            Ok(()) => {},
            Err(_) => {
                return Err(RequestError::Configuration);
            },
        }
        proof {
            assert(lines.deep_view().take(i as int).push(lines.deep_view()[i as int])
                =~= lines.deep_view().take(i + 1));
        }
        i = i + 1;
    }
    proof {
        assert(lines.deep_view().take(lines.len() as int) =~= lines.deep_view());
    }
    Ok(list)
}

/// Configures every transfer option of the plan on the handle and
/// registers the two capture callbacks. Stops at the first option the
/// engine rejects, before any network traffic.
fn configure(
    easy: &mut curl::easy::Easy,
    plan: &TransferPlan,
    header_tx: std::sync::mpsc::Sender<String>,
    body_tx: std::sync::mpsc::Sender<Vec<u8>>,
) -> (r: Result<(), RequestError>)
    ensures
        r matches Err(e) ==> e == RequestError::Configuration,
{
    match easy.accept_encoding("") {
        Ok(()) => {},
        Err(_) => {
            return Err(RequestError::Configuration);
        },
    }
    match easy.custom_request(plan.verb.as_str()) {
        Ok(()) => {},
        Err(_) => {
            return Err(RequestError::Configuration);
        },
    }
    if plan.follow_redirects {
        match easy.follow_location(true) {
            Ok(()) => {},
            Err(_) => {
                return Err(RequestError::Configuration);
            },
        }
        match easy.max_redirections(plan.max_redirects) {
            Ok(()) => {},
            Err(_) => {
                return Err(RequestError::Configuration);
            },
        }
    }
    match install_header_callback(easy, header_tx) {
        Ok(()) => {},
        Err(_) => {
            return Err(RequestError::Configuration);
        },
    }
    let list = match build_header_list(&plan.header_lines) {
        Ok(l) => l,
        Err(e) => {
            return Err(e);
        },
    };
    match easy.http_headers(list) {
        Ok(()) => {},
        Err(_) => {
            return Err(RequestError::Configuration);
        },
    }
    match plan.lowspeed {
        Some((bytes, per_secs)) => {
            match easy.low_speed_limit(bytes) {
                Ok(()) => {},
                Err(_) => {
                    return Err(RequestError::Configuration);
                },
            }
            match native::set_low_speed_time_secs(easy, per_secs) {
                Ok(()) => {},
                Err(_) => {
                    return Err(RequestError::Configuration);
                },
            }
        },
        None => {},
    }
    if plan.nobody {
        match easy.nobody(true) {
            Ok(()) => {},
            Err(_) => {
                return Err(RequestError::Configuration);
            },
        }
    }
    match &plan.body {
        Some(b) => {
            match easy.post_fields_copy(b.as_slice()) {
                Ok(()) => {},
                Err(_) => {
                    return Err(RequestError::Configuration);
                },
            }
        },
        None => {},
    }
    match plan.timeout_ms {
        Some(ms) => {
            match native::set_timeout_ms(easy, ms) {
                Ok(()) => {},
                Err(_) => {
                    return Err(RequestError::Configuration);
                },
            }
        },
        None => {},
    }
    match easy.url(plan.url.as_str()) {
        Ok(()) => {},
        Err(_) => {
            return Err(RequestError::Configuration);
        },
    }
    match install_body_callback(easy, body_tx) {
        Ok(()) => {},
        Err(_) => {
            return Err(RequestError::Configuration);
        },
    }
    Ok(())
}

} // verus!
