//! The trusted surface over the native collaborators: the cURL transfer
//! handle and its header list, the tokio-curl session and its completion
//! future, the URL parser, the MIME parser, the JSON codec, and the
//! standard-library channels that carry streamed data out of the transfer
//! callbacks.
//!
//! Everything in this module is believed, not proved: each item's contract
//! states only what the collaborator's own source or documentation shows.

use vstd::prelude::*;
use vstd::utf8::{decode_utf8, valid_utf8};

verus! {

#[verifier::external_type_specification]
#[verifier::external_body]
pub struct ExEasy(curl::easy::Easy);

#[verifier::external_type_specification]
#[verifier::external_body]
pub struct ExList(curl::easy::List);

#[verifier::external_type_specification]
#[verifier::external_body]
pub struct ExCurlError(curl::Error);

#[verifier::external_type_specification]
#[verifier::external_body]
pub struct ExSession(tokio_curl::Session);

#[verifier::external_type_specification]
#[verifier::external_body]
pub struct ExPerform(tokio_curl::Perform);

#[verifier::external_type_specification]
#[verifier::external_body]
pub struct ExReactorHandle(tokio_core::reactor::Handle);

#[verifier::external_type_specification]
#[verifier::external_body]
pub struct ExMime(mime::Mime);

#[verifier::external_type_specification]
#[verifier::external_body]
pub struct ExJsonValue(serde_json::Value);

#[verifier::external_type_specification]
#[verifier::external_body]
#[verifier::reject_recursive_types(T)]
pub struct ExSender<T>(std::sync::mpsc::Sender<T>);

#[verifier::external_type_specification]
#[verifier::external_body]
#[verifier::reject_recursive_types(T)]
pub struct ExReceiver<T>(std::sync::mpsc::Receiver<T>);

/// The lines held by a cURL header list, in order of appending.
pub uninterp spec fn list_lines(l: curl::easy::List) -> Seq<Seq<char>>;

/// Whether `url::Url::parse` accepts this input as an absolute URL.
pub uninterp spec fn is_parsed_url(s: Seq<char>) -> bool;

/// The serialization of a parsed URL after the given name/value pairs are
/// appended, in order, to its query string in `application/x-www-form-urlencoded`
/// syntax.
pub uninterp spec fn merged_url_of(url: Seq<char>, params: Seq<(Seq<char>, Seq<char>)>) -> Seq<
    char,
>;

/// Whether `str::parse::<mime::Mime>` accepts this input.
pub uninterp spec fn mime_ok(s: Seq<char>) -> bool;

/// Whether `serde_json::from_slice::<serde_json::Value>` accepts these bytes.
pub uninterp spec fn json_ok(b: Seq<u8>) -> bool;

/// Relies on `curl::easy::Easy::new`: a fresh transfer handle. Panics only
/// when the native library cannot be initialized.
pub assume_specification[ curl::easy::Easy::new ]() -> curl::easy::Easy;

/// Relies on `curl::easy::Easy::url`: stores the destination URL on the
/// handle.
pub assume_specification[ curl::easy::Easy::url ](
    e: &mut curl::easy::Easy,
    url: &str,
) -> Result<(), curl::Error>;

/// Relies on `curl::easy::Easy::custom_request`: stores the verb string to
/// put on the request line.
pub assume_specification[ curl::easy::Easy::custom_request ](
    e: &mut curl::easy::Easy,
    request: &str,
) -> Result<(), curl::Error>;

/// Relies on `curl::easy::Easy::follow_location`: whether redirects are
/// followed.
pub assume_specification[ curl::easy::Easy::follow_location ](
    e: &mut curl::easy::Easy,
    enable: bool,
) -> Result<(), curl::Error>;

/// Relies on `curl::easy::Easy::max_redirections`: the redirect cap.
pub assume_specification[ curl::easy::Easy::max_redirections ](
    e: &mut curl::easy::Easy,
    max: u32,
) -> Result<(), curl::Error>;

/// Relies on `curl::easy::Easy::low_speed_limit`: the minimum average byte
/// rate below which the transfer is aborted.
pub assume_specification[ curl::easy::Easy::low_speed_limit ](
    e: &mut curl::easy::Easy,
    limit: u32,
) -> Result<(), curl::Error>;

/// Relies on `curl::easy::Easy::nobody`: whether the response body is
/// suppressed.
pub assume_specification[ curl::easy::Easy::nobody ](
    e: &mut curl::easy::Easy,
    enable: bool,
) -> Result<(), curl::Error>;

/// Relies on `curl::easy::Easy::post_fields_copy`: copies the given bytes to
/// send as the request body.
pub assume_specification[ curl::easy::Easy::post_fields_copy ](
    e: &mut curl::easy::Easy,
    data: &[u8],
) -> Result<(), curl::Error>;

/// Relies on `curl::easy::Easy::accept_encoding`: the `Accept-Encoding`
/// request header; the empty string enables all supported encodings.
pub assume_specification[ curl::easy::Easy::accept_encoding ](
    e: &mut curl::easy::Easy,
    encoding: &str,
) -> Result<(), curl::Error>;

/// Relies on `curl::easy::Easy::http_headers`: hands the handle the list of
/// custom request header lines.
pub assume_specification[ curl::easy::Easy::http_headers ](
    e: &mut curl::easy::Easy,
    list: curl::easy::List,
) -> Result<(), curl::Error>;

/// Relies on `curl::easy::Easy::response_code`: the last response code the
/// handle received, zero when none has been received yet.
pub assume_specification[ curl::easy::Easy::response_code ](
    e: &curl::easy::Easy,
) -> Result<u32, curl::Error>;

/// Relies on `curl::easy::List::new`: a fresh, empty header list.
pub assume_specification[ curl::easy::List::new ]() -> (r: curl::easy::List)
    ensures
        list_lines(r) == Seq::<Seq<char>>::empty(),
;

/// Relies on `curl::easy::List::append`: appends one line to the list. It
/// fails exactly when the line holds an interior NUL character, and panics
/// only when the native allocation fails.
pub assume_specification[ curl::easy::List::append ](
    l: &mut curl::easy::List,
    data: &str,
) -> (r: Result<(), curl::Error>)
    ensures
        (r is Ok) == !data@.contains('\0'),
        r is Ok ==> list_lines(*final(l)) == list_lines(*old(l)).push(data@),
;

/// Relies on `tokio_curl::Session::new`: a session bound to the given event
/// loop.
pub assume_specification[ tokio_curl::Session::new ](
    handle: tokio_core::reactor::Handle,
) -> tokio_curl::Session;

/// Relies on `tokio_curl::Session::perform`: consumes the configured handle
/// and returns a future that resolves to it once the transfer finished.
/// Dropping the future cancels the outstanding transfer and stops its
/// callbacks.
pub assume_specification[ tokio_curl::Session::perform ](
    s: &tokio_curl::Session,
    handle: curl::easy::Easy,
) -> tokio_curl::Perform;

/// Relies on `url::Url::parse`: accepts exactly the strings it parses as an
/// absolute URL.
#[verifier::external_body]
pub(crate) fn check_url(s: &str) -> (r: Result<(), crate::RequestError>)
    ensures
        (r is Ok) == is_parsed_url(s@),
        r matches Err(e) ==> e == crate::RequestError::InvalidUrl,
{
    match url::Url::parse(s) {
        Ok(_) => Ok(()),
        Err(_) => Err(crate::RequestError::InvalidUrl),
    }
}

/// Relies on `url::Url::parse` and `url::Url::query_pairs_mut` together with
/// `form_urlencoded::Serializer::append_pair`: appends every given name/value
/// pair, in order, to the URL's query string and serializes the result.
#[verifier::external_body]
pub(crate) fn merge_query_params(url: &str, params: &Vec<(String, String)>) -> (r: String)
    requires
        is_parsed_url(url@),
    ensures
        r@ == merged_url_of(url@, params.deep_view()),
{
    let mut u = url::Url::parse(url).unwrap();
    {
        let mut pairs = u.query_pairs_mut();
        for (name, value) in params.iter() {
            pairs.append_pair(name, value);
        }
    }
    String::from(u)
}

/// Relies on `curl::easy::Easy::timeout`: the hard wall-clock limit for the
/// whole transfer, given here in milliseconds.
#[verifier::external_body]
pub(crate) fn set_timeout_ms(e: &mut curl::easy::Easy, ms: u64) -> (r: Result<(), curl::Error>) {
    e.timeout(std::time::Duration::from_millis(ms))
}

/// Relies on `curl::easy::Easy::low_speed_time`: the window, given here in
/// seconds, over which the low-speed limit is measured.
#[verifier::external_body]
pub(crate) fn set_low_speed_time_secs(e: &mut curl::easy::Easy, secs: u64) -> (r: Result<
    (),
    curl::Error,
>) {
    e.low_speed_time(std::time::Duration::from_secs(secs))
}

#[verifier::external_type_specification]
#[verifier::external_body]
#[verifier::reject_recursive_types(T)]
pub struct ExSendError<T>(std::sync::mpsc::SendError<T>);

/// Relies on `std::sync::mpsc::channel`: an unbounded channel; whatever the
/// sending half queues, the receiving half yields in the same order.
pub assume_specification<T>[ std::sync::mpsc::channel::<T> ]() -> (
    std::sync::mpsc::Sender<T>,
    std::sync::mpsc::Receiver<T>,
);

/// Relies on `std::sync::mpsc::Sender::send`: queues one value; it fails,
/// without panicking, when the receiving half was dropped.
pub assume_specification<T>[ std::sync::mpsc::Sender::<T>::send ](
    s: &std::sync::mpsc::Sender<T>,
    t: T,
) -> Result<(), std::sync::mpsc::SendError<T>>;

/// Relies on `std::sync::mpsc::Receiver::try_iter`: every value queued so
/// far, in the order it was sent, without blocking.
#[verifier::external_body]
pub(crate) fn drain<T>(rx: &std::sync::mpsc::Receiver<T>) -> Vec<T> {
    rx.try_iter().collect()
}

/// Relies on `std::str::from_utf8`: accepts exactly the valid UTF-8 byte
/// sequences and decodes them.
#[verifier::external_body]
pub(crate) fn utf8_str(b: &[u8]) -> (r: Option<&str>)
    ensures
        (r is Some) == valid_utf8(b@),
        r matches Some(s) ==> s@ == decode_utf8(b@),
{
    std::str::from_utf8(b).ok()
}

/// Relies on `str::parse::<mime::Mime>`: parses a media type; the result
/// depends on the characters alone.
#[verifier::external_body]
pub(crate) fn parse_mime(s: &str) -> (r: Option<mime::Mime>)
    ensures
        (r is Some) == mime_ok(s@),
{
    s.parse::<mime::Mime>().ok()
}

/// Relies on `serde_json::from_slice::<serde_json::Value>`: decodes a JSON
/// document; the result depends on the bytes alone.
#[verifier::external_body]
pub(crate) fn decode_json(b: &[u8]) -> (r: Option<serde_json::Value>)
    ensures
        (r is Some) == json_ok(b@),
{
    serde_json::from_slice(b).ok()
}

} // verus!
