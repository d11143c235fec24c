//! The request descriptor. A descriptor is an `azure_core::Request`; the
//! contracts of this crate speak of it through its four parts: method, target
//! URL, header set and body.

use azure_core::{Body, Method, Request, Url};
use bytes::Bytes;
use url::ParseError;
use vstd::prelude::*;

verus! {

/// `azure_core::Request`, held as it is: its parts are read through the
/// `request_` functions below.
#[verifier::external_type_specification]
#[verifier::external_body]
pub struct ExRequest(azure_core::Request);

/// `azure_core::Url`, held as it is: its text is `url_text`.
#[verifier::external_type_specification]
#[verifier::external_body]
pub struct ExUrl(azure_core::Url);

/// `url::ParseError`, the reason why `Url::parse` refused a text. It is
/// carried, never read.
#[verifier::external_type_specification]
#[verifier::external_body]
pub struct ExParseError(url::ParseError);

/// `bytes::Bytes`, held as it is: the bytes in it are `bytes_content`.
#[verifier::external_type_specification]
#[verifier::external_body]
pub struct ExBytes(bytes::Bytes);

/// The text of a URL, as `Url::as_str` returns it.
pub uninterp spec fn url_text(url: Url) -> Seq<char>;

/// What `Url::parse` makes of a text: `None` where it refuses the text, else
/// the text of the URL it returns.
pub uninterp spec fn parsed_url(text: Seq<char>) -> Option<Seq<char>>;

/// The bytes that a `Bytes` holds, in order.
pub uninterp spec fn bytes_content(bytes: Bytes) -> Seq<u8>;

/// The name of a request's method, as `Request::method` and `Method::as_ref`
/// return it.
pub uninterp spec fn request_method(request: Request) -> Seq<char>;

/// The text of a request's target, as `Request::url` and `Url::as_str` return it.
pub uninterp spec fn request_url(request: Request) -> Seq<char>;

/// The header set of a request, as `Request::headers` returns it: each name
/// that is present, with its value.
pub uninterp spec fn request_headers(request: Request) -> Map<Seq<char>, Seq<char>>;

/// The bytes of a request's body, as `Request::body` returns it where the
/// body is held as bytes, as is every body that this crate sets; empty for a
/// request that was given no body.
pub uninterp spec fn request_body(request: Request) -> Seq<u8>;

/// The methods this crate issues.
#[derive(Clone, Copy, Debug, PartialEq, Eq, Structural)]
pub enum HttpMethod {
    /// Reads a blob.
    Get,
    /// Probes metadata; no body comes back.
    Head,
    /// Writes a blob.
    Put,
}

impl HttpMethod {
    /// The method's name on the wire.
    pub open spec fn name(self) -> Seq<char> {
        match self {
            HttpMethod::Get => "GET"@,
            HttpMethod::Head => "HEAD"@,
            HttpMethod::Put => "PUT"@,
        }
    }
}

/// The four parts of a request.
pub struct RequestDescriptor {
    pub method: Seq<char>,
    pub url: Seq<char>,
    pub headers: Map<Seq<char>, Seq<char>>,
    pub body: Seq<u8>,
}

/// The descriptor that a request holds.
pub open spec fn descriptor(request: Request) -> RequestDescriptor {
    RequestDescriptor {
        method: request_method(request),
        url: request_url(request),
        headers: request_headers(request),
        body: request_body(request),
    }
}

/// The empty header set.
pub open spec fn no_headers() -> Map<Seq<char>, Seq<char>> {
    Map::empty()
}

/// The empty body.
pub open spec fn no_body() -> Seq<u8> {
    Seq::empty()
}

/// A character that may stand in a header name: ASCII, and no upper-case letter.
pub open spec fn is_name_char(c: char) -> bool {
    (c as u32) < 128 && !(65 <= (c as u32) && (c as u32) <= 90)
}

/// A text that the header set accepts as a name as it stands.
pub open spec fn is_header_name(name: Seq<char>) -> bool {
    forall|i: int| 0 <= i < name.len() ==> is_name_char(#[trigger] name[i])
}

/// `Url::parse`. The outcome is a function of the text alone: an error where
/// `parsed_url` is `None`, else a URL whose text is the one `parsed_url` names.
#[verifier::external_body]
pub(crate) fn parse_url(text: &str) -> (parsed: Result<Url, ParseError>)
    ensures
        match parsed {
            Ok(url) => parsed_url(text@) == Some(url_text(url)),
            Err(_) => parsed_url(text@) is None,
        },
{
    Url::parse(text)
}

/// `Url::clone`. The copy has the text of the URL it was made from.
#[verifier::external_body]
pub(crate) fn clone_url(url: &Url) -> (copy: Url)
    ensures
        url_text(copy) == url_text(*url),
{
    url.clone()
}

/// `Bytes::len`. The number of bytes held.
#[verifier::external_body]
pub(crate) fn bytes_len(bytes: &Bytes) -> (len: usize)
    ensures
        len == bytes_content(*bytes).len(),
{
    bytes.len()
}

/// `Request::new`. The request has the given target and method, no headers
/// and an empty body.
#[verifier::external_body]
pub(crate) fn new_request(url: Url, method: HttpMethod) -> (request: Request)
    ensures
        request_method(request) == method.name(),
        request_url(request) == url_text(url),
        request_headers(request) == no_headers(),
        request_body(request) == no_body(),
{
    let method = match method {
        HttpMethod::Get => Method::Get,
        HttpMethod::Head => Method::Head,
        HttpMethod::Put => Method::Put,
    };
    Request::new(url, method)
}

/// `Request::insert_header` with a static name and an owned value. The name
/// is kept as it stands (the header set refuses, by a panic, a name with an
/// upper-case or caseless letter: `is_header_name` leaves those out); a value
/// already present under the name is replaced. Nothing else changes.
#[verifier::external_body]
pub(crate) fn insert_header(request: &mut Request, name: &'static str, value: String)
    requires
        is_header_name(name@),
    ensures
        request_headers(*final(request)) == request_headers(*old(request)).insert(name@, value@),
        request_method(*final(request)) == request_method(*old(request)),
        request_url(*final(request)) == request_url(*old(request)),
        request_body(*final(request)) == request_body(*old(request)),
{
    request.insert_header(name, value);
}

/// `Request::set_body` with `Body::from` of a `Bytes`. The body becomes the
/// bytes given. Nothing else changes.
#[verifier::external_body]
pub(crate) fn set_body(request: &mut Request, bytes: Bytes)
    ensures
        request_body(*final(request)) == bytes_content(bytes),
        request_method(*final(request)) == request_method(*old(request)),
        request_url(*final(request)) == request_url(*old(request)),
        request_headers(*final(request)) == request_headers(*old(request)),
{
    request.set_body(Body::from(bytes));
}

} // verus!
