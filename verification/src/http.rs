//! Decoded HTTP messages as plain values.
//!
//! The wire format is the business of an HTTP codec. What the gateway reads of a
//! message, and what it adds to one, is kept here.

use vstd::prelude::*;
use vstd::string::{StrSliceExecFns, StringSliceAdditionalSpecFns};

verus! {

/// Status code of a response that was served.
pub const STATUS_OK: u16 = 200;

/// Status code for a request that the gateway refuses to forward.
pub const STATUS_BAD_REQUEST: u16 = 400;

/// Status code for a request that no backend answered.
pub const STATUS_NOT_FOUND: u16 = 404;

/// The method of a request.
#[derive(Clone, Copy, Debug, PartialEq, Eq, Structural)]
pub enum Method {
    Get,
    Head,
    Post,
    Put,
    Delete,
    Connect,
    Options,
    Trace,
    Patch,
}

/// The name of a header: the ones the gateway knows, and any other by its text.
#[derive(Clone, Debug, PartialEq, Eq)]
pub enum HeaderName {
    Host,
    ContentLength,
    ContentType,
    StrictTransportSecurity,
    ContentSecurityPolicy,
    XContentTypeOptions,
    XFrameOptions,
    Other(String),
}

/// A header name in specifications.
pub enum HeaderNameView {
    Host,
    ContentLength,
    ContentType,
    StrictTransportSecurity,
    ContentSecurityPolicy,
    XContentTypeOptions,
    XFrameOptions,
    Other(Seq<char>),
}

impl View for HeaderName {
    type V = HeaderNameView;

    open spec fn view(&self) -> HeaderNameView {
        match self {
            HeaderName::Host => HeaderNameView::Host,
            HeaderName::ContentLength => HeaderNameView::ContentLength,
            HeaderName::ContentType => HeaderNameView::ContentType,
            HeaderName::StrictTransportSecurity => HeaderNameView::StrictTransportSecurity,
            HeaderName::ContentSecurityPolicy => HeaderNameView::ContentSecurityPolicy,
            HeaderName::XContentTypeOptions => HeaderNameView::XContentTypeOptions,
            HeaderName::XFrameOptions => HeaderNameView::XFrameOptions,
            HeaderName::Other(s) => HeaderNameView::Other(s@),
        }
    }
}

/// One header line: a name and its value.
#[derive(Clone, Debug, PartialEq, Eq)]
pub struct Header {
    pub name: HeaderName,
    pub value: String,
}

/// A header line in specifications.
pub struct HeaderView {
    pub name: HeaderNameView,
    pub value: Seq<char>,
}

impl View for Header {
    type V = HeaderView;

    open spec fn view(&self) -> HeaderView {
        HeaderView { name: self.name@, value: self.value@ }
    }
}

/// The views of a list of headers, in order.
pub open spec fn header_views(hs: Seq<Header>) -> Seq<HeaderView> {
    Seq::new(hs.len(), |i: int| hs[i]@)
}

/// The views of the segments of a path, in order.
pub open spec fn path_view(path: Seq<String>) -> Seq<Seq<char>> {
    Seq::new(path.len(), |i: int| path[i]@)
}

/// A request after decoding: what a backend is handed.
#[derive(Clone, Debug, PartialEq, Eq)]
pub struct HttpRequest {
    pub method: Method,
    /// The segments of the path, without the slashes between them.
    pub path: Vec<String>,
    pub headers: Vec<Header>,
    pub payload: Vec<u8>,
}

/// A request in specifications.
pub struct RequestView {
    pub method: Method,
    pub path: Seq<Seq<char>>,
    pub headers: Seq<HeaderView>,
    pub payload: Seq<u8>,
}

impl View for HttpRequest {
    type V = RequestView;

    open spec fn view(&self) -> RequestView {
        RequestView {
            method: self.method,
            path: path_view(self.path@),
            headers: header_views(self.headers@),
            payload: self.payload@,
        }
    }
}

/// A response before encoding: what a backend hands back, or what the gateway answers
/// in its place.
#[derive(Clone, Debug, PartialEq, Eq)]
pub struct HttpResponse {
    pub status: u16,
    pub headers: Vec<Header>,
    pub payload: Vec<u8>,
}

/// A response in specifications.
pub struct ResponseView {
    pub status: u16,
    pub headers: Seq<HeaderView>,
    pub payload: Seq<u8>,
}

impl View for HttpResponse {
    type V = ResponseView;

    open spec fn view(&self) -> ResponseView {
        ResponseView {
            status: self.status,
            headers: header_views(self.headers@),
            payload: self.payload@,
        }
    }
}

/// The response that carries a status and nothing else.
pub open spec fn bare_response(status: u16) -> ResponseView {
    ResponseView { status, headers: Seq::empty(), payload: Seq::empty() }
}

impl HttpResponse {
    /// A response with the given status, no headers and no payload.
    pub fn from_status(status: u16) -> (r: HttpResponse)
        ensures
            r@ == bare_response(status),
    {
        let r = HttpResponse { status, headers: Vec::new(), payload: Vec::new() };
        assert(header_views(r.headers@) =~= Seq::empty());
        r
    }

    /// A served response whose payload is a text of the given content type.
    pub fn ok_text(body: &str, content_type: &str) -> (r: HttpResponse)
        ensures
            r@ == (ResponseView {
                status: STATUS_OK,
                headers: seq![
                    HeaderView { name: HeaderNameView::ContentType, value: content_type@ },
                ],
                payload: body.spec_bytes(),
            }),
    {
        let mut headers: Vec<Header> = Vec::new();
        headers.push(Header { name: HeaderName::ContentType, value: content_type.to_owned() });
        let r = HttpResponse { status: STATUS_OK, headers, payload: body.as_bytes_vec() };
        assert(header_views(r.headers@) =~= seq![
            HeaderView { name: HeaderNameView::ContentType, value: content_type@ },
        ]);
        r
    }

    /// The answer to a request that nothing serves.
    pub fn not_found() -> (r: HttpResponse)
        ensures
            r@ == bare_response(STATUS_NOT_FOUND),
    {
        HttpResponse::from_status(STATUS_NOT_FOUND)
    }

    /// The answer to a request that the gateway will not forward.
    pub fn bad_request() -> (r: HttpResponse)
        ensures
            r@ == bare_response(STATUS_BAD_REQUEST),
    {
        HttpResponse::from_status(STATUS_BAD_REQUEST)
    }
}

} // verus!
