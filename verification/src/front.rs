//! The front end: what is done with one client connection.
//!
//! A connection carries one request. Its head is read and decoded, its `Host` header
//! picks the backend, its payload is read up to a ceiling, the request goes to the mailbox
//! of the backend's worker, and the reply, if one comes in time, goes back to the client
//! with the security headers added. Wherever that fails the client gets a plain `400` or
//! `404`, or the connection is closed without a word.
//!
//! An [`Exchange`] is the state of one connection and the rule it follows. The thread
//! that serves the connection performs each [`FrontAction`] and reports what came of it
//! as the next [`FrontEvent`].

use crate::config::{ConfigView, ProxyGatewayConfig};
use crate::http::{
    bare_response, header_views, Header, HeaderName, HeaderNameView, HeaderView, HttpResponse,
    ResponseView, STATUS_BAD_REQUEST, STATUS_NOT_FOUND,
};
use crate::text::{maybe_chars, smol_chars};
use smol_str::SmolStr;
use vstd::prelude::*;

verus! {

/// The size of the buffer that the head of a request is read into, in one read.
pub const READ_CAP: usize = 8192;

/// The largest payload that a request may declare.
pub const MAX_PAYLOAD: usize = 8192;

/// How long the front end waits for the reply of a worker.
pub const REPLY_WAIT_MILLIS: u64 = 2000;

/// The value of `Strict-Transport-Security`: two years.
pub const TRANSPORT_SECURITY: &'static str = "max-age=63072000";

/// The value of `Content-Security-Policy`: nothing but what the site itself serves.
pub const CONTENT_SECURITY_POLICY: &'static str =
    "default-src 'none'; script-src 'self'; style-src 'self'; connect-src 'self'; form-action 'self'; img-src 'self'; frame-ancestors 'self'; base-uri 'none'";

/// The value of `X-Content-Type-Options`.
pub const CONTENT_TYPE_OPTIONS: &'static str = "nosniff";

/// The value of `X-Frame-Options`.
pub const FRAME_OPTIONS: &'static str = "SAMEORIGIN";

/// What the front end reads of one decoded header of a request.
#[derive(Clone, Debug, PartialEq, Eq)]
pub enum HeadField {
    /// A `Host` header with a well-formed domain name.
    Host(SmolStr),
    /// A `Content-Length` header with a well-formed length.
    ContentLength(u64),
    /// Any other header, and any that did not decode.
    Other,
}

/// The host name of the first `Host` header, if there is one.
pub open spec fn declared_host(fields: Seq<HeadField>) -> Option<Seq<char>>
    decreases fields.len(),
{
    if fields.len() == 0 {
        None
    } else {
        match fields[0] {
            HeadField::Host(h) => Some(smol_chars(h)),
            _ => declared_host(fields.drop_first()),
        }
    }
}

/// The length of the first `Content-Length` header, if there is one.
pub open spec fn declared_length(fields: Seq<HeadField>) -> Option<u64>
    decreases fields.len(),
{
    if fields.len() == 0 {
        None
    } else {
        match fields[0] {
            HeadField::ContentLength(n) => Some(n),
            _ => declared_length(fields.drop_first()),
        }
    }
}

/// The declared host is that of the `Host` header before which there is no other, and
/// there is none where no header is a `Host` header.
pub proof fn law_first_host_counts(fields: Seq<HeadField>)
    ensures
        match declared_host(fields) {
            Some(h) => exists|i: int|
                0 <= i < fields.len() && (#[trigger] fields[i] matches HeadField::Host(x)
                    && smol_chars(x) == h) && forall|j: int|
                    0 <= j < i ==> !(#[trigger] fields[j] is Host),
            None => forall|j: int| 0 <= j < fields.len() ==> !(#[trigger] fields[j] is Host),
        },
    decreases fields.len(),
{
    if fields.len() > 0 && !(fields[0] is Host) {
        let rest = fields.drop_first();
        law_first_host_counts(rest);
        // What holds of the rest holds of the whole, one place further on.
        let upto = match declared_host(rest) {
            Some(h) => 1 + choose|i: int|
                0 <= i < rest.len() && (#[trigger] rest[i] matches HeadField::Host(x)
                    && smol_chars(x) == h) && forall|j: int|
                    0 <= j < i ==> !(#[trigger] rest[j] is Host),
            None => fields.len() as int,
        };
        assert forall|j: int| 0 <= j < upto implies !(#[trigger] fields[j] is Host) by {
            if j > 0 {
                assert(fields[j] == rest[j - 1]);
            }
        }
        if declared_host(rest) is Some {
            assert(fields[upto] == rest[upto - 1]);
        }
    }
}

/// The declared length is that of the `Content-Length` header before which there is no
/// other, and there is none where no header is a `Content-Length` header.
pub proof fn law_first_length_counts(fields: Seq<HeadField>)
    ensures
        match declared_length(fields) {
            Some(n) => exists|i: int|
                0 <= i < fields.len() && #[trigger] fields[i] == HeadField::ContentLength(n)
                    && forall|j: int| 0 <= j < i ==> !(#[trigger] fields[j] is ContentLength),
            None => forall|j: int|
                0 <= j < fields.len() ==> !(#[trigger] fields[j] is ContentLength),
        },
    decreases fields.len(),
{
    if fields.len() > 0 && !(fields[0] is ContentLength) {
        let rest = fields.drop_first();
        law_first_length_counts(rest);
        // What holds of the rest holds of the whole, one place further on.
        let upto = match declared_length(rest) {
            Some(n) => 1 + choose|i: int|
                0 <= i < rest.len() && #[trigger] rest[i] == HeadField::ContentLength(n)
                    && forall|j: int| 0 <= j < i ==> !(#[trigger] rest[j] is ContentLength),
            None => fields.len() as int,
        };
        assert forall|j: int| 0 <= j < upto implies !(
        #[trigger] fields[j] is ContentLength) by {
            if j > 0 {
                assert(fields[j] == rest[j - 1]);
            }
        }
        if declared_length(rest) is Some {
            assert(fields[upto] == rest[upto - 1]);
        }
    }
}

/// What the front end needs of the head of a request.
#[derive(Clone, Debug, PartialEq, Eq)]
pub struct HeadSummary {
    pub host: Option<SmolStr>,
    pub length: Option<u64>,
}

/// Reads the host name and the length of the payload off the headers of a request. Of
/// several `Host` headers, or several `Content-Length` headers, the first one counts.
pub fn scan_head(fields: &Vec<HeadField>) -> (r: HeadSummary)
    ensures
        maybe_chars(r.host) == declared_host(fields@),
        r.length == declared_length(fields@),
{
    let mut host: Option<SmolStr> = None;
    let mut length: Option<u64> = None;
    let mut i: usize = 0;
    assert(fields@.skip(0) == fields@);
    while i < fields.len()
        invariant
            i <= fields.len(),
            declared_host(fields@) == match host {
                Some(h) => Some(smol_chars(h)),
                None => declared_host(fields@.skip(i as int)),
            },
            declared_length(fields@) == match length {
                Some(n) => Some(n),
                None => declared_length(fields@.skip(i as int)),
            },
        decreases fields.len() - i,
    {
        proof {
            assert(fields@.skip(i as int).drop_first() == fields@.skip(i + 1));
        }
        match &fields[i] {
            HeadField::Host(h) => {
                if host.is_none() {
                    host = Some(h.clone());
                }
            },
            HeadField::ContentLength(n) => {
                if length.is_none() {
                    length = Some(*n);
                }
            },
            HeadField::Other => {},
        }
        i += 1;
    }
    HeadSummary { host, length }
}

/// The four headers that every response of a backend is sent out with.
pub open spec fn security_headers() -> Seq<HeaderView> {
    seq![
        HeaderView {
            name: HeaderNameView::StrictTransportSecurity,
            value: TRANSPORT_SECURITY@,
        },
        HeaderView {
            name: HeaderNameView::ContentSecurityPolicy,
            value: CONTENT_SECURITY_POLICY@,
        },
        HeaderView { name: HeaderNameView::XContentTypeOptions, value: CONTENT_TYPE_OPTIONS@ },
        HeaderView { name: HeaderNameView::XFrameOptions, value: FRAME_OPTIONS@ },
    ]
}

/// A response with the security headers added after its own.
pub open spec fn secured(rep: ResponseView) -> ResponseView {
    ResponseView { headers: rep.headers + security_headers(), ..rep }
}

/// The name is that of one of the four security headers.
pub open spec fn is_security_header(name: HeaderNameView) -> bool {
    name is StrictTransportSecurity || name is ContentSecurityPolicy
        || name is XContentTypeOptions || name is XFrameOptions
}

/// How many headers of a list have this name.
pub open spec fn count_named(headers: Seq<HeaderView>, name: HeaderNameView) -> nat
    decreases headers.len(),
{
    if headers.len() == 0 {
        0
    } else {
        count_named(headers.drop_last(), name) + if headers.last().name == name {
            1nat
        } else {
            0nat
        }
    }
}

/// Adds the security headers to the response of a backend. Nothing else of the response
/// changes.
pub fn secure(rep: HttpResponse) -> (r: HttpResponse)
    ensures
        r@ == secured(rep@),
{
    let ghost before = header_views(rep.headers@);
    let HttpResponse { status, mut headers, payload } = rep;
    headers.push(
        Header {
            name: HeaderName::StrictTransportSecurity,
            value: TRANSPORT_SECURITY.to_owned(),
        },
    );
    headers.push(
        Header {
            name: HeaderName::ContentSecurityPolicy,
            value: CONTENT_SECURITY_POLICY.to_owned(),
        },
    );
    headers.push(
        Header { name: HeaderName::XContentTypeOptions, value: CONTENT_TYPE_OPTIONS.to_owned() },
    );
    headers.push(Header { name: HeaderName::XFrameOptions, value: FRAME_OPTIONS.to_owned() });
    assert(header_views(headers@) =~= before + security_headers());
    HttpResponse { status, headers, payload }
}

/// How handing a request to the mailbox of a worker ended.
#[derive(Clone, Copy, Debug, PartialEq, Eq, Structural)]
pub enum SendOutcome {
    /// The request is in the mailbox.
    Queued,
    /// No worker serves the port.
    NoMailbox,
    /// The worker is gone.
    WorkerGone,
}

/// How waiting for the reply of a worker ended.
#[derive(Clone, Debug, PartialEq, Eq)]
pub enum ReplyOutcome {
    /// Nothing came in time, or the slot was closed.
    TimedOut,
    /// The backend had no response.
    NoMatch,
    /// The backend's response.
    Response(HttpResponse),
}

/// What the thread that serves a connection reports.
#[derive(Clone, Debug, PartialEq, Eq)]
pub enum FrontEvent {
    /// The handshake failed, the read failed, or the request line or the headers did
    /// not decode.
    HeadFailed,
    /// The head of the request was decoded: its headers, the number of bytes that the
    /// read gave, and the number of bytes of them that the head takes.
    HeadDecoded { fields: Vec<HeadField>, read_len: usize, header_len: usize },
    /// The read for the rest of the payload ended: with all of it, or short.
    PayloadRead { complete: bool },
    /// The request was converted for the backend, or could not be.
    Converted { ok: bool },
    /// Handing the request to the mailbox ended.
    Sent { outcome: SendOutcome },
    /// Waiting for the reply ended.
    Replied { reply: ReplyOutcome },
}

/// What the thread that serves a connection is to do next.
#[derive(Clone, Debug, PartialEq, Eq)]
pub enum FrontAction {
    /// Close the connection without an answer.
    Close,
    /// Write the response and close the connection.
    Respond { response: HttpResponse },
    /// Make the buffer `buf_len` bytes long and read exactly the bytes `from..to` into it.
    ReadPayload { from: usize, to: usize, buf_len: usize },
    /// Take the bytes `start..end` of the buffer as the payload and convert the request.
    Convert { start: usize, end: usize },
    /// Read the clock and put the request, with a fresh reply slot, into the mailbox of
    /// the worker of `port`.
    Send { port: u16 },
    /// Wait for the reply, no longer than this.
    AwaitReply { timeout_millis: u64 },
}

/// An action in specifications.
pub enum FrontActionView {
    Close,
    Respond { response: ResponseView },
    ReadPayload { from: usize, to: usize, buf_len: usize },
    Convert { start: usize, end: usize },
    Send { port: u16 },
    AwaitReply { timeout_millis: u64 },
}

impl View for FrontAction {
    type V = FrontActionView;

    open spec fn view(&self) -> FrontActionView {
        match self {
            FrontAction::Close => FrontActionView::Close,
            FrontAction::Respond { response } => FrontActionView::Respond { response: response@ },
            FrontAction::ReadPayload { from, to, buf_len } => FrontActionView::ReadPayload {
                from: *from,
                to: *to,
                buf_len: *buf_len,
            },
            FrontAction::Convert { start, end } => FrontActionView::Convert {
                start: *start,
                end: *end,
            },
            FrontAction::Send { port } => FrontActionView::Send { port: *port },
            FrontAction::AwaitReply { timeout_millis } => FrontActionView::AwaitReply {
                timeout_millis: *timeout_millis,
            },
        }
    }
}

/// The answer that refuses a request.
pub open spec fn refusal(status: u16) -> FrontActionView {
    FrontActionView::Respond { response: bare_response(status) }
}

/// The length of the payload that the headers declare: none declared is none to read.
pub open spec fn payload_len(fields: Seq<HeadField>) -> u64 {
    match declared_length(fields) {
        Some(n) => n,
        None => 0,
    }
}

/// What one connection is waiting for.
#[derive(Clone, Copy, Debug, PartialEq, Eq, Structural)]
pub enum Exchange {
    /// Waiting for the head of the request.
    AwaitingHead,
    /// Waiting for the rest of the payload, which is to fill the buffer up to `end`.
    AwaitingPayload { port: u16, start: usize, end: usize },
    /// Waiting for the request to be converted.
    AwaitingRequest { port: u16 },
    /// Waiting for the request to be put into the mailbox.
    AwaitingMailbox,
    /// Waiting for the reply of the worker.
    AwaitingReply,
    /// The connection is finished.
    Done,
}

/// What is done with a request whose head was decoded: refuse it where no backend is
/// known for its host (`404`) or where it declares too large a payload (`400`), read the
/// rest of the payload where the first read did not bring all of it, convert it otherwise.
pub open spec fn admit_head(
    cfg: ConfigView,
    fields: Seq<HeadField>,
    read_len: usize,
    header_len: usize,
) -> (Exchange, FrontActionView) {
    match cfg.route(declared_host(fields)) {
        None => (Exchange::Done, refusal(STATUS_NOT_FOUND)),
        Some(port) => {
            let len = payload_len(fields);
            let end = (header_len + len) as usize;
            if len > MAX_PAYLOAD {
                (Exchange::Done, refusal(STATUS_BAD_REQUEST))
            } else if read_len < header_len + len {
                (
                    Exchange::AwaitingPayload { port, start: header_len, end },
                    FrontActionView::ReadPayload {
                        from: read_len,
                        to: end,
                        buf_len: if end > READ_CAP {
                            end
                        } else {
                            READ_CAP
                        },
                    },
                )
            } else {
                (
                    Exchange::AwaitingRequest { port },
                    FrontActionView::Convert { start: header_len, end },
                )
            }
        },
    }
}

impl Exchange {
    /// The event is one that the connection waits for. Of the head of a request, the
    /// read gave no more than the buffer holds, and the head lies within what it gave.
    pub open spec fn admits(self, event: FrontEvent) -> bool {
        match (self, event) {
            (Exchange::AwaitingHead, FrontEvent::HeadFailed) => true,
            (Exchange::AwaitingHead, FrontEvent::HeadDecoded { fields, read_len, header_len }) => {
                header_len <= read_len <= READ_CAP
            },
            (Exchange::AwaitingPayload { .. }, FrontEvent::PayloadRead { .. }) => true,
            (Exchange::AwaitingRequest { .. }, FrontEvent::Converted { .. }) => true,
            (Exchange::AwaitingMailbox, FrontEvent::Sent { .. }) => true,
            (Exchange::AwaitingReply, FrontEvent::Replied { .. }) => true,
            _ => false,
        }
    }

    /// The rule of the front end: the state and the action that follow an event.
    pub open spec fn next(self, cfg: ConfigView, event: FrontEvent) -> (
        Exchange,
        FrontActionView,
    ) {
        match (self, event) {
            (Exchange::AwaitingHead, FrontEvent::HeadFailed) => (
                Exchange::Done,
                FrontActionView::Close,
            ),
            (
                Exchange::AwaitingHead,
                FrontEvent::HeadDecoded { fields, read_len, header_len },
            ) => admit_head(cfg, fields@, read_len, header_len),
            (
                Exchange::AwaitingPayload { port, start, end },
                FrontEvent::PayloadRead { complete },
            ) => if complete {
                (Exchange::AwaitingRequest { port }, FrontActionView::Convert { start, end })
            } else {
                (Exchange::Done, refusal(STATUS_BAD_REQUEST))
            },
            (Exchange::AwaitingRequest { port }, FrontEvent::Converted { ok }) => if ok {
                (Exchange::AwaitingMailbox, FrontActionView::Send { port })
            } else {
                (Exchange::Done, refusal(STATUS_BAD_REQUEST))
            },
            (Exchange::AwaitingMailbox, FrontEvent::Sent { outcome }) => match outcome {
                SendOutcome::Queued => (
                    Exchange::AwaitingReply,
                    FrontActionView::AwaitReply { timeout_millis: REPLY_WAIT_MILLIS },
                ),
                _ => (Exchange::Done, refusal(STATUS_NOT_FOUND)),
            },
            (Exchange::AwaitingReply, FrontEvent::Replied { reply }) => match reply {
                ReplyOutcome::Response(rep) => (
                    Exchange::Done,
                    FrontActionView::Respond { response: secured(rep@) },
                ),
                _ => (Exchange::Done, refusal(STATUS_NOT_FOUND)),
            },
            _ => (Exchange::Done, FrontActionView::Close),
        }
    }

    /// The state of a connection that was just accepted.
    pub fn new() -> (r: Exchange)
        ensures
            r == Exchange::AwaitingHead,
    {
        Exchange::AwaitingHead
    }

    /// Whether the connection, in the state it is in, admits the event.
    pub fn can_take(&self, event: &FrontEvent) -> (r: bool)
        ensures
            r == self.admits(*event),
    {
        match (self, event) {
            (Exchange::AwaitingHead, FrontEvent::HeadFailed) => true,
            (Exchange::AwaitingHead, FrontEvent::HeadDecoded { fields, read_len, header_len }) => {
                *header_len <= *read_len && *read_len <= READ_CAP
            },
            (Exchange::AwaitingPayload { .. }, FrontEvent::PayloadRead { .. }) => true,
            (Exchange::AwaitingRequest { .. }, FrontEvent::Converted { .. }) => true,
            (Exchange::AwaitingMailbox, FrontEvent::Sent { .. }) => true,
            (Exchange::AwaitingReply, FrontEvent::Replied { .. }) => true,
            _ => false,
        }
    }

    /// Takes an event and says what to do next.
    pub fn step(self, config: &ProxyGatewayConfig, event: FrontEvent) -> (r: (
        Exchange,
        FrontAction,
    ))
        requires
            config.wf(),
            self.admits(event),
        ensures
            r.0 == self.next(config@, event).0,
            r.1@ == self.next(config@, event).1,
    {
        match (self, event) {
            (Exchange::AwaitingHead, FrontEvent::HeadFailed) => (
                Exchange::Done,
                FrontAction::Close,
            ),
            (
                Exchange::AwaitingHead,
                FrontEvent::HeadDecoded { fields, read_len, header_len },
            ) => {
                let head = scan_head(&fields);
                match config.route(head.host.as_ref()) {
                    None => (
                        Exchange::Done,
                        FrontAction::Respond { response: HttpResponse::not_found() },
                    ),
                    Some(port) => {
                        let declared: u64 = match head.length {
                            Some(n) => n,
                            None => 0,
                        };
                        if declared > MAX_PAYLOAD as u64 {
                            (
                                Exchange::Done,
                                FrontAction::Respond { response: HttpResponse::bad_request() },
                            )
                        } else {
                            let end: usize = header_len + declared as usize;
                            if read_len < end {
                                let buf_len: usize = if end > READ_CAP {
                                    end
                                } else {
                                    READ_CAP
                                };
                                (
                                    Exchange::AwaitingPayload { port, start: header_len, end },
                                    FrontAction::ReadPayload { from: read_len, to: end, buf_len },
                                )
                            } else {
                                (
                                    Exchange::AwaitingRequest { port },
                                    FrontAction::Convert { start: header_len, end },
                                )
                            }
                        }
                    },
                }
            },
            (
                Exchange::AwaitingPayload { port, start, end },
                FrontEvent::PayloadRead { complete },
            ) => if complete {
                (Exchange::AwaitingRequest { port }, FrontAction::Convert { start, end })
            } else {
                (Exchange::Done, FrontAction::Respond { response: HttpResponse::bad_request() })
            },
            (Exchange::AwaitingRequest { port }, FrontEvent::Converted { ok }) => if ok {
                (Exchange::AwaitingMailbox, FrontAction::Send { port })
            } else {
                (Exchange::Done, FrontAction::Respond { response: HttpResponse::bad_request() })
            },
            (Exchange::AwaitingMailbox, FrontEvent::Sent { outcome }) => match outcome {
                SendOutcome::Queued => (
                    Exchange::AwaitingReply,
                    FrontAction::AwaitReply { timeout_millis: REPLY_WAIT_MILLIS },
                ),
                _ => (
                    Exchange::Done,
                    FrontAction::Respond { response: HttpResponse::not_found() },
                ),
            },
            (Exchange::AwaitingReply, FrontEvent::Replied { reply }) => match reply {
                ReplyOutcome::Response(rep) => (
                    Exchange::Done,
                    FrontAction::Respond { response: secure(rep) },
                ),
                _ => (
                    Exchange::Done,
                    FrontAction::Respond { response: HttpResponse::not_found() },
                ),
            },
            _ => (Exchange::Done, FrontAction::Close),
        }
    }
}

/// A request that declares a payload above the ceiling is refused and never handed to a
/// worker: it is answered with `400` where its host has a backend, and with `404` where
/// it has none. The connection is then finished, and a finished connection admits no
/// further event.
pub proof fn law_payload_ceiling(
    cfg: ConfigView,
    fields: Vec<HeadField>,
    read_len: usize,
    header_len: usize,
    later: FrontEvent,
)
    requires
        payload_len(fields@) > MAX_PAYLOAD,
    ensures
        ({
            let event = FrontEvent::HeadDecoded { fields, read_len, header_len };
            let after = Exchange::AwaitingHead.next(cfg, event);
            &&& after.0 == Exchange::Done
            &&& after.1 == if cfg.route(declared_host(fields@)) is Some {
                refusal(STATUS_BAD_REQUEST)
            } else {
                refusal(STATUS_NOT_FOUND)
            }
            &&& !after.0.admits(later)
        }),
{
}

/// A request is handed to a worker at one point only: after it was converted. It then
/// goes to the port that the configuration gives for its host, and its payload is within
/// the ceiling.
pub proof fn law_dispatch_is_routed(
    cfg: ConfigView,
    fields: Vec<HeadField>,
    read_len: usize,
    header_len: usize,
)
    requires
        header_len <= read_len <= READ_CAP,
    ensures
        ({
            let event = FrontEvent::HeadDecoded { fields, read_len, header_len };
            let after = Exchange::AwaitingHead.next(cfg, event);
            let port = match after.0 {
                Exchange::AwaitingPayload { port, .. } => Some(port),
                Exchange::AwaitingRequest { port } => Some(port),
                _ => None,
            };
            &&& after.0 != Exchange::Done ==> port == cfg.route(declared_host(fields@))
                && port is Some && payload_len(fields@) <= MAX_PAYLOAD
            &&& !(after.1 is Send)
        }),
        forall|state: Exchange, event: FrontEvent|
            (#[trigger] state.next(cfg, event)).1 is Send ==> state is AwaitingRequest
                && state.next(cfg, event).1 == (FrontActionView::Send {
                port: state->AwaitingRequest_port,
            }),
{
}

/// Every response of a backend goes out with the four security headers after its own
/// headers, and is otherwise what the backend returned. A response that the gateway
/// makes up itself carries none.
pub proof fn law_security_headers(cfg: ConfigView, rep: HttpResponse, status: u16)
    ensures
        Exchange::AwaitingReply.next(
            cfg,
            FrontEvent::Replied { reply: ReplyOutcome::Response(rep) },
        ) == (Exchange::Done, FrontActionView::Respond { response: secured(rep@) }),
        secured(rep@).status == rep@.status,
        secured(rep@).payload == rep@.payload,
        secured(rep@).headers.len() == rep@.headers.len() + 4,
        secured(rep@).headers.subrange(0, rep@.headers.len() as int) == rep@.headers,
        secured(rep@).headers.subrange(
            rep@.headers.len() as int,
            rep@.headers.len() as int + 4,
        ) == security_headers(),
        security_headers().len() == 4,
        security_headers()[0].name is StrictTransportSecurity,
        security_headers()[1].name is ContentSecurityPolicy,
        security_headers()[2].name is XContentTypeOptions,
        security_headers()[3].name is XFrameOptions,
        bare_response(status).headers.len() == 0,
{
}

/// Where the backend's response carries none of the four security headers itself, the
/// response that goes out carries each of them exactly once.
pub proof fn law_security_headers_once(rep: ResponseView, name: HeaderNameView)
    requires
        forall|i: int| 0 <= i < rep.headers.len() ==> !is_security_header(rep.headers[i].name),
        is_security_header(name),
    ensures
        count_named(secured(rep).headers, name) == 1,
{
    let own = rep.headers;
    let four = security_headers();
    lemma_count_none(own, name);
    let s1 = own.push(four[0]);
    let s2 = s1.push(four[1]);
    let s3 = s2.push(four[2]);
    let s4 = s3.push(four[3]);
    assert(s1.drop_last() == own && s1.last() == four[0]);
    assert(s2.drop_last() == s1 && s2.last() == four[1]);
    assert(s3.drop_last() == s2 && s3.last() == four[2]);
    assert(s4.drop_last() == s3 && s4.last() == four[3]);
    assert(count_named(s1, name) == if name is StrictTransportSecurity {
        1nat
    } else {
        0nat
    });
    assert(count_named(s2, name) == count_named(s1, name) + if name is ContentSecurityPolicy {
        1nat
    } else {
        0nat
    });
    assert(count_named(s3, name) == count_named(s2, name) + if name is XContentTypeOptions {
        1nat
    } else {
        0nat
    });
    assert(count_named(s4, name) == count_named(s3, name) + if name is XFrameOptions {
        1nat
    } else {
        0nat
    });
    assert(s4 == own + four);
}

/// A list in which no header has the name counts none of that name.
proof fn lemma_count_none(headers: Seq<HeaderView>, name: HeaderNameView)
    requires
        forall|i: int| 0 <= i < headers.len() ==> headers[i].name != name,
    ensures
        count_named(headers, name) == 0,
    decreases headers.len(),
{
    if headers.len() > 0 {
        lemma_count_none(headers.drop_last(), name);
    }
}

} // verus!
