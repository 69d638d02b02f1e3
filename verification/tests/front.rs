use proxy_gateway::front::{
    scan_head, secure, Exchange, FrontAction, FrontEvent, HeadField, ReplyOutcome, SendOutcome,
    MAX_PAYLOAD, READ_CAP, REPLY_WAIT_MILLIS,
};
use proxy_gateway::http::{Header, HeaderName, HttpResponse};
use proxy_gateway::ProxyGatewayConfig;
use smol_str::SmolStr;

fn host(s: &str) -> HeadField {
    HeadField::Host(SmolStr::from(s))
}

fn config() -> ProxyGatewayConfig {
    let mut cfg = ProxyGatewayConfig::new();
    cfg.map_host_to_port("a.example", 9000).unwrap();
    cfg.map_host_to_port("b.example", 9002).unwrap();
    cfg
}

fn take(x: Exchange, cfg: &ProxyGatewayConfig, event: FrontEvent) -> (Exchange, FrontAction) {
    assert!(x.can_take(&event));
    x.step(cfg, event)
}

fn head(fields: Vec<HeadField>, read_len: usize, header_len: usize) -> FrontEvent {
    FrontEvent::HeadDecoded { fields, read_len, header_len }
}

fn refused(action: &FrontAction, status: u16) -> bool {
    match action {
        FrontAction::Respond { response } => *response == HttpResponse::from_status(status),
        _ => false,
    }
}

fn security_headers() -> Vec<Header> {
    vec![
        Header {
            name: HeaderName::StrictTransportSecurity,
            value: "max-age=63072000".to_string(),
        },
        Header {
            name: HeaderName::ContentSecurityPolicy,
            value: "default-src 'none'; script-src 'self'; style-src 'self'; connect-src 'self'; form-action 'self'; img-src 'self'; frame-ancestors 'self'; base-uri 'none'".to_string(),
        },
        Header { name: HeaderName::XContentTypeOptions, value: "nosniff".to_string() },
        Header { name: HeaderName::XFrameOptions, value: "SAMEORIGIN".to_string() },
    ]
}

#[test]
fn front_constants() {
    assert_eq!(READ_CAP, 8192);
    assert_eq!(MAX_PAYLOAD, 8192);
    assert_eq!(REPLY_WAIT_MILLIS, 2000);
}

#[test]
fn scan_head_of_no_headers_finds_nothing() {
    let r = scan_head(&Vec::new());
    assert_eq!(r.host, None);
    assert_eq!(r.length, None);
}

#[test]
fn scan_head_finds_host_and_length() {
    let r = scan_head(&vec![HeadField::Other, host("a.example"), HeadField::ContentLength(12)]);
    assert_eq!(r.host, Some(SmolStr::from("a.example")));
    assert_eq!(r.length, Some(12));
}

#[test]
fn scan_head_takes_the_first_of_each() {
    let r = scan_head(&vec![
        HeadField::ContentLength(5),
        host("a.example"),
        HeadField::Other,
        host("b.example"),
        HeadField::ContentLength(9000),
    ]);
    assert_eq!(r.host, Some(SmolStr::from("a.example")));
    assert_eq!(r.length, Some(5));
}

#[test]
fn scan_head_reads_on_after_both_kinds_of_other_headers() {
    let r = scan_head(&vec![HeadField::Other, HeadField::Other, HeadField::ContentLength(0)]);
    assert_eq!(r.host, None);
    assert_eq!(r.length, Some(0));
}

#[test]
fn secure_appends_the_four_headers() {
    let rep = HttpResponse::ok_text("body", "text/html");
    let out = secure(rep.clone());
    assert_eq!(out.status, rep.status);
    assert_eq!(out.payload, rep.payload);
    assert_eq!(out.headers.len(), 5);
    assert_eq!(out.headers[0], rep.headers[0]);
    assert_eq!(out.headers[1..].to_vec(), security_headers());
}

#[test]
fn secure_keeps_what_the_backend_set_itself() {
    let mut rep = HttpResponse::from_status(302);
    rep.headers.push(Header { name: HeaderName::XFrameOptions, value: "DENY".to_string() });
    rep.headers.push(Header {
        name: HeaderName::Other("Location".to_string()),
        value: "/".to_string(),
    });
    let out = secure(rep.clone());
    assert_eq!(out.status, 302);
    assert_eq!(out.headers[..2].to_vec(), rep.headers);
    assert_eq!(out.headers[2..].to_vec(), security_headers());
}

#[test]
fn failed_head_closes_without_an_answer() {
    let (x, action) = take(Exchange::new(), &config(), FrontEvent::HeadFailed);
    assert_eq!(x, Exchange::Done);
    assert!(matches!(action, FrontAction::Close));
}

#[test]
fn request_without_payload_is_converted_at_once() {
    let (x, action) = take(Exchange::new(), &config(), head(vec![host("a.example")], 120, 120));
    assert_eq!(x, Exchange::AwaitingRequest { port: 9000 });
    assert!(matches!(action, FrontAction::Convert { start: 120, end: 120 }));
}

#[test]
fn payload_that_came_with_the_head_is_taken_from_the_buffer() {
    let fields = vec![host("b.example"), HeadField::ContentLength(30)];
    let (x, action) = take(Exchange::new(), &config(), head(fields, 150, 120));
    assert_eq!(x, Exchange::AwaitingRequest { port: 9002 });
    assert!(matches!(action, FrontAction::Convert { start: 120, end: 150 }));
}

#[test]
fn bytes_after_the_declared_payload_are_left_out() {
    let fields = vec![host("a.example"), HeadField::ContentLength(10)];
    let (_, action) = take(Exchange::new(), &config(), head(fields, 200, 120));
    assert!(matches!(action, FrontAction::Convert { start: 120, end: 130 }));
}

#[test]
fn missing_payload_is_read_in_one_more_read() {
    let fields = vec![host("a.example"), HeadField::ContentLength(100)];
    let (x, action) = take(Exchange::new(), &config(), head(fields, 150, 120));
    assert_eq!(x, Exchange::AwaitingPayload { port: 9000, start: 120, end: 220 });
    assert!(matches!(action, FrontAction::ReadPayload { from: 150, to: 220, buf_len: 8192 }));
    let (x, action) = take(x, &config(), FrontEvent::PayloadRead { complete: true });
    assert_eq!(x, Exchange::AwaitingRequest { port: 9000 });
    assert!(matches!(action, FrontAction::Convert { start: 120, end: 220 }));
}

#[test]
fn buffer_grows_for_a_payload_beyond_the_first_read() {
    let fields = vec![host("a.example"), HeadField::ContentLength(8192)];
    let (x, action) = take(Exchange::new(), &config(), head(fields, 8192, 300));
    assert_eq!(x, Exchange::AwaitingPayload { port: 9000, start: 300, end: 8492 });
    assert!(matches!(action, FrontAction::ReadPayload { from: 8192, to: 8492, buf_len: 8492 }));
}

#[test]
fn short_payload_read_yields_400() {
    let x = Exchange::AwaitingPayload { port: 9000, start: 120, end: 220 };
    let (x, action) = take(x, &config(), FrontEvent::PayloadRead { complete: false });
    assert_eq!(x, Exchange::Done);
    assert!(refused(&action, 400));
}

#[test]
fn payload_at_the_ceiling_passes_and_one_byte_more_yields_400() {
    let at_ceiling = vec![host("a.example"), HeadField::ContentLength(8192)];
    let (x, _) = take(Exchange::new(), &config(), head(at_ceiling, 100, 100));
    assert_eq!(x, Exchange::AwaitingPayload { port: 9000, start: 100, end: 8292 });
    let above = vec![host("a.example"), HeadField::ContentLength(8193)];
    let (x, action) = take(Exchange::new(), &config(), head(above, 100, 100));
    assert_eq!(x, Exchange::Done);
    assert!(refused(&action, 400));
}

#[test]
fn huge_declared_payload_yields_400() {
    let fields = vec![host("a.example"), HeadField::ContentLength(u64::MAX)];
    let (x, action) = take(Exchange::new(), &config(), head(fields, 8192, 8192));
    assert_eq!(x, Exchange::Done);
    assert!(refused(&action, 400));
}

#[test]
fn unknown_host_yields_404_before_the_payload_is_looked_at() {
    let fields = vec![host("c.example"), HeadField::ContentLength(9000)];
    let (x, action) = take(Exchange::new(), &config(), head(fields, 100, 100));
    assert_eq!(x, Exchange::Done);
    assert!(refused(&action, 404));
}

#[test]
fn missing_host_takes_the_default_port() {
    let mut cfg = config();
    cfg.set_default_port(9004).unwrap();
    let (x, _) = take(Exchange::new(), &cfg, head(vec![HeadField::Other], 80, 80));
    assert_eq!(x, Exchange::AwaitingRequest { port: 9004 });
    let (x, _) = take(Exchange::new(), &cfg, head(vec![host("c.example")], 80, 80));
    assert_eq!(x, Exchange::AwaitingRequest { port: 9004 });
    let (x, _) = take(Exchange::new(), &cfg, head(vec![host("b.example")], 80, 80));
    assert_eq!(x, Exchange::AwaitingRequest { port: 9002 });
}

#[test]
fn failed_conversion_yields_400() {
    let x = Exchange::AwaitingRequest { port: 9000 };
    let (x, action) = take(x, &config(), FrontEvent::Converted { ok: false });
    assert_eq!(x, Exchange::Done);
    assert!(refused(&action, 400));
}

#[test]
fn converted_request_goes_to_the_mailbox_of_its_port() {
    let x = Exchange::AwaitingRequest { port: 9002 };
    let (x, action) = take(x, &config(), FrontEvent::Converted { ok: true });
    assert_eq!(x, Exchange::AwaitingMailbox);
    assert!(matches!(action, FrontAction::Send { port: 9002 }));
    let (x, action) = take(x, &config(), FrontEvent::Sent { outcome: SendOutcome::Queued });
    assert_eq!(x, Exchange::AwaitingReply);
    assert!(matches!(action, FrontAction::AwaitReply { timeout_millis: 2000 }));
}

#[test]
fn mailbox_that_is_missing_or_closed_yields_404() {
    for outcome in [SendOutcome::NoMailbox, SendOutcome::WorkerGone] {
        let (x, action) = take(Exchange::AwaitingMailbox, &config(), FrontEvent::Sent { outcome });
        assert_eq!(x, Exchange::Done);
        assert!(refused(&action, 404));
    }
}

#[test]
fn no_reply_in_time_yields_404() {
    let event = FrontEvent::Replied { reply: ReplyOutcome::TimedOut };
    let (x, action) = take(Exchange::AwaitingReply, &config(), event);
    assert_eq!(x, Exchange::Done);
    assert!(refused(&action, 404));
}

#[test]
fn backend_without_a_match_yields_404() {
    let event = FrontEvent::Replied { reply: ReplyOutcome::NoMatch };
    let (x, action) = take(Exchange::AwaitingReply, &config(), event);
    assert_eq!(x, Exchange::Done);
    assert!(refused(&action, 404));
}

#[test]
fn backend_response_goes_out_with_the_security_headers() {
    let rep = HttpResponse::ok_text("hello", "text/plain");
    let event = FrontEvent::Replied { reply: ReplyOutcome::Response(rep.clone()) };
    let (x, action) = take(Exchange::AwaitingReply, &config(), event);
    assert_eq!(x, Exchange::Done);
    match action {
        FrontAction::Respond { response } => {
            assert_eq!(response.status, 200);
            assert_eq!(response.payload, b"hello".to_vec());
            let mut want = rep.headers.clone();
            want.extend(security_headers());
            assert_eq!(response.headers, want);
        }
        _ => panic!("a response is due"),
    }
}

#[test]
fn backend_error_status_is_passed_on_with_the_headers() {
    let rep = HttpResponse::from_status(500);
    let event = FrontEvent::Replied { reply: ReplyOutcome::Response(rep) };
    let (_, action) = take(Exchange::AwaitingReply, &config(), event);
    match action {
        FrontAction::Respond { response } => {
            assert_eq!(response.status, 500);
            assert_eq!(response.headers, security_headers());
        }
        _ => panic!("a response is due"),
    }
}

#[test]
fn finished_connection_takes_no_event() {
    let done = Exchange::Done;
    assert!(!done.can_take(&FrontEvent::HeadFailed));
    assert!(!done.can_take(&head(Vec::new(), 0, 0)));
    assert!(!done.can_take(&FrontEvent::Converted { ok: true }));
    assert!(!done.can_take(&FrontEvent::Sent { outcome: SendOutcome::Queued }));
    assert!(!done.can_take(&FrontEvent::Replied { reply: ReplyOutcome::NoMatch }));
    assert!(!done.can_take(&FrontEvent::PayloadRead { complete: true }));
}

#[test]
fn head_that_does_not_fit_its_read_is_not_admitted() {
    let x = Exchange::new();
    assert!(!x.can_take(&head(Vec::new(), 100, 101)));
    assert!(!x.can_take(&head(Vec::new(), 8193, 100)));
    assert!(x.can_take(&head(Vec::new(), 8192, 8192)));
    assert!(x.can_take(&head(Vec::new(), 0, 0)));
    assert!(!x.can_take(&FrontEvent::Converted { ok: true }));
}
