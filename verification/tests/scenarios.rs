use proxy_gateway::clock::Stamp;
use proxy_gateway::front::{
    Exchange, FrontAction, FrontEvent, HeadField, ReplyOutcome, SendOutcome,
};
use proxy_gateway::http::{Header, HeaderName, HttpRequest, HttpResponse, Method};
use proxy_gateway::worker::{Action, Event, Job, Msg, Phase, Worker};
use proxy_gateway::ProxyGatewayConfig;
use smol_str::SmolStr;

fn at(sec: i64, nsec: i32) -> Stamp {
    Stamp { sec, nsec }
}

fn request() -> HttpRequest {
    HttpRequest {
        method: Method::Get,
        path: vec!["index.html".to_string()],
        headers: Vec::new(),
        payload: Vec::new(),
    }
}

fn one_host() -> ProxyGatewayConfig {
    let mut cfg = ProxyGatewayConfig::new();
    cfg.map_host_to_port("a.example", 9000).unwrap();
    cfg
}

fn head_for(host: &str) -> FrontEvent {
    FrontEvent::HeadDecoded {
        fields: vec![HeadField::Host(SmolStr::from(host))],
        read_len: 64,
        header_len: 64,
    }
}

fn front(x: Exchange, cfg: &ProxyGatewayConfig, event: FrontEvent) -> (Exchange, FrontAction) {
    assert!(x.can_take(&event));
    x.step(cfg, event)
}

fn back(w: Worker<u8>, event: Event<u8>) -> (Worker<u8>, Action<u8>) {
    assert!(w.is_valid());
    assert!(w.can_take(&event));
    w.step(event)
}

/// Takes a connection up to the point where its request is in the mailbox.
fn dispatch(cfg: &ProxyGatewayConfig, host: &str) -> (Exchange, u16) {
    let (x, action) = front(Exchange::new(), cfg, head_for(host));
    assert!(matches!(action, FrontAction::Convert { start: 64, end: 64 }));
    let (x, action) = front(x, cfg, FrontEvent::Converted { ok: true });
    let port = match action {
        FrontAction::Send { port } => port,
        _ => panic!("the request is to be sent"),
    };
    let (x, action) = front(x, cfg, FrontEvent::Sent { outcome: SendOutcome::Queued });
    assert!(matches!(action, FrontAction::AwaitReply { timeout_millis: 2000 }));
    (x, port)
}

#[test]
fn scenario_unknown_host_without_default_yields_404_and_no_dispatch() {
    let cfg = one_host();
    assert_eq!(cfg.default_port(), None);
    let (x, action) = front(Exchange::new(), &cfg, head_for("b.example"));
    match action {
        FrontAction::Respond { response } => assert_eq!(response, HttpResponse::from_status(404)),
        _ => panic!("the request is to be refused"),
    }
    // The connection is finished: nothing can bring it to a worker any more.
    assert_eq!(x, Exchange::Done);
    assert!(!x.can_take(&FrontEvent::Converted { ok: true }));
    assert!(!x.can_take(&FrontEvent::Sent { outcome: SendOutcome::Queued }));
}

#[test]
fn scenario_unreachable_backend_is_retried_without_end() {
    let cfg = one_host();
    let (x, port) = dispatch(&cfg, "a.example");
    assert_eq!(port, 9000);

    // The worker never gets past its two ports, and never stops.
    let (mut w, mut action) = back(Worker::new(port), Event::Started);
    let mut tried = Vec::new();
    for _ in 0..20 {
        match action {
            Action::Connect { port, timeout_millis } => {
                assert_eq!(timeout_millis, 2000);
                tried.push(port);
            }
            _ => panic!("the worker is to connect"),
        }
        let (next, pause) = back(w, Event::ConnectFailed);
        assert!(matches!(pause, Action::Pause { millis: 2000 }));
        assert_eq!(next.phase, Phase::Pausing);
        let (next, connect) = back(next, Event::Woke);
        w = next;
        action = connect;
    }
    let want: Vec<u16> = (0..20).map(|i| if i % 2 == 0 { 9000 } else { 9001 }).collect();
    assert_eq!(tried, want);

    // The client, meanwhile, is answered when its wait is over.
    let (x, answer) = front(x, &cfg, FrontEvent::Replied { reply: ReplyOutcome::TimedOut });
    assert_eq!(x, Exchange::Done);
    match answer {
        FrontAction::Respond { response } => assert_eq!(response, HttpResponse::from_status(404)),
        _ => panic!("the client is to be answered"),
    }

    // When the backend comes back at last, the request has gone stale and is dropped.
    let (w, _) = back(w, Event::Connected);
    let (w, _) = back(w, Event::Probed { answer: Some(Msg::OKR), now: at(140, 0) });
    let waiting = Job { enqueued: at(100, 0), request: request(), reply: 1u8 };
    let (w, action) = back(w, Event::Dequeued { job: waiting, now: at(140, 0) });
    assert!(matches!(action, Action::Receive));
    assert!(w.in_flight.is_none());
}

#[test]
fn scenario_backend_answers_in_time() {
    let cfg = one_host();
    let (x, port) = dispatch(&cfg, "a.example");
    assert_eq!(port, 9000);

    let (w, _) = back(Worker::new(port), Event::Started);
    let (w, _) = back(w, Event::Connected);
    let (w, _) = back(w, Event::Probed { answer: Some(Msg::OKR), now: at(99, 0) });
    let job = Job { enqueued: at(100, 0), request: request(), reply: 1u8 };
    let (w, action) = back(w, Event::Dequeued { job, now: at(100, 1_000_000) });
    assert!(matches!(action, Action::Forward));
    assert_eq!(w.in_flight.as_ref().map(|j| j.request.clone()), Some(request()));

    // The backend answers within a tenth of a second.
    let mut answer = HttpResponse::ok_text("<p>hello</p>", "text/html");
    answer.status = 201;
    let (_, action) = back(w, Event::Answered { answer: Some(Msg::H1P(answer.clone())) });
    let reply = match action {
        Action::Deliver { reply: 1, response: Some(rep) } => rep,
        _ => panic!("the reply is to be delivered"),
    };

    let (x, action) = front(x, &cfg, FrontEvent::Replied { reply: ReplyOutcome::Response(reply) });
    assert_eq!(x, Exchange::Done);
    let sent = match action {
        FrontAction::Respond { response } => response,
        _ => panic!("the client is to be answered"),
    };
    assert_eq!(sent.status, 201);
    assert_eq!(sent.payload, b"<p>hello</p>".to_vec());
    assert_eq!(
        sent.headers,
        vec![
            Header { name: HeaderName::ContentType, value: "text/html".to_string() },
            Header {
                name: HeaderName::StrictTransportSecurity,
                value: "max-age=63072000".to_string(),
            },
            Header {
                name: HeaderName::ContentSecurityPolicy,
                value: "default-src 'none'; script-src 'self'; style-src 'self'; connect-src 'self'; form-action 'self'; img-src 'self'; frame-ancestors 'self'; base-uri 'none'".to_string(),
            },
            Header { name: HeaderName::XContentTypeOptions, value: "nosniff".to_string() },
            Header { name: HeaderName::XFrameOptions, value: "SAMEORIGIN".to_string() },
        ]
    );
}

#[test]
fn scenario_backend_without_a_match_gives_the_client_404() {
    let cfg = one_host();
    let (x, port) = dispatch(&cfg, "a.example");
    let (w, _) = back(Worker::new(port), Event::Started);
    let (w, _) = back(w, Event::Connected);
    let (w, _) = back(w, Event::Probed { answer: Some(Msg::OKR), now: at(99, 0) });
    let job = Job { enqueued: at(100, 0), request: request(), reply: 1u8 };
    let (w, _) = back(w, Event::Dequeued { job, now: at(100, 0) });
    let (_, action) = back(w, Event::Answered { answer: Some(Msg::Top) });
    assert!(matches!(action, Action::Deliver { reply: 1, response: None }));
    let (_, action) = front(x, &cfg, FrontEvent::Replied { reply: ReplyOutcome::NoMatch });
    match action {
        FrontAction::Respond { response } => assert_eq!(response, HttpResponse::from_status(404)),
        _ => panic!("the client is to be answered"),
    }
}

#[test]
fn scenario_requests_are_served_in_mailbox_order() {
    let (w, _) = back(Worker::new(9000), Event::Started);
    let (w, _) = back(w, Event::Connected);
    let (mut w, _) = back(w, Event::Probed { answer: Some(Msg::OKR), now: at(99, 0) });
    let mut served = Vec::new();
    for slot in [4u8, 2, 9] {
        let job = Job { enqueued: at(100, 0), request: request(), reply: slot };
        let (next, forward) = back(w, Event::Dequeued { job, now: at(100, 0) });
        assert!(matches!(forward, Action::Forward));
        // While one request is in flight the worker takes no other.
        let other = Job { enqueued: at(100, 0), request: request(), reply: 0u8 };
        assert!(!next.can_take(&Event::Dequeued { job: other, now: at(100, 0) }));
        let (next, deliver) = back(next, Event::Answered { answer: Some(Msg::Top) });
        match deliver {
            Action::Deliver { reply, response: None } => served.push(reply),
            _ => panic!("the reply is to be delivered"),
        }
        let (next, receive) = back(next, Event::Delivered);
        assert!(matches!(receive, Action::Receive));
        w = next;
    }
    assert_eq!(served, vec![4, 2, 9]);
}
