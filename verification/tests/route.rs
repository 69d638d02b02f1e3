use proxy_gateway::http::{HttpRequest, HttpResponse, Method, STATUS_NOT_FOUND, STATUS_OK};
use proxy_gateway::route::{serve_plain, Router, PLAIN_PORT};

type Handler = Box<dyn Fn(&HttpRequest) -> HttpResponse>;

fn path(segments: &[&str]) -> Vec<String> {
    segments.iter().map(|s| s.to_string()).collect()
}

fn request(method: Method, segments: &[&str]) -> HttpRequest {
    HttpRequest { method, path: path(segments), headers: Vec::new(), payload: Vec::new() }
}

fn page(body: &'static str) -> Handler {
    Box::new(move |_| HttpResponse::ok_text(body, "text/html"))
}

#[test]
fn empty_router_matches_nothing() {
    let router: Router<Handler> = Router::new();
    assert_eq!(router.len(), 0);
    assert_eq!(router.match_(80, &request(Method::Get, &[])), None);
    assert!(!router.contains(80, Method::Get, &path(&[])));
}

#[test]
fn inserted_route_is_matched() {
    let mut router: Router<Handler> = Router::new();
    router.insert(80, Method::Get, path(&["about"]), page("about"));
    let rep = router.match_(80, &request(Method::Get, &["about"])).unwrap();
    assert_eq!(rep.status, STATUS_OK);
    assert_eq!(rep.payload, b"about".to_vec());
    assert_eq!(router.len(), 1);
}

#[test]
fn match_tells_port_method_and_path_apart() {
    let mut router: Router<Handler> = Router::new();
    router.insert(80, Method::Get, path(&["a", "b"]), page("ab"));
    assert!(router.match_(80, &request(Method::Get, &["a", "b"])).is_some());
    assert_eq!(router.match_(443, &request(Method::Get, &["a", "b"])), None);
    assert_eq!(router.match_(80, &request(Method::Post, &["a", "b"])), None);
    assert_eq!(router.match_(80, &request(Method::Get, &["a"])), None);
    assert_eq!(router.match_(80, &request(Method::Get, &["a", "b", "c"])), None);
    assert_eq!(router.match_(80, &request(Method::Get, &["b", "a"])), None);
    assert_eq!(router.match_(80, &request(Method::Get, &["ab"])), None);
    assert_eq!(router.match_(80, &request(Method::Get, &[])), None);
}

#[test]
fn root_path_is_a_key_of_its_own() {
    let mut router: Router<Handler> = Router::new();
    router.insert(80, Method::Get, path(&[]), page("Hello world!\n"));
    router.insert(80, Method::Get, path(&["about"]), page("It&rsquo;s about time.\n"));
    let root = router.match_(80, &request(Method::Get, &[])).unwrap();
    assert_eq!(root.payload, b"Hello world!\n".to_vec());
    let about = router.match_(80, &request(Method::Get, &["about"])).unwrap();
    assert_eq!(about.payload, b"It&rsquo;s about time.\n".to_vec());
    assert_eq!(router.len(), 2);
}

#[test]
fn last_insert_wins() {
    let mut router: Router<Handler> = Router::new();
    router.insert(80, Method::Get, path(&["x"]), page("first"));
    router.insert(80, Method::Get, path(&["y"]), page("other"));
    router.insert(80, Method::Get, path(&["x"]), page("second"));
    assert_eq!(router.len(), 2);
    let rep = router.match_(80, &request(Method::Get, &["x"])).unwrap();
    assert_eq!(rep.payload, b"second".to_vec());
    let other = router.match_(80, &request(Method::Get, &["y"])).unwrap();
    assert_eq!(other.payload, b"other".to_vec());
}

#[test]
fn removed_route_is_no_longer_matched() {
    let mut router: Router<Handler> = Router::new();
    router.insert(80, Method::Get, path(&["x"]), page("x"));
    router.insert(80, Method::Get, path(&["y"]), page("y"));
    let gone = router.remove(80, Method::Get, &path(&["x"]));
    assert!(gone.is_some());
    assert_eq!(router.match_(80, &request(Method::Get, &["x"])), None);
    assert!(router.match_(80, &request(Method::Get, &["y"])).is_some());
    assert_eq!(router.len(), 1);
}

#[test]
fn removing_what_is_not_there_changes_nothing() {
    let mut router: Router<Handler> = Router::new();
    router.insert(80, Method::Get, path(&["x"]), page("x"));
    assert!(router.remove(80, Method::Get, &path(&["z"])).is_none());
    assert!(router.remove(81, Method::Get, &path(&["x"])).is_none());
    assert_eq!(router.len(), 1);
    assert!(router.match_(80, &request(Method::Get, &["x"])).is_some());
}

#[test]
fn removed_handler_is_handed_back() {
    let mut router: Router<u32> = Router::new();
    router.insert(80, Method::Get, path(&["x"]), 7);
    router.insert(80, Method::Get, path(&["y"]), 8);
    router.insert(80, Method::Get, path(&["x"]), 9);
    assert_eq!(router.lookup(80, Method::Get, &path(&["x"])), Some(&9));
    assert_eq!(router.remove(80, Method::Get, &path(&["x"])), Some(9));
    assert_eq!(router.remove(80, Method::Get, &path(&["x"])), None);
    assert_eq!(router.lookup(80, Method::Get, &path(&["y"])), Some(&8));
    assert_eq!(router.lookup(80, Method::Get, &path(&["x"])), None);
}

#[test]
fn handler_sees_the_request() {
    let mut router: Router<Handler> = Router::new();
    router.insert(
        80,
        Method::Post,
        path(&["echo"]),
        Box::new(|req| HttpResponse {
            status: STATUS_OK,
            headers: Vec::new(),
            payload: req.payload.clone(),
        }),
    );
    let mut req = request(Method::Post, &["echo"]);
    req.payload = b"payload".to_vec();
    let rep = router.match_(80, &req).unwrap();
    assert_eq!(rep.payload, b"payload".to_vec());
}

#[test]
fn plain_gateway_serves_hits_and_answers_misses_with_404() {
    assert_eq!(PLAIN_PORT, 80);
    let mut router: Router<Handler> = Router::new();
    router.insert(80, Method::Get, path(&[]), page("Hello world!\n"));
    let hit = serve_plain(&router, &request(Method::Get, &[]));
    assert_eq!(hit.status, STATUS_OK);
    assert_eq!(hit.payload, b"Hello world!\n".to_vec());
    let miss = serve_plain(&router, &request(Method::Get, &["nothing"]));
    assert_eq!(miss, HttpResponse::from_status(STATUS_NOT_FOUND));
}

#[test]
fn many_routes_keep_their_handlers() {
    let mut router: Router<usize> = Router::new();
    for i in 0..50usize {
        router.insert(80, Method::Get, path(&["item", &i.to_string()]), i);
    }
    assert_eq!(router.len(), 50);
    for i in 0..50usize {
        assert_eq!(router.lookup(80, Method::Get, &path(&["item", &i.to_string()])), Some(&i));
    }
    for i in (0..50usize).filter(|i| i % 2 == 0) {
        assert_eq!(router.remove(80, Method::Get, &path(&["item", &i.to_string()])), Some(i));
    }
    assert_eq!(router.len(), 25);
    for i in 0..50usize {
        let want = if i % 2 == 0 { None } else { Some(&i) };
        assert_eq!(router.lookup(80, Method::Get, &path(&["item", &i.to_string()])), want);
    }
}
