use proxy_gateway::acme::{
    account_contact, challenge_path, credential_paths, publish_challenge, retract_challenge,
    CHALLENGE_PORT,
};
use proxy_gateway::http::{HttpRequest, HttpResponse, Method};
use proxy_gateway::route::Router;

type Handler = Box<dyn Fn(&HttpRequest) -> HttpResponse>;

fn challenge_request(token: &str) -> HttpRequest {
    HttpRequest {
        method: Method::Get,
        path: vec![".well-known".to_string(), "acme-challenge".to_string(), token.to_string()],
        headers: Vec::new(),
        payload: Vec::new(),
    }
}

fn proof_handler(proof: &str) -> Handler {
    let proof = proof.to_string();
    Box::new(move |_| HttpResponse::ok_text(&proof, "text/plain"))
}

#[test]
fn challenge_path_is_the_well_known_one() {
    assert_eq!(CHALLENGE_PORT, 80);
    assert_eq!(challenge_path("tok123"), vec![".well-known", "acme-challenge", "tok123"]);
    assert_eq!(challenge_path(""), vec![".well-known", "acme-challenge", ""]);
}

#[test]
fn account_contact_is_the_dns_mailbox() {
    assert_eq!(account_contact("a.example"), "dns@a.example");
    assert_eq!(account_contact(""), "dns@");
}

#[test]
fn credentials_lie_under_the_acme_directory() {
    let (crt, key) = credential_paths("a.example");
    assert_eq!(crt, "/var/tmp/acme/a.example.crt");
    assert_eq!(key, "/var/tmp/acme/a.example.key");
}

#[test]
fn published_challenge_is_answered_with_its_proof() {
    let mut router: Router<Handler> = Router::new();
    publish_challenge(&mut router, "tok123", proof_handler("tok123.thumbprint"));
    let rep = router.match_(80, &challenge_request("tok123")).unwrap();
    assert_eq!(rep.status, 200);
    assert_eq!(rep.payload, b"tok123.thumbprint".to_vec());
    assert_eq!(router.match_(80, &challenge_request("other")), None);
    assert_eq!(router.match_(443, &challenge_request("tok123")), None);
}

#[test]
fn retracted_challenge_is_gone() {
    let mut router: Router<Handler> = Router::new();
    router.insert(80, Method::Get, vec!["about".to_string()], proof_handler("about"));
    publish_challenge(&mut router, "tok123", proof_handler("proof"));
    assert_eq!(router.len(), 2);
    assert!(retract_challenge(&mut router, "tok123").is_some());
    assert_eq!(router.match_(80, &challenge_request("tok123")), None);
    assert_eq!(router.len(), 1);
    assert!(retract_challenge(&mut router, "tok123").is_none());
    assert_eq!(router.len(), 1);
}

#[test]
fn second_challenge_replaces_nothing_but_its_own_token() {
    let mut router: Router<Handler> = Router::new();
    publish_challenge(&mut router, "one", proof_handler("first"));
    publish_challenge(&mut router, "two", proof_handler("second"));
    publish_challenge(&mut router, "one", proof_handler("third"));
    assert_eq!(router.len(), 2);
    let one = router.match_(80, &challenge_request("one")).unwrap();
    assert_eq!(one.payload, b"third".to_vec());
    let two = router.match_(80, &challenge_request("two")).unwrap();
    assert_eq!(two.payload, b"second".to_vec());
}
