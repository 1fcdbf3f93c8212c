use hyproxy::config::GeneralConfig;
use hyproxy::forward::{
    forward_response, join_target, not_found_response, plan_request, BackendReply, Outcome, Plan,
    STATUS_NOT_FOUND, STATUS_SERVICE_UNAVAILABLE,
};
use hyproxy::routes::Routes;

fn table(entries: &[(&str, &str)]) -> Routes {
    let paths: Vec<(String, String)> = entries
        .iter()
        .map(|(p, o)| (p.to_string(), o.to_string()))
        .collect();
    Routes::build(&paths).expect("valid table")
}

#[test]
fn end_to_end_forwarding_decision_and_reply() {
    // Route table {"/api": "http://localhost:9000"}; GET /api/users is
    // forwarded to http://localhost:9000/users, and the backend's
    // 200 "ok" reply passes through unchanged.
    let t = table(&[("/api", "http://localhost:9000")]);
    match plan_request(&t, "/api/users") {
        Plan::Forward { target, use_tls } => {
            assert_eq!(target, "http://localhost:9000/users");
            assert!(!use_tls);
        }
        Plan::NotFound => panic!("/api/users must be forwarded"),
    }
    let reply = BackendReply {
        status: 200,
        headers: vec![("content-type".to_string(), "text/plain".to_string())],
        body: b"ok".to_vec(),
    };
    let resp = forward_response(Outcome::Reply(reply));
    assert_eq!(resp.status, 200);
    assert_eq!(resp.headers, vec![("content-type".to_string(), "text/plain".to_string())]);
    assert_eq!(resp.body, b"ok".to_vec());
}

#[test]
fn exact_match_forwards_to_the_bare_origin() {
    let t = table(&[("/api", "http://localhost:9000")]);
    match plan_request(&t, "/api") {
        Plan::Forward { target, use_tls } => {
            assert_eq!(target, "http://localhost:9000");
            assert!(!use_tls);
        }
        Plan::NotFound => panic!("/api must be forwarded"),
    }
}

#[test]
fn unmatched_request_is_answered_404_with_no_outbound_call() {
    let t = table(&[("/api", "http://localhost:9000")]);
    match plan_request(&t, "/nothing/here") {
        Plan::NotFound => {}
        Plan::Forward { target, .. } => panic!("no call may be planned, got {}", target),
    }
    let resp = not_found_response();
    assert_eq!(resp.status, STATUS_NOT_FOUND);
    assert_eq!(resp.status, 404);
    assert!(resp.headers.is_empty());
    assert!(resp.body.is_empty());
}

#[test]
fn https_origin_is_forwarded_over_tls() {
    let t = table(&[("/secure", "https://backend.example:8443")]);
    match plan_request(&t, "/secure/data") {
        Plan::Forward { target, use_tls } => {
            assert_eq!(target, "https://backend.example:8443/data");
            assert!(use_tls);
        }
        Plan::NotFound => panic!("/secure/data must be forwarded"),
    }
}

#[test]
fn transport_failure_is_answered_503() {
    let resp = forward_response(Outcome::TransportFailed);
    assert_eq!(resp.status, STATUS_SERVICE_UNAVAILABLE);
    assert_eq!(resp.status, 503);
    assert!(resp.headers.is_empty());
    assert!(resp.body.is_empty());
}

#[test]
fn backend_status_passes_through_unchanged() {
    for status in [204u16, 301, 404, 500] {
        let reply = BackendReply { status, headers: vec![], body: vec![] };
        let resp = forward_response(Outcome::Reply(reply));
        assert_eq!(resp.status, status);
    }
}

#[test]
fn join_target_concatenates_origin_and_suffix() {
    assert_eq!(join_target("http://localhost:9000", "/users"), "http://localhost:9000/users");
    assert_eq!(join_target("http://localhost:9000", ""), "http://localhost:9000");
}

#[test]
fn tls_termination_is_enabled_only_with_key_and_passphrase() {
    let with_both = GeneralConfig {
        listen_addr: "127.0.0.1:8443".to_string(),
        tls_key: Some("identity.p12".to_string()),
        tls_password: Some("bundle-passphrase".to_string()),
    };
    assert!(with_both.tls_enabled());

    let without_key = GeneralConfig {
        listen_addr: "127.0.0.1:8080".to_string(),
        tls_key: None,
        tls_password: Some("bundle-passphrase".to_string()),
    };
    assert!(!without_key.tls_enabled());

    let without_password = GeneralConfig {
        listen_addr: "127.0.0.1:8080".to_string(),
        tls_key: Some("identity.p12".to_string()),
        tls_password: None,
    };
    assert!(!without_password.tls_enabled());

    let plaintext = GeneralConfig {
        listen_addr: "127.0.0.1:8080".to_string(),
        tls_key: None,
        tls_password: None,
    };
    assert!(!plaintext.tls_enabled());
}
