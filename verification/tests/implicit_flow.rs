use std::sync::mpsc::{sync_channel, Receiver};

use client_auth::implicit::{serve, State, SAVE_AUTH_AFTER_REDIRECT};
use client_auth::request::HttpMethod;
use client_auth::response::MediaType;

const NOW: u64 = 1_000_000;

fn flow_state(expected: &str) -> (State, Receiver<String>, Receiver<()>) {
    let (token_tx, token_rx) = sync_channel(1);
    let (shutdown_tx, shutdown_rx) = sync_channel(1);
    let state = State::new(
        "https://auth.example/authorize?client_id=me".to_owned(),
        expected.to_owned(),
        token_tx,
        shutdown_tx,
    );
    (state, token_rx, shutdown_rx)
}

#[test]
fn redirect_serves_save_auth_page() {
    let (mut state, _token_rx, _shutdown_rx) = flow_state("xyz");
    let r = serve(&mut state, &HttpMethod::Get, "/redirect", "/redirect", NOW);
    assert_eq!(r.status, 200);
    assert_eq!(r.media_type, MediaType::Html);
    assert_eq!(r.body, SAVE_AUTH_AFTER_REDIRECT);
}

#[test]
fn save_auth_delivers_token_then_shuts_down() {
    let (mut state, token_rx, shutdown_rx) = flow_state("xyz");
    let r = serve(
        &mut state,
        &HttpMethod::Post,
        "/save_auth",
        "/save_auth?access_token=tok&token_type=bearer&expires_in=3600&state=xyz",
        NOW,
    );
    assert_eq!(r.status, 200);
    assert_eq!(r.media_type, MediaType::Json);
    assert_eq!(r.body, "\"\"");
    // 3600 s of validity is under the two-day threshold.
    assert!(r.warn_near_expiry);
    shutdown_rx.try_recv().expect("shutdown signal fired");
    assert_eq!(token_rx.try_recv().expect("token delivered before shutdown"), "tok");
}

#[test]
fn save_auth_long_validity_no_warning() {
    let (mut state, token_rx, _shutdown_rx) = flow_state("xyz");
    let r = serve(
        &mut state,
        &HttpMethod::Post,
        "/save_auth",
        "/save_auth?access_token=tok&token_type=bearer&expires_in=31536000&state=xyz",
        NOW,
    );
    assert_eq!(r.status, 200);
    assert!(!r.warn_near_expiry);
    assert_eq!(token_rx.try_recv().unwrap(), "tok");
}

#[test]
fn save_auth_token_type_basic_fails() {
    let (mut state, token_rx, shutdown_rx) = flow_state("xyz");
    let r = serve(
        &mut state,
        &HttpMethod::Post,
        "/save_auth",
        "/save_auth?access_token=tok&token_type=Basic&expires_in=3600&state=xyz",
        NOW,
    );
    assert_eq!(r.status, 500);
    assert_eq!(r.body, "Failed to save auth after redirect: Token type in response is not bearer");
    assert!(token_rx.try_recv().is_err());
    assert!(shutdown_rx.try_recv().is_err());
}

#[test]
fn save_auth_mismatched_state_delivers_nothing() {
    let (mut state, token_rx, shutdown_rx) = flow_state("xyz");
    let r = serve(
        &mut state,
        &HttpMethod::Post,
        "/save_auth",
        "/save_auth?access_token=tok&token_type=bearer&expires_in=3600&state=wrong",
        NOW,
    );
    assert_eq!(r.status, 500);
    assert_eq!(r.body, "Mismatched auth states after redirect");
    assert!(token_rx.try_recv().is_err());
    assert!(shutdown_rx.try_recv().is_err());
}

#[test]
fn save_auth_replay_fails() {
    let (mut state, token_rx, _shutdown_rx) = flow_state("xyz");
    let target = "/save_auth?access_token=tok&token_type=bearer&expires_in=3600&state=xyz";
    let first = serve(&mut state, &HttpMethod::Post, "/save_auth", target, NOW);
    assert_eq!(first.status, 200);
    let second = serve(&mut state, &HttpMethod::Post, "/save_auth", target, NOW);
    assert_eq!(second.status, 500);
    assert_eq!(second.body, "Authentication already completed for this flow");
    assert_eq!(token_rx.try_recv().unwrap(), "tok");
    assert!(token_rx.try_recv().is_err());
}

#[test]
fn save_auth_missing_fields() {
    let cases: Vec<(&str, &str)> = vec![
        ("/save_auth?token_type=bearer&expires_in=3600&state=xyz", "No token found in response"),
        ("/save_auth?access_token=tok&expires_in=3600&state=xyz", "No token type found in response"),
        ("/save_auth?access_token=tok&token_type=bearer&state=xyz", "No expiry found in response"),
        (
            "/save_auth?access_token=tok&token_type=bearer&expires_in=abc&state=xyz",
            "Failed to parse expiry as integer",
        ),
        (
            "/save_auth?access_token=tok&token_type=bearer&expires_in=3600",
            "No state found in response",
        ),
    ];
    for (target, message) in cases {
        let (mut state, token_rx, _shutdown_rx) = flow_state("xyz");
        let r = serve(&mut state, &HttpMethod::Post, "/save_auth", target, NOW);
        assert_eq!(r.status, 500);
        assert_eq!(r.body, format!("Failed to save auth after redirect: {}", message));
        assert!(token_rx.try_recv().is_err());
    }
}

#[test]
fn prepare_implicit_flow_wires_state_into_url() {
    let mut url = url::Url::parse("https://auth.example/authorize").unwrap();
    let (token_tx, _token_rx) = sync_channel::<String>(1);
    let (shutdown_tx, _shutdown_rx) = sync_channel::<()>(1);
    let p = client_auth::implicit::prepare_flow("me", &mut url, 32492, token_tx, shutdown_tx)
        .expect("random source");
    assert_eq!(p.redirect_uri, "http://localhost:32492/redirect");
    assert_eq!(p.state.auth_url, url.as_str());
    assert_eq!(p.state.auth_state_value.len(), 32);
    let pairs: Vec<(String, String)> =
        url.query_pairs().map(|(k, v)| (k.into_owned(), v.into_owned())).collect();
    assert!(pairs.contains(&("client_id".to_owned(), "me".to_owned())));
    assert!(pairs.contains(&("redirect_uri".to_owned(), p.redirect_uri.clone())));
    assert!(pairs.contains(&("response_type".to_owned(), "token".to_owned())));
    assert!(pairs.contains(&("state".to_owned(), p.state.auth_state_value.clone())));
}

#[test]
fn save_auth_requires_post() {
    let (mut state, token_rx, _shutdown_rx) = flow_state("xyz");
    let r = serve(
        &mut state,
        &HttpMethod::Get,
        "/save_auth",
        "/save_auth?access_token=tok&token_type=bearer&expires_in=3600&state=xyz",
        NOW,
    );
    assert_eq!(r.status, 404);
    assert!(token_rx.try_recv().is_err());
}
