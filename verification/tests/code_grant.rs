use std::sync::mpsc::{sync_channel, Receiver};

use client_auth::code_grant_pkce::{
    auth_request_pairs, build_token_request, handle_token_response, serve, State, TokenResponse,
    SUCCESS_AFTER_REDIRECT,
};
use client_auth::redirect_uri_for_port;
use client_auth::response::REDIRECT_WITH_AUTH_JSON;
use client_auth::request::HttpMethod;
use client_auth::response::MediaType;

fn flow_state(expected: &str) -> (State, Receiver<String>, Receiver<()>) {
    let (code_tx, code_rx) = sync_channel(1);
    let (shutdown_tx, shutdown_rx) = sync_channel(1);
    let state = State::new(
        "https://auth.example/authorize?client_id=me".to_owned(),
        expected.to_owned(),
        code_tx,
        shutdown_tx,
    );
    (state, code_rx, shutdown_rx)
}

#[test]
fn root_serves_redirect_page() {
    let (mut state, _code_rx, _shutdown_rx) = flow_state("xyz");
    let r = serve(&mut state, &HttpMethod::Get, "/", "/");
    assert_eq!(r.status, 200);
    assert_eq!(r.media_type, MediaType::Html);
    assert_eq!(r.body, REDIRECT_WITH_AUTH_JSON);
}

#[test]
fn auth_detail_serves_json_url() {
    let (mut state, _code_rx, _shutdown_rx) = flow_state("xyz");
    let r = serve(&mut state, &HttpMethod::Get, "/auth_detail.json", "/auth_detail.json");
    assert_eq!(r.status, 200);
    assert_eq!(r.media_type, MediaType::Json);
    assert_eq!(r.body, "\"https://auth.example/authorize?client_id=me\"");
}

#[test]
fn unknown_route_is_not_found() {
    let (mut state, _code_rx, _shutdown_rx) = flow_state("xyz");
    let r = serve(&mut state, &HttpMethod::Post, "/redirect", "/redirect?code=a&state=xyz");
    assert_eq!(r.status, 404);
    let r = serve(&mut state, &HttpMethod::Get, "/nope", "/nope");
    assert_eq!(r.status, 404);
}

#[test]
fn valid_redirect_delivers_code_then_shuts_down() {
    let (mut state, code_rx, shutdown_rx) = flow_state("xyz");
    let r = serve(&mut state, &HttpMethod::Get, "/redirect", "/redirect?code=abc123&state=xyz");
    assert_eq!(r.status, 200);
    assert_eq!(r.body, SUCCESS_AFTER_REDIRECT);
    // The shutdown signal has fired, and the credential is already there:
    // a non-blocking receive after shutdown never comes up empty.
    shutdown_rx.try_recv().expect("shutdown signal fired");
    assert_eq!(code_rx.try_recv().expect("code delivered before shutdown"), "abc123");
}

#[test]
fn redirect_decodes_percent_escapes() {
    let (mut state, code_rx, _shutdown_rx) = flow_state("a b");
    let r = serve(&mut state, &HttpMethod::Get, "/redirect", "/redirect?code=c%20d&state=a%20b");
    assert_eq!(r.status, 200);
    assert_eq!(code_rx.try_recv().unwrap(), "c d");
}

#[test]
fn mismatched_state_delivers_nothing() {
    let (mut state, code_rx, shutdown_rx) = flow_state("xyz");
    let r = serve(&mut state, &HttpMethod::Get, "/redirect", "/redirect?code=abc123&state=wrong");
    assert_eq!(r.status, 500);
    assert_eq!(r.body, "Mismatched auth states after redirect");
    assert!(code_rx.try_recv().is_err());
    assert!(shutdown_rx.try_recv().is_err());
}

#[test]
fn replayed_redirect_fails() {
    let (mut state, code_rx, shutdown_rx) = flow_state("xyz");
    let first = serve(&mut state, &HttpMethod::Get, "/redirect", "/redirect?code=abc123&state=xyz");
    assert_eq!(first.status, 200);
    let second = serve(
        &mut state,
        &HttpMethod::Get,
        "/redirect",
        "/redirect?code=abc123&state=xyz",
    );
    assert_eq!(second.status, 500);
    assert_eq!(second.body, "Authentication already completed for this flow");
    // The one delivery stands; the replay added nothing.
    shutdown_rx.try_recv().expect("first completion fired shutdown");
    assert!(shutdown_rx.try_recv().is_err());
    assert_eq!(code_rx.try_recv().unwrap(), "abc123");
    assert!(code_rx.try_recv().is_err());
}

#[test]
fn missing_code_fails() {
    let (mut state, code_rx, _shutdown_rx) = flow_state("xyz");
    let r = serve(&mut state, &HttpMethod::Get, "/redirect", "/redirect?state=xyz");
    assert_eq!(r.status, 500);
    assert_eq!(r.body, "Failed to handle response from redirect: No code found in response");
    assert!(code_rx.try_recv().is_err());
}

#[test]
fn missing_state_fails() {
    let (mut state, code_rx, _shutdown_rx) = flow_state("xyz");
    let r = serve(&mut state, &HttpMethod::Get, "/redirect", "/redirect?code=abc123");
    assert_eq!(r.status, 500);
    assert_eq!(r.body, "Failed to handle response from redirect: No state found in response");
    assert!(code_rx.try_recv().is_err());
}

#[test]
fn token_response_bearer_any_case() {
    let res = TokenResponse {
        access_token: "tok".to_owned(),
        token_type: "Bearer".to_owned(),
        expires_in: 3600,
    };
    let (token, expires_at) = handle_token_response(res, 1000).expect("bearer accepted");
    assert_eq!(token, "tok");
    assert_eq!(expires_at, 4600);
}

#[test]
fn token_response_not_bearer_fails() {
    let res = TokenResponse {
        access_token: "tok".to_owned(),
        token_type: "Basic".to_owned(),
        expires_in: 3600,
    };
    let e = handle_token_response(res, 1000).unwrap_err();
    assert_eq!(e.message(), "Token type in response is not bearer");
}

#[test]
fn token_request_grant_type() {
    let r = build_token_request("me", "ver", "abc123", "http://localhost:12731/redirect");
    assert_eq!(r.client_id, "me");
    assert_eq!(r.code_verifier, "ver");
    assert_eq!(r.code, "abc123");
    assert_eq!(r.grant_type, "authorization_code");
    assert_eq!(r.redirect_uri, "http://localhost:12731/redirect");
}

#[test]
fn auth_request_pairs_in_order() {
    let pairs = auth_request_pairs("me", "http://localhost:12731/redirect", "xyz", "chal");
    let expected: Vec<(String, String)> = vec![
        ("client_id".to_owned(), "me".to_owned()),
        ("code_challenge".to_owned(), "chal".to_owned()),
        ("code_challenge_method".to_owned(), "S256".to_owned()),
        ("redirect_uri".to_owned(), "http://localhost:12731/redirect".to_owned()),
        ("response_type".to_owned(), "code".to_owned()),
        ("state".to_owned(), "xyz".to_owned()),
    ];
    assert_eq!(pairs, expected);
}

#[test]
fn finish_url_appends_encoded_pairs() {
    let mut url = url::Url::parse("https://auth.example/authorize").unwrap();
    client_auth::code_grant_pkce::finish_url(
        "me",
        &mut url,
        "http://localhost:12731/redirect",
        "xy z",
        "chal",
    );
    assert_eq!(
        url.as_str(),
        "https://auth.example/authorize?client_id=me&code_challenge=chal&code_challenge_method=S256&redirect_uri=http%3A%2F%2Flocalhost%3A12731%2Fredirect&response_type=code&state=xy+z"
    );
}

#[test]
fn prepare_code_flow_wires_state_into_url() {
    let mut url = url::Url::parse("https://auth.example/authorize").unwrap();
    let (code_tx, _code_rx) = sync_channel::<String>(1);
    let (shutdown_tx, _shutdown_rx) = sync_channel::<()>(1);
    let p = client_auth::code_grant_pkce::prepare_flow("me", &mut url, 12731, code_tx, shutdown_tx)
        .expect("random source");
    assert_eq!(p.redirect_uri, "http://localhost:12731/redirect");
    assert_eq!(p.state.auth_url, url.as_str());
    assert_eq!(p.state.auth_state_value.len(), 32);
    let pairs: Vec<(String, String)> =
        url.query_pairs().map(|(k, v)| (k.into_owned(), v.into_owned())).collect();
    assert!(pairs.contains(&("client_id".to_owned(), "me".to_owned())));
    assert!(pairs.contains(&("code_challenge_method".to_owned(), "S256".to_owned())));
    assert!(pairs.contains(&("redirect_uri".to_owned(), p.redirect_uri.clone())));
    assert!(pairs.contains(&("response_type".to_owned(), "code".to_owned())));
    assert!(pairs.contains(&("state".to_owned(), p.state.auth_state_value.clone())));
    // The challenge placed in the URL re-derives from the retained verifier.
    let challenge = client_auth::code_grant_pkce::derive_challenge(&p.verifier);
    assert!(pairs.contains(&("code_challenge".to_owned(), challenge)));
}

#[test]
fn exchange_status_handling() {
    assert!(client_auth::code_grant_pkce::http_status_is_success(200));
    assert!(client_auth::code_grant_pkce::http_status_is_success(204));
    assert!(!client_auth::code_grant_pkce::http_status_is_success(302));
    assert!(!client_auth::code_grant_pkce::http_status_is_success(403));
    assert_eq!(
        client_auth::code_grant_pkce::exchange_status_error("https://auth.example/token", 403),
        "Sending code to https://auth.example/token failed, HTTP error: 403"
    );
}

#[test]
fn redirect_uri_renders_port() {
    assert_eq!(redirect_uri_for_port(12731), "http://localhost:12731/redirect");
    assert_eq!(redirect_uri_for_port(80), "http://localhost:80/redirect");
}
