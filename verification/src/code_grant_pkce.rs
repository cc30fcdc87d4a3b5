//! The Authorization Code + PKCE flow: verifier/challenge generation, the
//! provider-facing authorization URL, the redirect-capture route table with
//! CSRF state validation, and the handling of the code-for-token exchange
//! response. Completion pushes the code into the result channel and only
//! then consumes the one-shot shutdown signal, so the waiting caller never
//! observes "server stopped" before "credential available".
use vstd::prelude::*;
use vstd::string::StringExecFns;

use crate::errors::AuthError;
use crate::ext::{
    append_query_pair, b64url_encode, b64url_of, json_str_of, os_random_bytes, sha256_of,
    sha256_str, try_send_string, try_send_unit,
};
use crate::query::query_pairs;
use crate::request::HttpMethod;
use crate::response::{
    chained_error_response, error_response, html_response, json_response, not_found_response,
    HttpResponse, REDIRECT_WITH_AUTH_JSON,
};
use crate::strutil::{is_bearer_ci, lookup_pairs, pairs_view, str_eq, token_type_is_bearer};
use crate::{expires_at_from, sat_add_u64};

verus! {

/// The verifier carries 256 bits of randomness.
pub const NUM_CODE_VERIFIER_BYTES: usize = 256 / 8;

/// The page served after a successful redirect.
pub const SUCCESS_AFTER_REDIRECT: &'static str = r##"<!doctype html>
    <html lang="en">
    <head><meta charset="utf-8"></head>
    <body>In-browser step of authentication complete, you can now close this page!</body>
    </html>
    "##;

/// The PKCE challenge derived from a verifier: the URL-safe unpadded base64
/// rendering of the SHA-256 digest of the verifier's *encoded* text. The
/// token endpoint recomputes exactly this, so the text, not the raw bytes,
/// is what gets hashed.
pub open spec fn spec_challenge_of(verifier: Seq<char>) -> Seq<char> {
    b64url_of(sha256_of(verifier))
}

/// Draws 256 bits from the OS random source, encodes them as the verifier,
/// and derives the challenge from the verifier's encoded text. Fails exactly
/// when the random source is unavailable.
pub fn generate_verifier_and_challenge() -> (r: Result<(String, String), AuthError>)
    ensures
        r matches Ok(p) ==> p.1@ == spec_challenge_of(p.0@),
        r matches Ok(p) ==> exists|b: Seq<u8>|
            b.len() == NUM_CODE_VERIFIER_BYTES && p.0@ == b64url_of(b),
        r matches Ok(p) ==> p.0@.len() == 43 && p.1@.len() == 43,
        r matches Ok(p) ==> (forall|i: int|
            0 <= i < p.0@.len() ==> crate::strutil::is_b64url_char(#[trigger] p.0@[i])) && (
        forall|i: int|
            0 <= i < p.1@.len() ==> crate::strutil::is_b64url_char(#[trigger] p.1@[i])),
        r is Err ==> r == Result::<(String, String), AuthError>::Err(AuthError::RngUnavailable),
{
    match os_random_bytes(NUM_CODE_VERIFIER_BYTES) {
        None => Err(AuthError::RngUnavailable),
        Some(bytes) => {
            let verifier = b64url_encode(&bytes);
            let challenge = derive_challenge(verifier.as_str());
            Ok((verifier, challenge))
        },
    }
}

/// Re-derives the challenge from a verifier's encoded text: 43 characters
/// of the URL-safe base64 alphabet, encoding the 32-byte digest.
pub fn derive_challenge(verifier: &str) -> (r: String)
    ensures
        r@ == spec_challenge_of(verifier@),
        r@.len() == 43,
        forall|i: int| 0 <= i < r@.len() ==> crate::strutil::is_b64url_char(#[trigger] r@[i]),
{
    let digest = sha256_str(verifier);
    b64url_encode(&digest)
}

/// Law: re-deriving the challenge from the verifier reproduces the original
/// challenge. `challenge` is what `generate_verifier_and_challenge` paired
/// with the verifier, `rederived` what `derive_challenge` later returns for
/// it — each fixed by that function's contract — and the two agree.
pub proof fn lemma_challenge_round_trip(
    verifier: Seq<char>,
    challenge: Seq<char>,
    rederived: Seq<char>,
)
    requires
        challenge == spec_challenge_of(verifier),
        rederived == spec_challenge_of(verifier),
    ensures
        rederived == challenge,
{
}

/// The query parameters the authorization request appends, in order:
/// client, challenge and its method, redirect target, response type, and
/// the per-flow CSRF state value.
pub open spec fn spec_auth_request_pairs(
    client_id: Seq<char>,
    redirect_uri: Seq<char>,
    state: Seq<char>,
    code_challenge: Seq<char>,
) -> Seq<(Seq<char>, Seq<char>)> {
    seq![
        ("client_id"@, client_id),
        ("code_challenge"@, code_challenge),
        ("code_challenge_method"@, "S256"@),
        ("redirect_uri"@, redirect_uri),
        ("response_type"@, "code"@),
        ("state"@, state),
    ]
}

/// Builds the authorization request's query pairs.
pub fn auth_request_pairs(
    client_id: &str,
    redirect_uri: &str,
    state: &str,
    code_challenge: &str,
) -> (r: Vec<(String, String)>)
    ensures
        pairs_view(r@) == spec_auth_request_pairs(
            client_id@,
            redirect_uri@,
            state@,
            code_challenge@,
        ),
{
    let mut v: Vec<(String, String)> = Vec::new();
    v.push(("client_id".to_owned(), client_id.to_owned()));
    v.push(("code_challenge".to_owned(), code_challenge.to_owned()));
    v.push(("code_challenge_method".to_owned(), "S256".to_owned()));
    v.push(("redirect_uri".to_owned(), redirect_uri.to_owned()));
    v.push(("response_type".to_owned(), "code".to_owned()));
    v.push(("state".to_owned(), state.to_owned()));
    proof {
        assert(pairs_view(v@) =~= spec_auth_request_pairs(
            client_id@,
            redirect_uri@,
            state@,
            code_challenge@,
        ));
    }
    v
}

/// Appends the authorization request's parameters to the provider's auth
/// URL, percent-encoded: afterwards the URL's query holds exactly what it
/// held before, followed by the six pairs of `spec_auth_request_pairs`, in
/// that order.
pub fn finish_url(
    client_id: &str,
    url: &mut url::Url,
    redirect_uri: &str,
    state: &str,
    code_challenge: &str,
)
    ensures
        crate::ext::url_query_of(*final(url)) == crate::ext::url_query_of(*old(url))
            + spec_auth_request_pairs(client_id@, redirect_uri@, state@, code_challenge@),
{
    let ghost u0 = *url;
    let pairs = auth_request_pairs(client_id, redirect_uri, state, code_challenge);
    let ghost appended = spec_auth_request_pairs(client_id@, redirect_uri@, state@,
        code_challenge@);
    let mut i: usize = 0;
    while i < pairs.len()
        invariant
            0 <= i <= pairs@.len(),
            pairs_view(pairs@) == appended,
            crate::ext::url_query_of(*url) == crate::ext::url_query_of(u0) + appended.take(
                i as int,
            ),
        decreases pairs@.len() - i,
    {
        append_query_pair(url, pairs[i].0.as_str(), pairs[i].1.as_str());
        i += 1;
        proof {
            assert(appended[i - 1] == (pairs@[i - 1].0@, pairs@[i - 1].1@));
            assert(appended.take(i as int) =~= appended.take(i - 1).push(appended[i - 1]));
        }
    }
    proof {
        assert(appended.take(pairs@.len() as int) =~= appended);
    }
}

/// One flow's shared state: what the handler needs to validate and complete
/// a redirect, and the two one-shot handoff primitives. `shutdown_tx` is
/// `Some` until the flow completes; `delivered` mirrors what was pushed into
/// the result channel.
pub struct State {
    /// The finished authorization URL the browser is sent to.
    pub auth_url: String,
    /// The expected CSRF `state` value, unguessable and fresh per run.
    pub auth_state_value: String,
    /// The capacity-one result channel the credential is pushed into.
    pub code_tx: std::sync::mpsc::SyncSender<String>,
    /// The one-shot shutdown signal; consumed exactly once, on completion.
    pub shutdown_tx: Option<std::sync::mpsc::SyncSender<()>>,
    /// The credential pushed into the result channel, if any yet.
    pub delivered: Option<String>,
}

impl State {
    /// Whether the flow has completed: its shutdown signal is consumed.
    pub open spec fn completed(&self) -> bool {
        self.shutdown_tx is None
    }

    /// The completion order's invariant: the shutdown signal is only ever
    /// consumed after the credential was pushed.
    pub open spec fn wf(&self) -> bool {
        self.completed() ==> self.delivered is Some
    }

    /// Whether no completion step happened between two observations.
    pub open spec fn sync_unchanged(&self, other: &State) -> bool {
        self.shutdown_tx == other.shutdown_tx && self.delivered == other.delivered
    }

    /// Installs the state for a fresh flow: nothing delivered, shutdown armed.
    pub fn new(
        auth_url: String,
        auth_state_value: String,
        code_tx: std::sync::mpsc::SyncSender<String>,
        shutdown_tx: std::sync::mpsc::SyncSender<()>,
    ) -> (r: State)
        ensures
            r.auth_url == auth_url,
            r.auth_state_value == auth_state_value,
            r.code_tx == code_tx,
            !r.completed(),
            r.delivered is None,
            r.wf(),
    {
        State {
            auth_url,
            auth_state_value,
            code_tx,
            shutdown_tx: Some(shutdown_tx),
            delivered: None,
        }
    }
}

/// Law: once the flow has completed — the shutdown signal was consumed, so
/// the server is stopping — the result slot already holds the credential;
/// the caller's non-blocking receive after shutdown cannot come up empty.
pub proof fn lemma_credential_before_shutdown(s: State)
    requires
        s.wf(),
        s.completed(),
    ensures
        s.delivered is Some,
{
}

/// Extracts the authorization code and the echoed state from the redirect's
/// query pairs; each must be present.
pub fn handle_code_response(params: &Vec<(String, String)>) -> (r: Result<
    (String, String),
    AuthError,
>)
    ensures
        lookup_pairs(pairs_view(params@), "code"@) is None ==> r == Result::<
            (String, String),
            AuthError,
        >::Err(AuthError::NoCode),
        lookup_pairs(pairs_view(params@), "code"@) is Some && lookup_pairs(
            pairs_view(params@),
            "state"@,
        ) is None ==> r == Result::<(String, String), AuthError>::Err(AuthError::NoState),
        r matches Ok(p) ==> Some(p.0@) == lookup_pairs(pairs_view(params@), "code"@) && Some(p.1@)
            == lookup_pairs(pairs_view(params@), "state"@),
        r is Ok <==> lookup_pairs(pairs_view(params@), "code"@) is Some && lookup_pairs(
            pairs_view(params@),
            "state"@,
        ) is Some,
{
    let code = match crate::strutil::lookup_pair(params, "code") {
        Some(c) => c,
        None => {
            return Err(AuthError::NoCode);
        },
    };
    let state = match crate::strutil::lookup_pair(params, "state") {
        Some(s) => s,
        None => {
            return Err(AuthError::NoState);
        },
    };
    Ok((code, state))
}

/// Serves one request of the code-grant flow's route table. `path` is the
/// request target's path, `target` the full request target whose query
/// holds the provider's parameters. A `/redirect` whose `state` does not
/// match the flow's CSRF value fails without delivering anything; a
/// replayed `/redirect` after completion fails likewise. On the one
/// successful `/redirect`, the code is pushed into the result channel
/// strictly before the shutdown signal is consumed and fired.
pub fn serve(state: &mut State, method: &HttpMethod, path: &str, target: &str) -> (r: HttpResponse)
    requires
        old(state).wf(),
    ensures
        final(state).wf(),
        final(state).auth_url == old(state).auth_url,
        final(state).auth_state_value == old(state).auth_state_value,
        final(state).code_tx == old(state).code_tx,
        !r.warn_near_expiry,
        method is Get && path@ == "/"@ ==> final(state).sync_unchanged(old(state)) && r.status
            == 200 && r.media_type is Html && r.body@ == REDIRECT_WITH_AUTH_JSON@,
        method is Get && path@ == "/auth_detail.json"@ ==> final(state).sync_unchanged(old(state))
            && r.status == 200 && r.media_type is Json && r.body@ == json_str_of(
            old(state).auth_url@,
        ),
        !(method is Get && (path@ == "/"@ || path@ == "/auth_detail.json"@ || path@
            == "/redirect"@)) ==> final(state).sync_unchanged(old(state)) && r.status == 404,
        method is Get && path@ == "/redirect"@ ==> spec_redirect_served(
            *old(state),
            *final(state),
            target@,
            r,
        ),
{
    proof {
        reveal_strlit("/");
        reveal_strlit("/auth_detail.json");
        reveal_strlit("/redirect");
        assert("/"@.len() == 1);
        assert("/auth_detail.json"@.len() == 17);
        assert("/redirect"@.len() == 9);
    }
    if matches!(method, HttpMethod::Get) && str_eq(path, "/") {
        html_response(REDIRECT_WITH_AUTH_JSON)
    } else if matches!(method, HttpMethod::Get) && str_eq(path, "/auth_detail.json") {
        json_response(state.auth_url.as_str())
    } else if matches!(method, HttpMethod::Get) && str_eq(path, "/redirect") {
        let params = match query_pairs(target) {
            Ok(p) => p,
            Err(e) => {
                return error_response(&e);
            },
        };
        let (code, echoed) = match handle_code_response(&params) {
            Ok(p) => p,
            Err(e) => {
                return chained_error_response("Failed to handle response from redirect", &e);
            },
        };
        if !str_eq(echoed.as_str(), state.auth_state_value.as_str()) {
            return error_response(&AuthError::StateMismatch);
        }
        if state.shutdown_tx.is_none() {
            return error_response(&AuthError::AlreadyCompleted);
        }
        // Deliberately push the code first and consume the shutdown signal
        // second: this order is the happens-before edge the caller relies on.
        if !try_send_string(&state.code_tx, code.clone()) {
            return error_response(&AuthError::DeliveryFailed);
        }
        state.delivered = Some(code);
        if let Some(tx) = &state.shutdown_tx {
            let _fired = try_send_unit(tx);
        }
        state.shutdown_tx = None;
        html_response(SUCCESS_AFTER_REDIRECT)
    } else {
        not_found_response()
    }
}

/// What serving `GET /redirect` does, as a relation between the state
/// before, the state after, the request target, and the response. Exactly
/// one clause applies to any request.
pub open spec fn spec_redirect_served(
    pre: State,
    post: State,
    target: Seq<char>,
    r: HttpResponse,
) -> bool {
    match crate::ext::query_pairs_of(target) {
        Option::None => post.sync_unchanged(&pre) && spec_is_error_response(
            r,
            AuthError::QueryParse,
        ),
        Option::Some(ps) => {
            let code = lookup_pairs(ps, "code"@);
            let echoed = lookup_pairs(ps, "state"@);
            if code is None {
                post.sync_unchanged(&pre) && spec_is_chained_error_response(
                    r,
                    "Failed to handle response from redirect"@,
                    AuthError::NoCode,
                )
            } else if echoed is None {
                post.sync_unchanged(&pre) && spec_is_chained_error_response(
                    r,
                    "Failed to handle response from redirect"@,
                    AuthError::NoState,
                )
            } else if echoed != Some(pre.auth_state_value@) {
                // CSRF defense: a mismatched state never delivers a credential.
                post.sync_unchanged(&pre) && spec_is_error_response(r, AuthError::StateMismatch)
            } else if pre.completed() {
                // A replayed completion fails; it cannot succeed twice.
                post.sync_unchanged(&pre) && spec_is_error_response(r, AuthError::AlreadyCompleted)
            } else {
                (post.sync_unchanged(&pre) && spec_is_error_response(r, AuthError::DeliveryFailed))
                    || (post.completed() && Some(post.delivered->0@) == code && r.status == 200
                    && r.media_type is Html && r.body@ == SUCCESS_AFTER_REDIRECT@)
            }
        },
    }
}

/// Whether a response is the `500` page carrying the given error.
pub open spec fn spec_is_error_response(r: HttpResponse, e: AuthError) -> bool {
    r.status == 500 && r.media_type is Text && r.body@ == crate::errors::spec_message(e)
}

/// Whether a response is the `500` page carrying the given error's cause
/// trail under the given context.
pub open spec fn spec_is_chained_error_response(
    r: HttpResponse,
    context: Seq<char>,
    e: AuthError,
) -> bool {
    r.status == 500 && r.media_type is Text && r.body@ == crate::errors::spec_chained_message(
        context,
        e,
    )
}

/// Everything one code-grant flow fixes before its server starts serving.
pub struct PreparedFlow {
    /// The flow state the route table works on, ready to install.
    pub state: State,
    /// The PKCE verifier, retained only for the later code-for-token
    /// exchange; never logged or persisted.
    pub verifier: String,
    /// The redirect URI the provider was told, `http://localhost:<port>/redirect`.
    pub redirect_uri: String,
}

/// Fixes everything one flow needs before the server starts: the redirect
/// URI for the bound port, a fresh 32-character CSRF state value, a fresh
/// PKCE pair, the authorization URL finished in place — its query extended
/// by exactly the six request pairs, with the returned state value as the
/// `state` parameter and the challenge derived from the returned verifier
/// as the `code_challenge` — and the flow state, whose `auth_url` is the
/// finished URL's text, with the result channel filled and the shutdown
/// signal armed. Fails exactly when the random source is unavailable, and
/// then leaves the URL untouched.
pub fn prepare_flow(
    client_id: &str,
    auth_url: &mut url::Url,
    port: u16,
    code_tx: std::sync::mpsc::SyncSender<String>,
    shutdown_tx: std::sync::mpsc::SyncSender<()>,
) -> (r: Result<PreparedFlow, AuthError>)
    ensures
        r matches Ok(p) ==> {
            &&& p.redirect_uri@ == crate::spec_redirect_uri(port)
            &&& p.state.auth_state_value@.len() == 32
            &&& p.state.code_tx == code_tx
            &&& !p.state.completed()
            &&& p.state.delivered is None
            &&& p.state.wf()
            &&& (exists|b: Seq<u8>|
                b.len() == NUM_CODE_VERIFIER_BYTES && p.verifier@ == crate::ext::b64url_of(b))
            &&& p.verifier@.len() == 43
            &&& crate::ext::url_query_of(*final(auth_url)) == crate::ext::url_query_of(
                *old(auth_url),
            ) + spec_auth_request_pairs(
                client_id@,
                crate::spec_redirect_uri(port),
                p.state.auth_state_value@,
                spec_challenge_of(p.verifier@),
            )
            &&& p.state.auth_url@ == crate::ext::url_str_of(*final(auth_url))
        },
        r is Err ==> r == Result::<PreparedFlow, AuthError>::Err(AuthError::RngUnavailable)
            && *final(auth_url) == *old(auth_url),
{
    let redirect_uri = crate::redirect_uri_for_port(port);
    let auth_state_value = match crate::generate_state_value() {
        Ok(s) => s,
        Err(e) => {
            return Err(e);
        },
    };
    let (verifier, challenge) = match generate_verifier_and_challenge() {
        Ok(p) => p,
        Err(e) => {
            return Err(e);
        },
    };
    finish_url(
        client_id,
        auth_url,
        redirect_uri.as_str(),
        auth_state_value.as_str(),
        challenge.as_str(),
    );
    let state = State::new(
        crate::ext::url_to_string(auth_url),
        auth_state_value,
        code_tx,
        shutdown_tx,
    );
    Ok(PreparedFlow { state, verifier, redirect_uri })
}

/// The body of the POST that exchanges the authorization code for a token.
pub struct TokenRequest {
    pub client_id: String,
    pub code_verifier: String,
    pub code: String,
    pub grant_type: String,
    pub redirect_uri: String,
}

/// Builds the code-for-token exchange request; the grant type is always
/// `authorization_code`.
pub fn build_token_request(
    client_id: &str,
    code_verifier: &str,
    code: &str,
    redirect_uri: &str,
) -> (r: TokenRequest)
    ensures
        r.client_id@ == client_id@,
        r.code_verifier@ == code_verifier@,
        r.code@ == code@,
        r.grant_type@ == "authorization_code"@,
        r.redirect_uri@ == redirect_uri@,
{
    TokenRequest {
        client_id: client_id.to_owned(),
        code_verifier: code_verifier.to_owned(),
        code: code.to_owned(),
        grant_type: "authorization_code".to_owned(),
        redirect_uri: redirect_uri.to_owned(),
    }
}

/// The token endpoint's reply, as plain values.
pub struct TokenResponse {
    pub access_token: String,
    pub token_type: String,
    /// Seconds of validity; technically optional in the OAuth2 spec, but
    /// required here.
    pub expires_in: u64,
}

/// Validates the token endpoint's reply and computes, immediately, the
/// instant at which the token expires. Fails exactly when the token type is
/// not `bearer` (ignoring ASCII case).
pub fn handle_token_response(res: TokenResponse, now: u64) -> (r: Result<(String, u64), AuthError>)
    ensures
        is_bearer_ci(res.token_type@) ==> (r matches Ok(p) && p.0@ == res.access_token@ && p.1
            == sat_add_u64(now, res.expires_in)),
        !is_bearer_ci(res.token_type@) ==> r == Result::<(String, u64), AuthError>::Err(
            AuthError::NotBearer,
        ),
{
    if !token_type_is_bearer(res.token_type.as_str()) {
        return Err(AuthError::NotBearer);
    }
    let expires_at = expires_at_from(now, res.expires_in);
    Ok((res.access_token, expires_at))
}

/// Whether an HTTP status code reports success.
pub fn http_status_is_success(status: u16) -> (r: bool)
    ensures
        r == (200 <= status < 300),
{
    200 <= status && status < 300
}

/// The message reported when the token endpoint answers the code-for-token
/// exchange with a non-success HTTP status.
pub fn exchange_status_error(token_url: &str, status: u16) -> (r: String)
    ensures
        r@ == "Sending code to "@ + token_url@ + " failed, HTTP error: "@ + crate::strutil::spec_dec(
            status as nat,
        ),
{
    let mut s = "Sending code to ".to_owned();
    s.append(token_url);
    s.append(" failed, HTTP error: ");
    s.append(crate::strutil::u64_to_dec(status as u64).as_str());
    s
}

} // verus!
