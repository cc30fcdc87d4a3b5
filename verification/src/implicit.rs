//! The Implicit Grant flow. The provider returns the token in the URL
//! fragment, which never reaches a server, so `/redirect` serves a page
//! whose script re-posts the fragment as the query string of
//! `POST /save_auth`; that route validates the token type and the CSRF
//! state, computes the expiry instant immediately, and completes the flow
//! with the same push-then-shutdown order as the code-grant flow.
use vstd::prelude::*;

use crate::errors::AuthError;
use crate::ext::{append_query_pair, json_str_of, query_pairs_of, try_send_string, try_send_unit};
use crate::query::query_pairs;
use crate::request::HttpMethod;
use crate::response::{
    chained_error_response, error_response, html_response, json_response, not_found_response,
    HttpResponse, REDIRECT_WITH_AUTH_JSON,
};
use crate::strutil::{
    is_bearer_ci, lookup_pair, lookup_pairs, pairs_view, parse_u64, parse_u64_spec, str_eq,
    token_type_is_bearer,
};
use crate::{expires_at_from, near_expiry, sat_add_u64, MIN_TOKEN_VALIDITY_SECS};

verus! {

/// The page served at `/redirect`: its script reads the URL fragment and,
/// if non-empty, re-posts it as the query string of `/save_auth`.
pub const SAVE_AUTH_AFTER_REDIRECT: &'static str = r##"<!doctype html>
    <html lang="en">
    <head><meta charset="utf-8"></head>
    <body>
        <script>
        function writemsg(m) {
            document.body.appendChild(document.createTextNode(m.toString()));
            document.body.appendChild(document.createElement('br'));
        }
        function go() {
            writemsg('Saving authentication details...');
            var qs = window.location.hash.slice(1);
            if (qs.length === 0) {
                writemsg("ERROR: No URL hash returned from authorizer");
                return
            }
            fetch('/save_auth?' + qs, { method: 'POST' }).then(function (response) {
                if (!response.ok) {
                    throw 'Error during saving authentication - ' + response.status + ': ' + response.statusText;
                }
                writemsg('Authentication complete, you can now close this page!');
            }).catch(writemsg);
        }
        go();
        </script>
    </body>
    </html>
    "##;

/// One flow's shared state, as in the code-grant flow, with the token's
/// result channel in place of the code's.
pub struct State {
    /// The finished authorization URL the browser is sent to.
    pub auth_url: String,
    /// The expected CSRF `state` value, unguessable and fresh per run.
    pub auth_state_value: String,
    /// The capacity-one result channel the token is pushed into.
    pub token_tx: std::sync::mpsc::SyncSender<String>,
    /// The one-shot shutdown signal; consumed exactly once, on completion.
    pub shutdown_tx: Option<std::sync::mpsc::SyncSender<()>>,
    /// The token pushed into the result channel, if any yet.
    pub delivered: Option<String>,
}

impl State {
    /// Whether the flow has completed: its shutdown signal is consumed.
    pub open spec fn completed(&self) -> bool {
        self.shutdown_tx is None
    }

    /// The completion order's invariant: the shutdown signal is only ever
    /// consumed after the token was pushed.
    pub open spec fn wf(&self) -> bool {
        self.completed() ==> self.delivered is Some
    }

    /// Whether no completion step happened between two observations.
    pub open spec fn sync_unchanged(&self, other: &State) -> bool {
        self.shutdown_tx == other.shutdown_tx && self.delivered == other.delivered
    }

    /// Installs the state for a fresh flow: nothing delivered, shutdown armed.
    pub fn new(
        auth_url: String,
        auth_state_value: String,
        token_tx: std::sync::mpsc::SyncSender<String>,
        shutdown_tx: std::sync::mpsc::SyncSender<()>,
    ) -> (r: State)
        ensures
            r.auth_url == auth_url,
            r.auth_state_value == auth_state_value,
            r.token_tx == token_tx,
            !r.completed(),
            r.delivered is None,
            r.wf(),
    {
        State {
            auth_url,
            auth_state_value,
            token_tx,
            shutdown_tx: Some(shutdown_tx),
            delivered: None,
        }
    }
}

/// Law: once the flow has completed — the shutdown signal was consumed, so
/// the server is stopping — the result slot already holds the token; the
/// caller's non-blocking receive after shutdown cannot come up empty.
pub proof fn lemma_credential_before_shutdown(s: State)
    requires
        s.wf(),
        s.completed(),
    ensures
        s.delivered is Some,
{
}

/// The query parameters the authorization request appends, in order.
pub open spec fn spec_auth_request_pairs(
    client_id: Seq<char>,
    redirect_uri: Seq<char>,
    state: Seq<char>,
) -> Seq<(Seq<char>, Seq<char>)> {
    seq![
        ("client_id"@, client_id),
        ("redirect_uri"@, redirect_uri),
        ("response_type"@, "token"@),
        ("state"@, state),
    ]
}

/// Builds the authorization request's query pairs.
pub fn auth_request_pairs(client_id: &str, redirect_uri: &str, state: &str) -> (r: Vec<
    (String, String),
>)
    ensures
        pairs_view(r@) == spec_auth_request_pairs(client_id@, redirect_uri@, state@),
{
    let mut v: Vec<(String, String)> = Vec::new();
    v.push(("client_id".to_owned(), client_id.to_owned()));
    v.push(("redirect_uri".to_owned(), redirect_uri.to_owned()));
    v.push(("response_type".to_owned(), "token".to_owned()));
    v.push(("state".to_owned(), state.to_owned()));
    proof {
        assert(pairs_view(v@) =~= spec_auth_request_pairs(client_id@, redirect_uri@, state@));
    }
    v
}

/// Appends the authorization request's parameters to the provider's auth
/// URL, percent-encoded: afterwards the URL's query holds exactly what it
/// held before, followed by the four pairs of `spec_auth_request_pairs`, in
/// that order.
pub fn finish_url(client_id: &str, url: &mut url::Url, redirect_uri: &str, state: &str)
    ensures
        crate::ext::url_query_of(*final(url)) == crate::ext::url_query_of(*old(url))
            + spec_auth_request_pairs(client_id@, redirect_uri@, state@),
{
    let ghost u0 = *url;
    let pairs = auth_request_pairs(client_id, redirect_uri, state);
    let ghost appended = spec_auth_request_pairs(client_id@, redirect_uri@, state@);
    let mut i: usize = 0;
    while i < pairs.len()
        invariant
            0 <= i <= pairs@.len(),
            pairs_view(pairs@) == appended,
            crate::ext::url_query_of(*url) == crate::ext::url_query_of(u0) + appended.take(
                i as int,
            ),
        decreases pairs@.len() - i,
    {
        append_query_pair(url, pairs[i].0.as_str(), pairs[i].1.as_str());
        i += 1;
        proof {
            assert(appended[i - 1] == (pairs@[i - 1].0@, pairs@[i - 1].1@));
            assert(appended.take(i as int) =~= appended.take(i - 1).push(appended[i - 1]));
        }
    }
    proof {
        assert(appended.take(pairs@.len() as int) =~= appended);
    }
}

/// Everything one implicit flow fixes before its server starts serving.
pub struct PreparedFlow {
    /// The flow state the route table works on, ready to install.
    pub state: State,
    /// The redirect URI the provider was told, `http://localhost:<port>/redirect`.
    pub redirect_uri: String,
}

/// Fixes everything one flow needs before the server starts: the redirect
/// URI for the bound port, a fresh 32-character CSRF state value, the
/// authorization URL finished in place — its query extended by exactly the
/// four request pairs, with the returned state value as the `state`
/// parameter and no PKCE parameters — and the flow state, whose `auth_url`
/// is the finished URL's text, with the result channel filled and the
/// shutdown signal armed. Fails exactly when the random source is
/// unavailable, and then leaves the URL untouched.
pub fn prepare_flow(
    client_id: &str,
    auth_url: &mut url::Url,
    port: u16,
    token_tx: std::sync::mpsc::SyncSender<String>,
    shutdown_tx: std::sync::mpsc::SyncSender<()>,
) -> (r: Result<PreparedFlow, AuthError>)
    ensures
        r matches Ok(p) ==> {
            &&& p.redirect_uri@ == crate::spec_redirect_uri(port)
            &&& p.state.auth_state_value@.len() == 32
            &&& p.state.token_tx == token_tx
            &&& !p.state.completed()
            &&& p.state.delivered is None
            &&& p.state.wf()
            &&& crate::ext::url_query_of(*final(auth_url)) == crate::ext::url_query_of(
                *old(auth_url),
            ) + spec_auth_request_pairs(
                client_id@,
                crate::spec_redirect_uri(port),
                p.state.auth_state_value@,
            )
            &&& p.state.auth_url@ == crate::ext::url_str_of(*final(auth_url))
        },
        r is Err ==> r == Result::<PreparedFlow, AuthError>::Err(AuthError::RngUnavailable)
            && *final(auth_url) == *old(auth_url),
{
    let redirect_uri = crate::redirect_uri_for_port(port);
    let auth_state_value = match crate::generate_state_value() {
        Ok(s) => s,
        Err(e) => {
            return Err(e);
        },
    };
    finish_url(client_id, auth_url, redirect_uri.as_str(), auth_state_value.as_str());
    let state = State::new(
        crate::ext::url_to_string(auth_url),
        auth_state_value,
        token_tx,
        shutdown_tx,
    );
    Ok(PreparedFlow { state, redirect_uri })
}

/// What extracting the provider's response from the `/save_auth` query
/// pairs yields: the token, its expiry instant, and the echoed state, or
/// the first error in validation order — missing token, missing or
/// non-bearer token type, missing or malformed expiry, missing state.
pub open spec fn spec_save_auth_extract(ps: Seq<(Seq<char>, Seq<char>)>, now: u64) -> Result<
    (Seq<char>, u64, Seq<char>),
    AuthError,
> {
    let token = lookup_pairs(ps, "access_token"@);
    let tt = lookup_pairs(ps, "token_type"@);
    let exp = lookup_pairs(ps, "expires_in"@);
    let st = lookup_pairs(ps, "state"@);
    if token is None {
        Result::Err(AuthError::NoToken)
    } else if tt is None {
        Result::Err(AuthError::NoTokenType)
    } else if !is_bearer_ci(tt->0) {
        Result::Err(AuthError::NotBearer)
    } else if exp is None {
        Result::Err(AuthError::NoExpiry)
    } else if parse_u64_spec(exp->0) is None {
        Result::Err(AuthError::BadExpiry)
    } else if st is None {
        Result::Err(AuthError::NoState)
    } else {
        Result::Ok((token->0, sat_add_u64(now, parse_u64_spec(exp->0)->0), st->0))
    }
}

/// Extracts token, expiry instant and echoed state from the `/save_auth`
/// query pairs, exactly as `spec_save_auth_extract` describes. The expiry
/// instant is computed from `now` immediately, to avoid clock drift.
pub fn handle_response(params: &Vec<(String, String)>, now: u64) -> (r: Result<
    (String, u64, String),
    AuthError,
>)
    ensures
        r is Ok <==> spec_save_auth_extract(pairs_view(params@), now) is Ok,
        r matches Ok(p) ==> (spec_save_auth_extract(pairs_view(params@), now) matches Ok(q) && q.0
            == p.0@ && q.1 == p.1 && q.2 == p.2@),
        r matches Err(e) ==> spec_save_auth_extract(pairs_view(params@), now) == Result::<
            (Seq<char>, u64, Seq<char>),
            AuthError,
        >::Err(e),
{
    let token = match lookup_pair(params, "access_token") {
        Some(t) => t,
        None => {
            return Err(AuthError::NoToken);
        },
    };
    let token_type = match lookup_pair(params, "token_type") {
        Some(t) => t,
        None => {
            return Err(AuthError::NoTokenType);
        },
    };
    if !token_type_is_bearer(token_type.as_str()) {
        return Err(AuthError::NotBearer);
    }
    let expires_in_text = match lookup_pair(params, "expires_in") {
        Some(t) => t,
        None => {
            return Err(AuthError::NoExpiry);
        },
    };
    let expires_in = match parse_u64(expires_in_text.as_str()) {
        Some(n) => n,
        None => {
            return Err(AuthError::BadExpiry);
        },
    };
    let state = match lookup_pair(params, "state") {
        Some(s) => s,
        None => {
            return Err(AuthError::NoState);
        },
    };
    let expires_at = expires_at_from(now, expires_in);
    Ok((token, expires_at, state))
}

/// What serving `POST /save_auth` does, as a relation between the state
/// before, the state after, the request target, the current instant, and
/// the response. Exactly one clause applies to any request.
pub open spec fn spec_save_auth_served(
    pre: State,
    post: State,
    target: Seq<char>,
    now: u64,
    r: HttpResponse,
) -> bool {
    match query_pairs_of(target) {
        Option::None => post.sync_unchanged(&pre) && spec_is_error_response(
            r,
            AuthError::QueryParse,
        ),
        Option::Some(ps) => match spec_save_auth_extract(ps, now) {
            Result::Err(e) => post.sync_unchanged(&pre) && spec_is_chained_error_response(
                r,
                "Failed to save auth after redirect"@,
                e,
            ),
            Result::Ok(p) => {
                if p.2 != pre.auth_state_value@ {
                    // CSRF defense: a mismatched state never delivers a token.
                    post.sync_unchanged(&pre) && spec_is_error_response(r, AuthError::StateMismatch)
                } else if pre.completed() {
                    // A replayed completion fails; it cannot succeed twice.
                    post.sync_unchanged(&pre) && spec_is_error_response(
                        r,
                        AuthError::AlreadyCompleted,
                    )
                } else {
                    (post.sync_unchanged(&pre) && spec_is_error_response(
                        r,
                        AuthError::DeliveryFailed,
                    )) || (post.completed() && Some(post.delivered->0@) == Some(p.0) && r.status
                        == 200 && r.media_type is Json && r.body@ == json_str_of(Seq::empty())
                        && r.warn_near_expiry == (p.1 - now < MIN_TOKEN_VALIDITY_SECS))
                }
            },
        },
    }
}

/// Whether a response is the `500` page carrying the given error, with no
/// near-expiry warning.
pub open spec fn spec_is_error_response(r: HttpResponse, e: AuthError) -> bool {
    r.status == 500 && r.media_type is Text && r.body@ == crate::errors::spec_message(e)
        && !r.warn_near_expiry
}

/// Whether a response is the `500` page carrying the given error's cause
/// trail under the given context, with no near-expiry warning.
pub open spec fn spec_is_chained_error_response(
    r: HttpResponse,
    context: Seq<char>,
    e: AuthError,
) -> bool {
    r.status == 500 && r.media_type is Text && r.body@ == crate::errors::spec_chained_message(
        context,
        e,
    ) && !r.warn_near_expiry
}

/// Serves one request of the implicit flow's route table; `now` is the
/// current instant in seconds. On the one successful `POST /save_auth`,
/// the token is pushed into the result channel strictly before the
/// shutdown signal is consumed and fired, and the response says whether
/// the token's remaining validity is under the warning threshold.
pub fn serve(
    state: &mut State,
    method: &HttpMethod,
    path: &str,
    target: &str,
    now: u64,
) -> (r: HttpResponse)
    requires
        old(state).wf(),
    ensures
        final(state).wf(),
        final(state).auth_url == old(state).auth_url,
        final(state).auth_state_value == old(state).auth_state_value,
        final(state).token_tx == old(state).token_tx,
        method is Get && path@ == "/"@ ==> final(state).sync_unchanged(old(state)) && r.status
            == 200 && r.media_type is Html && r.body@ == REDIRECT_WITH_AUTH_JSON@
            && !r.warn_near_expiry,
        method is Get && path@ == "/auth_detail.json"@ ==> final(state).sync_unchanged(old(state))
            && r.status == 200 && r.media_type is Json && r.body@ == json_str_of(
            old(state).auth_url@,
        ) && !r.warn_near_expiry,
        method is Get && path@ == "/redirect"@ ==> final(state).sync_unchanged(old(state))
            && r.status == 200 && r.media_type is Html && r.body@ == SAVE_AUTH_AFTER_REDIRECT@
            && !r.warn_near_expiry,
        !((method is Get && (path@ == "/"@ || path@ == "/auth_detail.json"@ || path@
            == "/redirect"@)) || (method is Post && path@ == "/save_auth"@)) ==> final(state)
            .sync_unchanged(old(state)) && r.status == 404 && !r.warn_near_expiry,
        method is Post && path@ == "/save_auth"@ ==> spec_save_auth_served(
            *old(state),
            *final(state),
            target@,
            now,
            r,
        ),
{
    proof {
        reveal_strlit("/");
        reveal_strlit("/auth_detail.json");
        reveal_strlit("/redirect");
        reveal_strlit("/save_auth");
        assert("/"@.len() == 1);
        assert("/auth_detail.json"@.len() == 17);
        assert("/redirect"@.len() == 9);
        assert("/save_auth"@.len() == 10);
    }
    if matches!(method, HttpMethod::Get) && str_eq(path, "/") {
        html_response(REDIRECT_WITH_AUTH_JSON)
    } else if matches!(method, HttpMethod::Get) && str_eq(path, "/auth_detail.json") {
        json_response(state.auth_url.as_str())
    } else if matches!(method, HttpMethod::Get) && str_eq(path, "/redirect") {
        html_response(SAVE_AUTH_AFTER_REDIRECT)
    } else if matches!(method, HttpMethod::Post) && str_eq(path, "/save_auth") {
        let params = match query_pairs(target) {
            Ok(p) => p,
            Err(e) => {
                return error_response(&e);
            },
        };
        let (token, expires_at, echoed) = match handle_response(&params, now) {
            Ok(p) => p,
            Err(e) => {
                return chained_error_response("Failed to save auth after redirect", &e);
            },
        };
        if !str_eq(echoed.as_str(), state.auth_state_value.as_str()) {
            return error_response(&AuthError::StateMismatch);
        }
        if state.shutdown_tx.is_none() {
            return error_response(&AuthError::AlreadyCompleted);
        }
        let warn = near_expiry(expires_at, now);
        // Deliberately push the token first and consume the shutdown signal
        // second: this order is the happens-before edge the caller relies on.
        if !try_send_string(&state.token_tx, token.clone()) {
            return error_response(&AuthError::DeliveryFailed);
        }
        state.delivered = Some(token);
        if let Some(tx) = &state.shutdown_tx {
            let _fired = try_send_unit(tx);
        }
        state.shutdown_tx = None;
        let mut r = json_response("");
        r.warn_near_expiry = warn;
        proof {
            reveal_strlit("");
            assert(""@ =~= Seq::<char>::empty());
        }
        r
    } else {
        not_found_response()
    }
}

} // verus!
