//! The library's error taxonomy: setup errors (random source, ports),
//! protocol errors from the provider's redirect (missing fields, non-bearer
//! token type, CSRF state mismatch), and completion-protocol violations.
//! Each error renders a fixed human-readable message.
use vstd::prelude::*;
use vstd::string::StringExecFns;

use crate::strutil::{spec_dec, u64_to_dec};

verus! {

/// Everything that can make a flow fail inside this library.
#[derive(Debug, Clone, PartialEq, Eq)]
pub enum AuthError {
    /// The OS random source could not be used.
    RngUnavailable,
    /// The redirect's query string could not be parsed.
    QueryParse,
    /// The redirect carried no `code` parameter.
    NoCode,
    /// The redirect carried no `state` parameter.
    NoState,
    /// The response carried no `access_token` parameter.
    NoToken,
    /// The response carried no `token_type` parameter.
    NoTokenType,
    /// The token type is not `bearer` (compared ignoring ASCII case).
    NotBearer,
    /// The response carried no `expires_in` parameter.
    NoExpiry,
    /// The `expires_in` parameter is not a decimal integer.
    BadExpiry,
    /// The echoed `state` differs from the one this flow sent out.
    StateMismatch,
    /// A completion was replayed after the flow had already completed.
    AlreadyCompleted,
    /// The credential could not be handed to the waiting caller.
    DeliveryFailed,
    /// Probing whether the port is free failed for another reason
    /// than a refused connection.
    ProbeFailed(u16),
    /// Binding the port failed although it seemed free.
    BindFailed(u16),
    /// Every whitelisted port is occupied; the payload names them all.
    NoAvailablePort(Vec<u16>),
}

/// The ports rendered in decimal, separated by `, `.
pub open spec fn spec_ports_list(ps: Seq<u16>) -> Seq<char>
    decreases ps.len(),
{
    if ps.len() == 0 {
        Seq::empty()
    } else if ps.len() == 1 {
        spec_dec(ps[0] as nat)
    } else {
        spec_ports_list(ps.drop_last()) + ", "@ + spec_dec(ps.last() as nat)
    }
}

/// The message each error renders.
pub open spec fn spec_message(e: AuthError) -> Seq<char> {
    match e {
        AuthError::RngUnavailable => "Failed to initialise a random number generator"@,
        AuthError::QueryParse => "Failed to parse url while extracting query params"@,
        AuthError::NoCode => "No code found in response"@,
        AuthError::NoState => "No state found in response"@,
        AuthError::NoToken => "No token found in response"@,
        AuthError::NoTokenType => "No token type found in response"@,
        AuthError::NotBearer => "Token type in response is not bearer"@,
        AuthError::NoExpiry => "No expiry found in response"@,
        AuthError::BadExpiry => "Failed to parse expiry as integer"@,
        AuthError::StateMismatch => "Mismatched auth states after redirect"@,
        AuthError::AlreadyCompleted => "Authentication already completed for this flow"@,
        AuthError::DeliveryFailed => "Failed to deliver the credential to the waiting caller"@,
        AuthError::ProbeFailed(p) => "Failed to check port "@ + spec_dec(p as nat)
            + " is available for binding"@,
        AuthError::BindFailed(p) => "Failed to bind to port "@ + spec_dec(p as nat),
        AuthError::NoAvailablePort(ps) => "Could not bind to any valid port: (["@
            + spec_ports_list(ps@) + "])"@,
    }
}

/// The message of an error wrapped in its context: the cause trail a
/// handler failure renders, outermost context first.
pub open spec fn spec_chained_message(context: Seq<char>, e: AuthError) -> Seq<char> {
    context + ": "@ + spec_message(e)
}

/// Renders the ports in decimal, separated by `, `.
pub fn ports_list(ps: &Vec<u16>) -> (r: String)
    ensures
        r@ == spec_ports_list(ps@),
{
    let mut s = String::new();
    let mut i: usize = 0;
    while i < ps.len()
        invariant
            0 <= i <= ps@.len(),
            s@ == spec_ports_list(ps@.take(i as int)),
        decreases ps@.len() - i,
    {
        proof {
            assert(ps@.take(i + 1).drop_last() =~= ps@.take(i as int));
            assert(ps@.take(i + 1).last() == ps@[i as int]);
        }
        if i > 0 {
            s.append(", ");
        }
        s.append(u64_to_dec(ps[i] as u64).as_str());
        i += 1;
    }
    proof {
        assert(ps@.take(ps@.len() as int) =~= ps@);
    }
    s
}

impl AuthError {
    /// The human-readable message for this error.
    pub fn message(&self) -> (r: String)
        ensures
            r@ == spec_message(*self),
    {
        match self {
            AuthError::RngUnavailable => "Failed to initialise a random number generator".to_owned(),
            AuthError::QueryParse => "Failed to parse url while extracting query params".to_owned(),
            AuthError::NoCode => "No code found in response".to_owned(),
            AuthError::NoState => "No state found in response".to_owned(),
            AuthError::NoToken => "No token found in response".to_owned(),
            AuthError::NoTokenType => "No token type found in response".to_owned(),
            AuthError::NotBearer => "Token type in response is not bearer".to_owned(),
            AuthError::NoExpiry => "No expiry found in response".to_owned(),
            AuthError::BadExpiry => "Failed to parse expiry as integer".to_owned(),
            AuthError::StateMismatch => "Mismatched auth states after redirect".to_owned(),
            AuthError::AlreadyCompleted => "Authentication already completed for this flow".to_owned(),
            AuthError::DeliveryFailed => "Failed to deliver the credential to the waiting caller".to_owned(),
            AuthError::ProbeFailed(p) => {
                let mut s = "Failed to check port ".to_owned();
                s.append(u64_to_dec(*p as u64).as_str());
                s.append(" is available for binding");
                s
            },
            AuthError::BindFailed(p) => {
                let mut s = "Failed to bind to port ".to_owned();
                s.append(u64_to_dec(*p as u64).as_str());
                s
            },
            AuthError::NoAvailablePort(ps) => {
                let mut s = "Could not bind to any valid port: ([".to_owned();
                s.append(ports_list(ps).as_str());
                s.append("])");
                s
            },
        }
    }

    /// The message of this error wrapped in the given context.
    pub fn chained_message(&self, context: &str) -> (r: String)
        ensures
            r@ == spec_chained_message(context@, *self),
    {
        let mut s = context.to_owned();
        s.append(": ");
        s.append(self.message().as_str());
        s
    }
}

} // verus!
