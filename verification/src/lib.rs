//! A library for obtaining an OAuth2 access token through a transient local
//! redirect-capture server: PKCE pair generation, loopback port selection,
//! per-flow CSRF state validation, and the ordered one-shot handoff that
//! delivers the credential to the blocking caller.
use vstd::prelude::*;
use vstd::string::StringExecFns;

pub mod code_grant_pkce;
pub mod errors;
pub mod ext;
pub mod implicit;
pub mod ports;
pub mod query;
pub mod request;
pub mod response;
pub mod strutil;

use strutil::u64_to_dec;

verus! {

/// The redirect URI the provider is told to call back:
/// `http://localhost:<port>/redirect`.
pub open spec fn spec_redirect_uri(port: u16) -> Seq<char> {
    "http://localhost:"@ + strutil::spec_dec(port as nat) + "/redirect"@
}

/// Builds the redirect URI for the bound port.
pub fn redirect_uri_for_port(port: u16) -> (r: String)
    ensures
        r@ == spec_redirect_uri(port),
{
    let mut s = "http://localhost:".to_owned();
    s.append(u64_to_dec(port as u64).as_str());
    s.append("/redirect");
    s
}

/// If a token is valid for less than this many seconds, a warning is printed.
pub const MIN_TOKEN_VALIDITY_SECS: u64 = 2 * 24 * 60 * 60;

/// `a + b`, clamped at the largest representable instant.
pub open spec fn sat_add_u64(a: u64, b: u64) -> u64 {
    if a + b > u64::MAX {
        u64::MAX
    } else {
        (a + b) as u64
    }
}

/// The instant at which a token expires: `now + expires_in`, computed
/// immediately upon parsing the response to avoid clock drift, and clamped
/// at the largest representable instant.
pub fn expires_at_from(now: u64, expires_in: u64) -> (r: u64)
    ensures
        r == sat_add_u64(now, expires_in),
{
    if now <= u64::MAX - expires_in {
        now + expires_in
    } else {
        u64::MAX
    }
}

/// Whether less than the minimum validity is left before `expires_at`.
pub fn near_expiry(expires_at: u64, now: u64) -> (r: bool)
    ensures
        r == (expires_at - now < MIN_TOKEN_VALIDITY_SECS),
{
    if expires_at <= now {
        true
    } else {
        expires_at - now < MIN_TOKEN_VALIDITY_SECS
    }
}

/// Generates the unguessable per-flow CSRF state value: a fresh random
/// version-4 UUID, rendered as 32 lowercase hexadecimal characters. Fails
/// exactly when the OS random source is unavailable.
pub fn generate_state_value() -> (r: Result<String, errors::AuthError>)
    ensures
        r matches Ok(s) ==> s@.len() == 32 && (forall|i: int|
            0 <= i < s@.len() ==> strutil::is_lower_hex_digit(#[trigger] s@[i])),
        r is Err ==> r == Result::<String, errors::AuthError>::Err(
            errors::AuthError::RngUnavailable,
        ),
{
    match ext::os_random_bytes(16) {
        None => Err(errors::AuthError::RngUnavailable),
        Some(bytes) => Ok(ext::uuid_simple_from(&bytes)),
    }
}

} // verus!
