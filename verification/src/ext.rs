//! The library's trusted boundary: declarations of outside types and thin
//! wrappers around the outside calls the logic needs. Verus believes the
//! contracts stated here; each doc comment names the outside function relied
//! on and for what.
use vstd::prelude::*;

use base64::Engine;
use crypto::digest::Digest;
use rand::RngCore;

verus! {

#[verifier::external_type_specification]
#[verifier::external_body]
pub struct ExUrl(url::Url);

#[verifier::external_type_specification]
#[verifier::external_body]
#[verifier::reject_recursive_types(T)]
pub struct ExSyncSender<T>(std::sync::mpsc::SyncSender<T>);

/// The key/value pairs of the query string of `http://unused_base` joined
/// with the given request target, percent-decoded; `None` where the target
/// does not parse as a URL reference.
pub uninterp spec fn query_pairs_of(target: Seq<char>) -> Option<Seq<(Seq<char>, Seq<char>)>>;

/// The decoded key/value pairs a URL's query holds, in order.
pub uninterp spec fn url_query_of(u: url::Url) -> Seq<(Seq<char>, Seq<char>)>;

/// A URL's serialized text.
pub uninterp spec fn url_str_of(u: url::Url) -> Seq<char>;

/// The JSON text encoding a string value.
pub uninterp spec fn json_str_of(s: Seq<char>) -> Seq<char>;

/// The SHA-256 digest of a string's bytes.
pub uninterp spec fn sha256_of(s: Seq<char>) -> Seq<u8>;

/// The URL-safe base64 rendering, without padding, of a byte sequence.
pub uninterp spec fn b64url_of(b: Seq<u8>) -> Seq<char>;

/// Relies on url's `Url::parse`, `Url::join` and `Url::query_pairs`: parsing
/// a fixed base, joining the request target onto it, and reading the joined
/// URL's percent-decoded query pairs, a function of the target text alone.
#[verifier::external_body]
pub(crate) fn parse_query_pairs_raw(target: &str) -> (r: Option<Vec<(String, String)>>)
    ensures
        r is Some <==> query_pairs_of(target@) is Some,
        r matches Some(v) ==> Some(crate::strutil::pairs_view(v@)) == query_pairs_of(target@),
{
    let base = url::Url::parse("http://unused_base").ok()?;
    let joined = base.join(target).ok()?;
    Some(joined.query_pairs().map(|(k, v)| (k.into_owned(), v.into_owned())).collect())
}

/// Relies on url's `Serializer::append_pair` (through `Url::query_pairs_mut`):
/// appends exactly one percent-encoded key/value pair to the end of the
/// URL's query string, leaving the earlier pairs as they were.
#[verifier::external_body]
pub(crate) fn append_query_pair(url: &mut url::Url, key: &str, value: &str)
    ensures
        url_query_of(*final(url)) == url_query_of(*old(url)).push((key@, value@)),
{
    url.query_pairs_mut().append_pair(key, value);
}

/// Relies on url's `Url::as_str`: the URL's serialized text.
#[verifier::external_body]
pub(crate) fn url_to_string(u: &url::Url) -> (r: String)
    ensures
        r@ == url_str_of(*u),
{
    u.as_str().to_owned()
}

/// Relies on serde_json's `to_string`: the JSON text of a string value, a
/// function of its characters alone; serializing a string slice cannot fail.
#[verifier::external_body]
pub(crate) fn json_string(s: &str) -> (r: String)
    ensures
        r@ == json_str_of(s@),
{
    serde_json::to_string(s).unwrap()
}

/// Relies on crypto's `Sha256` with `input_str`/`result`: the 32-byte SHA-256
/// digest of the string's bytes, a function of the string alone.
#[verifier::external_body]
pub(crate) fn sha256_str(s: &str) -> (r: Vec<u8>)
    ensures
        r@ == sha256_of(s@),
        r@.len() == 32,
{
    let mut hasher = crypto::sha2::Sha256::new();
    hasher.input_str(s);
    let mut out = vec![0u8; hasher.output_bytes()];
    hasher.result(&mut out);
    out
}

/// Relies on base64's `URL_SAFE_NO_PAD` engine: the URL-safe unpadded base64
/// text of the bytes, a function of the bytes alone; without padding it has
/// four characters for every three bytes, rounded up, all drawn from the
/// URL-safe alphabet.
#[verifier::external_body]
pub(crate) fn b64url_encode(b: &Vec<u8>) -> (r: String)
    ensures
        r@ == b64url_of(b@),
        r@.len() == (b@.len() * 4 + 2) / 3,
        forall|i: int|
            0 <= i < r@.len() ==> crate::strutil::is_b64url_char(#[trigger] r@[i]),
{
    base64::engine::general_purpose::URL_SAFE_NO_PAD.encode(b)
}

/// Relies on rand's `OsRng::try_fill_bytes`: fills the buffer from the OS
/// entropy source, or reports that the source is unavailable.
#[verifier::external_body]
pub(crate) fn os_random_bytes(n: usize) -> (r: Option<Vec<u8>>)
    ensures
        r matches Some(v) ==> v@.len() == n,
{
    let mut buf = vec![0u8; n];
    match rand::rngs::OsRng.try_fill_bytes(&mut buf) {
        Ok(()) => Some(buf),
        Err(_) => None,
    }
}

/// Relies on uuid's `Builder::from_random_bytes` and its `Simple`
/// formatting: the version-4 UUID built from the given 16 bytes, rendered
/// as exactly 32 lowercase hexadecimal characters. Unlike `Uuid::new_v4`,
/// which panics when the OS entropy source fails, this takes the random
/// bytes as an argument and cannot panic.
#[verifier::external_body]
pub(crate) fn uuid_simple_from(bytes: &Vec<u8>) -> (r: String)
    requires
        bytes@.len() == 16,
    ensures
        r@.len() == 32,
        forall|i: int|
            0 <= i < r@.len() ==> crate::strutil::is_lower_hex_digit(#[trigger] r@[i]),
{
    let mut b = [0u8; 16];
    b.copy_from_slice(bytes.as_slice());
    uuid::Builder::from_random_bytes(b).into_uuid().simple().to_string()
}

/// Relies on std's `SyncSender::try_send`: `true` exactly when the value was
/// placed in the channel's buffer; `false` when the buffer is full or the
/// receiver is gone.
#[verifier::external_body]
pub(crate) fn try_send_string(tx: &std::sync::mpsc::SyncSender<String>, v: String) -> (r: bool) {
    tx.try_send(v).is_ok()
}

/// Relies on std's `SyncSender::try_send` for the unit shutdown signal.
#[verifier::external_body]
pub(crate) fn try_send_unit(tx: &std::sync::mpsc::SyncSender<()>) -> (r: bool) {
    tx.try_send(()).is_ok()
}

} // verus!
