//! The request signing engine.
//!
//! Every private call carries a signature over the exact bytes that go out:
//! the canonical message is `timestamp ++ uppercase(method) ++ path ++
//! body`, with no separators, and the signature is HMAC-SHA256 of its UTF-8
//! bytes under the base64-decoded secret, encoded back to base64 for the
//! header. Assembling the message is verified here; the two cryptographic
//! primitives and base64 itself are trusted wrappers.

use vstd::prelude::*;

use crate::Error;

verus! {

/// What base64 text decodes to, or nothing when it is not valid base64.
/// Stands for what `base64::decode` reads, a function of the text alone.
pub uninterp spec fn base64_decoded(s: Seq<char>) -> Option<Seq<u8>>;

/// The base64 spelling of a byte string, standard alphabet with padding.
/// Stands for what `base64::encode` prints, a function of the bytes alone.
pub uninterp spec fn base64_of(b: Seq<u8>) -> Seq<char>;

/// The HMAC-SHA256 tag of `msg` under `key`: a function of the two alone.
pub uninterp spec fn hmac_sha256_of(key: Seq<u8>, msg: Seq<u8>) -> Seq<u8>;

/// Relies on `base64::decode` (standard alphabet, padded): it succeeds
/// exactly on valid base64 text and the bytes are a function of the text.
#[verifier::external_body]
fn b64_decode(s: &str) -> (r: Option<Vec<u8>>)
    ensures
        r is Some <==> base64_decoded(s@) is Some,
        r matches Some(v) ==> base64_decoded(s@) == Some(v@),
{
    base64::decode(s).ok()
}

/// Relies on `base64::encode` (standard alphabet, padded): the text is a
/// function of the bytes.
#[verifier::external_body]
fn b64_encode(b: &[u8]) -> (r: String)
    ensures
        r@ == base64_of(b@),
{
    base64::encode(b)
}

/// Relies on `crypto::hmac::Hmac` over `crypto::sha2::Sha256`: the 32-byte
/// tag is a function of key and message.
#[verifier::external_body]
fn hmac_sha256(key: &[u8], msg: &[u8]) -> (r: Vec<u8>)
    ensures
        r@ == hmac_sha256_of(key@, msg@),
        r@.len() == 32,
{
    let mut mac = crypto::hmac::Hmac::new(crypto::sha2::Sha256::new(), key);
    crypto::mac::Mac::input(&mut mac, msg);
    crypto::mac::Mac::result(&mut mac).code().to_vec()
}

/// The canonical message that is signed: timestamp, uppercased method,
/// path and body, concatenated with nothing between them.
pub open spec fn canonical_message(
    timestamp: Seq<char>,
    method: Seq<char>,
    path: Seq<char>,
    body: Seq<char>,
) -> Seq<char> {
    timestamp + crate::text::ascii_upper(method) + path + body
}

/// The signature a well-formed secret produces for a request, or nothing
/// when the secret is not valid base64: base64 of HMAC-SHA256 over the
/// UTF-8 bytes of the canonical message, keyed by the decoded secret.
pub open spec fn signature_spec(
    secret: Seq<char>,
    timestamp: Seq<char>,
    method: Seq<char>,
    path: Seq<char>,
    body: Seq<char>,
) -> Option<Seq<char>> {
    match base64_decoded(secret) {
        None => None,
        Some(key) => Some(
            base64_of(
                hmac_sha256_of(
                    key,
                    vstd::utf8::encode_utf8(canonical_message(timestamp, method, path, body)),
                ),
            ),
        ),
    }
}

/// Sign one request. Fails exactly when the secret is not valid base64,
/// and then with `InvalidSecretKey`.
pub fn sign(secret: &str, timestamp: &str, method: &str, path: &str, body: &str) -> (r: Result<
    String,
    Error,
>)
    ensures
        match r {
            Ok(sig) => signature_spec(secret@, timestamp@, method@, path@, body@) == Some(sig@),
            Err(e) => signature_spec(secret@, timestamp@, method@, path@, body@) is None && e
                is InvalidSecretKey,
        },
{
    let key = match b64_decode(secret) {
        Some(k) => k,
        None => {
            return Err(Error::InvalidSecretKey);
        },
    };
    let mut message = String::from_str(timestamp);
    let upper = crate::text::ascii_uppercase(method);
    message.append(upper.as_str());
    message.append(path);
    message.append(body);
    proof {
        assert(message@ == canonical_message(timestamp@, method@, path@, body@));
    }
    let tag = hmac_sha256(key.as_slice(), message.as_str().as_bytes());
    Ok(b64_encode(tag.as_slice()))
}

/// Signing is deterministic: two requests that agree character for
/// character on secret, timestamp, method, path and body get the same
/// signature. That the signature also changes when any part changes is a
/// property of HMAC itself and is not stated here.
pub proof fn lemma_sign_deterministic(
    secret1: Seq<char>,
    timestamp1: Seq<char>,
    method1: Seq<char>,
    path1: Seq<char>,
    body1: Seq<char>,
    secret2: Seq<char>,
    timestamp2: Seq<char>,
    method2: Seq<char>,
    path2: Seq<char>,
    body2: Seq<char>,
)
    requires
        secret1 == secret2,
        timestamp1 == timestamp2,
        method1 == method2,
        path1 == path2,
        body1 == body2,
    ensures
        signature_spec(secret1, timestamp1, method1, path1, body1) == signature_spec(
            secret2,
            timestamp2,
            method2,
            path2,
            body2,
        ),
{
}

} // verus!
