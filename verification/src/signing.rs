use vstd::prelude::*;
use vstd::string::StringSliceAdditionalSpecFns;

use base64::Engine;

use crate::errors::KrakenError;

verus! {

// ---------------------------------------------------------------------------
// Names for the outside results
// ---------------------------------------------------------------------------

/// The SHA-256 digest of the data; a function of the data alone.
pub uninterp spec fn sha256_of(data: Seq<u8>) -> Seq<u8>;

/// The HMAC-SHA-512 tag over the data under the key; a function of both alone.
pub uninterp spec fn hmac_sha512_of(key: Seq<u8>, data: Seq<u8>) -> Seq<u8>;

/// The standard padded base64 encoding of the data.
pub uninterp spec fn base64_of(data: Seq<u8>) -> Seq<char>;

/// What standard padded base64 text decodes to, or nothing when malformed.
pub uninterp spec fn base64_decoded(text: Seq<char>) -> Option<Seq<u8>>;

// ---------------------------------------------------------------------------
// Trusted wrappers
// ---------------------------------------------------------------------------

/// Relies on ring::digest::digest with SHA256: a 32-byte digest determined
/// by the data alone.
#[verifier::external_body]
fn sha256(data: &[u8]) -> (r: Vec<u8>)
    ensures
        r@ == sha256_of(data@),
        r@.len() == 32,
{
    ring::digest::digest(&ring::digest::SHA256, data).as_ref().to_vec()
}

/// Relies on ring::hmac::Key::new and ring::hmac::sign with HMAC_SHA512: a
/// 64-byte tag determined by the key bytes and the data alone.
#[verifier::external_body]
fn hmac_sha512(key: &[u8], data: &[u8]) -> (r: Vec<u8>)
    ensures
        r@ == hmac_sha512_of(key@, data@),
        r@.len() == 64,
{
    let k = ring::hmac::Key::new(ring::hmac::HMAC_SHA512, key);
    ring::hmac::sign(&k, data).as_ref().to_vec()
}

/// Relies on base64's STANDARD engine encode: the padded standard-alphabet
/// text, four characters for every started group of three bytes.
#[verifier::external_body]
fn base64_encode(data: &[u8]) -> (r: String)
    ensures
        r@ == base64_of(data@),
        r@.len() == ((data@.len() + 2) / 3) * 4,
{
    base64::engine::general_purpose::STANDARD.encode(data)
}

#[verifier::external_type_specification]
#[verifier::external_body]
pub struct ExDecodeError(base64::DecodeError);

/// Relies on base64's STANDARD engine decode: it accepts exactly well-formed
/// padded standard-alphabet text, and the bytes are determined by the text.
#[verifier::external_body]
fn base64_decode(text: &str) -> (r: Result<Vec<u8>, base64::DecodeError>)
    ensures
        match r {
            Ok(v) => base64_decoded(text@) == Some(v@),
            Err(_) => base64_decoded(text@) is None,
        },
{
    base64::engine::general_purpose::STANDARD.decode(text)
}

// ---------------------------------------------------------------------------
// The two signing schemes
// ---------------------------------------------------------------------------

/// The websocket challenge signature: HMAC-SHA-512 over the SHA-256 digest
/// of the challenge, keyed with the base64-decoded secret, base64-encoded.
pub open spec fn spec_challenge_signature(secret_key: Seq<u8>, challenge: Seq<u8>) -> Seq<char> {
    base64_of(hmac_sha512_of(secret_key, sha256_of(challenge)))
}

/// The futures REST signature: HMAC-SHA-512 over the SHA-256 digest of
/// post data, nonce digits and signing path, keyed with the decoded secret.
pub open spec fn spec_rest_signature(
    secret_key: Seq<u8>,
    body: Seq<u8>,
    nonce_digits: Seq<u8>,
    path: Seq<u8>,
) -> Seq<char> {
    base64_of(hmac_sha512_of(secret_key, sha256_of(body + nonce_digits + path)))
}

/// The spot REST signature: HMAC-SHA-512 over the path bytes followed by
/// the SHA-256 digest of nonce digits and body, keyed with the decoded secret.
pub open spec fn spec_spot_signature(
    secret_key: Seq<u8>,
    path: Seq<u8>,
    nonce_digits: Seq<u8>,
    body: Seq<u8>,
) -> Seq<char> {
    base64_of(hmac_sha512_of(secret_key, path + sha256_of(nonce_digits + body)))
}

/// Signs a websocket challenge with the base64-encoded API secret. Fails
/// exactly when the secret is not valid base64.
pub fn sign_challenge(secret: &str, challenge: &str) -> (r: Result<String, KrakenError>)
    ensures
        match r {
            Ok(sig) => base64_decoded(secret@) matches Some(k) && sig@ == spec_challenge_signature(
                k,
                challenge.spec_bytes(),
            ),
            Err(e) => e == KrakenError::Base64DecodeFailed && base64_decoded(secret@) is None,
        },
{
    let key = match base64_decode(secret) {
        Ok(k) => k,
        Err(_) => {
            return Err(KrakenError::Base64DecodeFailed);
        },
    };
    let digest = sha256(challenge.as_bytes());
    let tag = hmac_sha512(key.as_slice(), digest.as_slice());
    Ok(base64_encode(tag.as_slice()))
}

/// Signs futures REST request material. Fails exactly when the secret is
/// not valid base64.
pub fn sign_rest(secret: &str, body: &[u8], nonce_digits: &[u8], path: &[u8]) -> (r: Result<
    String,
    KrakenError,
>)
    ensures
        match r {
            Ok(sig) => base64_decoded(secret@) matches Some(k) && sig@ == spec_rest_signature(
                k,
                body@,
                nonce_digits@,
                path@,
            ),
            Err(e) => e == KrakenError::Base64DecodeFailed && base64_decoded(secret@) is None,
        },
{
    let key = match base64_decode(secret) {
        Ok(k) => k,
        Err(_) => {
            return Err(KrakenError::Base64DecodeFailed);
        },
    };
    let mut message: Vec<u8> = Vec::new();
    message.extend_from_slice(body);
    message.extend_from_slice(nonce_digits);
    message.extend_from_slice(path);
    assert(message@ =~= body@ + nonce_digits@ + path@);
    let digest = sha256(message.as_slice());
    let tag = hmac_sha512(key.as_slice(), digest.as_slice());
    Ok(base64_encode(tag.as_slice()))
}

/// Signs spot REST request material. Fails exactly when the secret is not
/// valid base64.
pub fn sign_spot(secret: &str, path: &[u8], nonce_digits: &[u8], body: &[u8]) -> (r: Result<
    String,
    KrakenError,
>)
    ensures
        match r {
            Ok(sig) => base64_decoded(secret@) matches Some(k) && sig@ == spec_spot_signature(
                k,
                path@,
                nonce_digits@,
                body@,
            ),
            Err(e) => e == KrakenError::Base64DecodeFailed && base64_decoded(secret@) is None,
        },
{
    let key = match base64_decode(secret) {
        Ok(k) => k,
        Err(_) => {
            return Err(KrakenError::Base64DecodeFailed);
        },
    };
    let mut inner: Vec<u8> = Vec::new();
    inner.extend_from_slice(nonce_digits);
    inner.extend_from_slice(body);
    assert(inner@ =~= nonce_digits@ + body@);
    let digest = sha256(inner.as_slice());
    let mut message: Vec<u8> = Vec::new();
    message.extend_from_slice(path);
    message.append(&mut digest.clone());
    assert(message@ =~= path@ + digest@);
    let tag = hmac_sha512(key.as_slice(), message.as_slice());
    Ok(base64_encode(tag.as_slice()))
}

// ---------------------------------------------------------------------------
// Laws
// ---------------------------------------------------------------------------

/// Law: a signature is a pure function of the secret key and the message;
/// equal inputs give equal signatures, in any order of calls.
pub proof fn lemma_signature_deterministic(k1: Seq<u8>, c1: Seq<u8>, k2: Seq<u8>, c2: Seq<u8>)
    requires
        k1 == k2,
        c1 == c2,
    ensures
        spec_challenge_signature(k1, c1) == spec_challenge_signature(k2, c2),
        spec_rest_signature(k1, c1, c1, c1) == spec_rest_signature(k2, c2, c2, c2),
{
}

} // verus!
