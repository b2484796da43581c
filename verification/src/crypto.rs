//! Trusted boundary to the crypto crates. Each wrapper makes one outside
//! call; the names below stand for results that are functions of the
//! arguments alone and would take pages to state exactly.

use vstd::prelude::*;

use argon2::{PasswordHasher, PasswordVerifier};
use chacha20poly1305::aead::{Aead, Payload};
use chacha20poly1305::KeyInit;
use rand::Rng;

verus! {

/// Whether argon2 verification of `raw` against the PHC string `phc`
/// succeeds; a pure function of the two arguments (the PHC string carries
/// salt and parameters).
pub uninterp spec fn secret_matches(raw: Seq<u8>, phc: Seq<char>) -> bool;

/// The XChaCha20-Poly1305 ciphertext (tag included) of `pt` under `key`,
/// `nonce` and associated data `aad`.
pub uninterp spec fn aead_seal(key: Seq<u8>, nonce: Seq<u8>, aad: Seq<u8>, pt: Seq<u8>) -> Seq<u8>;

/// The six-digit RFC 6238 code for `secret` at time-step counter `counter`.
pub uninterp spec fn totp_of(secret: Seq<u8>, counter: u64) -> Seq<u8>;

/// The standard base64 encoding (with padding) of `bytes`.
pub uninterp spec fn b64_of(bytes: Seq<u8>) -> Seq<char>;

/// Relies on argon2's `hash_password`: hashes with a fresh random salt and
/// returns a PHC string that `verify_password` accepts for the same input.
/// Aborts only if the operating system's entropy source fails.
#[verifier::external_body]
pub(crate) fn hash_secret(raw: &[u8]) -> (r: String)
    requires
        raw@.len() < 0xFFFFFFFF,
    ensures
        secret_matches(raw@, r@),
{
    argon2::Argon2::default()
        .hash_password(raw)
        .expect("argon2: hashing secret")
        .to_string()
}

/// Relies on argon2's `verify_password`: constant-time check of `raw`
/// against the PHC string `phc`, deterministic in its two arguments.
#[verifier::external_body]
pub(crate) fn verify_secret(raw: &[u8], phc: &str) -> (r: bool)
    ensures
        r == secret_matches(raw@, phc@),
{
    argon2::Argon2::default().verify_password(raw, phc).is_ok()
}

/// Relies on chacha20poly1305's `encrypt` (XChaCha20-Poly1305): produces the
/// ciphertext-with-tag of `pt` bound to `aad`, deterministic in key, nonce,
/// aad and plaintext.
#[verifier::external_body]
pub(crate) fn aead_encrypt(key: &[u8], nonce: &[u8], aad: &[u8], pt: &[u8]) -> (r: Vec<u8>)
    requires
        key@.len() == 32,
        nonce@.len() == 24,
        pt@.len() < 0x1000000,
        aad@.len() < 0x1000000,
    ensures
        r@ == aead_seal(key@, nonce@, aad@, pt@),
{
    let key = chacha20poly1305::Key::try_from(key).expect("aead: key length");
    let nonce = chacha20poly1305::XNonce::try_from(nonce).expect("aead: nonce length");
    let cipher = chacha20poly1305::XChaCha20Poly1305::new(&key);
    cipher.encrypt(&nonce, Payload { msg: pt, aad }).expect("aead: encrypting")
}

/// Relies on chacha20poly1305's `decrypt`: succeeds exactly on authentic
/// ciphertexts for the same key, nonce and aad, and then returns the
/// plaintext whose encryption the ciphertext is.
#[verifier::external_body]
pub(crate) fn aead_open(key: &[u8], nonce: &[u8], aad: &[u8], ct: &[u8]) -> (r: Option<Vec<u8>>)
    requires
        key@.len() == 32,
        nonce@.len() == 24,
    ensures
        r matches Some(pt) ==> ct@ == aead_seal(key@, nonce@, aad@, pt@),
        forall|pt: Seq<u8>| ct@ == #[trigger] aead_seal(key@, nonce@, aad@, pt) ==> r is Some
            && r->0@ == pt,
{
    let key = chacha20poly1305::Key::try_from(key).expect("aead: key length");
    let nonce = chacha20poly1305::XNonce::try_from(nonce).expect("aead: nonce length");
    let cipher = chacha20poly1305::XChaCha20Poly1305::new(&key);
    match cipher.decrypt(&nonce, Payload { msg: ct, aad }) {
        Ok(pt) => Some(pt),
        Err(_) => None,
    }
}

/// Relies on totp-lite's `totp_custom` with SHA-1 and six digits, called with
/// a one-second step so that the time argument is the step counter itself;
/// deterministic in secret and counter.
#[verifier::external_body]
pub(crate) fn totp_code(secret: &[u8], counter: u64) -> (r: Vec<u8>)
    ensures
        r@ == totp_of(secret@, counter),
        r@.len() == 6,
{
    totp_lite::totp_custom::<totp_lite::Sha1>(1, 6, secret, counter).into_bytes()
}

/// Relies on rand's `random_range`: a uniformly random value below `n`.
/// Nothing is assumed beyond the bound.
#[verifier::external_body]
pub(crate) fn random_below(n: u64) -> (r: u64)
    requires
        n > 0,
    ensures
        r < n,
{
    rand::random_range(0..n)
}

/// Relies on rand's `fill_bytes` on the thread rng: fills a buffer of the
/// requested length with random bytes. Nothing is assumed of the contents.
#[verifier::external_body]
pub(crate) fn random_bytes(n: usize) -> (r: Vec<u8>)
    ensures
        r@.len() == n,
{
    let mut buf = vec![0u8; n];
    rand::rng().fill_bytes(&mut buf);
    buf
}

/// Relies on base64's `encode`: the standard, padded base64 text of `bytes`,
/// deterministic in its argument.
#[verifier::external_body]
pub(crate) fn b64_encode(bytes: &[u8]) -> (r: String)
    ensures
        r@ == b64_of(bytes@),
{
    base64::encode(bytes)
}

/// Relies on base64's `decode` with the standard engine, which requires
/// canonical padding and rejects set trailing bits: it succeeds exactly on
/// the canonical encodings, and then returns the encoded bytes.
#[verifier::external_body]
pub(crate) fn b64_decode(s: &str) -> (r: Option<Vec<u8>>)
    ensures
        forall|b: Seq<u8>| s@ == #[trigger] b64_of(b) ==> r is Some && r->0@ == b,
        r matches Some(b) ==> s@ == b64_of(b@),
{
    match base64::decode(s) {
        Ok(bytes) => Some(bytes),
        Err(_) => None,
    }
}

/// A confirmation-code byte: an ASCII lowercase letter or digit.
pub open spec fn is_code_byte(b: u8) -> bool {
    (97 <= b && b <= 122) || (48 <= b && b <= 57)
}

/// Draws a random human-enterable confirmation code of the fixed length,
/// over the 36-letter alphabet of lowercase letters and digits.
pub fn random_code() -> (r: Vec<u8>)
    ensures
        r@.len() == crate::consts::CODE_LENGTH,
        forall|i: int| 0 <= i < r@.len() ==> is_code_byte(#[trigger] r@[i]),
{
    let mut r: Vec<u8> = Vec::new();
    let mut i: usize = 0;
    while i < crate::consts::CODE_LENGTH
        invariant
            0 <= i <= crate::consts::CODE_LENGTH,
            r@.len() == i,
            forall|t: int| 0 <= t < r@.len() ==> is_code_byte(#[trigger] r@[t]),
        decreases crate::consts::CODE_LENGTH - i,
    {
        let d = random_below(36);
        let b: u8 = if d < 26 {
            97 + (d as u8)
        } else {
            48 + ((d - 26) as u8)
        };
        r.push(b);
        i = i + 1;
    }
    r
}

} // verus!
