//! The cryptographic primitives the core is built on, each behind a small
//! trusted wrapper whose contract states what the outside implementation
//! guarantees. Everything above this module is verified against these
//! contracts alone.
//!
//! The named results (`ed25519_sig_of`, `x25519_shared`, ...) stand for
//! values that are functions of their arguments alone; nothing in the crate
//! claims what they are on given inputs.

use vstd::prelude::*;
use vstd::utf8::{encode_utf8, valid_utf8};
use rand::RngCore;
use ed25519_dalek::Signer;
use chacha20poly1305::aead::{Aead, KeyInit, Payload};

verus! {

/// The Ed25519 verifying key derived from a 32-byte seed.
pub uninterp spec fn ed25519_pub_of(seed: Seq<u8>) -> Seq<u8>;

/// The detached Ed25519 signature over `msg` under the key with seed
/// `seed`; Ed25519 signing is deterministic.
pub uninterp spec fn ed25519_sig_of(seed: Seq<u8>, msg: Seq<u8>) -> Seq<u8>;

/// Whether strict Ed25519 verification accepts `sig` on `msg` under the
/// 32-byte verifying key `pk` (false also when `pk` is not a valid key).
pub uninterp spec fn ed25519_verifies(pk: Seq<u8>, msg: Seq<u8>, sig: Seq<u8>) -> bool;

/// The X25519 public key of a 32-byte secret.
pub uninterp spec fn x25519_pub_of(sk: Seq<u8>) -> Seq<u8>;

/// The X25519 shared secret computed from one party's secret and the other
/// party's public key.
pub uninterp spec fn x25519_shared(sk: Seq<u8>, pk: Seq<u8>) -> Seq<u8>;

/// The 32-byte key that HKDF-SHA-256 derives from input keying material,
/// a salt, and a domain-separation label.
pub uninterp spec fn hkdf_sha256_32(salt: Seq<u8>, ikm: Seq<u8>, info: Seq<u8>) -> Seq<u8>;

/// The ChaCha20-Poly1305 sealing function: ciphertext plus tag for a key,
/// nonce, associated data and plaintext.
pub uninterp spec fn chacha_seal(key: Seq<u8>, nonce: Seq<u8>, aad: Seq<u8>, ct: Seq<u8>) -> Seq<u8>;

/// The ChaCha20-Poly1305 opening function: the plaintext a ciphertext
/// authenticates to, or `None` when the tag does not check out.
pub uninterp spec fn chacha_open(key: Seq<u8>, nonce: Seq<u8>, aad: Seq<u8>, ct: Seq<u8>) -> Option<
    Seq<u8>,
>;

/// The hexadecimal digit for a value below 16, lower case.
pub open spec fn hex_digit(n: u8) -> char
    recommends
        n < 16,
{
    if n == 0 {
        '0'
    } else if n == 1 {
        '1'
    } else if n == 2 {
        '2'
    } else if n == 3 {
        '3'
    } else if n == 4 {
        '4'
    } else if n == 5 {
        '5'
    } else if n == 6 {
        '6'
    } else if n == 7 {
        '7'
    } else if n == 8 {
        '8'
    } else if n == 9 {
        '9'
    } else if n == 10 {
        'a'
    } else if n == 11 {
        'b'
    } else if n == 12 {
        'c'
    } else if n == 13 {
        'd'
    } else if n == 14 {
        'e'
    } else {
        'f'
    }
}

/// Lower-case hexadecimal encoding: two digits per byte, high nibble first.
pub open spec fn hex_of(b: Seq<u8>) -> Seq<char> {
    Seq::new(
        b.len() * 2,
        |i: int|
            if i % 2 == 0 {
                hex_digit(b[i / 2] / 16)
            } else {
                hex_digit(b[i / 2] % 16)
            },
    )
}

/// Relies on ed25519_dalek::SigningKey::{from_bytes, verifying_key}: the
/// verifying key is a function of the seed alone.
#[verifier::external_body]
pub(crate) fn ed25519_public_of_seed(seed: &[u8; 32]) -> (r: [u8; 32])
    ensures
        r@ == ed25519_pub_of(seed@),
{
    let sk = ed25519_dalek::SigningKey::from_bytes(seed);
    sk.verifying_key().to_bytes()
}

/// Relies on ed25519_dalek::SigningKey::sign: Ed25519 signing is
/// deterministic, and a produced signature passes the library's own strict
/// verification under the matching verifying key.
#[verifier::external_body]
pub(crate) fn ed25519_sign(seed: &[u8; 32], msg: &[u8]) -> (r: Vec<u8>)
    ensures
        r@ == ed25519_sig_of(seed@, msg@),
        r@.len() == 64,
        ed25519_verifies(ed25519_pub_of(seed@), msg@, r@),
{
    let sk = ed25519_dalek::SigningKey::from_bytes(seed);
    sk.sign(msg).to_bytes().to_vec()
}

/// Relies on ed25519_dalek::VerifyingKey::{from_bytes, verify_strict}:
/// the outcome is a function of key, message and signature alone; a key
/// that does not decode, or a signature that fails the strict checks,
/// is rejected.
#[verifier::external_body]
pub(crate) fn ed25519_verify(pk: &[u8; 32], msg: &[u8], sig: &[u8]) -> (r: bool)
    requires
        sig@.len() == 64,
    ensures
        r == ed25519_verifies(pk@, msg@, sig@),
{
    let sig_arr: [u8; 64] = match sig.try_into() {
        Ok(a) => a,
        Err(_) => {
            return false;
        },
    };
    match ed25519_dalek::VerifyingKey::from_bytes(pk) {
        Ok(vk) => {
            let signature = ed25519_dalek::Signature::from_bytes(&sig_arr);
            vk.verify_strict(msg, &signature).is_ok()
        },
        Err(_) => false,
    }
}

/// Relies on x25519_dalek::{StaticSecret, PublicKey}: the public key is a
/// function of the secret bytes alone.
#[verifier::external_body]
pub(crate) fn x25519_public_of(sk: &[u8; 32]) -> (r: [u8; 32])
    ensures
        r@ == x25519_pub_of(sk@),
{
    let secret = x25519_dalek::StaticSecret::from(*sk);
    x25519_dalek::PublicKey::from(&secret).to_bytes()
}

/// Relies on x25519_dalek::StaticSecret::diffie_hellman: the shared secret
/// is a function of the two key bytes alone, and the exchange is symmetric —
/// when `pk` is the public key of some secret, that party computes the same
/// bytes from our public key.
#[verifier::external_body]
pub(crate) fn x25519_dh(sk: &[u8; 32], pk: &[u8; 32]) -> (r: [u8; 32])
    ensures
        r@ == x25519_shared(sk@, pk@),
        forall|sk2: Seq<u8>|
            pk@ == x25519_pub_of(sk2) ==> r@ == #[trigger] x25519_shared(sk2, x25519_pub_of(sk@)),
{
    let secret = x25519_dalek::StaticSecret::from(*sk);
    let their_public = x25519_dalek::PublicKey::from(*pk);
    *secret.diffie_hellman(&their_public).as_bytes()
}

/// Relies on hkdf::Hkdf::<sha2::Sha256>::{new, expand}: the derived key is
/// a function of salt, input keying material and label alone, and a 32-byte
/// expansion never exceeds the HKDF output bound.
#[verifier::external_body]
pub(crate) fn hkdf_derive_32(salt: &[u8], ikm: &[u8], info: &[u8]) -> (r: [u8; 32])
    ensures
        r@ == hkdf_sha256_32(salt@, ikm@, info@),
{
    let h = hkdf::Hkdf::<sha2::Sha256>::new(Some(salt), ikm);
    let mut okm = [0u8; 32];
    let _ = h.expand(info, &mut okm);
    okm
}

/// Relies on chacha20poly1305::ChaCha20Poly1305::{new_from_slice, encrypt}:
/// sealing is a function of key, nonce, associated data and plaintext; it
/// appends a 16-byte tag, succeeds exactly when the plaintext is below the
/// cipher's block-count bound, and what it seals, opening recovers.
#[verifier::external_body]
pub(crate) fn chacha_encrypt(key: &[u8; 32], nonce: &[u8; 12], aad: &[u8], pt: &[u8]) -> (r: Result<Vec<u8>, ()>)
    ensures
        r is Ok <==> pt@.len() / 64 < 0xffff_ffff,
        r matches Ok(ct) ==> {
            &&& ct@ == chacha_seal(key@, nonce@, aad@, pt@)
            &&& ct@.len() == pt@.len() + 16
        },
{
    let cipher = match chacha20poly1305::ChaCha20Poly1305::new_from_slice(key) {
        Ok(c) => c,
        Err(_) => {
            return Err(());
        },
    };
    let payload = Payload { msg: pt, aad };
    cipher.encrypt(chacha20poly1305::Nonce::from_slice(nonce), payload).map_err(|_| ())
}

/// Relies on chacha20poly1305::ChaCha20Poly1305::{new_from_slice, decrypt}:
/// opening is a function of key, nonce, associated data and ciphertext; it
/// returns the plaintext exactly when the tag authenticates, and in
/// particular recovers what sealing produced under the same parameters.
#[verifier::external_body]
pub(crate) fn chacha_decrypt(key: &[u8; 32], nonce: &[u8; 12], aad: &[u8], ct: &[u8]) -> (r: Result<Vec<u8>, ()>)
    ensures
        r is Ok <==> chacha_open(key@, nonce@, aad@, ct@) is Some,
        r matches Ok(pt) ==> chacha_open(key@, nonce@, aad@, ct@) == Some(pt@),
        forall|p: Seq<u8>|
            p.len() / 64 < 0xffff_ffff && ct@ == #[trigger] chacha_seal(key@, nonce@, aad@, p)
                ==> r is Ok && r->Ok_0@ == p,
{
    let cipher = match chacha20poly1305::ChaCha20Poly1305::new_from_slice(key) {
        Ok(c) => c,
        Err(_) => {
            return Err(());
        },
    };
    let payload = Payload { msg: ct, aad };
    cipher.decrypt(chacha20poly1305::Nonce::from_slice(nonce), payload).map_err(|_| ())
}

/// Relies on rand::rngs::OsRng::fill_bytes: operating-system randomness;
/// nothing is promised of the value.
#[verifier::external_body]
pub(crate) fn os_random_32() -> (r: [u8; 32]) {
    let mut buf = [0u8; 32];
    rand::rngs::OsRng.fill_bytes(&mut buf);
    buf
}

/// Relies on rand::rngs::OsRng::fill_bytes: operating-system randomness;
/// nothing is promised of the value.
#[verifier::external_body]
pub(crate) fn os_random_12() -> (r: [u8; 12]) {
    let mut buf = [0u8; 12];
    rand::rngs::OsRng.fill_bytes(&mut buf);
    buf
}

/// Relies on rand::rngs::OsRng::fill_bytes: operating-system randomness;
/// nothing is promised of the value.
#[verifier::external_body]
pub(crate) fn os_random_8() -> (r: [u8; 8]) {
    let mut buf = [0u8; 8];
    rand::rngs::OsRng.fill_bytes(&mut buf);
    buf
}

/// Relies on std::time::SystemTime::now and duration_since: whole seconds
/// since the Unix epoch; fails only when the clock reads before the epoch.
#[verifier::external_body]
pub(crate) fn epoch_seconds() -> (r: Result<u64, crate::error::CoreError>)
    ensures
        r is Err ==> r->Err_0 == crate::error::CoreError::ClockUnavailable,
{
    match std::time::SystemTime::now().duration_since(std::time::UNIX_EPOCH) {
        Ok(d) => Ok(d.as_secs()),
        Err(_) => Err(crate::error::CoreError::ClockUnavailable),
    }
}

/// Relies on chrono::Local::now and its formatter: the local wall-clock
/// time rendered as hours and minutes; nothing is promised of the value.
#[verifier::external_body]
pub(crate) fn local_time_hhmm() -> (r: String) {
    chrono::Local::now().format("%H:%M").to_string()
}

/// Relies on std's String::from_utf8: succeeds exactly on valid UTF-8, and
/// the returned string consists of exactly the decoded bytes.
#[verifier::external_body]
pub(crate) fn string_from_utf8(v: Vec<u8>) -> (r: Option<String>)
    ensures
        r is Some <==> valid_utf8(v@),
        r matches Some(s) ==> encode_utf8(s@) == v@,
{
    match String::from_utf8(v) {
        Ok(s) => Some(s),
        Err(_) => None,
    }
}

} // verus!
