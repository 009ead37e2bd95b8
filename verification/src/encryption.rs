//! End-to-end pairwise encryption: X25519 key agreement with an ephemeral
//! key for forward secrecy, HKDF-SHA-256 key derivation under a fixed
//! domain-separation label, and ChaCha20-Poly1305 authenticated encryption.

use vstd::prelude::*;
use vstd::bytes::spec_u64_to_le_bytes;
use crate::error::CoreError;
use crate::primitives::{
    chacha_decrypt, chacha_encrypt, chacha_open, chacha_seal, epoch_seconds, hex_of,
    hkdf_derive_32, hkdf_sha256_32, os_random_12, os_random_32, x25519_dh, x25519_pub_of,
    x25519_public_of, x25519_shared,
};
use crate::textutil::{hex_encode, wipe32};
use crate::wire::{
    lp, opt, push_bytes, push_lp, push_opt, push_u64, read_lp, read_lp_spec, read_opt,
    read_opt_spec, read_raw, read_raw_spec, read_u64, read_u64_spec, lemma_read_lp_at,
    lemma_read_opt_at, lemma_read_raw_at, lemma_read_u64_at,
};

verus! {

/// Nonce size for ChaCha20-Poly1305.
pub const NONCE_SIZE: usize = 12;

/// Key size for X25519 and ChaCha20-Poly1305.
pub const KEY_SIZE: usize = 32;

/// Salt size for HKDF.
pub const SALT_SIZE: usize = 32;

/// The domain-separation label under which pairwise message keys are
/// derived; reproduced exactly for interoperability.
pub fn e2e_info() -> (r: &'static str)
    ensures
        r@ == pairwise_label(),
{
    "openwire-e2e-v1"
}

/// The characters of the pairwise key-derivation label.
pub open spec fn pairwise_label() -> Seq<char> {
    "openwire-e2e-v1"@
}

/// The label bytes handed to the key-derivation function.
pub open spec fn pairwise_info_bytes() -> Seq<u8> {
    vstd::utf8::encode_utf8(pairwise_label())
}

/// A nonce used for encryption.
#[derive(Debug, Clone)]
pub struct EncryptionNonce(pub [u8; NONCE_SIZE]);

impl EncryptionNonce {
    /// Generate a random nonce.
    pub fn random() -> Self {
        EncryptionNonce(os_random_12())
    }

    /// Get bytes.
    pub fn as_bytes(&self) -> (r: &[u8])
        ensures
            r@ == self.0@,
    {
        self.0.as_slice()
    }
}

/// The mathematical content of an [`EncryptedMessage`].
pub ghost struct EncryptedMessageV {
    pub ciphertext: Seq<u8>,
    pub nonce: Seq<u8>,
    pub ephemeral_public_key: Option<Seq<u8>>,
    pub salt: Seq<u8>,
    pub timestamp: u64,
    pub aad: Option<Seq<u8>>,
}

/// An encrypted pairwise envelope with all metadata needed for decryption.
#[derive(Debug, Clone)]
pub struct EncryptedMessage {
    /// The encrypted ciphertext (with its authentication tag).
    pub ciphertext: Vec<u8>,
    /// The nonce used for encryption.
    pub nonce: EncryptionNonce,
    /// The sender's ephemeral public key (for forward secrecy).
    pub ephemeral_public_key: Option<Vec<u8>>,
    /// Random salt used for key derivation.
    pub salt: Vec<u8>,
    /// Timestamp for replay protection.
    pub timestamp: u64,
    /// Additional authenticated data.
    pub aad: Option<Vec<u8>>,
}

impl View for EncryptedMessage {
    type V = EncryptedMessageV;

    open spec fn view(&self) -> EncryptedMessageV {
        EncryptedMessageV {
            ciphertext: self.ciphertext@,
            nonce: self.nonce.0@,
            ephemeral_public_key: match self.ephemeral_public_key {
                Option::None => Option::None,
                Option::Some(e) => Some(e@),
            },
            salt: self.salt@,
            timestamp: self.timestamp,
            aad: match self.aad {
                Option::None => Option::None,
                Option::Some(a) => Some(a@),
            },
        }
    }
}

/// The wire form of an encrypted envelope: ciphertext, the 12 raw nonce
/// bytes, the optional ephemeral key, the salt, the timestamp, and the
/// optional associated data, in that order.
pub open spec fn spec_encrypted_message_bytes(v: EncryptedMessageV) -> Seq<u8> {
    lp(v.ciphertext) + v.nonce + opt(v.ephemeral_public_key) + lp(v.salt) + spec_u64_to_le_bytes(
        v.timestamp,
    ) + opt(v.aad)
}

/// Spec-level parse of an encrypted envelope; the exact inverse of
/// [`spec_encrypted_message_bytes`] on well-formed encodings.
pub open spec fn spec_encrypted_message_parse(data: Seq<u8>) -> Option<EncryptedMessageV> {
    match read_lp_spec(data, 0) {
        None => None,
        Some((ct, p1)) => match read_raw_spec(data, p1, NONCE_SIZE as int) {
            None => None,
            Some((nonce, p2)) => match read_opt_spec(data, p2) {
                None => None,
                Some((eph, p3)) => match read_lp_spec(data, p3) {
                    None => None,
                    Some((salt, p4)) => match read_u64_spec(data, p4) {
                        None => None,
                        Some((ts, p5)) => match read_opt_spec(data, p5) {
                            None => None,
                            Some((aad, p6)) => if p6 == data.len() {
                                Some(
                                    EncryptedMessageV {
                                        ciphertext: ct,
                                        nonce,
                                        ephemeral_public_key: eph,
                                        salt,
                                        timestamp: ts,
                                        aad,
                                    },
                                )
                            } else {
                                None
                            },
                        },
                    },
                },
            },
        },
    }
}

impl EncryptedMessage {
    /// Serialize to bytes for transmission.
    pub fn to_bytes(&self) -> (r: Result<Vec<u8>, CoreError>)
        ensures
            r is Ok,
            r matches Ok(b) ==> b@ == spec_encrypted_message_bytes(self@),
    {
        let mut out: Vec<u8> = Vec::new();
        push_lp(&mut out, self.ciphertext.as_slice());
        push_bytes(&mut out, self.nonce.0.as_slice());
        push_opt(&mut out, &self.ephemeral_public_key);
        push_lp(&mut out, self.salt.as_slice());
        push_u64(&mut out, self.timestamp);
        push_opt(&mut out, &self.aad);
        Ok(out)
    }

    /// Deserialize from bytes; rejects anything the spec-level parser
    /// rejects, with no partial processing.
    pub fn from_bytes(data: &[u8]) -> (r: Result<Self, CoreError>)
        ensures
            match spec_encrypted_message_parse(data@) {
                Some(v) => r matches Ok(m) && m@ == v,
                None => r == Err::<Self, CoreError>(CoreError::MalformedInput),
            },
    {
        let mut pos: usize = 0;
        let ciphertext = match read_lp(data, &mut pos) {
            Some(b) => b,
            None => {
                return Err(CoreError::MalformedInput);
            },
        };
        let nonce_bytes = match read_raw(data, &mut pos, NONCE_SIZE) {
            Some(b) => b,
            None => {
                return Err(CoreError::MalformedInput);
            },
        };
        let ephemeral_public_key = match read_opt(data, &mut pos) {
            Some(o) => o,
            None => {
                return Err(CoreError::MalformedInput);
            },
        };
        let salt = match read_lp(data, &mut pos) {
            Some(b) => b,
            None => {
                return Err(CoreError::MalformedInput);
            },
        };
        let timestamp = match read_u64(data, &mut pos) {
            Some(x) => x,
            None => {
                return Err(CoreError::MalformedInput);
            },
        };
        let aad = match read_opt(data, &mut pos) {
            Some(o) => o,
            None => {
                return Err(CoreError::MalformedInput);
            },
        };
        if pos != data.len() {
            return Err(CoreError::MalformedInput);
        }
        let nonce = EncryptionNonce(crate::textutil::arr12(&nonce_bytes));
        Ok(
            EncryptedMessage {
                ciphertext,
                nonce,
                ephemeral_public_key,
                salt,
                timestamp,
                aad,
            },
        )
    }
}

/// The associated data handed to the cipher: the field itself, or empty
/// when absent.
pub open spec fn aad_bytes(aad: Option<Seq<u8>>) -> Seq<u8> {
    match aad {
        Option::None => Seq::empty(),
        Option::Some(a) => a,
    }
}

/// The key the sender of a pairwise envelope derives: HKDF over the
/// concatenation of the static and the ephemeral shared secret, under the
/// envelope's salt and the fixed pairwise label.
pub open spec fn pairwise_send_key(
    sender_sk: Seq<u8>,
    receiver_pk: Seq<u8>,
    esk: Seq<u8>,
    salt: Seq<u8>,
) -> Seq<u8> {
    hkdf_sha256_32(
        salt,
        x25519_shared(sender_sk, receiver_pk) + x25519_shared(esk, receiver_pk),
        pairwise_info_bytes(),
    )
}

/// `m` is a pairwise envelope that the holder of `sender_sk` sealed for
/// the holder of the secret behind `receiver_pk`, over plaintext `pt`,
/// using the ephemeral secret `esk`.
pub open spec fn sealed_for_with(
    m: EncryptedMessageV,
    sender_sk: Seq<u8>,
    receiver_pk: Seq<u8>,
    pt: Seq<u8>,
    esk: Seq<u8>,
) -> bool {
    &&& m.ephemeral_public_key == Some(x25519_pub_of(esk))
    &&& (m.ephemeral_public_key matches Some(e) && e.len() == KEY_SIZE)
    &&& m.salt.len() == SALT_SIZE
    &&& m.nonce.len() == NONCE_SIZE
    &&& m.ciphertext == chacha_seal(
        pairwise_send_key(sender_sk, receiver_pk, esk, m.salt),
        m.nonce,
        aad_bytes(m.aad),
        pt,
    )
}

/// `m` is a pairwise envelope sealed by `sender_sk` for `receiver_pk`
/// over `pt`, under some ephemeral secret.
pub open spec fn sealed_for(
    m: EncryptedMessageV,
    sender_sk: Seq<u8>,
    receiver_pk: Seq<u8>,
    pt: Seq<u8>,
) -> bool {
    exists|esk: Seq<u8>| sealed_for_with(m, sender_sk, receiver_pk, pt, esk)
}

/// Whether an envelope has the field widths decryption demands.
pub open spec fn pairwise_shape_ok(m: EncryptedMessageV) -> bool {
    &&& (m.ephemeral_public_key matches Some(e) ==> e.len() == KEY_SIZE)
    &&& m.salt.len() == SALT_SIZE
}

/// The key the receiver derives for an envelope: its own secret against
/// the sender's static key, and — when an ephemeral key is present —
/// against that ephemeral key, concatenated in the sender's order.
pub open spec fn pairwise_open_key(rk: Seq<u8>, peer_pk: Seq<u8>, m: EncryptedMessageV) -> Seq<
    u8,
> {
    match m.ephemeral_public_key {
        Option::Some(e) => hkdf_sha256_32(
            m.salt,
            x25519_shared(rk, peer_pk) + x25519_shared(rk, e),
            pairwise_info_bytes(),
        ),
        Option::None => hkdf_sha256_32(m.salt, x25519_shared(rk, peer_pk), pairwise_info_bytes()),
    }
}

/// What decryption of `m` by the holder of `rk`, against a sender known by
/// `peer_pk`, authenticates to.
pub open spec fn pairwise_opened(rk: Seq<u8>, peer_pk: Seq<u8>, m: EncryptedMessageV) -> Option<
    Seq<u8>,
> {
    chacha_open(pairwise_open_key(rk, peer_pk, m), m.nonce, aad_bytes(m.aad), m.ciphertext)
}

/// An X25519 keypair for key agreement. The public half is always the one
/// derived from the secret half.
pub struct EncryptionKeyPair {
    /// The static secret key (long-term).
    secret: [u8; KEY_SIZE],
    /// The public key.
    public: [u8; KEY_SIZE],
}

impl EncryptionKeyPair {
    /// The secret bytes, as a mathematical value.
    pub closed spec fn sk(&self) -> Seq<u8> {
        self.secret@
    }

    #[verifier::type_invariant]
    spec fn wf(self) -> bool {
        self.public@ == x25519_pub_of(self.secret@)
    }

    /// Generate a new random keypair.
    pub fn generate() -> (r: Result<Self, CoreError>)
        ensures
            r is Ok,
    {
        let secret = os_random_32();
        let public = x25519_public_of(&secret);
        Ok(EncryptionKeyPair { secret, public })
    }

    /// Get the public key bytes.
    pub fn public_key_bytes(&self) -> (r: [u8; KEY_SIZE])
        ensures
            r@ == x25519_pub_of(self.sk()),
    {
        proof {
            use_type_invariant(self);
        }
        self.public
    }

    /// Get the public key.
    pub fn public_key(&self) -> (r: &[u8; KEY_SIZE])
        ensures
            r@ == x25519_pub_of(self.sk()),
    {
        proof {
            use_type_invariant(self);
        }
        &self.public
    }

    /// Perform Diffie-Hellman key agreement with another public key. The
    /// result is symmetric: whoever holds the secret behind `their_public`
    /// computes the same bytes from this keypair's public key.
    pub fn diffie_hellman(&self, their_public: &[u8; KEY_SIZE]) -> (r: [u8; 32])
        ensures
            r@ == x25519_shared(self.sk(), their_public@),
            forall|sk2: Seq<u8>|
                their_public@ == x25519_pub_of(sk2) ==> r@ == #[trigger] x25519_shared(
                    sk2,
                    x25519_pub_of(self.sk()),
                ),
    {
        x25519_dh(&self.secret, their_public)
    }

    /// Serialize the secret key for storage. The caller is responsible for
    /// handling the returned bytes with care.
    pub fn secret_to_bytes(&self) -> (r: [u8; KEY_SIZE])
        ensures
            r@ == self.sk(),
    {
        self.secret
    }

    /// Deserialize from secret key bytes.
    pub fn from_secret_bytes(bytes: [u8; KEY_SIZE]) -> (r: Self)
        ensures
            r.sk() == bytes@,
    {
        let public = x25519_public_of(&bytes);
        EncryptionKeyPair { secret: bytes, public }
    }
}

/// Session manager holding the local static key-agreement keypair; private
/// key material stays in one place.
pub struct SessionManager {
    /// Our encryption keypair.
    keypair: EncryptionKeyPair,
}

impl SessionManager {
    /// The local static secret, as a mathematical value.
    pub closed spec fn sk(&self) -> Seq<u8> {
        self.keypair.sk()
    }

    /// Create a new session manager with a fresh keypair.
    pub fn new() -> (r: Result<Self, CoreError>)
        ensures
            r is Ok,
    {
        let keypair = match EncryptionKeyPair::generate() {
            Ok(k) => k,
            Err(e) => {
                return Err(e);
            },
        };
        Ok(SessionManager { keypair })
    }

    /// Get our public key bytes to share with peers.
    pub fn public_key_bytes(&self) -> (r: [u8; KEY_SIZE])
        ensures
            r@ == x25519_pub_of(self.sk()),
    {
        self.keypair.public_key_bytes()
    }

    /// Establish a session with a peer; the session identifier is the hex
    /// form of the peer's public key.
    pub fn establish_session(&self, peer_public_key: &[u8; KEY_SIZE]) -> (r: Result<
        String,
        CoreError,
    >)
        ensures
            r matches Ok(s) && s@ == hex_of(peer_public_key@),
    {
        Ok(hex_encode(peer_public_key.as_slice()))
    }

    /// Encrypt a message for a specific peer: fresh ephemeral key, fresh
    /// salt and nonce, key derived from both shared secrets under the
    /// pairwise label, then authenticated encryption.
    pub fn encrypt_for_peer(
        &self,
        peer_public_key: &[u8; KEY_SIZE],
        plaintext: &[u8],
        aad: Option<&[u8]>,
    ) -> (r: Result<EncryptedMessage, CoreError>)
        ensures
            r matches Ok(m) ==> {
                &&& sealed_for(m@, self.sk(), peer_public_key@, plaintext@)
                &&& m@.aad == (match aad {
                    Option::None => Option::<Seq<u8>>::None,
                    Option::Some(a) => Some(a@),
                })
                &&& m@.ciphertext.len() == plaintext@.len() + 16
            },
            plaintext@.len() / 64 >= 0xffff_ffff ==> r == Err::<EncryptedMessage, CoreError>(
                CoreError::EncryptionFailed,
            ),
            r is Err ==> (r->Err_0 == CoreError::EncryptionFailed || r->Err_0
                == CoreError::ClockUnavailable),
            r is Err && r->Err_0 == CoreError::EncryptionFailed ==> plaintext@.len() / 64
                >= 0xffff_ffff,
    {
        // Fresh ephemeral keypair for forward secrecy.
        let ephemeral = os_random_32();
        let ephemeral_public = x25519_public_of(&ephemeral);

        // Both shared secrets, concatenated in a fixed order.
        let static_shared = self.keypair.diffie_hellman(peer_public_key);
        let ephemeral_shared = x25519_dh(&ephemeral, peer_public_key);
        let combined_secret = combine_secrets(&static_shared, &ephemeral_shared);

        let salt = os_random_32();
        let mut key = match derive_key_bytes(
            combined_secret.as_slice(),
            &salt,
            e2e_info().as_bytes(),
        ) {
            Ok(k) => k,
            Err(e) => {
                return Err(e);
            },
        };

        let nonce = EncryptionNonce::random();
        let aad_slice: &[u8] = match aad {
            Option::Some(a) => a,
            Option::None => crate::textutil::empty_bytes(),
        };
        let ciphertext = match chacha_encrypt(&key, &nonce.0, aad_slice, plaintext) {
            Ok(c) => c,
            Err(_) => {
                return Err(CoreError::EncryptionFailed);
            },
        };

        // Drop the derived key material from the stack copy.
        wipe32(&mut key);

        let timestamp = match epoch_seconds() {
            Ok(t) => t,
            Err(e) => {
                return Err(e);
            },
        };

        let mut eph_vec: Vec<u8> = Vec::new();
        push_bytes(&mut eph_vec, ephemeral_public.as_slice());
        let mut salt_vec: Vec<u8> = Vec::new();
        push_bytes(&mut salt_vec, salt.as_slice());
        let aad_field: Option<Vec<u8>> = match aad {
            Option::Some(a) => {
                let mut v: Vec<u8> = Vec::new();
                push_bytes(&mut v, a);
                Some(v)
            },
            Option::None => None,
        };

        let m = EncryptedMessage {
            ciphertext,
            nonce,
            ephemeral_public_key: Some(eph_vec),
            salt: salt_vec,
            timestamp,
            aad: aad_field,
        };
        proof {
            assert(sealed_for_with(m@, self.sk(), peer_public_key@, plaintext@, ephemeral@));
        }
        Ok(m)
    }

    /// Decrypt a message from a peer. Any malformed field, or any tag
    /// mismatch, is a hard failure: no partial plaintext is returned. An
    /// envelope that a peer sealed for this session's public key decrypts
    /// to exactly the sealed plaintext.
    pub fn decrypt_from_peer(&self, encrypted: &EncryptedMessage, peer_public_key: &[u8; KEY_SIZE]) -> (r: Result<Vec<u8>, CoreError>)
        ensures
            !pairwise_shape_ok(encrypted@) ==> r == Err::<Vec<u8>, CoreError>(
                CoreError::MalformedInput,
            ),
            pairwise_shape_ok(encrypted@) ==> {
                &&& (r is Ok <==> pairwise_opened(self.sk(), peer_public_key@, encrypted@) is Some)
                &&& (r is Err ==> r->Err_0 == CoreError::AuthenticationFailed)
            },
            r matches Ok(pt) ==> pairwise_opened(self.sk(), peer_public_key@, encrypted@) == Some(
                pt@,
            ),
            forall|pt: Seq<u8>, sk2: Seq<u8>|
                #[trigger] sealed_for(encrypted@, sk2, x25519_pub_of(self.sk()), pt)
                    && peer_public_key@ == x25519_pub_of(sk2) && pt.len() / 64 < 0xffff_ffff
                    ==> r is Ok && r->Ok_0@ == pt,
    {
        let static_shared = self.keypair.diffie_hellman(peer_public_key);

        match &encrypted.ephemeral_public_key {
            Option::Some(ephemeral_bytes) => {
                if ephemeral_bytes.len() != KEY_SIZE {
                    return Err(CoreError::MalformedInput);
                }
                let ephemeral_arr = crate::textutil::arr32(ephemeral_bytes);
                let ephemeral_shared = self.keypair.diffie_hellman(&ephemeral_arr);
                let combined_secret = combine_secrets(&static_shared, &ephemeral_shared);

                if encrypted.salt.len() != SALT_SIZE {
                    return Err(CoreError::MalformedInput);
                }
                let salt = crate::textutil::arr32(&encrypted.salt);
                let key = match derive_key_bytes(
                    combined_secret.as_slice(),
                    &salt,
                    e2e_info().as_bytes(),
                ) {
                    Ok(k) => k,
                    Err(_) => {
                        return Err(CoreError::AuthenticationFailed);
                    },
                };

                let aad_slice: &[u8] = match &encrypted.aad {
                    Option::Some(a) => a.as_slice(),
                    Option::None => crate::textutil::empty_bytes(),
                };

                let result = chacha_decrypt(
                    &key,
                    &encrypted.nonce.0,
                    aad_slice,
                    encrypted.ciphertext.as_slice(),
                );
                proof {
                    assert(key@ == pairwise_open_key(self.sk(), peer_public_key@, encrypted@));
                    assert forall|pt: Seq<u8>, sk2: Seq<u8>|
                        #[trigger] sealed_for(encrypted@, sk2, x25519_pub_of(self.sk()), pt)
                            && peer_public_key@ == x25519_pub_of(sk2) && pt.len() / 64
                            < 0xffff_ffff implies result is Ok && result->Ok_0@ == pt by {
                        let my_pk = x25519_pub_of(self.sk());
                        let esk = choose|esk: Seq<u8>|
                            sealed_for_with(encrypted@, sk2, my_pk, pt, esk);
                        assert(ephemeral_arr@ == x25519_pub_of(esk));
                        assert(ephemeral_shared@ == x25519_shared(esk, my_pk));
                        assert(static_shared@ == x25519_shared(sk2, my_pk));
                        assert(key@ == pairwise_send_key(sk2, my_pk, esk, encrypted@.salt));
                        assert(encrypted@.ciphertext == chacha_seal(
                            key@,
                            encrypted@.nonce,
                            aad_bytes(encrypted@.aad),
                            pt,
                        ));
                    }
                }
                match result {
                    Ok(pt) => Ok(pt),
                    Err(_) => Err(CoreError::AuthenticationFailed),
                }
            },
            Option::None => {
                let mut combined_secret: Vec<u8> = Vec::new();
                push_bytes(&mut combined_secret, static_shared.as_slice());

                if encrypted.salt.len() != SALT_SIZE {
                    return Err(CoreError::MalformedInput);
                }
                let salt = crate::textutil::arr32(&encrypted.salt);
                let key = match derive_key_bytes(
                    combined_secret.as_slice(),
                    &salt,
                    e2e_info().as_bytes(),
                ) {
                    Ok(k) => k,
                    Err(_) => {
                        return Err(CoreError::AuthenticationFailed);
                    },
                };

                let aad_slice: &[u8] = match &encrypted.aad {
                    Option::Some(a) => a.as_slice(),
                    Option::None => crate::textutil::empty_bytes(),
                };

                let result = chacha_decrypt(
                    &key,
                    &encrypted.nonce.0,
                    aad_slice,
                    encrypted.ciphertext.as_slice(),
                );
                match result {
                    Ok(pt) => Ok(pt),
                    Err(_) => Err(CoreError::AuthenticationFailed),
                }
            },
        }
    }
}

/// Combine two shared secrets by concatenation; the result is fed into
/// the key-derivation function.
fn combine_secrets(s1: &[u8; 32], s2: &[u8; 32]) -> (r: Vec<u8>)
    ensures
        r@ == s1@ + s2@,
{
    let mut combined: Vec<u8> = Vec::new();
    push_bytes(&mut combined, s1.as_slice());
    push_bytes(&mut combined, s2.as_slice());
    combined
}

/// Derive a 32-byte key from raw bytes with HKDF under a salt and a
/// domain-separation label.
fn derive_key_bytes(secret: &[u8], salt: &[u8; SALT_SIZE], info: &[u8]) -> (r: Result<
    [u8; KEY_SIZE],
    CoreError,
>)
    ensures
        r is Ok,
        r matches Ok(k) ==> k@ == hkdf_sha256_32(salt@, secret@, info@),
{
    Ok(hkdf_derive_32(salt.as_slice(), secret, info))
}

/// Encrypt under an already-shared key: no key agreement, no salt, no
/// ephemeral key in the envelope.
pub fn encrypt_with_key(plaintext: &[u8], key: &[u8; KEY_SIZE], aad: Option<&[u8]>) -> (r: Result<
    EncryptedMessage,
    CoreError,
>)
    ensures
        r matches Ok(m) ==> {
            &&& m@.ciphertext == chacha_seal(key@, m@.nonce, aad_bytes(m@.aad), plaintext@)
            &&& m@.ephemeral_public_key is None
            &&& m@.salt == Seq::<u8>::empty()
            &&& m@.aad == (match aad {
                Option::None => Option::<Seq<u8>>::None,
                Option::Some(a) => Some(a@),
            })
            &&& m@.ciphertext.len() == plaintext@.len() + 16
        },
        plaintext@.len() / 64 >= 0xffff_ffff ==> r == Err::<EncryptedMessage, CoreError>(
            CoreError::EncryptionFailed,
        ),
        r is Err ==> (r->Err_0 == CoreError::EncryptionFailed || r->Err_0
            == CoreError::ClockUnavailable),
        r is Err && r->Err_0 == CoreError::EncryptionFailed ==> plaintext@.len() / 64
            >= 0xffff_ffff,
{
    let nonce = EncryptionNonce::random();
    let aad_slice: &[u8] = match aad {
        Option::Some(a) => a,
        Option::None => crate::textutil::empty_bytes(),
    };
    let ciphertext = match chacha_encrypt(key, &nonce.0, aad_slice, plaintext) {
        Ok(c) => c,
        Err(_) => {
            return Err(CoreError::EncryptionFailed);
        },
    };
    let timestamp = match epoch_seconds() {
        Ok(t) => t,
        Err(e) => {
            return Err(e);
        },
    };
    let aad_field: Option<Vec<u8>> = match aad {
        Option::Some(a) => {
            let mut v: Vec<u8> = Vec::new();
            push_bytes(&mut v, a);
            Some(v)
        },
        Option::None => None,
    };
    Ok(
        EncryptedMessage {
            ciphertext,
            nonce,
            ephemeral_public_key: None,
            salt: Vec::new(),
            timestamp,
            aad: aad_field,
        },
    )
}

/// Decrypt under an already-shared key. What was sealed under this key,
/// nonce and associated data is recovered exactly; anything else fails.
pub fn decrypt_with_key(encrypted: &EncryptedMessage, key: &[u8; KEY_SIZE]) -> (r: Result<
    Vec<u8>,
    CoreError,
>)
    ensures
        r is Ok <==> chacha_open(
            key@,
            encrypted@.nonce,
            aad_bytes(encrypted@.aad),
            encrypted@.ciphertext,
        ) is Some,
        r matches Ok(pt) ==> chacha_open(
            key@,
            encrypted@.nonce,
            aad_bytes(encrypted@.aad),
            encrypted@.ciphertext,
        ) == Some(pt@),
        r is Err ==> r->Err_0 == CoreError::AuthenticationFailed,
        forall|p: Seq<u8>|
            p.len() / 64 < 0xffff_ffff && encrypted@.ciphertext == #[trigger] chacha_seal(
                key@,
                encrypted@.nonce,
                aad_bytes(encrypted@.aad),
                p,
            ) ==> r is Ok && r->Ok_0@ == p,
{
    let aad_slice: &[u8] = match &encrypted.aad {
        Option::Some(a) => a.as_slice(),
        Option::None => crate::textutil::empty_bytes(),
    };
    let result = chacha_decrypt(key, &encrypted.nonce.0, aad_slice, encrypted.ciphertext.as_slice());
    match result {
        Ok(pt) => Ok(pt),
        Err(_) => Err(CoreError::AuthenticationFailed),
    }
}

/// Encoding then parsing an encrypted envelope yields it back unchanged:
/// the wire format loses nothing.
pub proof fn lemma_encrypted_message_round_trip(v: EncryptedMessageV)
    requires
        v.ciphertext.len() <= u64::MAX,
        v.nonce.len() == NONCE_SIZE,
        v.ephemeral_public_key matches Some(e) ==> e.len() <= u64::MAX,
        v.salt.len() <= u64::MAX,
        v.aad matches Some(a) ==> a.len() <= u64::MAX,
    ensures
        spec_encrypted_message_parse(spec_encrypted_message_bytes(v)) == Some(v),
{
    vstd::bytes::lemma_auto_spec_u64_to_from_le_bytes();
    let s1 = lp(v.ciphertext);
    let s2 = v.nonce;
    let s3 = opt(v.ephemeral_public_key);
    let s4 = lp(v.salt);
    let s5 = spec_u64_to_le_bytes(v.timestamp);
    let s6 = opt(v.aad);
    let data = spec_encrypted_message_bytes(v);
    assert(data =~= Seq::<u8>::empty() + s1 + (s2 + s3 + s4 + s5 + s6));
    lemma_read_lp_at(Seq::<u8>::empty(), v.ciphertext, s2 + s3 + s4 + s5 + s6);
    assert(data =~= s1 + s2 + (s3 + s4 + s5 + s6));
    lemma_read_raw_at(s1, v.nonce, s3 + s4 + s5 + s6);
    assert(data =~= (s1 + s2) + s3 + (s4 + s5 + s6));
    lemma_read_opt_at(s1 + s2, v.ephemeral_public_key, s4 + s5 + s6);
    assert(data =~= (s1 + s2 + s3) + s4 + (s5 + s6));
    lemma_read_lp_at(s1 + s2 + s3, v.salt, s5 + s6);
    assert(data =~= (s1 + s2 + s3 + s4) + s5 + s6);
    lemma_read_u64_at(s1 + s2 + s3 + s4, v.timestamp, s6);
    assert(data =~= (s1 + s2 + s3 + s4 + s5) + s6 + Seq::<u8>::empty());
    lemma_read_opt_at(s1 + s2 + s3 + s4 + s5, v.aad, Seq::<u8>::empty());
}

} // verus!
