//! Private group rooms: a symmetric group key per room, distributed to
//! invitees through signed, per-recipient asymmetric envelopes; room
//! messages are signed by their sender and sealed under the group key.

use vstd::prelude::*;
use vstd::bytes::spec_u64_to_le_bytes;
use vstd::slice::{slice_subrange, slice_to_vec};
use vstd::string::{StringExecFns, StringSliceAdditionalSpecFns};
use vstd::utf8::{encode_utf8, valid_utf8, decode_utf8, encode_utf8_decode_utf8};
use crate::crypto::Identity;
use crate::error::CoreError;
use crate::primitives::{
    chacha_decrypt, chacha_encrypt, chacha_open, chacha_seal, ed25519_sig_of, ed25519_verifies,
    epoch_seconds, hex_of, hkdf_derive_32, hkdf_sha256_32, os_random_12, os_random_32,
    os_random_8, string_from_utf8, x25519_dh, x25519_pub_of, x25519_public_of, x25519_shared,
};
use crate::textutil::{arr12, arr32, hex_encode, str_eq};
use crate::wire::{
    lp, push_bytes, push_lp, push_u64, read_lp, read_lp_spec, read_raw, read_raw_spec, read_u64,
    read_u64_spec, lemma_read_lp_at, lemma_read_raw_at, lemma_read_u64_at,
};

verus! {

/// Size of the group encryption key.
pub const GROUP_KEY_SIZE: usize = 32;

/// Size of the nonce for encryption.
pub const NONCE_SIZE: usize = 12;

/// The domain-separation label under which invite envelope keys are
/// derived; reproduced exactly for interoperability.
pub fn invite_info() -> (r: &'static str)
    ensures
        r@ == invite_label(),
{
    "openwire-room-invite"
}

/// The characters of the invite key-derivation label.
pub open spec fn invite_label() -> Seq<char> {
    "openwire-room-invite"@
}

/// The label bytes handed to the key-derivation function for invites.
pub open spec fn invite_info_bytes() -> Seq<u8> {
    encode_utf8(invite_label())
}

/// `env` is an invite envelope sealed for the holder of the secret behind
/// `receiver_pk` over plaintext `pt`, with ephemeral secret `esk`, salt and
/// nonce as given: the fixed layout ephemeral key (32), salt (32), nonce
/// (12), ciphertext.
pub open spec fn invite_sealed_with(
    env: Seq<u8>,
    receiver_pk: Seq<u8>,
    pt: Seq<u8>,
    esk: Seq<u8>,
    salt: Seq<u8>,
    nonce: Seq<u8>,
) -> bool {
    &&& x25519_pub_of(esk).len() == 32
    &&& salt.len() == 32
    &&& nonce.len() == 12
    &&& env.len() == 92 + pt.len()
    &&& env == x25519_pub_of(esk) + salt + nonce + chacha_seal(
        hkdf_sha256_32(salt, x25519_shared(esk, receiver_pk), invite_info_bytes()),
        nonce,
        Seq::<u8>::empty(),
        pt,
    )
}

/// `env` is an invite envelope sealed for `receiver_pk` over `pt`.
pub open spec fn invite_sealed(env: Seq<u8>, receiver_pk: Seq<u8>, pt: Seq<u8>) -> bool {
    exists|esk: Seq<u8>, salt: Seq<u8>, nonce: Seq<u8>|
        invite_sealed_with(env, receiver_pk, pt, esk, salt, nonce)
}

/// What opening an invite envelope with the receiver secret `rk`
/// authenticates to, following the fixed layout.
pub open spec fn invite_opened(env: Seq<u8>, rk: Seq<u8>) -> Option<Seq<u8>> {
    if env.len() >= 92 {
        chacha_open(
            hkdf_sha256_32(
                env.subrange(32, 64),
                x25519_shared(rk, env.subrange(0, 32)),
                invite_info_bytes(),
            ),
            env.subrange(64, 76),
            Seq::<u8>::empty(),
            env.subrange(76, env.len() as int),
        )
    } else {
        None
    }
}

/// Seal `plaintext` for a peer's key-agreement key inside an invite
/// envelope: fresh ephemeral key, fresh salt and nonce, key derived from
/// the shared secret under the invite label.
fn invite_key_encrypt(plaintext: &[u8], their_public: &[u8; 32]) -> (r: Result<Vec<u8>, CoreError>)
    ensures
        r matches Ok(env) ==> {
            &&& invite_sealed(env@, their_public@, plaintext@)
            &&& env@.len() == plaintext@.len() + 92
        },
        plaintext@.len() / 64 < 0xffff_ffff ==> r is Ok,
        r is Err ==> r->Err_0 == CoreError::EncryptionFailed,
{
    let ephemeral = os_random_32();
    let ephemeral_public = x25519_public_of(&ephemeral);
    let shared = x25519_dh(&ephemeral, their_public);

    let salt = os_random_32();
    let mut key = hkdf_derive_32(salt.as_slice(), shared.as_slice(), invite_info().as_bytes());

    let nonce = os_random_12();
    let empty: &[u8] = crate::textutil::empty_bytes();
    let ciphertext = match chacha_encrypt(&key, &nonce, empty, plaintext) {
        Ok(c) => c,
        Err(_) => {
            return Err(CoreError::EncryptionFailed);
        },
    };
    crate::textutil::wipe32(&mut key);

    let mut env: Vec<u8> = Vec::new();
    push_bytes(&mut env, ephemeral_public.as_slice());
    push_bytes(&mut env, salt.as_slice());
    push_bytes(&mut env, nonce.as_slice());
    push_bytes(&mut env, ciphertext.as_slice());
    proof {
        assert(invite_sealed_with(
            env@,
            their_public@,
            plaintext@,
            ephemeral@,
            salt@,
            nonce@,
        ));
    }
    Ok(env)
}

/// Open an invite envelope with our key-agreement secret. An envelope that
/// was sealed for our public key opens to exactly the sealed plaintext;
/// anything malformed or tampered with fails hard.
fn invite_key_decrypt(encrypted: &[u8], private_key: &[u8; 32]) -> (r: Result<Vec<u8>, CoreError>)
    ensures
        encrypted@.len() < 92 ==> r == Err::<Vec<u8>, CoreError>(CoreError::MalformedInput),
        r matches Ok(pt) ==> invite_opened(encrypted@, private_key@) == Some(pt@),
        encrypted@.len() >= 92 ==> (r is Ok <==> invite_opened(encrypted@, private_key@) is Some),
        r is Err ==> (r->Err_0 == CoreError::MalformedInput || r->Err_0
            == CoreError::AuthenticationFailed),
        forall|pt: Seq<u8>|
            #[trigger] invite_sealed(encrypted@, x25519_pub_of(private_key@), pt) && pt.len() / 64
                < 0xffff_ffff ==> r is Ok && r->Ok_0@ == pt,
{
    if encrypted.len() < 92 {
        return Err(CoreError::MalformedInput);
    }

    let ephemeral_vec = slice_to_vec(slice_subrange(encrypted, 0, 32));
    let ephemeral_public = arr32(&ephemeral_vec);
    let salt = slice_subrange(encrypted, 32, 64);
    let nonce_vec = slice_to_vec(slice_subrange(encrypted, 64, 76));
    let nonce = arr12(&nonce_vec);
    let ciphertext = slice_subrange(encrypted, 76, encrypted.len());

    let shared = x25519_dh(private_key, &ephemeral_public);
    let key = hkdf_derive_32(salt, shared.as_slice(), invite_info().as_bytes());

    let empty: &[u8] = crate::textutil::empty_bytes();
    let result = chacha_decrypt(&key, &nonce, empty, ciphertext);
    proof {
        assert forall|pt: Seq<u8>|
            #[trigger] invite_sealed(encrypted@, x25519_pub_of(private_key@), pt) && pt.len() / 64
                < 0xffff_ffff implies result is Ok && result->Ok_0@ == pt by {
            let my_pk = x25519_pub_of(private_key@);
            let (esk, e_salt, e_nonce) = choose|esk: Seq<u8>, e_salt: Seq<u8>, e_nonce: Seq<u8>|
                invite_sealed_with(encrypted@, my_pk, pt, esk, e_salt, e_nonce);
            assert(ephemeral_public@ =~= x25519_pub_of(esk));
            assert(salt@ =~= e_salt);
            assert(nonce@ =~= e_nonce);
            assert(shared@ == x25519_shared(esk, my_pk));
            assert(ciphertext@ =~= chacha_seal(
                hkdf_sha256_32(e_salt, x25519_shared(esk, my_pk), invite_info_bytes()),
                e_nonce,
                Seq::<u8>::empty(),
                pt,
            ));
        }
    }
    match result {
        Ok(pt) => Ok(pt),
        Err(_) => Err(CoreError::AuthenticationFailed),
    }
}

/// A shared symmetric group key for room encryption, distributed to
/// invited peers only inside invite envelopes.
pub struct GroupKey(pub [u8; GROUP_KEY_SIZE]);

impl Clone for GroupKey {
    /// Duplicate the key bytes; both copies seal and open the same traffic.
    fn clone(&self) -> (r: Self)
        ensures
            r.0@ == self.0@,
    {
        GroupKey(self.0)
    }
}

impl GroupKey {
    /// Generate a new random group key.
    pub fn generate() -> Self {
        GroupKey(os_random_32())
    }

    /// Create from bytes.
    pub fn from_bytes(bytes: [u8; GROUP_KEY_SIZE]) -> (r: Self)
        ensures
            r.0@ == bytes@,
    {
        GroupKey(bytes)
    }

    /// Get the key bytes.
    pub fn as_bytes(&self) -> (r: &[u8; GROUP_KEY_SIZE])
        ensures
            r@ == self.0@,
    {
        &self.0
    }

    /// Seal a message for the room under a fresh random nonce.
    pub fn encrypt(&self, plaintext: &[u8]) -> (r: Result<EncryptedRoomMessage, CoreError>)
        ensures
            r matches Ok(m) ==> {
                &&& m@.ciphertext == chacha_seal(self.0@, m@.nonce, Seq::<u8>::empty(), plaintext@)
                &&& m@.ciphertext.len() == plaintext@.len() + 16
                &&& plaintext@.len() / 64 < 0xffff_ffff
            },
            r is Err ==> (r->Err_0 == CoreError::EncryptionFailed || r->Err_0
                == CoreError::ClockUnavailable),
            r is Err && r->Err_0 == CoreError::EncryptionFailed ==> plaintext@.len() / 64
                >= 0xffff_ffff,
    {
        let nonce = os_random_12();
        let empty: &[u8] = crate::textutil::empty_bytes();
        let ciphertext = match chacha_encrypt(&self.0, &nonce, empty, plaintext) {
            Ok(c) => c,
            Err(_) => {
                return Err(CoreError::EncryptionFailed);
            },
        };
        let timestamp = match epoch_seconds() {
            Ok(t) => t,
            Err(e) => {
                return Err(e);
            },
        };
        Ok(EncryptedRoomMessage { nonce, ciphertext, timestamp })
    }

    /// Open a room message. What was sealed under this key is recovered
    /// exactly; any tampering fails hard.
    pub fn decrypt(&self, encrypted: &EncryptedRoomMessage) -> (r: Result<Vec<u8>, CoreError>)
        ensures
            r is Ok <==> chacha_open(
                self.0@,
                encrypted@.nonce,
                Seq::<u8>::empty(),
                encrypted@.ciphertext,
            ) is Some,
            r matches Ok(pt) ==> chacha_open(
                self.0@,
                encrypted@.nonce,
                Seq::<u8>::empty(),
                encrypted@.ciphertext,
            ) == Some(pt@),
            r is Err ==> r->Err_0 == CoreError::AuthenticationFailed,
            forall|p: Seq<u8>|
                p.len() / 64 < 0xffff_ffff && encrypted@.ciphertext == #[trigger] chacha_seal(
                    self.0@,
                    encrypted@.nonce,
                    Seq::<u8>::empty(),
                    p,
                ) ==> r is Ok && r->Ok_0@ == p,
    {
        let empty: &[u8] = crate::textutil::empty_bytes();
        let result = chacha_decrypt(
            &self.0,
            &encrypted.nonce,
            empty,
            encrypted.ciphertext.as_slice(),
        );
        match result {
            Ok(pt) => Ok(pt),
            Err(_) => Err(CoreError::AuthenticationFailed),
        }
    }
}

/// The mathematical content of an [`EncryptedRoomMessage`].
pub ghost struct EncryptedRoomMessageV {
    pub nonce: Seq<u8>,
    pub ciphertext: Seq<u8>,
    pub timestamp: u64,
}

/// An encrypted message for a room.
#[derive(Debug, Clone)]
pub struct EncryptedRoomMessage {
    /// The nonce used for encryption.
    pub nonce: [u8; NONCE_SIZE],
    /// The encrypted ciphertext.
    pub ciphertext: Vec<u8>,
    /// Timestamp for ordering.
    pub timestamp: u64,
}

impl View for EncryptedRoomMessage {
    type V = EncryptedRoomMessageV;

    open spec fn view(&self) -> EncryptedRoomMessageV {
        EncryptedRoomMessageV {
            nonce: self.nonce@,
            ciphertext: self.ciphertext@,
            timestamp: self.timestamp,
        }
    }
}

/// The wire form of an encrypted room message: the 12 raw nonce bytes, the
/// ciphertext, then the timestamp.
pub open spec fn spec_encrypted_room_message_bytes(v: EncryptedRoomMessageV) -> Seq<u8> {
    v.nonce + lp(v.ciphertext) + spec_u64_to_le_bytes(v.timestamp)
}

/// Spec-level parse of an encrypted room message.
pub open spec fn spec_encrypted_room_message_parse(data: Seq<u8>) -> Option<
    EncryptedRoomMessageV,
> {
    match read_raw_spec(data, 0, NONCE_SIZE as int) {
        None => None,
        Some((nonce, p1)) => match read_lp_spec(data, p1) {
            None => None,
            Some((ct, p2)) => match read_u64_spec(data, p2) {
                None => None,
                Some((ts, p3)) => if p3 == data.len() {
                    Some(EncryptedRoomMessageV { nonce, ciphertext: ct, timestamp: ts })
                } else {
                    None
                },
            },
        },
    }
}

impl EncryptedRoomMessage {
    /// Serialize to bytes.
    pub fn to_bytes(&self) -> (r: Result<Vec<u8>, CoreError>)
        ensures
            r is Ok,
            r matches Ok(b) ==> b@ == spec_encrypted_room_message_bytes(self@),
    {
        let mut out: Vec<u8> = Vec::new();
        push_bytes(&mut out, self.nonce.as_slice());
        push_lp(&mut out, self.ciphertext.as_slice());
        push_u64(&mut out, self.timestamp);
        Ok(out)
    }

    /// Deserialize from bytes.
    pub fn from_bytes(data: &[u8]) -> (r: Result<Self, CoreError>)
        ensures
            match spec_encrypted_room_message_parse(data@) {
                Some(v) => r matches Ok(m) && m@ == v,
                None => r == Err::<Self, CoreError>(CoreError::MalformedInput),
            },
    {
        let mut pos: usize = 0;
        let nonce_bytes = match read_raw(data, &mut pos, NONCE_SIZE) {
            Some(b) => b,
            None => {
                return Err(CoreError::MalformedInput);
            },
        };
        let ciphertext = match read_lp(data, &mut pos) {
            Some(b) => b,
            None => {
                return Err(CoreError::MalformedInput);
            },
        };
        let timestamp = match read_u64(data, &mut pos) {
            Some(x) => x,
            None => {
                return Err(CoreError::MalformedInput);
            },
        };
        if pos != data.len() {
            return Err(CoreError::MalformedInput);
        }
        Ok(EncryptedRoomMessage { nonce: arr12(&nonce_bytes), ciphertext, timestamp })
    }
}

/// Encoding then parsing an encrypted room message yields it back
/// unchanged.
pub proof fn lemma_encrypted_room_message_round_trip(v: EncryptedRoomMessageV)
    requires
        v.nonce.len() == NONCE_SIZE,
        v.ciphertext.len() <= u64::MAX,
    ensures
        spec_encrypted_room_message_parse(spec_encrypted_room_message_bytes(v)) == Some(v),
{
    vstd::bytes::lemma_auto_spec_u64_to_from_le_bytes();
    let s1 = v.nonce;
    let s2 = lp(v.ciphertext);
    let s3 = spec_u64_to_le_bytes(v.timestamp);
    let data = spec_encrypted_room_message_bytes(v);
    assert(data =~= Seq::<u8>::empty() + s1 + (s2 + s3));
    lemma_read_raw_at(Seq::<u8>::empty(), v.nonce, s2 + s3);
    assert(data =~= s1 + s2 + s3);
    lemma_read_lp_at(s1, v.ciphertext, s3);
    assert(data =~= (s1 + s2) + s3 + Seq::<u8>::empty());
    lemma_read_u64_at(s1 + s2, v.timestamp, Seq::<u8>::empty());
}

/// The mathematical content of a [`RoomInvite`].
pub ghost struct RoomInviteV {
    pub room_id: Seq<char>,
    pub room_name: Seq<char>,
    pub target_peer_id: Seq<char>,
    pub encrypted_key: Seq<u8>,
    pub inviter_public_key: Seq<u8>,
    pub timestamp: u64,
    pub signature: Seq<u8>,
}

/// A message inviting exactly one target peer to a room, carrying the
/// group key sealed for that peer alone, signed by the inviter.
#[derive(Debug, Clone)]
pub struct RoomInvite {
    /// The room identifier.
    pub room_id: String,
    /// The human-readable room name.
    pub room_name: String,
    /// The target peer: only this peer may accept the invite.
    pub target_peer_id: String,
    /// The group key, sealed for the invitee.
    pub encrypted_key: Vec<u8>,
    /// The inviter's signing public key.
    pub inviter_public_key: Vec<u8>,
    /// Timestamp.
    pub timestamp: u64,
    /// Signature over the invite data, the target included.
    pub signature: Vec<u8>,
}

impl View for RoomInvite {
    type V = RoomInviteV;

    open spec fn view(&self) -> RoomInviteV {
        RoomInviteV {
            room_id: self.room_id@,
            room_name: self.room_name@,
            target_peer_id: self.target_peer_id@,
            encrypted_key: self.encrypted_key@,
            inviter_public_key: self.inviter_public_key@,
            timestamp: self.timestamp,
            signature: self.signature@,
        }
    }
}

/// The exact byte sequence an invite signs: room identifier, room name,
/// target peer, sealed key, then the timestamp as eight little-endian
/// bytes. Signing the target binds the authorization to the signature.
pub open spec fn invite_sign_input(v: RoomInviteV) -> Seq<u8> {
    encode_utf8(v.room_id) + encode_utf8(v.room_name) + encode_utf8(v.target_peer_id)
        + v.encrypted_key + spec_u64_to_le_bytes(v.timestamp)
}

/// The wire form of an invite: the three strings, the sealed key and the
/// inviter key length-prefixed in field order, the timestamp, then the
/// signature.
pub open spec fn spec_room_invite_bytes(v: RoomInviteV) -> Seq<u8> {
    lp(encode_utf8(v.room_id)) + lp(encode_utf8(v.room_name)) + lp(encode_utf8(v.target_peer_id))
        + lp(v.encrypted_key) + lp(v.inviter_public_key) + spec_u64_to_le_bytes(v.timestamp) + lp(
        v.signature,
    )
}

/// Spec-level parse of a room invite.
pub open spec fn spec_room_invite_parse(data: Seq<u8>) -> Option<RoomInviteV> {
    match crate::wire::read_str_spec(data, 0) {
        None => None,
        Some((room_id, p1)) => match crate::wire::read_str_spec(data, p1) {
            None => None,
            Some((room_name, p2)) => match crate::wire::read_str_spec(data, p2) {
                None => None,
                Some((target, p3)) => match read_lp_spec(data, p3) {
                    None => None,
                    Some((ekey, p4)) => match read_lp_spec(data, p4) {
                        None => None,
                        Some((ipk, p5)) => match read_u64_spec(data, p5) {
                            None => None,
                            Some((ts, p6)) => match read_lp_spec(data, p6) {
                                None => None,
                                Some((sig, p7)) => if p7 == data.len() {
                                    Some(
                                        RoomInviteV {
                                            room_id,
                                            room_name,
                                            target_peer_id: target,
                                            encrypted_key: ekey,
                                            inviter_public_key: ipk,
                                            timestamp: ts,
                                            signature: sig,
                                        },
                                    )
                                } else {
                                    None
                                },
                            },
                        },
                    },
                },
            },
        },
    }
}

impl RoomInvite {
    /// Create a new room invite: seal the group key for the invitee's
    /// key-agreement key, then sign room, name, target and timestamp with
    /// the inviter's identity.
    pub fn new(
        identity: &Identity,
        room_id: String,
        room_name: String,
        target_peer_id: String,
        group_key: &GroupKey,
        invitee_encryption_key: &[u8; 32],
    ) -> (r: Result<Self, CoreError>)
        ensures
            r matches Ok(inv) ==> {
                &&& inv@.room_id == room_id@
                &&& inv@.room_name == room_name@
                &&& inv@.target_peer_id == target_peer_id@
                &&& invite_sealed(inv@.encrypted_key, invitee_encryption_key@, group_key.0@)
                &&& inv@.inviter_public_key == identity.pk()
                &&& inv@.signature == ed25519_sig_of(identity.seed(), invite_sign_input(inv@))
                &&& ed25519_verifies(
                    inv@.inviter_public_key,
                    invite_sign_input(inv@),
                    inv@.signature,
                )
                &&& inv@.signature.len() == 64
                &&& inv@.inviter_public_key.len() == 32
            },
            r is Err ==> r->Err_0 == CoreError::ClockUnavailable,
    {
        let timestamp = match epoch_seconds() {
            Ok(t) => t,
            Err(e) => {
                return Err(e);
            },
        };

        // Seal the group key for the invitee.
        let encrypted_key = match invite_key_encrypt(
            group_key.as_bytes().as_slice(),
            invitee_encryption_key,
        ) {
            Ok(k) => k,
            Err(e) => {
                return Err(e);
            },
        };

        // Sign the invite data; the target peer is covered, so the
        // authorization cannot be re-addressed.
        let mut sign_data: Vec<u8> = Vec::new();
        push_bytes(&mut sign_data, room_id.as_str().as_bytes());
        push_bytes(&mut sign_data, room_name.as_str().as_bytes());
        push_bytes(&mut sign_data, target_peer_id.as_str().as_bytes());
        push_bytes(&mut sign_data, encrypted_key.as_slice());
        push_u64(&mut sign_data, timestamp);

        let signature = match identity.sign(sign_data.as_slice()) {
            Ok(s) => s,
            Err(e) => {
                return Err(e);
            },
        };

        let pk = identity.public_key_bytes();
        let mut inviter_public_key: Vec<u8> = Vec::new();
        push_bytes(&mut inviter_public_key, pk.as_slice());

        Ok(
            RoomInvite {
                room_id,
                room_name,
                target_peer_id,
                encrypted_key,
                inviter_public_key,
                timestamp,
                signature,
            },
        )
    }

    /// Verify the invite signature against the embedded inviter key.
    pub fn verify(&self) -> (r: Result<(), CoreError>)
        ensures
            r is Ok <==> (self@.inviter_public_key.len() == 32 && self@.signature.len() == 64
                && ed25519_verifies(
                self@.inviter_public_key,
                invite_sign_input(self@),
                self@.signature,
            )),
            r is Err ==> (r->Err_0 == CoreError::MalformedInput || r->Err_0
                == CoreError::AuthenticationFailed),
    {
        if self.inviter_public_key.len() != 32 {
            return Err(CoreError::MalformedInput);
        }
        let pk = arr32(&self.inviter_public_key);

        let mut sign_data: Vec<u8> = Vec::new();
        push_bytes(&mut sign_data, self.room_id.as_str().as_bytes());
        push_bytes(&mut sign_data, self.room_name.as_str().as_bytes());
        push_bytes(&mut sign_data, self.target_peer_id.as_str().as_bytes());
        push_bytes(&mut sign_data, self.encrypted_key.as_slice());
        push_u64(&mut sign_data, self.timestamp);

        crate::crypto::verify_with_key(sign_data.as_slice(), self.signature.as_slice(), &pk)
    }

    /// Whether this invite is addressed to the given peer.
    pub fn is_for_peer(&self, peer_id: &str) -> (r: bool)
        ensures
            r == (self@.target_peer_id == peer_id@),
    {
        str_eq(self.target_peer_id.as_str(), peer_id)
    }

    /// Open the sealed group key with our key-agreement secret. An invite
    /// sealed for our public key yields the group key bit-identical to the
    /// inviter's.
    pub fn decrypt_key(&self, private_key: &[u8; 32]) -> (r: Result<GroupKey, CoreError>)
        ensures
            r matches Ok(k) ==> invite_opened(self@.encrypted_key, private_key@) == Some(k.0@),
            forall|gk: Seq<u8>|
                #[trigger] invite_sealed(self@.encrypted_key, x25519_pub_of(private_key@), gk)
                    && gk.len() == GROUP_KEY_SIZE ==> r is Ok && r->Ok_0.0@ == gk,
            (invite_opened(self@.encrypted_key, private_key@) is Some && invite_opened(
                self@.encrypted_key,
                private_key@,
            )->Some_0.len() == GROUP_KEY_SIZE) ==> (r is Ok && r->Ok_0.0@ == invite_opened(
                self@.encrypted_key,
                private_key@,
            )->Some_0),
            r is Err ==> (r->Err_0 == CoreError::MalformedInput || r->Err_0
                == CoreError::AuthenticationFailed),
    {
        let decrypted = match invite_key_decrypt(self.encrypted_key.as_slice(), private_key) {
            Ok(d) => d,
            Err(e) => {
                return Err(e);
            },
        };
        if decrypted.len() != GROUP_KEY_SIZE {
            return Err(CoreError::MalformedInput);
        }
        Ok(GroupKey(arr32(&decrypted)))
    }

    /// Serialize to bytes.
    pub fn to_bytes(&self) -> (r: Result<Vec<u8>, CoreError>)
        ensures
            r is Ok,
            r matches Ok(b) ==> b@ == spec_room_invite_bytes(self@),
    {
        let mut out: Vec<u8> = Vec::new();
        crate::wire::push_str_lp(&mut out, self.room_id.as_str());
        crate::wire::push_str_lp(&mut out, self.room_name.as_str());
        crate::wire::push_str_lp(&mut out, self.target_peer_id.as_str());
        push_lp(&mut out, self.encrypted_key.as_slice());
        push_lp(&mut out, self.inviter_public_key.as_slice());
        push_u64(&mut out, self.timestamp);
        push_lp(&mut out, self.signature.as_slice());
        Ok(out)
    }

    /// Deserialize from bytes.
    pub fn from_bytes(data: &[u8]) -> (r: Result<Self, CoreError>)
        ensures
            match spec_room_invite_parse(data@) {
                Some(v) => r matches Ok(m) && m@ == v,
                None => r == Err::<Self, CoreError>(CoreError::MalformedInput),
            },
    {
        let mut pos: usize = 0;
        let room_id = match crate::wire::read_str(data, &mut pos) {
            Some(s) => s,
            None => {
                return Err(CoreError::MalformedInput);
            },
        };
        let room_name = match crate::wire::read_str(data, &mut pos) {
            Some(s) => s,
            None => {
                return Err(CoreError::MalformedInput);
            },
        };
        let target_peer_id = match crate::wire::read_str(data, &mut pos) {
            Some(s) => s,
            None => {
                return Err(CoreError::MalformedInput);
            },
        };
        let encrypted_key = match read_lp(data, &mut pos) {
            Some(b) => b,
            None => {
                return Err(CoreError::MalformedInput);
            },
        };
        let inviter_public_key = match read_lp(data, &mut pos) {
            Some(b) => b,
            None => {
                return Err(CoreError::MalformedInput);
            },
        };
        let timestamp = match read_u64(data, &mut pos) {
            Some(x) => x,
            None => {
                return Err(CoreError::MalformedInput);
            },
        };
        let signature = match read_lp(data, &mut pos) {
            Some(b) => b,
            None => {
                return Err(CoreError::MalformedInput);
            },
        };
        if pos != data.len() {
            return Err(CoreError::MalformedInput);
        }
        Ok(
            RoomInvite {
                room_id,
                room_name,
                target_peer_id,
                encrypted_key,
                inviter_public_key,
                timestamp,
                signature,
            },
        )
    }
}

/// Encoding then parsing a room invite yields it back unchanged.
#[verifier::rlimit(60)]
pub proof fn lemma_room_invite_round_trip(v: RoomInviteV)
    requires
        encode_utf8(v.room_id).len() <= u64::MAX,
        encode_utf8(v.room_name).len() <= u64::MAX,
        encode_utf8(v.target_peer_id).len() <= u64::MAX,
        v.encrypted_key.len() <= u64::MAX,
        v.inviter_public_key.len() <= u64::MAX,
        v.signature.len() <= u64::MAX,
    ensures
        spec_room_invite_parse(spec_room_invite_bytes(v)) == Some(v),
{
    vstd::bytes::lemma_auto_spec_u64_to_from_le_bytes();
    let s1 = lp(encode_utf8(v.room_id));
    let s2 = lp(encode_utf8(v.room_name));
    let s3 = lp(encode_utf8(v.target_peer_id));
    let s4 = lp(v.encrypted_key);
    let s5 = lp(v.inviter_public_key);
    let s6 = spec_u64_to_le_bytes(v.timestamp);
    let s7 = lp(v.signature);
    let data = spec_room_invite_bytes(v);
    assert(data =~= Seq::<u8>::empty() + s1 + (s2 + s3 + s4 + s5 + s6 + s7));
    crate::wire::lemma_read_str_at(Seq::<u8>::empty(), v.room_id, s2 + s3 + s4 + s5 + s6 + s7);
    assert(data =~= s1 + s2 + (s3 + s4 + s5 + s6 + s7));
    crate::wire::lemma_read_str_at(s1, v.room_name, s3 + s4 + s5 + s6 + s7);
    assert(data =~= (s1 + s2) + s3 + (s4 + s5 + s6 + s7));
    crate::wire::lemma_read_str_at(s1 + s2, v.target_peer_id, s4 + s5 + s6 + s7);
    assert(data =~= (s1 + s2 + s3) + s4 + (s5 + s6 + s7));
    lemma_read_lp_at(s1 + s2 + s3, v.encrypted_key, s5 + s6 + s7);
    assert(data =~= (s1 + s2 + s3 + s4) + s5 + (s6 + s7));
    lemma_read_lp_at(s1 + s2 + s3 + s4, v.inviter_public_key, s6 + s7);
    assert(data =~= (s1 + s2 + s3 + s4 + s5) + s6 + s7);
    lemma_read_u64_at(s1 + s2 + s3 + s4 + s5, v.timestamp, s7);
    assert(data =~= (s1 + s2 + s3 + s4 + s5 + s6) + s7 + Seq::<u8>::empty());
    lemma_read_lp_at(s1 + s2 + s3 + s4 + s5 + s6, v.signature, Seq::<u8>::empty());
}

/// The mathematical content of a [`RoomMessage`].
pub ghost struct RoomMessageV {
    pub room_id: Seq<char>,
    pub sender_public_key: Seq<u8>,
    pub sender_nick: Seq<char>,
    pub content: Seq<u8>,
    pub timestamp: u64,
    pub signature: Seq<u8>,
}

/// A room message in the clear, as it exists before sealing and after
/// opening; its signature is checked independently of group-key decryption,
/// since symmetric decryption alone proves only membership.
#[derive(Debug, Clone)]
pub struct RoomMessage {
    /// The room this message belongs to.
    pub room_id: String,
    /// The sender's signing public key.
    pub sender_public_key: Vec<u8>,
    /// The sender's nickname. The signature does not cover it: a room
    /// member could alter the displayed nickname of a relayed message
    /// without invalidating the signature — a known gap, kept as is.
    pub sender_nick: String,
    /// The message content.
    pub content: Vec<u8>,
    /// Timestamp.
    pub timestamp: u64,
    /// Signature over room, content and timestamp.
    pub signature: Vec<u8>,
}

impl View for RoomMessage {
    type V = RoomMessageV;

    open spec fn view(&self) -> RoomMessageV {
        RoomMessageV {
            room_id: self.room_id@,
            sender_public_key: self.sender_public_key@,
            sender_nick: self.sender_nick@,
            content: self.content@,
            timestamp: self.timestamp,
            signature: self.signature@,
        }
    }
}

/// The exact byte sequence a room message signs: room identifier, content,
/// then the timestamp as eight little-endian bytes.
pub open spec fn room_message_sign_input(v: RoomMessageV) -> Seq<u8> {
    encode_utf8(v.room_id) + v.content + spec_u64_to_le_bytes(v.timestamp)
}

/// The wire form of a room message: the fields length-prefixed in
/// declaration order, the timestamp, then the signature.
pub open spec fn spec_room_message_bytes(v: RoomMessageV) -> Seq<u8> {
    lp(encode_utf8(v.room_id)) + lp(v.sender_public_key) + lp(encode_utf8(v.sender_nick)) + lp(
        v.content,
    ) + spec_u64_to_le_bytes(v.timestamp) + lp(v.signature)
}

/// Spec-level parse of a room message.
pub open spec fn spec_room_message_parse(data: Seq<u8>) -> Option<RoomMessageV> {
    match crate::wire::read_str_spec(data, 0) {
        None => None,
        Some((room_id, p1)) => match read_lp_spec(data, p1) {
            None => None,
            Some((spk, p2)) => match crate::wire::read_str_spec(data, p2) {
                None => None,
                Some((nick, p3)) => match read_lp_spec(data, p3) {
                    None => None,
                    Some((content, p4)) => match read_u64_spec(data, p4) {
                        None => None,
                        Some((ts, p5)) => match read_lp_spec(data, p5) {
                            None => None,
                            Some((sig, p6)) => if p6 == data.len() {
                                Some(
                                    RoomMessageV {
                                        room_id,
                                        sender_public_key: spk,
                                        sender_nick: nick,
                                        content,
                                        timestamp: ts,
                                        signature: sig,
                                    },
                                )
                            } else {
                                None
                            },
                        },
                    },
                },
            },
        },
    }
}

impl RoomMessage {
    /// Create a new room message signed by the sender's identity over
    /// room, content and timestamp.
    pub fn new(identity: &Identity, room_id: String, sender_nick: String, content: Vec<u8>) -> (r:
        Result<Self, CoreError>)
        ensures
            r matches Ok(m) ==> {
                &&& m@.room_id == room_id@
                &&& m@.sender_nick == sender_nick@
                &&& m@.content == content@
                &&& m@.sender_public_key == identity.pk()
                &&& m@.signature == ed25519_sig_of(identity.seed(), room_message_sign_input(m@))
                &&& ed25519_verifies(
                    m@.sender_public_key,
                    room_message_sign_input(m@),
                    m@.signature,
                )
                &&& m@.signature.len() == 64
                &&& m@.sender_public_key.len() == 32
            },
            r is Err ==> r->Err_0 == CoreError::ClockUnavailable,
    {
        let timestamp = match epoch_seconds() {
            Ok(t) => t,
            Err(e) => {
                return Err(e);
            },
        };

        let mut sign_data: Vec<u8> = Vec::new();
        push_bytes(&mut sign_data, room_id.as_str().as_bytes());
        push_bytes(&mut sign_data, content.as_slice());
        push_u64(&mut sign_data, timestamp);

        let signature = match identity.sign(sign_data.as_slice()) {
            Ok(s) => s,
            Err(e) => {
                return Err(e);
            },
        };

        let pk = identity.public_key_bytes();
        let mut sender_public_key: Vec<u8> = Vec::new();
        push_bytes(&mut sender_public_key, pk.as_slice());

        Ok(
            RoomMessage {
                room_id,
                sender_public_key,
                sender_nick,
                content,
                timestamp,
                signature,
            },
        )
    }

    /// Verify the message signature against the embedded sender key; only
    /// this, not decryption, proves sender authenticity.
    pub fn verify(&self) -> (r: Result<(), CoreError>)
        ensures
            r is Ok <==> (self@.sender_public_key.len() == 32 && self@.signature.len() == 64
                && ed25519_verifies(
                self@.sender_public_key,
                room_message_sign_input(self@),
                self@.signature,
            )),
            r is Err ==> (r->Err_0 == CoreError::MalformedInput || r->Err_0
                == CoreError::AuthenticationFailed),
    {
        if self.sender_public_key.len() != 32 {
            return Err(CoreError::MalformedInput);
        }
        let pk = arr32(&self.sender_public_key);

        let mut sign_data: Vec<u8> = Vec::new();
        push_bytes(&mut sign_data, self.room_id.as_str().as_bytes());
        push_bytes(&mut sign_data, self.content.as_slice());
        push_u64(&mut sign_data, self.timestamp);

        crate::crypto::verify_with_key(sign_data.as_slice(), self.signature.as_slice(), &pk)
    }

    /// Serialize to bytes.
    pub fn to_bytes(&self) -> (r: Result<Vec<u8>, CoreError>)
        ensures
            r is Ok,
            r matches Ok(b) ==> b@ == spec_room_message_bytes(self@),
    {
        let mut out: Vec<u8> = Vec::new();
        crate::wire::push_str_lp(&mut out, self.room_id.as_str());
        push_lp(&mut out, self.sender_public_key.as_slice());
        crate::wire::push_str_lp(&mut out, self.sender_nick.as_str());
        push_lp(&mut out, self.content.as_slice());
        push_u64(&mut out, self.timestamp);
        push_lp(&mut out, self.signature.as_slice());
        Ok(out)
    }

    /// Deserialize from bytes.
    pub fn from_bytes(data: &[u8]) -> (r: Result<Self, CoreError>)
        ensures
            match spec_room_message_parse(data@) {
                Some(v) => r matches Ok(m) && m@ == v,
                None => r == Err::<Self, CoreError>(CoreError::MalformedInput),
            },
    {
        let mut pos: usize = 0;
        let room_id = match crate::wire::read_str(data, &mut pos) {
            Some(s) => s,
            None => {
                return Err(CoreError::MalformedInput);
            },
        };
        let sender_public_key = match read_lp(data, &mut pos) {
            Some(b) => b,
            None => {
                return Err(CoreError::MalformedInput);
            },
        };
        let sender_nick = match crate::wire::read_str(data, &mut pos) {
            Some(s) => s,
            None => {
                return Err(CoreError::MalformedInput);
            },
        };
        let content = match read_lp(data, &mut pos) {
            Some(b) => b,
            None => {
                return Err(CoreError::MalformedInput);
            },
        };
        let timestamp = match read_u64(data, &mut pos) {
            Some(x) => x,
            None => {
                return Err(CoreError::MalformedInput);
            },
        };
        let signature = match read_lp(data, &mut pos) {
            Some(b) => b,
            None => {
                return Err(CoreError::MalformedInput);
            },
        };
        if pos != data.len() {
            return Err(CoreError::MalformedInput);
        }
        Ok(
            RoomMessage {
                room_id,
                sender_public_key,
                sender_nick,
                content,
                timestamp,
                signature,
            },
        )
    }
}

/// Encoding then parsing a room message yields it back unchanged.
pub proof fn lemma_room_message_round_trip(v: RoomMessageV)
    requires
        encode_utf8(v.room_id).len() <= u64::MAX,
        v.sender_public_key.len() <= u64::MAX,
        encode_utf8(v.sender_nick).len() <= u64::MAX,
        v.content.len() <= u64::MAX,
        v.signature.len() <= u64::MAX,
    ensures
        spec_room_message_parse(spec_room_message_bytes(v)) == Some(v),
{
    vstd::bytes::lemma_auto_spec_u64_to_from_le_bytes();
    let s1 = lp(encode_utf8(v.room_id));
    let s2 = lp(v.sender_public_key);
    let s3 = lp(encode_utf8(v.sender_nick));
    let s4 = lp(v.content);
    let s5 = spec_u64_to_le_bytes(v.timestamp);
    let s6 = lp(v.signature);
    let data = spec_room_message_bytes(v);
    assert(data =~= Seq::<u8>::empty() + s1 + (s2 + s3 + s4 + s5 + s6));
    crate::wire::lemma_read_str_at(Seq::<u8>::empty(), v.room_id, s2 + s3 + s4 + s5 + s6);
    assert(data =~= s1 + s2 + (s3 + s4 + s5 + s6));
    lemma_read_lp_at(s1, v.sender_public_key, s3 + s4 + s5 + s6);
    assert(data =~= (s1 + s2) + s3 + (s4 + s5 + s6));
    crate::wire::lemma_read_str_at(s1 + s2, v.sender_nick, s4 + s5 + s6);
    assert(data =~= (s1 + s2 + s3) + s4 + (s5 + s6));
    lemma_read_lp_at(s1 + s2 + s3, v.content, s5 + s6);
    assert(data =~= (s1 + s2 + s3 + s4) + s5 + s6);
    lemma_read_u64_at(s1 + s2 + s3 + s4, v.timestamp, s6);
    assert(data =~= (s1 + s2 + s3 + s4 + s5) + s6 + Seq::<u8>::empty());
    lemma_read_lp_at(s1 + s2 + s3 + s4 + s5, v.signature, Seq::<u8>::empty());
}

/// Whether some member entry carries the given peer identifier.
pub open spec fn has_member(s: Seq<String>, id: Seq<char>) -> bool {
    exists|i: int| 0 <= i < s.len() && s[i]@ == id
}

/// Removing an entry that does not carry `id` leaves membership of `id`
/// unchanged.
proof fn lemma_member_remove(s: Seq<String>, i: int, id: Seq<char>)
    requires
        0 <= i < s.len(),
        s[i]@ != id,
    ensures
        has_member(s.remove(i), id) == has_member(s, id),
{
    let s2 = s.remove(i);
    if has_member(s, id) {
        let j = choose|j: int| 0 <= j < s.len() && s[j]@ == id;
        if j < i {
            assert(s2[j]@ == id);
        } else {
            assert(s2[j - 1]@ == id);
        }
    }
    if has_member(s2, id) {
        let j = choose|j: int| 0 <= j < s2.len() && s2[j]@ == id;
        if j < i {
            assert(s[j]@ == id);
        } else {
            assert(s[j + 1]@ == id);
        }
    }
}

/// Find the first member entry carrying `peer_id`.
fn find_member_index(members: &Vec<String>, peer_id: &str) -> (r: Option<usize>)
    ensures
        match r {
            Some(i) => i < members@.len() && members@[i as int]@ == peer_id@,
            None => !has_member(members@, peer_id@),
        },
{
    let n = members.len();
    let mut i: usize = 0;
    while i < n
        invariant
            n == members@.len(),
            i <= n,
            forall|j: int| 0 <= j < i ==> members@[j]@ != peer_id@,
        decreases n - i,
    {
        if str_eq(members[i].as_str(), peer_id) {
            return Some(i);
        }
        i += 1;
    }
    None
}

/// A chat room: its identifier and name, the shared group key, the local
/// view of its member set, and whether the local peer created it. The
/// member set is bookkeeping only; access to room traffic is governed by
/// possession of the group key.
pub struct Room {
    /// Unique room identifier.
    pub id: String,
    /// Human-readable room name.
    pub name: String,
    /// The shared group key.
    pub group_key: GroupKey,
    /// Peer identifiers recorded as members.
    pub members: Vec<String>,
    /// Whether the local peer created this room.
    pub is_owner: bool,
    /// When the local peer joined.
    pub joined_at: u64,
}

impl Clone for Room {
    /// Duplicate the room record, group key included.
    fn clone(&self) -> (r: Self)
        ensures
            r.id@ == self.id@,
            r.name@ == self.name@,
            r.group_key.0@ == self.group_key.0@,
            r.members@.len() == self.members@.len(),
            forall|i: int|
                0 <= i < self.members@.len() ==> (#[trigger] r.members@[i])@
                    == self.members@[i]@,
            r.is_owner == self.is_owner,
            r.joined_at == self.joined_at,
    {
        let mut members: Vec<String> = Vec::new();
        let n = self.members.len();
        let mut i: usize = 0;
        while i < n
            invariant
                n == self.members@.len(),
                i <= n,
                members@.len() == i,
                forall|j: int|
                    0 <= j < i ==> (#[trigger] members@[j])@ == self.members@[j]@,
            decreases n - i,
        {
            members.push(self.members[i].clone());
            i += 1;
        }
        Room {
            id: self.id.clone(),
            name: self.name.clone(),
            group_key: self.group_key.clone(),
            members,
            is_owner: self.is_owner,
            joined_at: self.joined_at,
        }
    }
}

impl Room {
    /// Create a new room with a fresh random group key and a fresh random
    /// identifier; the caller becomes owner.
    pub fn new(name: String) -> (r: Result<Self, CoreError>)
        ensures
            r matches Ok(room) ==> {
                &&& room.name@ == name@
                &&& room.is_owner
                &&& room.members@.len() == 0
                &&& room.id@.len() == 21
                &&& room.id@.subrange(0, 5) == "room-"@
                &&& exists|b: Seq<u8>| b.len() == 8 && room.id@ == "room-"@ + #[trigger] hex_of(b)
            },
            r is Err ==> r->Err_0 == CoreError::ClockUnavailable,
    {
        let id = Self::generate_room_id();
        let group_key = GroupKey::generate();
        let now = match epoch_seconds() {
            Ok(t) => t,
            Err(e) => {
                return Err(e);
            },
        };
        Ok(
            Room {
                id,
                name,
                group_key,
                members: Vec::new(),
                is_owner: true,
                joined_at: now,
            },
        )
    }

    /// Create a room from an accepted invite, in member mode, holding the
    /// recovered group key.
    pub fn from_invite(invite: RoomInvite, group_key: GroupKey) -> (r: Result<Self, CoreError>)
        ensures
            r matches Ok(room) ==> {
                &&& room.id@ == invite@.room_id
                &&& room.name@ == invite@.room_name
                &&& room.group_key.0@ == group_key.0@
                &&& !room.is_owner
                &&& room.members@.len() == 0
            },
            r is Err ==> r->Err_0 == CoreError::ClockUnavailable,
    {
        let now = match epoch_seconds() {
            Ok(t) => t,
            Err(e) => {
                return Err(e);
            },
        };
        Ok(
            Room {
                id: invite.room_id,
                name: invite.room_name,
                group_key,
                members: Vec::new(),
                is_owner: false,
                joined_at: now,
            },
        )
    }

    /// Generate a fresh room identifier: a fixed prefix and eight random
    /// bytes in hex, human-displayable, with negligible collision odds at
    /// the room counts this system targets.
    fn generate_room_id() -> (r: String)
        ensures
            r@.len() == 21,
            r@.subrange(0, 5) == "room-"@,
            exists|b: Seq<u8>| b.len() == 8 && r@ == "room-"@ + #[trigger] hex_of(b),
    {
        let bytes = os_random_8();
        let hex = hex_encode(bytes.as_slice());
        let mut s = "room-".to_owned();
        s.append(hex.as_str());
        proof {
            reveal_strlit("room-");
            assert(s@.subrange(0, 5) =~= "room-"@);
            assert(bytes@.len() == 8 && s@ == "room-"@ + hex_of(bytes@));
        }
        s
    }

    /// Record a peer as a member; recording twice is the same as once.
    pub fn add_member(&mut self, peer_id: String)
        ensures
            has_member(final(self).members@, peer_id@),
            forall|id2: Seq<char>|
                id2 != peer_id@ ==> has_member(final(self).members@, id2) == has_member(
                    old(self).members@,
                    id2,
                ),
            final(self).id@ == old(self).id@,
            final(self).name@ == old(self).name@,
            final(self).group_key.0@ == old(self).group_key.0@,
            final(self).is_owner == old(self).is_owner,
            final(self).joined_at == old(self).joined_at,
    {
        match find_member_index(&self.members, peer_id.as_str()) {
            Some(_) => {},
            None => {
                self.members.push(peer_id);
                proof {
                    assert(self.members@[self.members@.len() - 1]@ == peer_id@);
                    assert forall|id2: Seq<char>| id2 != peer_id@ implies has_member(
                        self.members@,
                        id2,
                    ) == has_member(old(self).members@, id2) by {
                        if has_member(old(self).members@, id2) {
                            let j = choose|j: int|
                                0 <= j < old(self).members@.len() && old(self).members@[j]@ == id2;
                            assert(self.members@[j]@ == id2);
                        }
                        if has_member(self.members@, id2) {
                            let j = choose|j: int|
                                0 <= j < self.members@.len() && self.members@[j]@ == id2;
                            assert(j < old(self).members@.len());
                            assert(old(self).members@[j]@ == id2);
                        }
                    }
                }
            },
        }
    }

    /// Remove a peer from the member set.
    pub fn remove_member(&mut self, peer_id: &str)
        ensures
            !has_member(final(self).members@, peer_id@),
            forall|id2: Seq<char>|
                id2 != peer_id@ ==> has_member(final(self).members@, id2) == has_member(
                    old(self).members@,
                    id2,
                ),
            final(self).id@ == old(self).id@,
            final(self).name@ == old(self).name@,
            final(self).group_key.0@ == old(self).group_key.0@,
            final(self).is_owner == old(self).is_owner,
            final(self).joined_at == old(self).joined_at,
    {
        loop
            invariant
                forall|id2: Seq<char>|
                    id2 != peer_id@ ==> has_member(self.members@, id2) == has_member(
                        old(self).members@,
                        id2,
                    ),
                self.id@ == old(self).id@,
                self.name@ == old(self).name@,
                self.group_key.0@ == old(self).group_key.0@,
                self.is_owner == old(self).is_owner,
                self.joined_at == old(self).joined_at,
            decreases self.members@.len(),
        {
            match find_member_index(&self.members, peer_id) {
                Some(i) => {
                    let ghost before = self.members@;
                    self.members.remove(i);
                    proof {
                        assert forall|id2: Seq<char>| id2 != peer_id@ implies has_member(
                            self.members@,
                            id2,
                        ) == has_member(before, id2) by {
                            lemma_member_remove(before, i as int, id2);
                        }
                    }
                },
                None => {
                    return ;
                },
            }
        }
    }

    /// Whether a peer is recorded as a member.
    pub fn is_member(&self, peer_id: &str) -> (r: bool)
        ensures
            r == has_member(self.members@, peer_id@),
    {
        match find_member_index(&self.members, peer_id) {
            Some(_) => true,
            None => false,
        }
    }

    /// The broadcast topic carrying this room's traffic.
    pub fn topic(&self) -> (r: String)
        ensures
            r@ == "openwire-room-"@ + self.id@,
    {
        let mut s = "openwire-room-".to_owned();
        s.append(self.id.as_str());
        s
    }
}

/// First-match lookup of a room by identifier.
pub open spec fn room_lookup(s: Seq<Room>, id: Seq<char>) -> Option<Room>
    decreases s.len(),
{
    if s.len() == 0 {
        None
    } else if s[0].id@ == id {
        Some(s[0])
    } else {
        room_lookup(s.drop_first(), id)
    }
}

/// Dropping a prefix with no entry for `id` leaves its lookup unchanged.
proof fn lemma_room_skip(s: Seq<Room>, i: int, id: Seq<char>)
    requires
        0 <= i <= s.len(),
        forall|j: int| 0 <= j < i ==> s[j].id@ != id,
    ensures
        room_lookup(s, id) == room_lookup(s.skip(i), id),
    decreases i,
{
    if i > 0 {
        assert(s[0].id@ != id);
        assert forall|j: int| 0 <= j < i - 1 implies s.drop_first()[j].id@ != id by {
            assert(s.drop_first()[j] == s[j + 1]);
        }
        lemma_room_skip(s.drop_first(), i - 1, id);
        assert(s.drop_first().skip(i - 1) =~= s.skip(i));
    } else {
        assert(s.skip(0) =~= s);
    }
}

/// Removing a room whose identifier is not `id` leaves the lookup of `id`
/// unchanged.
proof fn lemma_room_remove(s: Seq<Room>, i: int, id: Seq<char>)
    requires
        0 <= i < s.len(),
        s[i].id@ != id,
    ensures
        room_lookup(s.remove(i), id) == room_lookup(s, id),
    decreases i,
{
    if i == 0 {
        assert(s.remove(0) =~= s.drop_first());
    } else {
        if s[0].id@ == id {
            assert(s.remove(i)[0] == s[0]);
        } else {
            lemma_room_remove(s.drop_first(), i - 1, id);
            assert(s.remove(i).drop_first() =~= s.drop_first().remove(i - 1));
        }
    }
}

/// Find the first room entry carrying `room_id`.
fn find_room_index(rooms: &Vec<Room>, room_id: &str) -> (r: Option<usize>)
    ensures
        match r {
            Some(i) => {
                &&& i < rooms@.len()
                &&& rooms@[i as int].id@ == room_id@
                &&& forall|j: int| 0 <= j < i ==> rooms@[j].id@ != room_id@
                &&& room_lookup(rooms@, room_id@) == Some(rooms@[i as int])
            },
            None => room_lookup(rooms@, room_id@) is None,
        },
{
    let n = rooms.len();
    let mut i: usize = 0;
    while i < n
        invariant
            n == rooms@.len(),
            i <= n,
            forall|j: int| 0 <= j < i ==> rooms@[j].id@ != room_id@,
        decreases n - i,
    {
        if str_eq(rooms[i].id.as_str(), room_id) {
            proof {
                lemma_room_skip(rooms@, i as int, room_id@);
                assert(rooms@.skip(i as int)[0] == rooms@[i as int]);
            }
            return Some(i);
        }
        i += 1;
    }
    proof {
        lemma_room_skip(rooms@, n as int, room_id@);
        assert(rooms@.skip(n as int) =~= Seq::<Room>::empty());
    }
    None
}

/// Manages the local peer's rooms: lifecycle, invites, and room message
/// encryption and decryption, keyed by room identifier with last writer
/// winning.
pub struct RoomManager {
    /// All rooms the local peer is in.
    rooms: Vec<Room>,
    /// The local key-agreement secret, for opening invites.
    encryption_private_key: [u8; 32],
}

impl RoomManager {
    /// The room list, as a mathematical value.
    pub closed spec fn rooms_view(&self) -> Seq<Room> {
        self.rooms@
    }

    /// The invite-opening secret, as a mathematical value.
    pub closed spec fn key(&self) -> Seq<u8> {
        self.encryption_private_key@
    }

    /// The room registered under an identifier, if any.
    pub open spec fn room_of(&self, id: Seq<char>) -> Option<Room> {
        room_lookup(self.rooms_view(), id)
    }

    /// Create a new room manager around the local key-agreement secret.
    pub fn new(encryption_private_key: [u8; 32]) -> (r: Self)
        ensures
            r.rooms_view() == Seq::<Room>::empty(),
            r.key() == encryption_private_key@,
    {
        RoomManager { rooms: Vec::new(), encryption_private_key }
    }

    /// Put a room into the set, replacing any room under the same
    /// identifier.
    fn put_room(&mut self, room: Room)
        ensures
            final(self).room_of(room.id@) == Some(room),
            forall|id2: Seq<char>|
                id2 != room.id@ ==> final(self).room_of(id2) == old(self).room_of(id2),
            final(self).key() == old(self).key(),
            final(self).rooms_view().len() > 0,
            final(self).rooms_view()[0] == room,
    {
        let ghost before = self.rooms@;
        match find_room_index(&self.rooms, room.id.as_str()) {
            Some(i) => {
                self.rooms.remove(i);
                proof {
                    assert forall|id2: Seq<char>| id2 != room.id@ implies room_lookup(
                        self.rooms@,
                        id2,
                    ) == room_lookup(before, id2) by {
                        lemma_room_remove(before, i as int, id2);
                    }
                }
            },
            None => {},
        }
        let ghost mid = self.rooms@;
        self.rooms.insert(0, room);
        proof {
            assert(self.rooms@.drop_first() =~= mid);
        }
    }

    /// Create a new room; the local peer becomes its owner.
    pub fn create_room(&mut self, name: String) -> (r: Result<&Room, CoreError>)
        ensures
            r matches Ok(room) ==> {
                &&& room.is_owner
                &&& room.name@ == name@
                &&& room.members@.len() == 0
                &&& room.id@.len() == 21
                &&& room.id@.subrange(0, 5) == "room-"@
                &&& final(self).room_of(room.id@) == Some(*room)
                &&& forall|id2: Seq<char>|
                    id2 != room.id@ ==> final(self).room_of(id2) == old(self).room_of(id2)
            },
            r is Err ==> r->Err_0 == CoreError::ClockUnavailable && final(self).rooms_view() == old(
                self,
            ).rooms_view(),
            final(self).key() == old(self).key(),
    {
        let room = match Room::new(name) {
            Ok(r) => r,
            Err(e) => {
                return Err(e);
            },
        };
        self.put_room(room);
        Ok(&self.rooms[0])
    }

    /// Join a room from an invite: verify the signature, open the sealed
    /// group key with the local secret, and enter the room in member mode.
    /// An invite sealed for this manager's public key always yields the
    /// inviter's group key bit-identically.
    pub fn join_room(&mut self, invite: RoomInvite) -> (r: Result<&Room, CoreError>)
        ensures
            r matches Ok(room) ==> {
                &&& ed25519_verifies(
                    invite@.inviter_public_key,
                    invite_sign_input(invite@),
                    invite@.signature,
                )
                &&& room.id@ == invite@.room_id
                &&& room.name@ == invite@.room_name
                &&& !room.is_owner
                &&& invite_opened(invite@.encrypted_key, old(self).key()) == Some(
                    room.group_key.0@,
                )
                &&& final(self).room_of(invite@.room_id) == Some(*room)
                &&& forall|id2: Seq<char>|
                    id2 != invite@.room_id ==> final(self).room_of(id2) == old(self).room_of(id2)
            },
            r is Err ==> (r->Err_0 == CoreError::MalformedInput || r->Err_0
                == CoreError::AuthenticationFailed || r->Err_0 == CoreError::ClockUnavailable)
                && final(self).rooms_view() == old(self).rooms_view(),
            final(self).key() == old(self).key(),
            forall|gk: Seq<u8>|
                (#[trigger] invite_sealed(
                    invite@.encrypted_key,
                    x25519_pub_of(old(self).key()),
                    gk,
                ) && gk.len() == GROUP_KEY_SIZE && invite@.inviter_public_key.len() == 32
                    && invite@.signature.len() == 64 && ed25519_verifies(
                    invite@.inviter_public_key,
                    invite_sign_input(invite@),
                    invite@.signature,
                )) ==> (r is Err && r->Err_0 == CoreError::ClockUnavailable) || (r is Ok
                    && r->Ok_0.group_key.0@ == gk),
            (invite@.inviter_public_key.len() == 32 && invite@.signature.len() == 64
                && ed25519_verifies(
                invite@.inviter_public_key,
                invite_sign_input(invite@),
                invite@.signature,
            ) && invite_opened(invite@.encrypted_key, old(self).key()) is Some && invite_opened(
                invite@.encrypted_key,
                old(self).key(),
            )->Some_0.len() == GROUP_KEY_SIZE) ==> ((r is Err && r->Err_0
                == CoreError::ClockUnavailable) || (r is Ok && r->Ok_0.group_key.0@
                == invite_opened(invite@.encrypted_key, old(self).key())->Some_0)),
    {
        match invite.verify() {
            Ok(_) => (),
            Err(e) => {
                return Err(e);
            },
        }
        let group_key = match invite.decrypt_key(&self.encryption_private_key) {
            Ok(k) => k,
            Err(e) => {
                return Err(e);
            },
        };
        let room = match Room::from_invite(invite, group_key) {
            Ok(r) => r,
            Err(e) => {
                return Err(e);
            },
        };
        self.put_room(room);
        Ok(&self.rooms[0])
    }

    /// Accept an invite as spelled out by the protocol: verify the
    /// signature, reject an invite addressed to another peer before any
    /// decryption is attempted, then open the envelope and join. The target
    /// check is enforced even though decryption of a mis-addressed invite
    /// would fail anyway.
    pub fn handle_invite(&mut self, invite: RoomInvite, local_peer_id: &str) -> (r: Result<
        &Room,
        CoreError,
    >)
        ensures
            invite@.target_peer_id != local_peer_id@ ==> r is Err && final(self).rooms_view()
                == old(self).rooms_view(),
            (invite@.target_peer_id != local_peer_id@ && invite@.inviter_public_key.len() == 32
                && invite@.signature.len() == 64 && ed25519_verifies(
                invite@.inviter_public_key,
                invite_sign_input(invite@),
                invite@.signature,
            )) ==> r is Err && r->Err_0 == CoreError::NotAuthorized,
            r matches Ok(room) ==> {
                &&& invite@.target_peer_id == local_peer_id@
                &&& ed25519_verifies(
                    invite@.inviter_public_key,
                    invite_sign_input(invite@),
                    invite@.signature,
                )
                &&& room.id@ == invite@.room_id
                &&& invite_opened(invite@.encrypted_key, old(self).key()) == Some(
                    room.group_key.0@,
                )
                &&& final(self).room_of(invite@.room_id) == Some(*room)
            },
            (invite@.target_peer_id == local_peer_id@ && invite@.inviter_public_key.len() == 32
                && invite@.signature.len() == 64 && ed25519_verifies(
                invite@.inviter_public_key,
                invite_sign_input(invite@),
                invite@.signature,
            ) && invite_opened(invite@.encrypted_key, old(self).key()) is Some && invite_opened(
                invite@.encrypted_key,
                old(self).key(),
            )->Some_0.len() == GROUP_KEY_SIZE) ==> ((r is Err && r->Err_0
                == CoreError::ClockUnavailable) || (r is Ok && r->Ok_0.group_key.0@
                == invite_opened(invite@.encrypted_key, old(self).key())->Some_0)),
            final(self).key() == old(self).key(),
    {
        match invite.verify() {
            Ok(_) => (),
            Err(e) => {
                return Err(e);
            },
        }
        if !invite.is_for_peer(local_peer_id) {
            return Err(CoreError::NotAuthorized);
        }
        self.join_room(invite)
    }

    /// Leave a room, discarding the local copy of its key; the key is not
    /// thereby invalidated for remaining holders.
    pub fn leave_room(&mut self, room_id: &str) -> (r: Option<Room>)
        ensures
            r == old(self).room_of(room_id@),
            final(self).room_of(room_id@) is None,
            forall|id2: Seq<char>|
                id2 != room_id@ ==> final(self).room_of(id2) == old(self).room_of(id2),
            final(self).key() == old(self).key(),
    {
        let mut removed: Option<Room> = None;
        loop
            invariant
                forall|id2: Seq<char>|
                    id2 != room_id@ ==> room_lookup(self.rooms@, id2) == room_lookup(
                        old(self).rooms@,
                        id2,
                    ),
                match removed {
                    Some(room) => room_lookup(old(self).rooms@, room_id@) == Some(room),
                    None => room_lookup(self.rooms@, room_id@) == room_lookup(
                        old(self).rooms@,
                        room_id@,
                    ),
                },
                self.encryption_private_key@ == old(self).encryption_private_key@,
            decreases self.rooms@.len(),
        {
            match find_room_index(&self.rooms, room_id) {
                Some(i) => {
                    let ghost before = self.rooms@;
                    let room = self.rooms.remove(i);
                    proof {
                        assert forall|id2: Seq<char>| id2 != room_id@ implies room_lookup(
                            self.rooms@,
                            id2,
                        ) == room_lookup(before, id2) by {
                            lemma_room_remove(before, i as int, id2);
                        }
                    }
                    if removed.is_none() {
                        removed = Some(room);
                    }
                },
                None => {
                    return removed;
                },
            }
        }
    }

    /// Get a room by identifier.
    pub fn get_room(&self, room_id: &str) -> (r: Option<&Room>)
        ensures
            match r {
                Some(room) => self.room_of(room_id@) == Some(*room),
                None => self.room_of(room_id@) is None,
            },
    {
        match find_room_index(&self.rooms, room_id) {
            Some(i) => Some(&self.rooms[i]),
            None => None,
        }
    }

    /// Get a mutable room by identifier.
    pub fn get_room_mut(&mut self, room_id: &str) -> (r: Option<&mut Room>)
        ensures
            r is Some <==> old(self).room_of(room_id@) is Some,
    {
        match find_room_index(&self.rooms, room_id) {
            Some(i) => Some(&mut self.rooms[i]),
            None => None,
        }
    }

    /// All rooms, in registry order.
    pub fn get_all_rooms(&self) -> (r: Vec<&Room>)
        ensures
            r@.len() == self.rooms_view().len(),
            forall|i: int| 0 <= i < r@.len() ==> *r@[i] == self.rooms_view()[i],
    {
        let mut out: Vec<&Room> = Vec::new();
        let n = self.rooms.len();
        let mut i: usize = 0;
        while i < n
            invariant
                n == self.rooms@.len(),
                i <= n,
                out@.len() == i,
                forall|j: int| 0 <= j < i ==> *out@[j] == self.rooms@[j],
            decreases n - i,
        {
            out.push(&self.rooms[i]);
            i += 1;
        }
        out
    }

    /// Whether the local peer is in the given room.
    pub fn in_room(&self, room_id: &str) -> (r: bool)
        ensures
            r == (self.room_of(room_id@) is Some),
    {
        match find_room_index(&self.rooms, room_id) {
            Some(_) => true,
            None => false,
        }
    }

    /// How many rooms the local peer is in.
    pub fn room_count(&self) -> (r: usize)
        ensures
            r == self.rooms_view().len(),
    {
        self.rooms.len()
    }

    /// Issue an invite for a peer; only a member of the room — one whose
    /// room set holds it — can do so.
    pub fn create_invite(
        &self,
        room_id: &str,
        identity: &Identity,
        invitee_peer_id: &str,
        invitee_encryption_key: &[u8; 32],
    ) -> (r: Result<RoomInvite, CoreError>)
        ensures
            self.room_of(room_id@) is None <==> (r is Err && r->Err_0 == CoreError::RoomNotFound),
            r matches Ok(inv) ==> {
                &&& (self.room_of(room_id@) matches Some(room) && {
                    &&& inv@.room_id == room.id@
                    &&& inv@.room_name == room.name@
                    &&& inv@.target_peer_id == invitee_peer_id@
                    &&& invite_sealed(
                        inv@.encrypted_key,
                        invitee_encryption_key@,
                        room.group_key.0@,
                    )
                    &&& inv@.inviter_public_key == identity.pk()
                    &&& ed25519_verifies(
                        inv@.inviter_public_key,
                        invite_sign_input(inv@),
                        inv@.signature,
                    )
                    &&& inv@.signature.len() == 64
                    &&& inv@.inviter_public_key.len() == 32
                })
            },
            r is Err ==> (r->Err_0 == CoreError::RoomNotFound || r->Err_0
                == CoreError::ClockUnavailable),
    {
        let room = match self.get_room(room_id) {
            Some(r) => r,
            None => {
                return Err(CoreError::RoomNotFound);
            },
        };
        RoomInvite::new(
            identity,
            room.id.clone(),
            room.name.clone(),
            invitee_peer_id.to_owned(),
            &room.group_key,
            invitee_encryption_key,
        )
    }

    /// Whether the local peer can invite to a room: exactly when it holds
    /// the room, the implicit membership proof.
    pub fn can_invite_to_room(&self, room_id: &str) -> (r: bool)
        ensures
            r == (self.room_of(room_id@) is Some),
    {
        self.in_room(room_id)
    }

    /// Seal a room message under the room's group key.
    pub fn encrypt_message(&self, room_id: &str, message: &RoomMessage) -> (r: Result<
        EncryptedRoomMessage,
        CoreError,
    >)
        ensures
            self.room_of(room_id@) is None <==> (r is Err && r->Err_0 == CoreError::RoomNotFound),
            r matches Ok(em) ==> {
                &&& (self.room_of(room_id@) matches Some(room) && em@.ciphertext == chacha_seal(
                    room.group_key.0@,
                    em@.nonce,
                    Seq::<u8>::empty(),
                    spec_room_message_bytes(message@),
                ))
                &&& spec_room_message_bytes(message@).len() / 64 < 0xffff_ffff
                &&& encode_utf8(message@.room_id).len() <= u64::MAX
                &&& message@.sender_public_key.len() <= u64::MAX
                &&& encode_utf8(message@.sender_nick).len() <= u64::MAX
                &&& message@.content.len() <= u64::MAX
                &&& message@.signature.len() <= u64::MAX
            },
            r is Err ==> (r->Err_0 == CoreError::RoomNotFound || r->Err_0
                == CoreError::EncryptionFailed || r->Err_0 == CoreError::ClockUnavailable),
            r is Err && r->Err_0 == CoreError::EncryptionFailed ==> spec_room_message_bytes(
                message@,
            ).len() / 64 >= 0xffff_ffff,
    {
        let room = match self.get_room(room_id) {
            Some(r) => r,
            None => {
                return Err(CoreError::RoomNotFound);
            },
        };
        let plaintext = match message.to_bytes() {
            Ok(b) => b,
            Err(e) => {
                return Err(e);
            },
        };
        proof {
            vstd::bytes::lemma_auto_spec_u64_to_from_le_bytes();
            assert(plaintext@.len() == 8 + encode_utf8(message@.room_id).len() + 8
                + message@.sender_public_key.len() + 8 + encode_utf8(message@.sender_nick).len()
                + 8 + message@.content.len() + 8 + 8 + message@.signature.len());
        }
        room.group_key.encrypt(plaintext.as_slice())
    }

    /// Open a room message with the room's group key and parse it. What
    /// [`Self::encrypt_message`] sealed under the same room comes back with
    /// every field intact; the embedded signature still needs checking
    /// before the sender is trusted.
    pub fn decrypt_message(&self, room_id: &str, encrypted: &EncryptedRoomMessage) -> (r: Result<
        RoomMessage,
        CoreError,
    >)
        ensures
            self.room_of(room_id@) is None <==> (r is Err && r->Err_0 == CoreError::RoomNotFound),
            r matches Ok(m) ==> {
                &&& (self.room_of(room_id@) matches Some(room) && {
                    &&& (chacha_open(
                        room.group_key.0@,
                        encrypted@.nonce,
                        Seq::<u8>::empty(),
                        encrypted@.ciphertext,
                    ) matches Some(pt) && spec_room_message_parse(pt) == Some(m@))
                })
            },
            forall|mv: RoomMessageV|
                {
                    (self.room_of(room_id@) is Some && encrypted@.ciphertext
                        == #[trigger] chacha_seal(
                        self.room_of(room_id@)->Some_0.group_key.0@,
                        encrypted@.nonce,
                        Seq::<u8>::empty(),
                        spec_room_message_bytes(mv),
                    ) && spec_room_message_bytes(mv).len() / 64 < 0xffff_ffff && encode_utf8(
                        mv.room_id,
                    ).len() <= u64::MAX && mv.sender_public_key.len() <= u64::MAX && encode_utf8(
                        mv.sender_nick,
                    ).len() <= u64::MAX && mv.content.len() <= u64::MAX && mv.signature.len()
                        <= u64::MAX) ==> r is Ok && r->Ok_0@ == mv
                },
            r is Err ==> (r->Err_0 == CoreError::RoomNotFound || r->Err_0
                == CoreError::MalformedInput || r->Err_0 == CoreError::AuthenticationFailed),
    {
        let room = match self.get_room(room_id) {
            Some(r) => r,
            None => {
                return Err(CoreError::RoomNotFound);
            },
        };
        let plaintext = match room.group_key.decrypt(encrypted) {
            Ok(p) => p,
            Err(e) => {
                return Err(e);
            },
        };
        let parsed = RoomMessage::from_bytes(plaintext.as_slice());
        proof {
            assert forall|mv: RoomMessageV|
                (self.room_of(room_id@) is Some && encrypted@.ciphertext
                    == #[trigger] chacha_seal(
                    self.room_of(room_id@)->Some_0.group_key.0@,
                    encrypted@.nonce,
                    Seq::<u8>::empty(),
                    spec_room_message_bytes(mv),
                ) && spec_room_message_bytes(mv).len() / 64 < 0xffff_ffff && encode_utf8(
                    mv.room_id,
                ).len() <= u64::MAX && mv.sender_public_key.len() <= u64::MAX && encode_utf8(
                    mv.sender_nick,
                ).len() <= u64::MAX && mv.content.len() <= u64::MAX && mv.signature.len()
                    <= u64::MAX) implies parsed is Ok && parsed->Ok_0@ == mv by {
                assert(plaintext@ == spec_room_message_bytes(mv));
                lemma_room_message_round_trip(mv);
            }
        }
        match parsed {
            Ok(m) => Ok(m),
            Err(e) => Err(e),
        }
    }
}

} // verus!
