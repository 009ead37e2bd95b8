//! Identity, signing and the verified peer registry: one long-term Ed25519
//! keypair per peer, detached signatures over broadcast traffic, and the
//! composition of identity, pairwise session and registry that consumers
//! call.

use vstd::prelude::*;
use vstd::bytes::spec_u64_to_le_bytes;
use crate::error::CoreError;
use crate::encryption::{
    sealed_for, pairwise_opened, pairwise_shape_ok, spec_encrypted_message_bytes,
    spec_encrypted_message_parse, EncryptedMessage, SessionManager, KEY_SIZE,
};
use crate::primitives::{
    ed25519_pub_of, ed25519_public_of_seed, ed25519_sig_of, ed25519_sign, ed25519_verifies,
    ed25519_verify, epoch_seconds, hex_of, os_random_32, x25519_pub_of,
};
use crate::textutil::{hex_encode, str_eq};
use crate::wire::{
    lp, push_lp, push_u64, read_lp, read_lp_spec, read_u64, read_u64_spec, lemma_read_lp_at,
    lemma_read_u64_at,
};

verus! {

/// A peer's long-term cryptographic identity: an Ed25519 keypair used for
/// peer identification, message signing and authentication.
///
/// Not `Clone` — private key material must not be duplicated. Holders that
/// need shared access keep a shared reference.
pub struct Identity {
    /// The 32-byte seed of the signing (private) key.
    signing_key: [u8; 32],
    /// The verifying (public) key.
    verifying_key: [u8; 32],
}

impl Identity {
    /// The private seed, as a mathematical value.
    pub closed spec fn seed(&self) -> Seq<u8> {
        self.signing_key@
    }

    /// The verifying key this identity presents.
    pub open spec fn pk(&self) -> Seq<u8> {
        ed25519_pub_of(self.seed())
    }

    #[verifier::type_invariant]
    spec fn wf(self) -> bool {
        self.verifying_key@ == ed25519_pub_of(self.signing_key@)
    }

    /// Generate a new random identity from operating-system randomness.
    pub fn generate() -> (r: Result<Self, CoreError>)
        ensures
            r is Ok,
    {
        let signing_key = os_random_32();
        let verifying_key = ed25519_public_of_seed(&signing_key);
        Ok(Identity { signing_key, verifying_key })
    }

    /// The peer identifier derived from the public key: its lower-case
    /// hexadecimal encoding, the universal identifier for this peer.
    pub fn peer_id(&self) -> (r: String)
        ensures
            r@ == hex_of(self.pk()),
    {
        proof {
            use_type_invariant(self);
        }
        hex_encode(self.verifying_key.as_slice())
    }

    /// Get the public key bytes.
    pub fn public_key(&self) -> (r: &[u8])
        ensures
            r@ == self.pk(),
    {
        proof {
            use_type_invariant(self);
        }
        self.verifying_key.as_slice()
    }

    /// Get the public key as a fixed-size array.
    pub fn public_key_bytes(&self) -> (r: [u8; 32])
        ensures
            r@ == self.pk(),
    {
        proof {
            use_type_invariant(self);
        }
        self.verifying_key
    }

    /// Sign a message with the private key. The signature verifies under
    /// this identity's public key.
    pub fn sign(&self, message: &[u8]) -> (r: Result<Vec<u8>, CoreError>)
        ensures
            r matches Ok(sig) ==> {
                &&& sig@ == ed25519_sig_of(self.seed(), message@)
                &&& sig@.len() == 64
                &&& ed25519_verifies(self.pk(), message@, sig@)
            },
            r is Ok,
    {
        Ok(ed25519_sign(&self.signing_key, message))
    }

    /// Verify a signature against a message using this identity's key.
    pub fn verify(&self, message: &[u8], signature: &[u8]) -> (r: Result<(), CoreError>)
        ensures
            r is Ok <==> (signature@.len() == 64 && ed25519_verifies(
                self.pk(),
                message@,
                signature@,
            )),
            r is Err ==> (r->Err_0 == CoreError::MalformedInput || r->Err_0
                == CoreError::AuthenticationFailed),
    {
        proof {
            use_type_invariant(self);
        }
        verify_with_key(message, signature, &self.verifying_key)
    }

    /// Serialize the identity for storage. The returned bytes contain the
    /// private key; handle with care.
    pub fn to_bytes(&self) -> (r: [u8; 32])
        ensures
            r@ == self.seed(),
    {
        self.signing_key
    }

    /// Deserialize an identity from its seed bytes.
    pub fn from_bytes(bytes: [u8; 32]) -> (r: Result<Self, CoreError>)
        ensures
            r matches Ok(id) && id.seed() == bytes@,
    {
        let verifying_key = ed25519_public_of_seed(&bytes);
        Ok(Identity { signing_key: bytes, verifying_key })
    }

    /// Get the signing key seed bytes (for bridging the identity into the
    /// transport layer).
    pub fn signing_key_bytes(&self) -> (r: [u8; 32])
        ensures
            r@ == self.seed(),
    {
        self.signing_key
    }
}

/// The peer identifier determines the key it encodes: two peers carry the
/// same identifier only when they present the same public key, so the
/// hexadecimal identifier is fit to key the registry and the room member
/// sets.
pub proof fn lemma_peer_id_injective(a: Seq<u8>, b: Seq<u8>)
    requires
        hex_of(a) == hex_of(b),
    ensures
        a == b,
{
    assert(hex_of(a).len() == a.len() * 2);
    assert(hex_of(b).len() == b.len() * 2);
    assert(a.len() == b.len());
    assert forall|i: int| 0 <= i < a.len() implies a[i] == b[i] by {
        assert(hex_of(a)[2 * i] == hex_of(b)[2 * i]);
        assert(hex_of(a)[2 * i + 1] == hex_of(b)[2 * i + 1]);
        assert(hex_of(a)[2 * i] == crate::primitives::hex_digit(a[i] / 16));
        assert(hex_of(a)[2 * i + 1] == crate::primitives::hex_digit(a[i] % 16));
        assert(a[i] / 16 == b[i] / 16 && a[i] % 16 == b[i] % 16);
    }
    assert(a =~= b);
}

/// Verify a signature using an arbitrary public key, not necessarily ours;
/// the path by which all peer-originated signatures are checked.
pub fn verify_with_key(message: &[u8], signature: &[u8], public_key: &[u8; 32]) -> (r: Result<
    (),
    CoreError,
>)
    ensures
        r is Ok <==> (signature@.len() == 64 && ed25519_verifies(
            public_key@,
            message@,
            signature@,
        )),
        r is Err ==> (r->Err_0 == CoreError::MalformedInput || r->Err_0
            == CoreError::AuthenticationFailed),
{
    if signature.len() != 64 {
        return Err(CoreError::MalformedInput);
    }
    if ed25519_verify(public_key, message, signature) {
        Ok(())
    } else {
        Err(CoreError::AuthenticationFailed)
    }
}

/// The mathematical content of a [`SignedMessage`].
pub ghost struct SignedMessageV {
    pub content: Seq<u8>,
    pub signature: Seq<u8>,
    pub sender_public_key: Seq<u8>,
    pub timestamp: u64,
}

/// A signed message for broadcast traffic: authenticated, not necessarily
/// encrypted.
#[derive(Debug, Clone)]
pub struct SignedMessage {
    /// The message content (possibly itself an encrypted envelope).
    pub content: Vec<u8>,
    /// The Ed25519 signature over the content.
    pub signature: Vec<u8>,
    /// The sender's public key.
    pub sender_public_key: Vec<u8>,
    /// Timestamp for replay protection.
    pub timestamp: u64,
}

impl View for SignedMessage {
    type V = SignedMessageV;

    open spec fn view(&self) -> SignedMessageV {
        SignedMessageV {
            content: self.content@,
            signature: self.signature@,
            sender_public_key: self.sender_public_key@,
            timestamp: self.timestamp,
        }
    }
}

/// The wire form of a signed message: content, signature, sender key, each
/// length-prefixed, then the timestamp.
pub open spec fn spec_signed_message_bytes(v: SignedMessageV) -> Seq<u8> {
    lp(v.content) + lp(v.signature) + lp(v.sender_public_key) + spec_u64_to_le_bytes(v.timestamp)
}

/// Spec-level parse of a signed message; the exact inverse of
/// [`spec_signed_message_bytes`] on well-formed encodings.
pub open spec fn spec_signed_message_parse(data: Seq<u8>) -> Option<SignedMessageV> {
    match read_lp_spec(data, 0) {
        None => None,
        Some((content, p1)) => match read_lp_spec(data, p1) {
            None => None,
            Some((signature, p2)) => match read_lp_spec(data, p2) {
                None => None,
                Some((spk, p3)) => match read_u64_spec(data, p3) {
                    None => None,
                    Some((ts, p4)) => if p4 == data.len() {
                        Some(
                            SignedMessageV {
                                content,
                                signature,
                                sender_public_key: spk,
                                timestamp: ts,
                            },
                        )
                    } else {
                        None
                    },
                },
            },
        },
    }
}

impl SignedMessage {
    /// Create a new signed message over `content`, stamped with the current
    /// epoch time.
    pub fn new(identity: &Identity, content: Vec<u8>) -> (r: Result<Self, CoreError>)
        ensures
            r matches Ok(m) ==> {
                &&& m@.content == content@
                &&& m@.sender_public_key == identity.pk()
                &&& m@.signature == ed25519_sig_of(identity.seed(), content@)
                &&& ed25519_verifies(m@.sender_public_key, m@.content, m@.signature)
                &&& m@.signature.len() == 64
                &&& m@.sender_public_key.len() == 32
            },
            r is Err ==> r->Err_0 == CoreError::ClockUnavailable,
    {
        let signature = match identity.sign(content.as_slice()) {
            Ok(s) => s,
            Err(e) => {
                return Err(e);
            },
        };
        let timestamp = match epoch_seconds() {
            Ok(t) => t,
            Err(e) => {
                return Err(e);
            },
        };
        let pk = identity.public_key_bytes();
        let mut sender_public_key: Vec<u8> = Vec::new();
        crate::wire::push_bytes(&mut sender_public_key, pk.as_slice());
        Ok(SignedMessage { content, signature, sender_public_key, timestamp })
    }

    /// Verify the message signature against the embedded sender key.
    pub fn verify(&self) -> (r: Result<(), CoreError>)
        ensures
            r is Ok <==> (self@.sender_public_key.len() == 32 && self@.signature.len() == 64
                && ed25519_verifies(self@.sender_public_key, self@.content, self@.signature)),
            r is Err ==> (r->Err_0 == CoreError::MalformedInput || r->Err_0
                == CoreError::AuthenticationFailed),
    {
        if self.sender_public_key.len() != 32 {
            return Err(CoreError::MalformedInput);
        }
        let pk = crate::textutil::arr32(&self.sender_public_key);
        verify_with_key(self.content.as_slice(), self.signature.as_slice(), &pk)
    }

    /// Serialize to bytes for transmission.
    pub fn to_bytes(&self) -> (r: Result<Vec<u8>, CoreError>)
        ensures
            r is Ok,
            r matches Ok(b) ==> b@ == spec_signed_message_bytes(self@),
    {
        let mut out: Vec<u8> = Vec::new();
        push_lp(&mut out, self.content.as_slice());
        push_lp(&mut out, self.signature.as_slice());
        push_lp(&mut out, self.sender_public_key.as_slice());
        push_u64(&mut out, self.timestamp);
        Ok(out)
    }

    /// Deserialize from bytes; rejects anything the spec-level parser
    /// rejects.
    pub fn from_bytes(data: &[u8]) -> (r: Result<Self, CoreError>)
        ensures
            match spec_signed_message_parse(data@) {
                Some(v) => r matches Ok(m) && m@ == v,
                None => r == Err::<Self, CoreError>(CoreError::MalformedInput),
            },
    {
        let mut pos: usize = 0;
        let content = match read_lp(data, &mut pos) {
            Some(b) => b,
            None => {
                return Err(CoreError::MalformedInput);
            },
        };
        let signature = match read_lp(data, &mut pos) {
            Some(b) => b,
            None => {
                return Err(CoreError::MalformedInput);
            },
        };
        let sender_public_key = match read_lp(data, &mut pos) {
            Some(b) => b,
            None => {
                return Err(CoreError::MalformedInput);
            },
        };
        let timestamp = match read_u64(data, &mut pos) {
            Some(x) => x,
            None => {
                return Err(CoreError::MalformedInput);
            },
        };
        if pos != data.len() {
            return Err(CoreError::MalformedInput);
        }
        Ok(SignedMessage { content, signature, sender_public_key, timestamp })
    }
}

/// Encoding then parsing a signed message yields it back unchanged.
pub proof fn lemma_signed_message_round_trip(v: SignedMessageV)
    requires
        v.content.len() <= u64::MAX,
        v.signature.len() <= u64::MAX,
        v.sender_public_key.len() <= u64::MAX,
    ensures
        spec_signed_message_parse(spec_signed_message_bytes(v)) == Some(v),
{
    vstd::bytes::lemma_auto_spec_u64_to_from_le_bytes();
    let s1 = lp(v.content);
    let s2 = lp(v.signature);
    let s3 = lp(v.sender_public_key);
    let s4 = spec_u64_to_le_bytes(v.timestamp);
    let data = spec_signed_message_bytes(v);
    assert(data =~= Seq::<u8>::empty() + s1 + (s2 + s3 + s4));
    lemma_read_lp_at(Seq::<u8>::empty(), v.content, s2 + s3 + s4);
    assert(data =~= s1 + s2 + (s3 + s4));
    lemma_read_lp_at(s1, v.signature, s3 + s4);
    assert(data =~= (s1 + s2) + s3 + s4);
    lemma_read_lp_at(s1 + s2, v.sender_public_key, s4);
    assert(data =~= (s1 + s2 + s3) + s4 + Seq::<u8>::empty());
    lemma_read_u64_at(s1 + s2 + s3, v.timestamp, Seq::<u8>::empty());
}

/// A peer's public information, stored locally only after a key-exchange
/// message from that peer passed verification.
#[derive(Debug, Clone, Copy)]
pub struct PeerInfo {
    /// The peer's signing public key (Ed25519).
    pub signing_public_key: [u8; 32],
    /// The peer's encryption public key (X25519).
    pub encryption_public_key: [u8; 32],
    /// When we first saw this peer.
    pub first_seen: u64,
    /// Last activity timestamp.
    pub last_seen: u64,
}

/// First-match lookup in the registry's association list.
pub open spec fn registry_lookup(s: Seq<(String, PeerInfo)>, id: Seq<char>) -> Option<PeerInfo>
    decreases s.len(),
{
    if s.len() == 0 {
        None
    } else if s[0].0@ == id {
        Some(s[0].1)
    } else {
        registry_lookup(s.drop_first(), id)
    }
}

/// Dropping a prefix that contains no entry for `id` leaves its lookup
/// unchanged.
proof fn lemma_registry_skip(s: Seq<(String, PeerInfo)>, i: int, id: Seq<char>)
    requires
        0 <= i <= s.len(),
        forall|j: int| 0 <= j < i ==> s[j].0@ != id,
    ensures
        registry_lookup(s, id) == registry_lookup(s.skip(i), id),
    decreases i,
{
    if i > 0 {
        assert(s[0].0@ != id);
        assert forall|j: int| 0 <= j < i - 1 implies s.drop_first()[j].0@ != id by {
            assert(s.drop_first()[j] == s[j + 1]);
        }
        lemma_registry_skip(s.drop_first(), i - 1, id);
        assert(s.drop_first().skip(i - 1) =~= s.skip(i));
    } else {
        assert(s.skip(0) =~= s);
    }
}

/// Removing an entry whose key is not `id` leaves the lookup of `id`
/// unchanged.
proof fn lemma_registry_remove(s: Seq<(String, PeerInfo)>, i: int, id: Seq<char>)
    requires
        0 <= i < s.len(),
        s[i].0@ != id,
    ensures
        registry_lookup(s.remove(i), id) == registry_lookup(s, id),
    decreases i,
{
    if i == 0 {
        assert(s.remove(0) =~= s.drop_first());
    } else {
        if s[0].0@ == id {
            assert(s.remove(i)[0] == s[0]);
        } else {
            lemma_registry_remove(s.drop_first(), i - 1, id);
            assert(s.remove(i).drop_first() =~= s.drop_first().remove(i - 1));
        }
    }
}

/// Find the first registry entry for `peer_id`.
fn find_peer_index(peers: &Vec<(String, PeerInfo)>, peer_id: &str) -> (r: Option<usize>)
    ensures
        match r {
            Some(i) => {
                &&& i < peers@.len()
                &&& peers@[i as int].0@ == peer_id@
                &&& forall|j: int| 0 <= j < i ==> peers@[j].0@ != peer_id@
            },
            None => forall|j: int| 0 <= j < peers@.len() ==> peers@[j].0@ != peer_id@,
        },
{
    let n = peers.len();
    let mut i: usize = 0;
    while i < n
        invariant
            n == peers@.len(),
            i <= n,
            forall|j: int| 0 <= j < i ==> peers@[j].0@ != peer_id@,
        decreases n - i,
    {
        if str_eq(peers[i].0.as_str(), peer_id) {
            return Some(i);
        }
        i += 1;
    }
    None
}

/// `m` is a pairwise envelope that the holder of `enc_sk` sealed for
/// `receiver_pk` over the wire form of a message signed by the identity
/// with seed `seed` over `content` (at some timestamp).
/// The signed-message content the local identity with seed `seed`
/// produces over `content` at time `ts`.
pub open spec fn signed_view_of(seed: Seq<u8>, content: Seq<u8>, ts: u64) -> SignedMessageV {
    SignedMessageV {
        content,
        signature: ed25519_sig_of(seed, content),
        sender_public_key: ed25519_pub_of(seed),
        timestamp: ts,
    }
}

pub open spec fn sealed_signed(
    m: crate::encryption::EncryptedMessageV,
    enc_sk: Seq<u8>,
    seed: Seq<u8>,
    receiver_pk: Seq<u8>,
    content: Seq<u8>,
) -> bool {
    exists|ts: u64|
        {
            &&& #[trigger] sealed_for(
                m,
                enc_sk,
                receiver_pk,
                spec_signed_message_bytes(signed_view_of(seed, content, ts)),
            )
            &&& spec_signed_message_parse(
                spec_signed_message_bytes(signed_view_of(seed, content, ts)),
            ) == Some(signed_view_of(seed, content, ts))
            &&& ed25519_sig_of(seed, content).len() == 64
            &&& ed25519_pub_of(seed).len() == 32
            &&& spec_signed_message_bytes(signed_view_of(seed, content, ts)).len() == content.len()
                + 128
            &&& ed25519_verifies(ed25519_pub_of(seed), content, ed25519_sig_of(seed, content))
        }
}

/// `encrypted_bytes` carries a deliverable envelope: it parses, some
/// sender holding `sender_sk` sealed it for the receiver key `receiver_pk`
/// over plaintext `pt` within the cipher's bound, and `pt` parses as a
/// signed message whose sender is `signing_pk` and whose signature checks
/// out. Such a delivery is owed acceptance by the receive composite.
pub open spec fn acceptable_delivery(
    encrypted_bytes: Seq<u8>,
    sender_sk: Seq<u8>,
    receiver_pk: Seq<u8>,
    signing_pk: Seq<u8>,
    pt: Seq<u8>,
) -> bool {
    &&& spec_encrypted_message_parse(encrypted_bytes) is Some
    &&& sealed_for(
        spec_encrypted_message_parse(encrypted_bytes)->Some_0,
        sender_sk,
        receiver_pk,
        pt,
    )
    &&& pt.len() / 64 < 0xffff_ffff
    &&& spec_signed_message_parse(pt) is Some
    &&& spec_signed_message_parse(pt)->Some_0.sender_public_key == signing_pk
    &&& spec_signed_message_parse(pt)->Some_0.sender_public_key.len() == 32
    &&& spec_signed_message_parse(pt)->Some_0.signature.len() == 64
    &&& ed25519_verifies(
        signing_pk,
        spec_signed_message_parse(pt)->Some_0.content,
        spec_signed_message_parse(pt)->Some_0.signature,
    )
}

/// What the send composite guarantees is a delivery the receive composite
/// owes acceptance to: an envelope carrying a sealed-and-signed payload
/// addressed to `receiver_pk` satisfies the acceptance premise, and the
/// payload's content is the sent plaintext. Together with the acceptance
/// clause of the receive composite, what one peer sends with its
/// registered keys, the addressed peer recovers.
pub proof fn lemma_sent_is_acceptable(
    b: Seq<u8>,
    sender_enc_sk: Seq<u8>,
    sender_seed: Seq<u8>,
    receiver_pk: Seq<u8>,
    content: Seq<u8>,
)
    requires
        spec_encrypted_message_parse(b) is Some,
        sealed_signed(
            spec_encrypted_message_parse(b)->Some_0,
            sender_enc_sk,
            sender_seed,
            receiver_pk,
            content,
        ),
        (content.len() + 128) / 64 < 0xffff_ffff,
    ensures
        exists|pt: Seq<u8>|
            #[trigger] acceptable_delivery(
                b,
                sender_enc_sk,
                receiver_pk,
                ed25519_pub_of(sender_seed),
                pt,
            ) && spec_signed_message_parse(pt)->Some_0.content == content,
{
    let em = spec_encrypted_message_parse(b)->Some_0;
    let ts = choose|ts: u64|
        {
            &&& #[trigger] sealed_for(
                em,
                sender_enc_sk,
                receiver_pk,
                spec_signed_message_bytes(signed_view_of(sender_seed, content, ts)),
            )
            &&& spec_signed_message_parse(
                spec_signed_message_bytes(signed_view_of(sender_seed, content, ts)),
            ) == Some(signed_view_of(sender_seed, content, ts))
            &&& ed25519_sig_of(sender_seed, content).len() == 64
            &&& ed25519_pub_of(sender_seed).len() == 32
            &&& spec_signed_message_bytes(signed_view_of(sender_seed, content, ts)).len()
                == content.len() + 128
            &&& ed25519_verifies(
                ed25519_pub_of(sender_seed),
                content,
                ed25519_sig_of(sender_seed, content),
            )
        };
    let pt = spec_signed_message_bytes(signed_view_of(sender_seed, content, ts));
    assert(acceptable_delivery(b, sender_enc_sk, receiver_pk, ed25519_pub_of(sender_seed), pt)
        && spec_signed_message_parse(pt)->Some_0.content == content);
}

/// What a delivered envelope opens to for the receiver holding `rk`,
/// against the sender keys registered in `peer`: the parse of the bytes,
/// shape-checked, then the authenticated opening. `None` when any step
/// refuses.
pub open spec fn opened_delivery(encrypted_bytes: Seq<u8>, rk: Seq<u8>, peer: PeerInfo) -> Option<
    Seq<u8>,
> {
    if spec_encrypted_message_parse(encrypted_bytes) is Some && pairwise_shape_ok(
        spec_encrypted_message_parse(encrypted_bytes)->Some_0,
    ) {
        pairwise_opened(
            rk,
            peer.encryption_public_key@,
            spec_encrypted_message_parse(encrypted_bytes)->Some_0,
        )
    } else {
        None
    }
}

/// Composes the local identity, the pairwise encryption session and the
/// peer registry into the operations consumers call. The registry holds
/// only peers whose key-exchange message passed verification; repeated
/// registration overwrites, last writer wins.
pub struct CryptoManager {
    /// The local peer's signing identity.
    identity: Identity,
    /// End-to-end encryption session manager.
    session_manager: SessionManager,
    /// Known peers and their verified public keys.
    known_peers: Vec<(String, PeerInfo)>,
}

impl CryptoManager {
    /// The identity seed, as a mathematical value.
    pub closed spec fn id_seed(&self) -> Seq<u8> {
        self.identity.seed()
    }

    /// The key-agreement secret, as a mathematical value.
    pub closed spec fn enc_sk(&self) -> Seq<u8> {
        self.session_manager.sk()
    }

    /// The registry contents, as a mathematical value.
    pub closed spec fn peers(&self) -> Seq<(String, PeerInfo)> {
        self.known_peers@
    }

    /// The local signing public key.
    pub open spec fn pk(&self) -> Seq<u8> {
        ed25519_pub_of(self.id_seed())
    }

    /// The record registered under a peer identifier, if any.
    pub open spec fn registered(&self, id: Seq<char>) -> Option<PeerInfo> {
        registry_lookup(self.peers(), id)
    }

    /// Create a new crypto manager with a fresh identity, a fresh session
    /// keypair and an empty registry.
    pub fn new() -> (r: Result<Self, CoreError>)
        ensures
            r matches Ok(cm) && cm.peers() == Seq::<(String, PeerInfo)>::empty(),
    {
        let identity = match Identity::generate() {
            Ok(i) => i,
            Err(e) => {
                return Err(e);
            },
        };
        Self::from_identity(identity)
    }

    /// Create a crypto manager from an existing identity.
    pub fn from_identity(identity: Identity) -> (r: Result<Self, CoreError>)
        ensures
            r matches Ok(cm) && cm.id_seed() == identity.seed() && cm.peers() == Seq::<
                (String, PeerInfo),
            >::empty(),
    {
        let session_manager = match SessionManager::new() {
            Ok(s) => s,
            Err(e) => {
                return Err(e);
            },
        };
        Ok(CryptoManager { identity, session_manager, known_peers: Vec::new() })
    }

    /// Get a reference to the identity.
    pub fn identity(&self) -> (r: &Identity)
        ensures
            r.seed() == self.id_seed(),
    {
        &self.identity
    }

    /// Get the peer identifier: the hex form of the signing public key.
    pub fn peer_id(&self) -> (r: String)
        ensures
            r@ == hex_of(self.pk()),
    {
        self.identity.peer_id()
    }

    /// Get the key-agreement public key bytes.
    pub fn encryption_public_key(&self) -> (r: [u8; 32])
        ensures
            r@ == x25519_pub_of(self.enc_sk()),
    {
        self.session_manager.public_key_bytes()
    }

    /// Get the signing public key bytes.
    pub fn signing_public_key(&self) -> (r: [u8; 32])
        ensures
            r@ == self.pk(),
    {
        self.identity.public_key_bytes()
    }

    /// Get the signing key seed bytes (for the transport identity bridge).
    pub fn signing_key_bytes(&self) -> (r: [u8; 32])
        ensures
            r@ == self.id_seed(),
    {
        self.identity.signing_key_bytes()
    }

    /// Register a peer's verified keys: the record under this identifier is
    /// replaced, every other record is untouched.
    pub fn register_peer(
        &mut self,
        peer_id: String,
        signing_public_key: [u8; 32],
        encryption_public_key: [u8; 32],
    ) -> (r: Result<(), CoreError>)
        ensures
            final(self).id_seed() == old(self).id_seed(),
            final(self).enc_sk() == old(self).enc_sk(),
            r is Ok ==> {
                &&& (final(self).registered(peer_id@) matches Some(info) && {
                    &&& info.signing_public_key@ == signing_public_key@
                    &&& info.encryption_public_key@ == encryption_public_key@
                    &&& info.first_seen == info.last_seen
                })
                &&& forall|id2: Seq<char>|
                    id2 != peer_id@ ==> final(self).registered(id2) == old(self).registered(id2)
            },
            r is Err ==> r->Err_0 == CoreError::ClockUnavailable && final(self).peers() == old(
                self,
            ).peers(),
    {
        let now = match epoch_seconds() {
            Ok(t) => t,
            Err(e) => {
                return Err(e);
            },
        };

        // Establish the pairwise session with this peer.
        let _session_id = self.session_manager.establish_session(&encryption_public_key);

        let peer_info = PeerInfo {
            signing_public_key,
            encryption_public_key,
            first_seen: now,
            last_seen: now,
        };

        let ghost before = self.known_peers@;
        match find_peer_index(&self.known_peers, peer_id.as_str()) {
            Some(i) => {
                self.known_peers.remove(i);
                proof {
                    assert forall|id2: Seq<char>| id2 != peer_id@ implies registry_lookup(
                        self.known_peers@,
                        id2,
                    ) == registry_lookup(before, id2) by {
                        lemma_registry_remove(before, i as int, id2);
                    }
                }
            },
            None => {},
        }
        let ghost mid = self.known_peers@;
        self.known_peers.insert(0, (peer_id, peer_info));
        proof {
            assert(self.known_peers@.drop_first() =~= mid);
            assert forall|id2: Seq<char>| id2 != peer_id@ implies registry_lookup(
                self.known_peers@,
                id2,
            ) == registry_lookup(before, id2) by {
                assert(registry_lookup(self.known_peers@, id2) == registry_lookup(mid, id2));
            }
        }
        Ok(())
    }

    /// Get a peer's registered record.
    pub fn get_peer(&self, peer_id: &str) -> (r: Option<PeerInfo>)
        ensures
            r == self.registered(peer_id@),
    {
        match find_peer_index(&self.known_peers, peer_id) {
            Some(i) => {
                proof {
                    lemma_registry_skip(self.known_peers@, i as int, peer_id@);
                    assert(self.known_peers@.skip(i as int)[0] == self.known_peers@[i as int]);
                }
                Some(self.known_peers[i].1)
            },
            None => {
                proof {
                    lemma_registry_skip(
                        self.known_peers@,
                        self.known_peers@.len() as int,
                        peer_id@,
                    );
                    assert(self.known_peers@.skip(self.known_peers@.len() as int) =~= Seq::<
                        (String, PeerInfo),
                    >::empty());
                }
                None
            },
        }
    }

    /// Sign a message with the local identity.
    pub fn sign(&self, message: &[u8]) -> (r: Result<Vec<u8>, CoreError>)
        ensures
            r matches Ok(sig) ==> {
                &&& sig@ == ed25519_sig_of(self.id_seed(), message@)
                &&& sig@.len() == 64
                &&& ed25519_verifies(self.pk(), message@, sig@)
            },
            r is Ok,
    {
        self.identity.sign(message)
    }

    /// Verify a signature from a peer against that peer's public key.
    pub fn verify(&self, message: &[u8], signature: &[u8], public_key: &[u8; 32]) -> (r: Result<
        (),
        CoreError,
    >)
        ensures
            r is Ok <==> (signature@.len() == 64 && ed25519_verifies(
                public_key@,
                message@,
                signature@,
            )),
            r is Err ==> (r->Err_0 == CoreError::MalformedInput || r->Err_0
                == CoreError::AuthenticationFailed),
    {
        verify_with_key(message, signature, public_key)
    }

    /// Encrypt a message for a specific peer's key-agreement key.
    pub fn encrypt_for_peer(&self, peer_encryption_key: &[u8; KEY_SIZE], plaintext: &[u8]) -> (r:
        Result<EncryptedMessage, CoreError>)
        ensures
            r matches Ok(m) ==> {
                &&& sealed_for(m@, self.enc_sk(), peer_encryption_key@, plaintext@)
                &&& m@.aad is None
            },
            r is Err ==> (r->Err_0 == CoreError::EncryptionFailed || r->Err_0
                == CoreError::ClockUnavailable),
            r is Err && r->Err_0 == CoreError::EncryptionFailed ==> plaintext@.len() / 64
                >= 0xffff_ffff,
    {
        self.session_manager.encrypt_for_peer(peer_encryption_key, plaintext, None)
    }

    /// Decrypt a message from a peer; what the peer sealed for this manager
    /// is recovered exactly.
    pub fn decrypt_from_peer(
        &self,
        encrypted: &EncryptedMessage,
        peer_encryption_key: &[u8; KEY_SIZE],
    ) -> (r: Result<Vec<u8>, CoreError>)
        ensures
            r matches Ok(pt) ==> pairwise_opened(self.enc_sk(), peer_encryption_key@, encrypted@)
                == Some(pt@),
            forall|pt: Seq<u8>, sk2: Seq<u8>|
                #[trigger] sealed_for(encrypted@, sk2, x25519_pub_of(self.enc_sk()), pt)
                    && peer_encryption_key@ == x25519_pub_of(sk2) && pt.len() / 64 < 0xffff_ffff
                    ==> r is Ok && r->Ok_0@ == pt,
            r is Err ==> (r->Err_0 == CoreError::MalformedInput || r->Err_0
                == CoreError::AuthenticationFailed),
    {
        self.session_manager.decrypt_from_peer(encrypted, peer_encryption_key)
    }

    /// Sign the plaintext with the local identity, then seal the signed
    /// message for the registered peer; the composite send path.
    pub fn create_encrypted_signed_message(&self, plaintext: &[u8], peer_id: &str) -> (r: Result<
        Vec<u8>,
        CoreError,
    >)
        ensures
            self.registered(peer_id@) is None <==> (r is Err && r->Err_0 == CoreError::PeerNotFound),
            r matches Ok(b) ==> {
                &&& (self.registered(peer_id@) matches Some(peer) && {
                    &&& spec_encrypted_message_parse(b@) matches Some(m)
                    &&& sealed_signed(
                        spec_encrypted_message_parse(b@)->Some_0,
                        self.enc_sk(),
                        self.id_seed(),
                        peer.encryption_public_key@,
                        plaintext@,
                    )
                })
                &&& (plaintext@.len() + 128) / 64 < 0xffff_ffff
            },
            r is Err ==> (r->Err_0 == CoreError::PeerNotFound || r->Err_0
                == CoreError::ClockUnavailable || r->Err_0 == CoreError::EncryptionFailed),
            r is Err && r->Err_0 == CoreError::EncryptionFailed ==> (plaintext@.len() + 128) / 64
                >= 0xffff_ffff,
    {
        let peer = match self.get_peer(peer_id) {
            Some(p) => p,
            None => {
                return Err(CoreError::PeerNotFound);
            },
        };

        // Sign the plaintext.
        let mut content: Vec<u8> = Vec::new();
        crate::wire::push_bytes(&mut content, plaintext);
        let signed = match SignedMessage::new(&self.identity, content) {
            Ok(s) => s,
            Err(e) => {
                return Err(e);
            },
        };
        let signed_bytes = match signed.to_bytes() {
            Ok(b) => b,
            Err(e) => {
                return Err(e);
            },
        };

        proof {
            vstd::bytes::lemma_auto_spec_u64_to_from_le_bytes();
            assert(signed_bytes@.len() == plaintext@.len() + 128);
        }

        // Seal the signed message for the peer.
        let encrypted = match self.session_manager.encrypt_for_peer(
            &peer.encryption_public_key,
            signed_bytes.as_slice(),
            None,
        ) {
            Ok(m) => m,
            Err(e) => {
                return Err(e);
            },
        };
        let out = match encrypted.to_bytes() {
            Ok(b) => b,
            Err(e) => {
                return Err(e);
            },
        };
        proof {
            crate::encryption::lemma_encrypted_message_round_trip(encrypted@);
            lemma_signed_message_round_trip(signed@);
            let tsw = signed@.timestamp;
            assert(signed_view_of(self.id_seed(), plaintext@, tsw) == signed@);
            assert(sealed_for(
                encrypted@,
                self.enc_sk(),
                peer.encryption_public_key@,
                spec_signed_message_bytes(signed_view_of(self.id_seed(), plaintext@, tsw)),
            ));
            assert(spec_signed_message_parse(
                spec_signed_message_bytes(signed_view_of(self.id_seed(), plaintext@, tsw)),
            ) == Some(signed_view_of(self.id_seed(), plaintext@, tsw)));
            assert(spec_signed_message_bytes(signed_view_of(self.id_seed(), plaintext@, tsw)).len()
                == plaintext@.len() + 128);
            assert(sealed_signed(
                encrypted@,
                self.enc_sk(),
                self.id_seed(),
                peer.encryption_public_key@,
                plaintext@,
            ));
        }
        Ok(out)
    }

    /// Decrypt a pairwise envelope from a registered peer, then verify the
    /// signature inside and that it was made by that peer's registered
    /// signing key; the composite receive path. Plaintext is returned only
    /// when every check passed.
    pub fn decrypt_and_verify_message(&self, encrypted_bytes: &[u8], peer_id: &str) -> (r: Result<
        Vec<u8>,
        CoreError,
    >)
        ensures
            self.registered(peer_id@) is None <==> (r is Err && r->Err_0 == CoreError::PeerNotFound),
            r matches Ok(content) ==> {
                &&& (self.registered(peer_id@) matches Some(peer) && {
                    &&& spec_encrypted_message_parse(encrypted_bytes@) matches Some(em)
                    &&& (pairwise_opened(self.enc_sk(), peer.encryption_public_key@, em) matches
                        Some(pt) && {
                        &&& (spec_signed_message_parse(pt) matches Some(sm) && {
                            &&& sm.sender_public_key == peer.signing_public_key@
                            &&& ed25519_verifies(sm.sender_public_key, sm.content, sm.signature)
                            &&& content@ == sm.content
                        })
                    })
                })
            },
            r is Err ==> (r->Err_0 == CoreError::PeerNotFound || r->Err_0
                == CoreError::MalformedInput || r->Err_0 == CoreError::AuthenticationFailed),
            forall|pt: Seq<u8>, sk2: Seq<u8>|
                (self.registered(peer_id@) is Some && #[trigger] acceptable_delivery(
                    encrypted_bytes@,
                    sk2,
                    x25519_pub_of(self.enc_sk()),
                    self.registered(peer_id@)->Some_0.signing_public_key@,
                    pt,
                ) && self.registered(peer_id@)->Some_0.encryption_public_key@ == x25519_pub_of(
                    sk2,
                )) ==> r is Ok && r->Ok_0@ == spec_signed_message_parse(pt)->Some_0.content,
            ({
                let peer = self.registered(peer_id@)->Some_0;
                let pt = opened_delivery(encrypted_bytes@, self.enc_sk(), peer)->Some_0;
                let sm = spec_signed_message_parse(pt)->Some_0;
                &&& self.registered(peer_id@) is Some
                &&& opened_delivery(encrypted_bytes@, self.enc_sk(), peer) is Some
                &&& spec_signed_message_parse(pt) is Some
                &&& sm.sender_public_key == peer.signing_public_key@
                &&& sm.sender_public_key.len() == 32
                &&& sm.signature.len() == 64
                &&& ed25519_verifies(sm.sender_public_key, sm.content, sm.signature)
            }) ==> (r is Ok && r->Ok_0@ == spec_signed_message_parse(
                opened_delivery(
                    encrypted_bytes@,
                    self.enc_sk(),
                    self.registered(peer_id@)->Some_0,
                )->Some_0,
            )->Some_0.content),
    {
        let peer = match self.get_peer(peer_id) {
            Some(p) => p,
            None => {
                return Err(CoreError::PeerNotFound);
            },
        };

        let encrypted = match EncryptedMessage::from_bytes(encrypted_bytes) {
            Ok(m) => m,
            Err(_) => {
                return Err(CoreError::MalformedInput);
            },
        };
        let decrypt_result = self.session_manager.decrypt_from_peer(
            &encrypted,
            &peer.encryption_public_key,
        );
        proof {
            assert forall|pt: Seq<u8>, sk2: Seq<u8>|
                (self.registered(peer_id@) is Some && #[trigger] acceptable_delivery(
                    encrypted_bytes@,
                    sk2,
                    x25519_pub_of(self.enc_sk()),
                    self.registered(peer_id@)->Some_0.signing_public_key@,
                    pt,
                ) && self.registered(peer_id@)->Some_0.encryption_public_key@ == x25519_pub_of(
                    sk2,
                )) implies decrypt_result is Ok && decrypt_result->Ok_0@ == pt by {
                assert(encrypted@ == spec_encrypted_message_parse(encrypted_bytes@)->Some_0);
                assert(sealed_for(encrypted@, sk2, x25519_pub_of(self.enc_sk()), pt));
            }
        }
        let decrypted = match decrypt_result {
            Ok(p) => p,
            Err(e) => {
                return Err(e);
            },
        };

        let signed = match SignedMessage::from_bytes(decrypted.as_slice()) {
            Ok(s) => s,
            Err(_) => {
                return Err(CoreError::MalformedInput);
            },
        };
        match signed.verify() {
            Ok(_) => (),
            Err(e) => {
                return Err(e);
            },
        }

        // The signer inside must be the peer registered under this id.
        if !crate::textutil::bytes_eq(
            signed.sender_public_key.as_slice(),
            peer.signing_public_key.as_slice(),
        ) {
            return Err(CoreError::AuthenticationFailed);
        }

        Ok(signed.content)
    }
}

} // verus!
