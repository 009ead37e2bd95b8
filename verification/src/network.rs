//! The wire objects of the network layer that carry the trust core's
//! traffic: the signed, replay-bounded key-exchange announcement that is the
//! sole path into the peer registry, and the plain command and result
//! records the transport exchanges with its driver.

use vstd::prelude::*;
use vstd::bytes::{spec_u64_from_le_bytes, spec_u64_to_le_bytes, u64_from_le_bytes};
use vstd::slice::{slice_subrange, slice_to_vec};
use crate::crypto::CryptoManager;
use crate::error::CoreError;
use crate::primitives::{
    ed25519_pub_of, ed25519_sig_of, ed25519_verifies, epoch_seconds, x25519_pub_of,
};
use crate::textutil::arr32;
use crate::wire::push_bytes;
use crate::wire::push_u64;

verus! {

/// Maximum allowed clock skew for key-exchange timestamps, in seconds.
pub const MAX_TIMESTAMP_SKEW: u64 = 60;

/// The topic for general (signed, unencrypted) messages.
pub fn general_topic() -> (r: &'static str)
    ensures
        r@ == "openwire-general"@,
{
    "openwire-general"
}

/// The exact byte sequence a key-exchange message signs: signing key,
/// key-agreement key, then the timestamp as eight little-endian bytes.
pub open spec fn key_exchange_sign_input(spk: Seq<u8>, epk: Seq<u8>, ts: u64) -> Seq<u8> {
    spk + epk + spec_u64_to_le_bytes(ts)
}

/// Whether a timestamp lies within the allowed skew window around `now`.
pub open spec fn skew_ok(now: u64, ts: u64) -> bool {
    (if now >= ts {
        now - ts
    } else {
        ts - now
    }) <= MAX_TIMESTAMP_SKEW
}

/// The mathematical content of a [`KeyExchangeMessage`].
pub ghost struct KeyExchangeMessageV {
    pub signing_public_key: Seq<u8>,
    pub encryption_public_key: Seq<u8>,
    pub timestamp: u64,
    pub signature: Seq<u8>,
}

/// A signed announcement of a peer's public keys, with a timestamp bound
/// against replay; the only input the peer registry accepts.
#[derive(Debug, Clone)]
pub struct KeyExchangeMessage {
    /// The peer's signing public key (Ed25519).
    pub signing_public_key: [u8; 32],
    /// The peer's key-agreement public key (X25519).
    pub encryption_public_key: [u8; 32],
    /// Timestamp for replay protection.
    pub timestamp: u64,
    /// Signature over signing key, key-agreement key and timestamp.
    pub signature: Vec<u8>,
}

impl View for KeyExchangeMessage {
    type V = KeyExchangeMessageV;

    open spec fn view(&self) -> KeyExchangeMessageV {
        KeyExchangeMessageV {
            signing_public_key: self.signing_public_key@,
            encryption_public_key: self.encryption_public_key@,
            timestamp: self.timestamp,
            signature: self.signature@,
        }
    }
}

/// The fixed wire layout of a key-exchange message: signing key (32),
/// key-agreement key (32), timestamp (8, little endian), signature (64);
/// 136 bytes in all.
pub open spec fn spec_key_exchange_bytes(v: KeyExchangeMessageV) -> Seq<u8> {
    v.signing_public_key + v.encryption_public_key + spec_u64_to_le_bytes(v.timestamp)
        + v.signature
}

/// Spec-level parse of the fixed key-exchange layout.
pub open spec fn spec_key_exchange_parse(data: Seq<u8>) -> Option<KeyExchangeMessageV> {
    if data.len() == 136 {
        Some(
            KeyExchangeMessageV {
                signing_public_key: data.subrange(0, 32),
                encryption_public_key: data.subrange(32, 64),
                timestamp: spec_u64_from_le_bytes(data.subrange(64, 72)),
                signature: data.subrange(72, 136),
            },
        )
    } else {
        None
    }
}

impl KeyExchangeMessage {
    /// Create a new signed key-exchange message carrying the local keys and
    /// the current epoch time.
    pub fn new(crypto: &CryptoManager) -> (r: Result<Self, CoreError>)
        ensures
            r matches Ok(m) ==> {
                &&& m@.signing_public_key == crypto.pk()
                &&& m@.encryption_public_key == x25519_pub_of(crypto.enc_sk())
                &&& m@.signature == ed25519_sig_of(
                    crypto.id_seed(),
                    key_exchange_sign_input(
                        m@.signing_public_key,
                        m@.encryption_public_key,
                        m@.timestamp,
                    ),
                )
                &&& m@.signature.len() == 64
                &&& ed25519_verifies(
                    m@.signing_public_key,
                    key_exchange_sign_input(
                        m@.signing_public_key,
                        m@.encryption_public_key,
                        m@.timestamp,
                    ),
                    m@.signature,
                )
            },
            r is Err ==> r->Err_0 == CoreError::ClockUnavailable,
    {
        let signing_public_key = crypto.signing_public_key();
        let encryption_public_key = crypto.encryption_public_key();
        let timestamp = match epoch_seconds() {
            Ok(t) => t,
            Err(e) => {
                return Err(e);
            },
        };

        let mut sign_data: Vec<u8> = Vec::new();
        push_bytes(&mut sign_data, signing_public_key.as_slice());
        push_bytes(&mut sign_data, encryption_public_key.as_slice());
        push_u64(&mut sign_data, timestamp);

        let signature = match crypto.sign(sign_data.as_slice()) {
            Ok(s) => s,
            Err(e) => {
                return Err(e);
            },
        };

        Ok(KeyExchangeMessage { signing_public_key, encryption_public_key, timestamp, signature })
    }

    /// Verify this message against an explicit notion of "now": the
    /// signature must check out under the embedded signing key, and the
    /// timestamp must lie within the skew window. Staleness is reported
    /// apart from authentication failure.
    pub fn verify_at(&self, now: u64) -> (r: Result<(), CoreError>)
        ensures
            r is Ok <==> (skew_ok(now, self@.timestamp) && self@.signature.len() == 64
                && ed25519_verifies(
                self@.signing_public_key,
                key_exchange_sign_input(
                    self@.signing_public_key,
                    self@.encryption_public_key,
                    self@.timestamp,
                ),
                self@.signature,
            )),
            !skew_ok(now, self@.timestamp) ==> r == Err::<(), CoreError>(CoreError::StaleTimestamp),
            r is Err ==> (r->Err_0 == CoreError::StaleTimestamp || r->Err_0
                == CoreError::MalformedInput || r->Err_0 == CoreError::AuthenticationFailed),
    {
        let diff = if now >= self.timestamp {
            now - self.timestamp
        } else {
            self.timestamp - now
        };
        if diff > MAX_TIMESTAMP_SKEW {
            return Err(CoreError::StaleTimestamp);
        }

        let mut sign_data: Vec<u8> = Vec::new();
        push_bytes(&mut sign_data, self.signing_public_key.as_slice());
        push_bytes(&mut sign_data, self.encryption_public_key.as_slice());
        push_u64(&mut sign_data, self.timestamp);

        crate::crypto::verify_with_key(
            sign_data.as_slice(),
            self.signature.as_slice(),
            &self.signing_public_key,
        )
    }

    /// Verify the signature and bound the timestamp against the current
    /// clock; only on success may the peer registry be updated.
    pub fn verify(&self) -> (r: Result<(), CoreError>)
        ensures
            r is Ok ==> (self@.signature.len() == 64 && ed25519_verifies(
                self@.signing_public_key,
                key_exchange_sign_input(
                    self@.signing_public_key,
                    self@.encryption_public_key,
                    self@.timestamp,
                ),
                self@.signature,
            )),
            r is Err ==> (r->Err_0 == CoreError::ClockUnavailable || r->Err_0
                == CoreError::StaleTimestamp || r->Err_0 == CoreError::MalformedInput || r->Err_0
                == CoreError::AuthenticationFailed),
    {
        let now = match epoch_seconds() {
            Ok(t) => t,
            Err(e) => {
                return Err(e);
            },
        };
        self.verify_at(now)
    }

    /// Serialize to the fixed 136-byte wire layout.
    pub fn to_bytes(&self) -> (r: Result<Vec<u8>, CoreError>)
        ensures
            r is Ok,
            r matches Ok(b) ==> b@ == spec_key_exchange_bytes(self@),
    {
        let mut out: Vec<u8> = Vec::new();
        push_bytes(&mut out, self.signing_public_key.as_slice());
        push_bytes(&mut out, self.encryption_public_key.as_slice());
        push_u64(&mut out, self.timestamp);
        push_bytes(&mut out, self.signature.as_slice());
        Ok(out)
    }

    /// Deserialize from the fixed wire layout; anything but exactly 136
    /// bytes is rejected.
    pub fn from_bytes(data: &[u8]) -> (r: Result<Self, CoreError>)
        ensures
            match spec_key_exchange_parse(data@) {
                Some(v) => r matches Ok(m) && m@ == v,
                None => r == Err::<Self, CoreError>(CoreError::MalformedInput),
            },
    {
        if data.len() != 136 {
            return Err(CoreError::MalformedInput);
        }
        let spk_v = slice_to_vec(slice_subrange(data, 0, 32));
        let epk_v = slice_to_vec(slice_subrange(data, 32, 64));
        let timestamp = u64_from_le_bytes(slice_subrange(data, 64, 72));
        let signature = slice_to_vec(slice_subrange(data, 72, 136));
        proof {
            vstd::bytes::lemma_auto_spec_u64_to_from_le_bytes();
        }
        Ok(
            KeyExchangeMessage {
                signing_public_key: arr32(&spk_v),
                encryption_public_key: arr32(&epk_v),
                timestamp,
                signature,
            },
        )
    }
}

/// Encoding then parsing a key-exchange message yields it back unchanged.
pub proof fn lemma_key_exchange_round_trip(v: KeyExchangeMessageV)
    requires
        v.signing_public_key.len() == 32,
        v.encryption_public_key.len() == 32,
        v.signature.len() == 64,
    ensures
        spec_key_exchange_parse(spec_key_exchange_bytes(v)) == Some(v),
{
    vstd::bytes::lemma_auto_spec_u64_to_from_le_bytes();
    let data = spec_key_exchange_bytes(v);
    assert(data.subrange(0, 32) =~= v.signing_public_key);
    assert(data.subrange(32, 64) =~= v.encryption_public_key);
    assert(data.subrange(64, 72) =~= spec_u64_to_le_bytes(v.timestamp));
    assert(data.subrange(72, 136) =~= v.signature);
}

/// A GIF search result handed back to the driver.
#[derive(Debug, Clone)]
pub struct GifResult {
    pub id: String,
    pub url: String,
    pub preview_url: String,
    pub title: String,
}

/// Commands a driver sends to control the network layer.
#[derive(Debug)]
pub enum NetworkCommand {
    /// Broadcast a signed message to the general topic.
    Broadcast { data: Vec<u8> },
    /// Send an encrypted message to a specific peer.
    SendToPeer { peer_id: String, data: Vec<u8> },
    /// Send a file to all peers.
    SendFile { path: String },
    /// Connect to a specific peer.
    Connect(String),
    /// Shut the network down.
    Shutdown,
    /// Create and subscribe to a room topic.
    SubscribeToRoom { room_id: String },
    /// Unsubscribe from a room topic.
    UnsubscribeFromRoom { room_id: String },
    /// Send an encrypted room message.
    SendRoomMessage { room_id: String, data: Vec<u8> },
    /// Send a room invite to a peer.
    SendRoomInvite { peer_id: String, invite_data: Vec<u8> },
    /// Create a new room.
    CreateRoom { name: String },
    /// Invite a peer to a room.
    InviteToRoom { room_id: String, peer_id: String },
    /// Join a room by identifier.
    JoinRoom { room_id: String },
    /// Leave a room.
    LeaveRoom { room_id: String },
    /// List all rooms.
    ListRooms,
    /// Search for a GIF.
    SearchGif { query: String },
}

/// A file transfer record broadcast on the file topic.
#[derive(Debug, Clone)]
pub struct FileTransferMessage {
    /// Original filename.
    pub filename: String,
    /// File size in bytes.
    pub size: usize,
    /// File contents.
    pub data: Vec<u8>,
    /// Sender's public key.
    pub sender_public_key: Vec<u8>,
    /// Signature over filename and contents.
    pub signature: Vec<u8>,
    /// Timestamp.
    pub timestamp: u64,
}

} // verus!
