//! Group rooms: keys, invites, access control, room messages, and the
//! two-peer room scenario.

use openwire::crypto::Identity;
use openwire::encryption::EncryptionKeyPair;
use openwire::error::CoreError;
use openwire::room::{
    EncryptedRoomMessage, GroupKey, Room, RoomInvite, RoomManager, RoomMessage,
};

#[test]
fn test_group_key_encrypt_decrypt() {
    let key = GroupKey::generate();
    let plaintext = b"Hello, secret room!";

    let encrypted = key.encrypt(plaintext).unwrap();
    let decrypted = key.decrypt(&encrypted).unwrap();

    assert_eq!(plaintext.to_vec(), decrypted);
}

#[test]
fn test_room_creation() {
    let room = Room::new("Test Room".to_string()).unwrap();

    assert!(room.id.starts_with("room-"));
    assert_eq!(room.name, "Test Room");
    assert!(room.is_owner);
    assert!(room.members.is_empty());
}

#[test]
fn test_room_invite_roundtrip() {
    let inviter = Identity::generate().unwrap();

    // A proper key-agreement keypair for the invitee.
    let invitee_keys = EncryptionKeyPair::generate().unwrap();
    let invitee_public_bytes = invitee_keys.public_key_bytes();
    let invitee_private_bytes = invitee_keys.secret_to_bytes();

    let room = Room::new("Secret Room".to_string()).unwrap();
    let target_peer_id = "12D3KooWTestPeerId".to_string();
    let invite = RoomInvite::new(
        &inviter,
        room.id.clone(),
        room.name.clone(),
        target_peer_id.clone(),
        &room.group_key,
        &invitee_public_bytes,
    )
    .unwrap();

    assert!(invite.verify().is_ok());
    assert!(invite.is_for_peer(&target_peer_id));
    assert!(!invite.is_for_peer("other-peer-id"));

    let decrypted_key = invite.decrypt_key(&invitee_private_bytes).unwrap();
    assert_eq!(room.group_key.as_bytes(), decrypted_key.as_bytes());
}

#[test]
fn test_room_manager() {
    let mut manager = RoomManager::new([0u8; 32]);

    let room = manager.create_room("Test".to_string()).unwrap();
    let room_id = room.id.clone();
    assert!(room_id.starts_with("room-"));

    assert_eq!(manager.room_count(), 1);
    assert!(manager.in_room(&room_id));
}

#[test]
fn test_room_message_signing() {
    let identity = Identity::generate().unwrap();
    let room_id = "room-test123".to_string();

    let msg = RoomMessage::new(
        &identity,
        room_id,
        "Alice".to_string(),
        b"Hello everyone!".to_vec(),
    )
    .unwrap();

    assert!(msg.verify().is_ok());
}

#[test]
fn test_encrypted_room_message_roundtrip() {
    let identity = Identity::generate().unwrap();
    let mut manager = RoomManager::new([0u8; 32]);

    let room = manager.create_room("Test".to_string()).unwrap();
    let room_id = room.id.clone();

    let msg = RoomMessage::new(
        &identity,
        room_id.clone(),
        "Alice".to_string(),
        b"Secret message!".to_vec(),
    )
    .unwrap();

    let encrypted = manager.encrypt_message(&room_id, &msg).unwrap();
    let decrypted = manager.decrypt_message(&room_id, &encrypted).unwrap();

    assert_eq!(msg.content, decrypted.content);
    assert_eq!(msg.sender_nick, decrypted.sender_nick);
}

#[test]
fn test_invite_for_other_peer_is_rejected() {
    // An invite whose target differs from the receiver's identifier is
    // rejected even though the signature is valid and the receiver holds
    // the matching private key.
    let inviter = Identity::generate().unwrap();
    let receiver_keys = EncryptionKeyPair::generate().unwrap();
    let mut receiver = RoomManager::new(receiver_keys.secret_to_bytes());

    let room = Room::new("R1".to_string()).unwrap();
    let invite = RoomInvite::new(
        &inviter,
        room.id.clone(),
        room.name.clone(),
        "bob-the-target".to_string(),
        &room.group_key,
        &receiver_keys.public_key_bytes(),
    )
    .unwrap();
    assert!(invite.verify().is_ok());

    let r = receiver.handle_invite(invite, "alice-not-the-target");
    assert!(matches!(r, Err(CoreError::NotAuthorized)));
    drop(r);
    assert_eq!(receiver.room_count(), 0);
}

#[test]
fn test_room_scenario_owner_invites_member() {
    // The owner creates room "R1" and invites a registered peer; the peer
    // joins via the invite, the owner sends "welcome", and the peer
    // decrypts it and verifies the sender's signature.
    let owner_identity = Identity::generate().unwrap();
    let owner_keys = EncryptionKeyPair::generate().unwrap();
    let mut owner_rooms = RoomManager::new(owner_keys.secret_to_bytes());

    let bob_keys = EncryptionKeyPair::generate().unwrap();
    let mut bob_rooms = RoomManager::new(bob_keys.secret_to_bytes());
    let bob_peer_id = "bob-peer-id".to_string();

    let room_id = {
        let room = owner_rooms.create_room("R1".to_string()).unwrap();
        room.id.clone()
    };

    let invite = owner_rooms
        .create_invite(&room_id, &owner_identity, &bob_peer_id, &bob_keys.public_key_bytes())
        .unwrap();

    // The invite travels as bytes.
    let invite_bytes = invite.to_bytes().unwrap();
    let received = RoomInvite::from_bytes(&invite_bytes).unwrap();

    let joined_id = {
        let joined = bob_rooms.handle_invite(received, &bob_peer_id).unwrap();
        assert_eq!(joined.name, "R1");
        assert!(!joined.is_owner);
        joined.id.clone()
    };
    assert_eq!(joined_id, room_id);

    // The recovered group key is bit-identical to the owner's.
    let owner_key = owner_rooms.get_room(&room_id).unwrap().group_key.as_bytes().to_vec();
    let bob_key = bob_rooms.get_room(&room_id).unwrap().group_key.as_bytes().to_vec();
    assert_eq!(owner_key, bob_key);

    // Owner sends a room message.
    let msg = RoomMessage::new(
        &owner_identity,
        room_id.clone(),
        "Owner".to_string(),
        b"welcome".to_vec(),
    )
    .unwrap();
    let sealed = owner_rooms.encrypt_message(&room_id, &msg).unwrap();
    let wire = sealed.to_bytes().unwrap();

    // Bob receives, decrypts and verifies.
    let received_sealed = EncryptedRoomMessage::from_bytes(&wire).unwrap();
    let opened = bob_rooms.decrypt_message(&room_id, &received_sealed).unwrap();
    assert_eq!(opened.content, b"welcome".to_vec());
    assert!(opened.verify().is_ok());
    assert_eq!(opened.sender_public_key, owner_identity.public_key_bytes().to_vec());
}

#[test]
fn test_leave_room_discards_local_copy() {
    let mut manager = RoomManager::new([0u8; 32]);
    let room_id = {
        let room = manager.create_room("Ephemeral".to_string()).unwrap();
        room.id.clone()
    };
    assert!(manager.in_room(&room_id));
    let left = manager.leave_room(&room_id).unwrap();
    assert_eq!(left.id, room_id);
    assert!(!manager.in_room(&room_id));
    assert!(manager.leave_room(&room_id).is_none());
}

#[test]
fn test_room_membership_bookkeeping() {
    let mut room = Room::new("Members".to_string()).unwrap();
    assert!(!room.is_member("p1"));
    room.add_member("p1".to_string());
    room.add_member("p1".to_string());
    room.add_member("p2".to_string());
    assert!(room.is_member("p1"));
    assert!(room.is_member("p2"));
    room.remove_member("p1");
    assert!(!room.is_member("p1"));
    assert!(room.is_member("p2"));
}

#[test]
fn test_room_operations_without_room_fail() {
    let manager = RoomManager::new([0u8; 32]);
    let identity = Identity::generate().unwrap();
    let keys = EncryptionKeyPair::generate().unwrap();
    let r = manager.create_invite("nowhere", &identity, "peer", &keys.public_key_bytes());
    assert!(matches!(r, Err(CoreError::RoomNotFound)));
    let msg = RoomMessage::new(&identity, "nowhere".to_string(), "n".to_string(), vec![]).unwrap();
    assert!(matches!(
        manager.encrypt_message("nowhere", &msg),
        Err(CoreError::RoomNotFound)
    ));
    assert!(!manager.can_invite_to_room("nowhere"));
}

#[test]
fn test_tampered_invite_fails_verification() {
    let inviter = Identity::generate().unwrap();
    let keys = EncryptionKeyPair::generate().unwrap();
    let room = Room::new("T".to_string()).unwrap();
    let mut invite = RoomInvite::new(
        &inviter,
        room.id.clone(),
        room.name.clone(),
        "target".to_string(),
        &room.group_key,
        &keys.public_key_bytes(),
    )
    .unwrap();
    // Re-addressing the invite invalidates the signature.
    invite.target_peer_id = "someone-else".to_string();
    assert!(matches!(
        invite.verify(),
        Err(CoreError::AuthenticationFailed)
    ));
}

#[test]
fn test_room_invite_wire_round_trip() {
    let inviter = Identity::generate().unwrap();
    let keys = EncryptionKeyPair::generate().unwrap();
    let room = Room::new("Wire".to_string()).unwrap();
    let invite = RoomInvite::new(
        &inviter,
        room.id.clone(),
        room.name.clone(),
        "target".to_string(),
        &room.group_key,
        &keys.public_key_bytes(),
    )
    .unwrap();
    let bytes = invite.to_bytes().unwrap();
    let decoded = RoomInvite::from_bytes(&bytes).unwrap();
    assert_eq!(decoded.room_id, invite.room_id);
    assert_eq!(decoded.room_name, invite.room_name);
    assert_eq!(decoded.target_peer_id, invite.target_peer_id);
    assert_eq!(decoded.encrypted_key, invite.encrypted_key);
    assert_eq!(decoded.inviter_public_key, invite.inviter_public_key);
    assert_eq!(decoded.timestamp, invite.timestamp);
    assert_eq!(decoded.signature, invite.signature);
    assert!(decoded.verify().is_ok());
}

#[test]
fn test_room_message_wire_round_trip() {
    let identity = Identity::generate().unwrap();
    let msg = RoomMessage::new(
        &identity,
        "room-w".to_string(),
        "Nick".to_string(),
        b"payload".to_vec(),
    )
    .unwrap();
    let bytes = msg.to_bytes().unwrap();
    let decoded = RoomMessage::from_bytes(&bytes).unwrap();
    assert_eq!(decoded.room_id, msg.room_id);
    assert_eq!(decoded.sender_nick, msg.sender_nick);
    assert_eq!(decoded.content, msg.content);
    assert!(decoded.verify().is_ok());
    assert!(RoomMessage::from_bytes(b"nonsense").is_err());
}

#[test]
fn test_room_id_is_prefixed_hex() {
    let room = Room::new("Hex".to_string()).unwrap();
    let tail = &room.id["room-".len()..];
    assert_eq!(tail.len(), 16);
    assert!(tail.chars().all(|c| c.is_ascii_hexdigit() && !c.is_ascii_uppercase()));
}

#[test]
fn test_room_topic_shape() {
    let room = Room::new("Topic".to_string()).unwrap();
    assert_eq!(room.topic(), format!("openwire-room-{}", room.id));
}
