//! Identity, signing and crypto-manager behavior, end to end.

use openwire::crypto::{CryptoManager, Identity, SignedMessage, verify_with_key};
use openwire::error::CoreError;

#[test]
fn test_identity_generation() {
    let identity = Identity::generate().unwrap();
    assert!(!identity.peer_id().is_empty());
    assert_eq!(identity.public_key().len(), 32);
}

#[test]
fn test_sign_and_verify() {
    let identity = Identity::generate().unwrap();
    let message = b"Hello, OpenWire!";
    let signature = identity.sign(message).unwrap();
    assert!(identity.verify(message, &signature).is_ok());
}

#[test]
fn test_sign_verify_wrong_message() {
    let identity = Identity::generate().unwrap();
    let message = b"Hello, OpenWire!";
    let wrong_message = b"Tampered message!";
    let signature = identity.sign(message).unwrap();
    assert!(identity.verify(wrong_message, &signature).is_err());
}

#[test]
fn test_identity_serialization_roundtrip() {
    let identity = Identity::generate().unwrap();
    let bytes = identity.to_bytes();
    let restored = Identity::from_bytes(bytes).unwrap();
    assert_eq!(identity.peer_id(), restored.peer_id());
}

#[test]
fn test_signed_message_verification() {
    let identity = Identity::generate().unwrap();
    let content = b"Test message content".to_vec();
    let signed = SignedMessage::new(&identity, content).unwrap();

    // Should verify successfully.
    assert!(signed.verify().is_ok());

    // Tampered message should fail.
    let mut tampered = signed.clone();
    tampered.content[0] ^= 0xFF;
    assert!(tampered.verify().is_err());
}

#[test]
fn test_signed_message_serialization_roundtrip() {
    let identity = Identity::generate().unwrap();
    let content = b"Roundtrip test".to_vec();
    let signed = SignedMessage::new(&identity, content).unwrap();

    let bytes = signed.to_bytes().unwrap();
    let restored = SignedMessage::from_bytes(&bytes).unwrap();
    assert!(restored.verify().is_ok());
    assert_eq!(signed.content, restored.content);
}

#[test]
fn test_crypto_manager_encryption() {
    let mut alice = CryptoManager::new().unwrap();
    let mut bob = CryptoManager::new().unwrap();

    // Register each other.
    alice
        .register_peer(
            bob.peer_id(),
            bob.signing_public_key(),
            bob.encryption_public_key(),
        )
        .unwrap();

    bob.register_peer(
        alice.peer_id(),
        alice.signing_public_key(),
        alice.encryption_public_key(),
    )
    .unwrap();

    // Alice sends an encrypted message to Bob.
    let plaintext = b"Secret message from Alice";
    let encrypted = alice
        .create_encrypted_signed_message(plaintext, &bob.peer_id())
        .unwrap();

    // Bob decrypts and verifies.
    let decrypted = bob
        .decrypt_and_verify_message(&encrypted, &alice.peer_id())
        .unwrap();

    assert_eq!(plaintext.to_vec(), decrypted);
}

#[test]
fn test_verify_with_key() {
    let identity = Identity::generate().unwrap();
    let message = b"Verify with external key";
    let signature = identity.sign(message).unwrap();

    let pub_key = identity.public_key_bytes();
    assert!(verify_with_key(message, &signature, &pub_key).is_ok());
}

#[test]
fn test_peer_id_is_hex_of_public_key() {
    let identity = Identity::generate().unwrap();
    let expected: String = identity
        .public_key_bytes()
        .iter()
        .map(|b| format!("{:02x}", b))
        .collect();
    assert_eq!(identity.peer_id(), expected);
    assert_eq!(identity.peer_id().len(), 64);
}

#[test]
fn test_pairwise_hello_end_to_end() {
    // Alice and Bob each generate an identity and a pairwise keypair,
    // register each other via valid key-exchange messages, and exchange
    // one composite encrypted-and-signed greeting.
    let mut alice = CryptoManager::new().unwrap();
    let mut bob = CryptoManager::new().unwrap();

    let alice_kx = openwire::network::KeyExchangeMessage::new(&alice).unwrap();
    let bob_kx = openwire::network::KeyExchangeMessage::new(&bob).unwrap();
    assert!(alice_kx.verify().is_ok());
    assert!(bob_kx.verify().is_ok());

    bob.register_peer(
        alice.peer_id(),
        alice_kx.signing_public_key,
        alice_kx.encryption_public_key,
    )
    .unwrap();
    alice
        .register_peer(
            bob.peer_id(),
            bob_kx.signing_public_key,
            bob_kx.encryption_public_key,
        )
        .unwrap();

    let wire = alice
        .create_encrypted_signed_message(b"hi bob", &bob.peer_id())
        .unwrap();
    let got = bob
        .decrypt_and_verify_message(&wire, &alice.peer_id())
        .unwrap();
    assert_eq!(got, b"hi bob".to_vec());

    // The registered sender key is Alice's signing key.
    let peer = bob.get_peer(&alice.peer_id()).unwrap();
    assert_eq!(peer.signing_public_key, alice.signing_public_key());
}

#[test]
fn test_unknown_peer_is_reported_as_not_found() {
    let alice = CryptoManager::new().unwrap();
    let r = alice.create_encrypted_signed_message(b"hello", "no-such-peer");
    assert_eq!(r.unwrap_err(), CoreError::PeerNotFound);
    let r = alice.decrypt_and_verify_message(b"whatever", "no-such-peer");
    assert_eq!(r.unwrap_err(), CoreError::PeerNotFound);
}

#[test]
fn test_registry_overwrites_per_peer() {
    let mut alice = CryptoManager::new().unwrap();
    let bob = CryptoManager::new().unwrap();
    let carol = CryptoManager::new().unwrap();

    alice
        .register_peer("p1".to_string(), bob.signing_public_key(), bob.encryption_public_key())
        .unwrap();
    alice
        .register_peer(
            "p2".to_string(),
            carol.signing_public_key(),
            carol.encryption_public_key(),
        )
        .unwrap();
    // Last writer wins for the same identifier.
    alice
        .register_peer("p1".to_string(), carol.signing_public_key(), carol.encryption_public_key())
        .unwrap();

    let p1 = alice.get_peer("p1").unwrap();
    assert_eq!(p1.signing_public_key, carol.signing_public_key());
    let p2 = alice.get_peer("p2").unwrap();
    assert_eq!(p2.signing_public_key, carol.signing_public_key());
    assert!(alice.get_peer("p3").is_none());
}

#[test]
fn test_signed_message_rejects_malformed_fields() {
    let identity = Identity::generate().unwrap();
    let mut signed = SignedMessage::new(&identity, b"x".to_vec()).unwrap();
    signed.sender_public_key.pop();
    assert_eq!(signed.verify().unwrap_err(), CoreError::MalformedInput);

    let mut signed2 = SignedMessage::new(&identity, b"x".to_vec()).unwrap();
    signed2.signature.pop();
    assert_eq!(signed2.verify().unwrap_err(), CoreError::MalformedInput);

    assert_eq!(
        SignedMessage::from_bytes(b"not a message").unwrap_err(),
        CoreError::MalformedInput
    );
}
