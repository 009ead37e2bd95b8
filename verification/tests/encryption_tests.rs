//! Pairwise encryption: round trips, associated data, tampering, and the
//! envelope wire format.

use openwire::encryption::{
    encrypt_with_key, decrypt_with_key, EncryptedMessage, EncryptionKeyPair, EncryptionNonce,
    SessionManager, KEY_SIZE, NONCE_SIZE, SALT_SIZE,
};
use openwire::error::CoreError;

#[test]
fn test_keypair_generation() {
    let keypair = EncryptionKeyPair::generate().unwrap();
    assert_eq!(keypair.public_key_bytes().len(), KEY_SIZE);
}

#[test]
fn test_encryption_decryption() {
    let alice = SessionManager::new().unwrap();
    let bob = SessionManager::new().unwrap();

    let alice_public = alice.public_key_bytes();
    let bob_public = bob.public_key_bytes();

    // Alice encrypts for Bob.
    let message = b"Hello, Bob! This is a secret message.";
    let encrypted = alice.encrypt_for_peer(&bob_public, message, None).unwrap();

    // Bob decrypts.
    let decrypted = bob.decrypt_from_peer(&encrypted, &alice_public).unwrap();

    assert_eq!(message.to_vec(), decrypted);
}

#[test]
fn test_encryption_with_aad() {
    let alice = SessionManager::new().unwrap();
    let bob = SessionManager::new().unwrap();

    let alice_public = alice.public_key_bytes();
    let bob_public = bob.public_key_bytes();

    let message = b"Secret with AAD";
    let aad = b"topic-name";
    let encrypted = alice
        .encrypt_for_peer(&bob_public, message, Some(aad))
        .unwrap();

    let decrypted = bob.decrypt_from_peer(&encrypted, &alice_public).unwrap();
    assert_eq!(message.to_vec(), decrypted);
}

#[test]
fn test_encrypted_message_serialization() {
    let encrypted = EncryptedMessage {
        ciphertext: vec![1, 2, 3, 4],
        nonce: EncryptionNonce([0u8; NONCE_SIZE]),
        ephemeral_public_key: Some(vec![5, 6, 7, 8]),
        salt: vec![0u8; SALT_SIZE],
        timestamp: 1234567890,
        aad: None,
    };

    let bytes = encrypted.to_bytes().unwrap();
    let decoded = EncryptedMessage::from_bytes(&bytes).unwrap();

    assert_eq!(encrypted.ciphertext, decoded.ciphertext);
    assert_eq!(encrypted.timestamp, decoded.timestamp);
}

#[test]
fn test_tampered_ciphertext_fails() {
    let alice = SessionManager::new().unwrap();
    let bob = SessionManager::new().unwrap();

    let alice_public = alice.public_key_bytes();
    let bob_public = bob.public_key_bytes();

    let message = b"Tamper test";
    let mut encrypted = alice.encrypt_for_peer(&bob_public, message, None).unwrap();

    // Tamper with the ciphertext.
    if let Some(byte) = encrypted.ciphertext.first_mut() {
        *byte ^= 0xFF;
    }

    assert!(bob.decrypt_from_peer(&encrypted, &alice_public).is_err());
}

#[test]
fn test_simple_encrypt_decrypt() {
    let key = [42u8; KEY_SIZE];
    let message = b"Simple encryption test";

    let encrypted = encrypt_with_key(message, &key, None).unwrap();
    let decrypted = decrypt_with_key(&encrypted, &key).unwrap();

    assert_eq!(message.to_vec(), decrypted);
}

#[test]
fn test_empty_message_round_trip() {
    let alice = SessionManager::new().unwrap();
    let bob = SessionManager::new().unwrap();
    let encrypted = alice
        .encrypt_for_peer(&bob.public_key_bytes(), b"", None)
        .unwrap();
    let decrypted = bob
        .decrypt_from_peer(&encrypted, &alice.public_key_bytes())
        .unwrap();
    assert_eq!(decrypted, Vec::<u8>::new());
}

#[test]
fn test_every_bit_flip_is_detected() {
    // Flipping any bit of the ciphertext, the nonce, or the salt makes
    // decryption fail deterministically.
    let alice = SessionManager::new().unwrap();
    let bob = SessionManager::new().unwrap();
    let alice_public = alice.public_key_bytes();
    let bob_public = bob.public_key_bytes();
    let encrypted = alice
        .encrypt_for_peer(&bob_public, b"bit flip probe", None)
        .unwrap();

    for i in 0..encrypted.ciphertext.len() {
        for bit in 0..8 {
            let mut tampered = encrypted.clone();
            tampered.ciphertext[i] ^= 1u8 << bit;
            assert!(bob.decrypt_from_peer(&tampered, &alice_public).is_err());
        }
    }
    for i in 0..NONCE_SIZE {
        for bit in 0..8 {
            let mut tampered = encrypted.clone();
            tampered.nonce.0[i] ^= 1u8 << bit;
            assert!(bob.decrypt_from_peer(&tampered, &alice_public).is_err());
        }
    }
    for i in 0..SALT_SIZE {
        for bit in 0..8 {
            let mut tampered = encrypted.clone();
            tampered.salt[i] ^= 1u8 << bit;
            assert!(bob.decrypt_from_peer(&tampered, &alice_public).is_err());
        }
    }
}

#[test]
fn test_decrypt_rejects_malformed_envelopes() {
    let alice = SessionManager::new().unwrap();
    let bob = SessionManager::new().unwrap();
    let alice_public = alice.public_key_bytes();
    let mut encrypted = alice
        .encrypt_for_peer(&bob.public_key_bytes(), b"shape check", None)
        .unwrap();

    // Wrong ephemeral key width.
    encrypted.ephemeral_public_key = Some(vec![1, 2, 3]);
    assert_eq!(
        bob.decrypt_from_peer(&encrypted, &alice_public).unwrap_err(),
        CoreError::MalformedInput
    );

    // Wrong salt width.
    let mut encrypted2 = alice
        .encrypt_for_peer(&bob.public_key_bytes(), b"shape check", None)
        .unwrap();
    encrypted2.salt = vec![0u8; 5];
    assert_eq!(
        bob.decrypt_from_peer(&encrypted2, &alice_public).unwrap_err(),
        CoreError::MalformedInput
    );

    // Garbage wire bytes.
    assert_eq!(
        EncryptedMessage::from_bytes(b"garbage").unwrap_err(),
        CoreError::MalformedInput
    );
}

#[test]
fn test_direct_key_envelope_has_no_agreement_fields() {
    let key = [7u8; KEY_SIZE];
    let encrypted = encrypt_with_key(b"direct", &key, Some(b"label")).unwrap();
    assert!(encrypted.ephemeral_public_key.is_none());
    assert!(encrypted.salt.is_empty());
    assert_eq!(encrypted.aad.as_deref(), Some(&b"label"[..]));

    // The wrong key fails; the right one succeeds.
    let wrong = [8u8; KEY_SIZE];
    assert!(decrypt_with_key(&encrypted, &wrong).is_err());
    assert_eq!(decrypt_with_key(&encrypted, &key).unwrap(), b"direct".to_vec());
}

#[test]
fn test_envelope_wire_round_trip_with_aad() {
    let alice = SessionManager::new().unwrap();
    let bob = SessionManager::new().unwrap();
    let encrypted = alice
        .encrypt_for_peer(&bob.public_key_bytes(), b"over the wire", Some(b"topic"))
        .unwrap();
    let bytes = encrypted.to_bytes().unwrap();
    let decoded = EncryptedMessage::from_bytes(&bytes).unwrap();
    assert_eq!(decoded.ciphertext, encrypted.ciphertext);
    assert_eq!(decoded.nonce.0, encrypted.nonce.0);
    assert_eq!(decoded.ephemeral_public_key, encrypted.ephemeral_public_key);
    assert_eq!(decoded.salt, encrypted.salt);
    assert_eq!(decoded.timestamp, encrypted.timestamp);
    assert_eq!(decoded.aad, encrypted.aad);
    let decrypted = bob
        .decrypt_from_peer(&decoded, &alice.public_key_bytes())
        .unwrap();
    assert_eq!(decrypted, b"over the wire".to_vec());
}
