//! The key-exchange announcement: signature, skew window, wire form.

use openwire::crypto::CryptoManager;
use openwire::error::CoreError;
use openwire::network::{general_topic, KeyExchangeMessage, MAX_TIMESTAMP_SKEW};

#[test]
fn test_key_exchange_verifies_fresh() {
    let crypto = CryptoManager::new().unwrap();
    let msg = KeyExchangeMessage::new(&crypto).unwrap();
    assert!(msg.verify().is_ok());
    assert_eq!(msg.signing_public_key, crypto.signing_public_key());
    assert_eq!(msg.encryption_public_key, crypto.encryption_public_key());
}

#[test]
fn test_key_exchange_skew_window() {
    let crypto = CryptoManager::new().unwrap();
    let msg = KeyExchangeMessage::new(&crypto).unwrap();
    let now = msg.timestamp;

    // At the moment of signing.
    assert!(msg.verify_at(now).is_ok());
    // Within the window, on both sides, boundary included.
    assert!(msg.verify_at(now + 59).is_ok());
    assert!(msg.verify_at(now + MAX_TIMESTAMP_SKEW).is_ok());
    if now >= 61 {
        assert!(msg.verify_at(now - 59).is_ok());
        // One second past the window, on both sides.
        assert_eq!(
            msg.verify_at(now - 61).unwrap_err(),
            CoreError::StaleTimestamp
        );
    }
    assert_eq!(
        msg.verify_at(now + 61).unwrap_err(),
        CoreError::StaleTimestamp
    );
}

#[test]
fn test_key_exchange_tamper_fails() {
    let crypto = CryptoManager::new().unwrap();
    let mut msg = KeyExchangeMessage::new(&crypto).unwrap();
    msg.encryption_public_key[0] ^= 0xFF;
    assert_eq!(
        msg.verify_at(msg.timestamp).unwrap_err(),
        CoreError::AuthenticationFailed
    );

    let crypto2 = CryptoManager::new().unwrap();
    let mut msg2 = KeyExchangeMessage::new(&crypto2).unwrap();
    msg2.signature.pop();
    assert_eq!(
        msg2.verify_at(msg2.timestamp).unwrap_err(),
        CoreError::MalformedInput
    );
}

#[test]
fn test_key_exchange_wire_round_trip() {
    let crypto = CryptoManager::new().unwrap();
    let msg = KeyExchangeMessage::new(&crypto).unwrap();
    let bytes = msg.to_bytes().unwrap();
    assert_eq!(bytes.len(), 136);
    let decoded = KeyExchangeMessage::from_bytes(&bytes).unwrap();
    assert_eq!(decoded.signing_public_key, msg.signing_public_key);
    assert_eq!(decoded.encryption_public_key, msg.encryption_public_key);
    assert_eq!(decoded.timestamp, msg.timestamp);
    assert_eq!(decoded.signature, msg.signature);
    assert!(decoded.verify().is_ok());

    assert!(matches!(
        KeyExchangeMessage::from_bytes(&bytes[..135]),
        Err(CoreError::MalformedInput)
    ));
}

#[test]
fn test_general_topic_name() {
    assert_eq!(general_topic(), "openwire-general");
}
