//! Trust core of a decentralized, end-to-end-encrypted peer-to-peer
//! messenger: per-peer identity and signing, authenticated pairwise key
//! exchange, forward-secret pairwise encryption, and a group-room protocol
//! that distributes a shared symmetric key through per-recipient envelopes.

pub mod crypto;
pub mod encryption;
pub mod error;
pub mod game;
pub mod image_support;
pub mod klipy;
pub mod media;
pub mod network;
pub mod primitives;
pub mod room;
pub mod textutil;
pub mod ui;
pub mod wire;

