//! Core of a relay-brokered peer-to-peer file-transfer client: session
//! negotiation with the relay, the socket pairing handshake, the READY/ACK
//! and DONE signal protocol, the chunked streaming loop, and the trust-store
//! and signature checks that authenticate a sender.

pub mod config;
pub mod contacts;
pub mod errors;
pub mod handshake;
pub mod keys;
pub mod relay;
pub mod signing;
pub mod text;
pub mod transfer;
