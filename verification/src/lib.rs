//! Deterministic key management for a Cosmos-style relayer.
//!
//! The heart of the crate is a keyring: from a mnemonic phrase it derives a
//! secp256k1 keypair along the fixed path `m/44'/118'/0'/0/0`, computes the
//! account address as `RIPEMD160(SHA256(public key))`, stores the keypair
//! under that address, and signs arbitrary messages on demand.  Around it
//! stands a small helper that assembles the command lines and listen
//! addresses a chain binary is driven with.

pub mod command;
pub mod derivation;
pub mod ecdsa;
pub mod errors;
pub mod hashes;
pub mod store;
