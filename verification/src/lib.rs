//! Wallet-based authentication for a Cardano blockchain viewer.
//!
//! The heart of the crate is a challenge-response protocol: the server issues
//! a nonce-bearing challenge message for a wallet address, the wallet signs it
//! (wrapping the signature and the public key in compact binary envelopes),
//! and the server decodes the envelopes, checks that the public key is bound
//! to the claimed address, verifies the signature, and only then grants a
//! session for that address.

pub mod address;
pub mod blockfrost;
pub mod config;
pub mod digits;
pub mod envelope;
pub mod errors;
pub mod hexcodec;
pub mod jwt;
pub mod laws;
pub mod models;
pub mod protocol;
pub mod services;
pub mod sigcheck;
pub mod store;
pub mod user;
