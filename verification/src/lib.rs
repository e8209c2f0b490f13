//! Control logic of a cross-chain token-transfer bridge.
//!
//! The library covers the transfer queueing and release state machines
//! (outbox and inbox), the token-bucket rate limiter that bounds how fast
//! value may move in each direction, the trimmed-amount codec that puts
//! amounts into a bounded-precision wire representation, the fixed-capacity
//! bitmap used for attestation voting and per-channel completion tracking,
//! and the owner / token-authority two-step handover machinery.
//!
//! The host ledger (accounts, signatures, token mint/burn primitives and the
//! message-attestation network) stays outside: every function here works on
//! plain values handed in by the caller and states in its contract exactly
//! what it decides.

pub mod addr;
pub mod bitmap;
pub mod config;
pub mod error;
pub mod inbox;
pub mod multisig;
pub mod outbox;
pub mod ownership;
pub mod peer;
pub mod rate_limit;
pub mod token_authority;
pub mod transceiver;
pub mod trimmed_amount;
