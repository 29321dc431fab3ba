//! A time-locked gift whose release is gated by an oracle's Ed25519 attestation.
//!
//! A sender records a gift bound to a secret recipient hash and an unlock time.
//! After that time, a claimant holding the oracle's signature over the pair
//! (claimant, secret hash) may claim it, exactly once.
pub mod types;
pub mod payload;
pub mod signature;
pub mod contract;
pub mod laws;
