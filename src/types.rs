use vstd::prelude::*;

verus! {

/// The smallest amount a gift may carry.
pub const MIN_GIFT_AMOUNT: i128 = 1_000_000;

/// The largest amount a gift may carry.
pub const MAX_GIFT_AMOUNT: i128 = 100_000_000_000;

/// An on-ledger identity: an account, named by its Ed25519 public key, or a
/// contract, named by the hash that identifies it.
#[derive(Clone, Copy, Debug, PartialEq, Eq)]
pub enum Address {
    Account([u8; 32]),
    Contract([u8; 32]),
}

/// Where a gift stands in its lifecycle.
#[derive(Clone, Copy, Debug, PartialEq, Eq, Structural)]
pub enum GiftStatus {
    Created,
    Claimed,
}

/// One time-locked, oracle-gated transfer.
#[derive(Debug)]
pub struct Gift {
    pub sender: Address,
    pub recipient: Option<Address>,
    pub amount: i128,
    pub unlock_timestamp: u64,
    pub recipient_phone_hash: String,
    pub status: GiftStatus,
}

/// The recoverable outcomes of a claim: the caller may branch on these.
#[derive(Clone, Copy, Debug, PartialEq, Eq, Structural)]
pub enum Error {
    GiftNotFound,
    AlreadyClaimed,
    InvalidStatus,
    NotUnlocked,
}

/// The unrecoverable failures: the operation is abandoned and no state changes.
#[derive(Clone, Copy, Debug, PartialEq, Eq, Structural)]
pub enum Abort {
    /// `initialize` was called on an instance that already holds an oracle key.
    AlreadyInitialized,
    /// The amount lies outside `[MIN_GIFT_AMOUNT, MAX_GIFT_AMOUNT]`.
    InvalidAmount,
    /// Every identifier has been handed out.
    IdsExhausted,
    /// A claim reached the signature check before any oracle key was stored.
    NotInitialized,
    /// The recipient hash has no canonical encoding (it is too long).
    EncodingFailed,
    /// The oracle's signature does not verify over the expected message.
    InvalidProof,
}

/// Whether `amount` lies within the creation bounds.
pub open spec fn amount_in_bounds(amount: i128) -> bool {
    MIN_GIFT_AMOUNT <= amount && amount <= MAX_GIFT_AMOUNT
}

} // verus!
