use vstd::prelude::*;
use std::collections::HashMap;
use crate::types::{Abort, Address, Error, Gift, GiftStatus, MAX_GIFT_AMOUNT, MIN_GIFT_AMOUNT, amount_in_bounds};
use crate::payload::{claim_message, expected_message};
use crate::signature::{ed25519_accepts, ed25519_verify};

verus! {

broadcast use vstd::std_specs::hash::group_hash_axioms;

/// The abstract state of a contract instance: the oracle key slot, the
/// identifier counter, and the stored gifts by identifier.
pub struct ContractState {
    pub oracle: Option<[u8; 32]>,
    pub next_gift_id: Option<u64>,
    pub gifts: Map<u64, Gift>,
}

/// The identifier the next creation will use: the counter, or 1 where it was
/// never set.
pub open spec fn next_id(s: ContractState) -> u64 {
    match s.next_gift_id {
        Some(n) => n,
        None => 1,
    }
}

/// The state invariant: every stored identifier lies below the counter, every
/// gift has a recipient exactly when it is claimed, and every amount is within
/// the creation bounds.
pub open spec fn wf(s: ContractState) -> bool {
    forall|k: u64| #[trigger] s.gifts.contains_key(k) ==> {
        &&& k < next_id(s)
        &&& (s.gifts[k].recipient is None <==> s.gifts[k].status == GiftStatus::Created)
        &&& amount_in_bounds(s.gifts[k].amount)
    }
}

/// The outcome of `initialize` on `s` with oracle key `key`: the result and
/// the state that follows.
pub open spec fn initialize_outcome(s: ContractState, key: [u8; 32]) -> (Result<(), Abort>, ContractState) {
    if s.oracle is Some {
        (Err(Abort::AlreadyInitialized), s)
    } else {
        (Ok(()), ContractState { oracle: Some(key), next_gift_id: Some(1), gifts: s.gifts })
    }
}

/// The gift that a creation stores.
pub open spec fn new_gift(sender: Address, amount: i128, unlock_timestamp: u64, hash: String) -> Gift {
    Gift {
        sender,
        recipient: None,
        amount,
        unlock_timestamp,
        recipient_phone_hash: hash,
        status: GiftStatus::Created,
    }
}

/// The outcome of `create_gift` on `s`: the result and the state that follows.
pub open spec fn create_outcome(
    s: ContractState,
    sender: Address,
    amount: i128,
    unlock_timestamp: u64,
    hash: String,
) -> (Result<u64, Abort>, ContractState) {
    if !amount_in_bounds(amount) {
        (Err(Abort::InvalidAmount), s)
    } else if next_id(s) == u64::MAX {
        (Err(Abort::IdsExhausted), s)
    } else {
        let id = next_id(s);
        (
            Ok(id),
            ContractState {
                oracle: s.oracle,
                next_gift_id: Some((id + 1) as u64),
                gifts: s.gifts.insert(id, new_gift(sender, amount, unlock_timestamp, hash)),
            },
        )
    }
}

/// The recoverable checks of a claim, in order: the gift exists, it is still
/// open, and its unlock time has come.
pub open spec fn check_claim_spec(s: ContractState, gift_id: u64, now: u64) -> Result<(), Error> {
    if !s.gifts.contains_key(gift_id) {
        Err(Error::GiftNotFound)
    } else if s.gifts[gift_id].status == GiftStatus::Claimed {
        Err(Error::AlreadyClaimed)
    } else if now < s.gifts[gift_id].unlock_timestamp {
        Err(Error::NotUnlocked)
    } else {
        Ok(())
    }
}

/// `s` with gift `gift_id`, where stored, claimed by `claimant`.
pub open spec fn mark_claimed(s: ContractState, gift_id: u64, claimant: Address) -> ContractState {
    if s.gifts.contains_key(gift_id) {
        let g = s.gifts[gift_id];
        ContractState {
            oracle: s.oracle,
            next_gift_id: s.next_gift_id,
            gifts: s.gifts.insert(
                gift_id,
                Gift {
                    sender: g.sender,
                    recipient: Some(claimant),
                    amount: g.amount,
                    unlock_timestamp: g.unlock_timestamp,
                    recipient_phone_hash: g.recipient_phone_hash,
                    status: GiftStatus::Claimed,
                },
            ),
        }
    } else {
        s
    }
}

/// The outcome of `claim_gift` on `s` at time `now`: the result and the state
/// that follows. Recoverable errors come as `Ok(Err(..))`, aborts as `Err(..)`;
/// only a full success changes the state.
pub open spec fn claim_outcome(
    s: ContractState,
    claimant: Address,
    gift_id: u64,
    proof: Seq<u8>,
    now: u64,
) -> (Result<Result<(), Error>, Abort>, ContractState) {
    match check_claim_spec(s, gift_id, now) {
        Err(e) => (Ok(Err(e)), s),
        Ok(_) => match s.oracle {
            None => (Err(Abort::NotInitialized), s),
            Some(key) => match claim_message(claimant, s.gifts[gift_id].recipient_phone_hash@) {
                None => (Err(Abort::EncodingFailed), s),
                Some(msg) => if ed25519_accepts(key@, msg, proof) {
                    (Ok(Ok(())), mark_claimed(s, gift_id, claimant))
                } else {
                    (Err(Abort::InvalidProof), s)
                },
            },
        },
    }
}

/// One contract instance: the gift store with its oracle key and counter.
pub struct TimeLockContract {
    oracle: Option<[u8; 32]>,
    next_gift_id: Option<u64>,
    gifts: HashMap<u64, Gift>,
}

impl View for TimeLockContract {
    type V = ContractState;

    closed spec fn view(&self) -> ContractState {
        ContractState { oracle: self.oracle, next_gift_id: self.next_gift_id, gifts: self.gifts@ }
    }
}

impl TimeLockContract {
    /// A fresh, uninitialised instance with no gifts.
    pub fn new() -> (r: Self)
        ensures
            r@.oracle is None,
            r@.next_gift_id is None,
            r@.gifts == Map::<u64, Gift>::empty(),
            wf(r@),
    {
        TimeLockContract { oracle: None, next_gift_id: None, gifts: HashMap::new() }
    }

    /// An instance holding the given oracle key slot and counter, and no gifts
    /// yet; the gifts are then brought in by `put_gift`.
    pub fn restore(oracle: Option<[u8; 32]>, next_gift_id: Option<u64>) -> (r: Self)
        ensures
            r@ == (ContractState { oracle, next_gift_id, gifts: Map::<u64, Gift>::empty() }),
    {
        let r = TimeLockContract { oracle, next_gift_id, gifts: HashMap::new() };
        assert(r@.gifts =~= Map::<u64, Gift>::empty());
        r
    }

    /// Stores `gift` under `gift_id`, replacing any gift stored there.
    pub fn put_gift(&mut self, gift_id: u64, gift: Gift)
        ensures
            final(self)@ == (ContractState {
                oracle: old(self)@.oracle,
                next_gift_id: old(self)@.next_gift_id,
                gifts: old(self)@.gifts.insert(gift_id, gift),
            }),
    {
        self.gifts.insert(gift_id, gift);
    }

    /// Stores the oracle's public key and starts the counter at 1; aborts
    /// where a key is already stored. Identifiers are fresh only where this
    /// comes before any creation: a gift created on an uninitialised instance
    /// sits under identifier 1, which the reset counter hands out again.
    pub fn initialize(&mut self, oracle_pk: [u8; 32]) -> (r: Result<(), Abort>)
        ensures
            (r, final(self)@) == initialize_outcome(old(self)@, oracle_pk),
    {
        if self.oracle.is_some() {
            return Err(Abort::AlreadyInitialized);
        }
        self.oracle = Some(oracle_pk);
        self.next_gift_id = Some(1);
        Ok(())
    }

    /// Records a new open gift under the next identifier and returns that
    /// identifier; aborts on an amount out of bounds.
    pub fn create_gift(
        &mut self,
        sender: Address,
        amount: i128,
        unlock_timestamp: u64,
        recipient_phone_hash: String,
    ) -> (r: Result<u64, Abort>)
        ensures
            (r, final(self)@) == create_outcome(old(self)@, sender, amount, unlock_timestamp, recipient_phone_hash),
    {
        if amount < MIN_GIFT_AMOUNT || amount > MAX_GIFT_AMOUNT {
            return Err(Abort::InvalidAmount);
        }
        let gift_id: u64 = match self.next_gift_id {
            Some(n) => n,
            None => 1,
        };
        if gift_id == u64::MAX {
            return Err(Abort::IdsExhausted);
        }
        let gift = Gift {
            sender,
            recipient: None,
            amount,
            unlock_timestamp,
            recipient_phone_hash,
            status: GiftStatus::Created,
        };
        self.gifts.insert(gift_id, gift);
        self.next_gift_id = Some(gift_id + 1);
        Ok(gift_id)
    }

    /// Runs the recoverable checks of a claim on gift `gift_id` at time `now`.
    pub fn check_claim(&self, gift_id: u64, now: u64) -> (r: Result<(), Error>)
        ensures
            r == check_claim_spec(self@, gift_id, now),
    {
        match self.gifts.get(&gift_id) {
            None => Err(Error::GiftNotFound),
            Some(g) => {
                if g.status == GiftStatus::Claimed {
                    Err(Error::AlreadyClaimed)
                } else if now < g.unlock_timestamp {
                    Err(Error::NotUnlocked)
                } else {
                    Ok(())
                }
            },
        }
    }

    /// Acts on the oracle verdict for a claim of gift `gift_id` by `claimant`:
    /// a rejected proof aborts with nothing changed, an accepted one marks the
    /// gift claimed by `claimant`. It runs none of the other checks of a claim:
    /// `claim_gift` runs them before it.
    pub fn record_claim(&mut self, claimant: Address, gift_id: u64, proof_accepted: bool) -> (r: Result<(), Abort>)
        ensures
            !proof_accepted ==> r == Err::<(), Abort>(Abort::InvalidProof) && final(self)@ == old(self)@,
            proof_accepted ==> r is Ok && final(self)@ == mark_claimed(old(self)@, gift_id, claimant),
    {
        if !proof_accepted {
            return Err(Abort::InvalidProof);
        }
        match self.gifts.remove(&gift_id) {
            Some(mut g) => {
                g.recipient = Some(claimant);
                g.status = GiftStatus::Claimed;
                self.gifts.insert(gift_id, g);
                assert(self.gifts@ =~= mark_claimed(old(self)@, gift_id, claimant).gifts);
            },
            None => {
                assert(self.gifts@ =~= old(self).gifts@);
            },
        }
        Ok(())
    }

    /// Claims gift `gift_id` for `claimant` at ledger time `now`, with the
    /// oracle's signature `verification_proof` over the claimant and the
    /// gift's secret hash.
    pub fn claim_gift(
        &mut self,
        claimant: Address,
        gift_id: u64,
        verification_proof: &[u8; 64],
        now: u64,
    ) -> (r: Result<Result<(), Error>, Abort>)
        ensures
            (r, final(self)@) == claim_outcome(old(self)@, claimant, gift_id, verification_proof@, now),
    {
        match self.check_claim(gift_id, now) {
            Err(e) => return Ok(Err(e)),
            Ok(()) => {},
        }
        let key: [u8; 32] = match self.oracle {
            Some(k) => k,
            None => return Err(Abort::NotInitialized),
        };
        let msg = match self.gifts.get(&gift_id) {
            Some(g) => expected_message(&claimant, &g.recipient_phone_hash),
            None => return Ok(Err(Error::GiftNotFound)),
        };
        let msg = match msg {
            Some(m) => m,
            None => return Err(Abort::EncodingFailed),
        };
        let accepted = ed25519_verify(&key, &msg, verification_proof);
        match self.record_claim(claimant, gift_id, accepted) {
            Ok(()) => Ok(Ok(())),
            Err(a) => Err(a),
        }
    }

    /// The oracle key, where one is stored.
    pub fn oracle_key(&self) -> (r: Option<[u8; 32]>)
        ensures
            r == self@.oracle,
    {
        self.oracle
    }

    /// The identifier counter, where it was set.
    pub fn next_gift_id(&self) -> (r: Option<u64>)
        ensures
            r == self@.next_gift_id,
    {
        self.next_gift_id
    }

    /// The gift stored under `gift_id`, if any.
    pub fn gift(&self, gift_id: u64) -> (r: Option<&Gift>)
        ensures
            match r {
                Some(g) => self@.gifts.contains_key(gift_id) && *g == self@.gifts[gift_id],
                None => !self@.gifts.contains_key(gift_id),
            },
    {
        self.gifts.get(&gift_id)
    }
}

} // verus!
