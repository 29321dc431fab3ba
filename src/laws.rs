use vstd::prelude::*;
use crate::types::{Abort, Address, Error, GiftStatus, amount_in_bounds};
use vstd::utf8::{encode_utf8, encode_utf8_decode_utf8};
use crate::payload::{address_xdr, be_word, claim_message, text_xdr};
use crate::signature::ed25519_accepts;
use crate::contract::{
    ContractState, check_claim_spec, claim_outcome, create_outcome, initialize_outcome, next_id, wf,
};

verus! {

/// On a well-formed state, a successful creation returns an identifier above
/// every identifier stored before, stores an open gift with no recipient
/// under it, leaves every earlier gift as it was, and keeps the state
/// well-formed.
pub proof fn create_returns_fresh_increasing_id(
    s: ContractState,
    sender: Address,
    amount: i128,
    unlock_timestamp: u64,
    hash: String,
)
    requires
        wf(s),
    ensures
        ({
            let (r, t) = create_outcome(s, sender, amount, unlock_timestamp, hash);
            match r {
                Ok(id) => {
                    &&& forall|k: u64| #[trigger] s.gifts.contains_key(k) ==> k < id
                    &&& t.gifts.contains_key(id)
                    &&& t.gifts[id].status == GiftStatus::Created
                    &&& t.gifts[id].recipient is None
                    &&& id < next_id(t)
                    &&& forall|k: u64| #[trigger] s.gifts.contains_key(k) ==> t.gifts.contains_key(k) && t.gifts[k] == s.gifts[k]
                    &&& wf(t)
                },
                Err(_) => t == s,
            }
        }),
{
    let (r, t) = create_outcome(s, sender, amount, unlock_timestamp, hash);
    if r is Ok {
        assert forall|k: u64| #[trigger] t.gifts.contains_key(k) implies {
            &&& k < next_id(t)
            &&& (t.gifts[k].recipient is None <==> t.gifts[k].status == GiftStatus::Created)
            &&& amount_in_bounds(t.gifts[k].amount)
        } by {
            if k != next_id(s) {
                assert(s.gifts.contains_key(k));
            }
        }
    }
}

/// Initialising an instance that holds no gifts yet, or that is already
/// initialised, keeps the state well-formed.
pub proof fn initialize_keeps_wf(s: ContractState, key: [u8; 32])
    requires
        wf(s),
        s.oracle is Some || s.gifts.is_empty(),
    ensures
        wf(initialize_outcome(s, key).1),
{
    let t = initialize_outcome(s, key).1;
    assert forall|k: u64| #[trigger] t.gifts.contains_key(k) implies k < next_id(t) by {
        if s.oracle is None {
            assert(s.gifts.dom().contains(k));
        }
    }
}

/// A claim keeps the state well-formed.
pub proof fn claim_keeps_wf(s: ContractState, claimant: Address, gift_id: u64, proof: Seq<u8>, now: u64)
    requires
        wf(s),
    ensures
        wf(claim_outcome(s, claimant, gift_id, proof, now).1),
{
    let t = claim_outcome(s, claimant, gift_id, proof, now).1;
    assert forall|k: u64| #[trigger] t.gifts.contains_key(k) implies {
        &&& k < next_id(t)
        &&& (t.gifts[k].recipient is None <==> t.gifts[k].status == GiftStatus::Created)
        &&& amount_in_bounds(t.gifts[k].amount)
    } by {
        assert(s.gifts.contains_key(k));
    }
}

/// A creation with an amount outside `[MIN_GIFT_AMOUNT, MAX_GIFT_AMOUNT]`
/// aborts and changes nothing.
pub proof fn create_rejects_amount_out_of_bounds(
    s: ContractState,
    sender: Address,
    amount: i128,
    unlock_timestamp: u64,
    hash: String,
)
    requires
        !amount_in_bounds(amount),
    ensures
        create_outcome(s, sender, amount, unlock_timestamp, hash) == (Err::<u64, Abort>(Abort::InvalidAmount), s),
{
}

/// A claim on an identifier with no stored gift yields `GiftNotFound` and
/// changes nothing, whoever claims, whenever, with whatever proof.
pub proof fn claim_of_missing_gift_not_found(
    s: ContractState,
    claimant: Address,
    gift_id: u64,
    proof: Seq<u8>,
    now: u64,
)
    requires
        !s.gifts.contains_key(gift_id),
    ensures
        claim_outcome(s, claimant, gift_id, proof, now) == (Ok::<Result<(), Error>, Abort>(Err(Error::GiftNotFound)), s),
{
}

/// A claim on an open gift before its unlock time yields `NotUnlocked` and
/// changes nothing, whatever the proof, a valid one included.
pub proof fn claim_before_unlock_not_unlocked(
    s: ContractState,
    claimant: Address,
    gift_id: u64,
    proof: Seq<u8>,
    now: u64,
)
    requires
        s.gifts.contains_key(gift_id),
        s.gifts[gift_id].status == GiftStatus::Created,
        now < s.gifts[gift_id].unlock_timestamp,
    ensures
        claim_outcome(s, claimant, gift_id, proof, now) == (Ok::<Result<(), Error>, Abort>(Err(Error::NotUnlocked)), s),
{
}

/// A claim succeeds only where the oracle's key accepts the proof over the
/// message built from this claimant and the gift's stored secret hash; where
/// the key rejects that message, a claim that passed the other checks aborts
/// and changes nothing.
pub proof fn claim_requires_proof_over_stored_binding(
    s: ContractState,
    claimant: Address,
    gift_id: u64,
    proof: Seq<u8>,
    now: u64,
)
    ensures
        claim_outcome(s, claimant, gift_id, proof, now).0 == Ok::<Result<(), Error>, Abort>(Ok(())) ==> {
            &&& s.oracle is Some
            &&& claim_message(claimant, s.gifts[gift_id].recipient_phone_hash@) is Some
            &&& ed25519_accepts(
                s.oracle->Some_0@,
                claim_message(claimant, s.gifts[gift_id].recipient_phone_hash@)->Some_0,
                proof,
            )
        },
        ({
            let msg = claim_message(claimant, s.gifts[gift_id].recipient_phone_hash@);
            check_claim_spec(s, gift_id, now) is Ok && s.oracle is Some && msg is Some
                && !ed25519_accepts(s.oracle->Some_0@, msg->Some_0, proof)
                ==> claim_outcome(s, claimant, gift_id, proof, now) == (Err::<Result<(), Error>, Abort>(Abort::InvalidProof), s)
        }),
{
}

/// Equal big-endian words come from equal integers.
proof fn be_word_injective(a: u32, b: u32)
    requires
        be_word(a) == be_word(b),
    ensures
        a == b,
{
    assert(be_word(a)[0] == be_word(b)[0]);
    assert(be_word(a)[1] == be_word(b)[1]);
    assert(be_word(a)[2] == be_word(b)[2]);
    assert(be_word(a)[3] == be_word(b)[3]);
    assert(((a >> 24u32) as u8 == (b >> 24u32) as u8 && (a >> 16u32) as u8 == (b >> 16u32) as u8
        && (a >> 8u32) as u8 == (b >> 8u32) as u8 && a as u8 == b as u8) ==> a == b) by (bit_vector);
}

/// Equal text encodings come from equal texts.
proof fn text_xdr_injective(h1: Seq<char>, h2: Seq<char>)
    requires
        text_xdr(h1) is Some,
        text_xdr(h1) == text_xdr(h2),
    ensures
        h1 == h2,
{
    let t = text_xdr(h1)->Some_0;
    let b1 = encode_utf8(h1);
    let b2 = encode_utf8(h2);
    assert(be_word(b1.len() as u32) =~= t.subrange(4, 8));
    assert(be_word(b2.len() as u32) =~= t.subrange(4, 8));
    be_word_injective(b1.len() as u32, b2.len() as u32);
    assert(b1 =~= t.subrange(8, 8 + b1.len() as int));
    assert(b2 =~= t.subrange(8, 8 + b2.len() as int));
    encode_utf8_decode_utf8(h1);
    encode_utf8_decode_utf8(h2);
}

/// The signed message binds its parts: two claims whose messages coincide
/// have the same claimant and the same secret hash.
pub proof fn claim_message_binds_claimant_and_hash(c1: Address, h1: Seq<char>, c2: Address, h2: Seq<char>)
    requires
        claim_message(c1, h1) is Some,
        claim_message(c1, h1) == claim_message(c2, h2),
    ensures
        c1 == c2,
        h1 == h2,
{
    let m = claim_message(c1, h1)->Some_0;
    let a1 = address_xdr(c1);
    let a2 = address_xdr(c2);
    assert(m[7] == a1[7] && m[7] == a2[7]);
    assert(a1.len() == a2.len());
    assert(a1 =~= m.subrange(0, a1.len() as int));
    assert(a2 =~= m.subrange(0, a2.len() as int));
    assert(text_xdr(h1)->Some_0 =~= m.subrange(a1.len() as int, m.len() as int));
    assert(text_xdr(h2)->Some_0 =~= m.subrange(a2.len() as int, m.len() as int));
    text_xdr_injective(h1, h2);
    match c1 {
        Address::Account(k1) => match c2 {
            Address::Account(k2) => {
                assert(k1@ =~= a1.subrange(12, 44));
                assert(k2@ =~= a2.subrange(12, 44));
                assert(k1 == k2);
            },
            Address::Contract(_) => {},
        },
        Address::Contract(k1) => match c2 {
            Address::Contract(k2) => {
                assert(k1@ =~= a1.subrange(8, 40));
                assert(k2@ =~= a2.subrange(8, 40));
                assert(k1 == k2);
            },
            Address::Account(_) => {},
        },
    }
}

/// After a successful claim of a gift, every later claim of it yields
/// `AlreadyClaimed` and changes nothing; the gift records the claimant.
pub proof fn claim_succeeds_at_most_once(
    s: ContractState,
    c1: Address,
    gift_id: u64,
    first_proof: Seq<u8>,
    t1: u64,
    c2: Address,
    later_proof: Seq<u8>,
    t2: u64,
)
    requires
        claim_outcome(s, c1, gift_id, first_proof, t1).0 == Ok::<Result<(), Error>, Abort>(Ok(())),
    ensures
        ({
            let s1 = claim_outcome(s, c1, gift_id, first_proof, t1).1;
            &&& s1.gifts[gift_id].status == GiftStatus::Claimed
            &&& s1.gifts[gift_id].recipient == Some(c1)
            &&& claim_outcome(s1, c2, gift_id, later_proof, t2) == (Ok::<Result<(), Error>, Abort>(Err(Error::AlreadyClaimed)), s1)
        }),
{
}

/// One call on a contract instance, with its arguments.
pub enum Call {
    Initialize([u8; 32]),
    Create(Address, i128, u64, String),
    Claim(Address, u64, Seq<u8>, u64),
}

/// The state after `call` on `s`.
pub open spec fn step(s: ContractState, call: Call) -> ContractState {
    match call {
        Call::Initialize(key) => initialize_outcome(s, key).1,
        Call::Create(sender, amount, unlock_timestamp, hash) => create_outcome(s, sender, amount, unlock_timestamp, hash).1,
        Call::Claim(claimant, gift_id, proof, now) => claim_outcome(s, claimant, gift_id, proof, now).1,
    }
}

/// The state after `calls`, in order, on `s`.
pub open spec fn run(s: ContractState, calls: Seq<Call>) -> ContractState
    decreases calls.len(),
{
    if calls.len() == 0 {
        s
    } else {
        run(step(s, calls[0]), calls.drop_first())
    }
}

/// Once an oracle key is stored, no sequence of calls changes it.
pub proof fn stored_key_survives_any_calls(s: ContractState, calls: Seq<Call>)
    requires
        s.oracle is Some,
    ensures
        run(s, calls).oracle == s.oracle,
    decreases calls.len(),
{
    if calls.len() > 0 {
        stored_key_survives_any_calls(step(s, calls[0]), calls.drop_first());
    }
}

/// After a successful initialisation with `k1`, whatever calls follow, a
/// further initialisation aborts and changes nothing, `k1` stays the stored
/// key, and a claim succeeds only with a proof that `k1` accepts.
pub proof fn initialize_only_once(
    s: ContractState,
    k1: [u8; 32],
    calls: Seq<Call>,
    k2: [u8; 32],
    claimant: Address,
    gift_id: u64,
    proof: Seq<u8>,
    now: u64,
)
    requires
        initialize_outcome(s, k1).0 is Ok,
    ensures
        ({
            let s1 = run(initialize_outcome(s, k1).1, calls);
            &&& s1.oracle == Some(k1)
            &&& initialize_outcome(s1, k2) == (Err::<(), Abort>(Abort::AlreadyInitialized), s1)
            &&& claim_outcome(s1, claimant, gift_id, proof, now).0 == Ok::<Result<(), Error>, Abort>(Ok(()))
                ==> ed25519_accepts(
                    k1@,
                    claim_message(claimant, s1.gifts[gift_id].recipient_phone_hash@)->Some_0,
                    proof,
                )
        }),
{
    stored_key_survives_any_calls(initialize_outcome(s, k1).1, calls);
}

/// Neither a creation nor a claim ever changes the oracle key.
pub proof fn oracle_key_unchanged_by_gifts(
    s: ContractState,
    sender: Address,
    amount: i128,
    unlock_timestamp: u64,
    hash: String,
    claimant: Address,
    gift_id: u64,
    proof: Seq<u8>,
    now: u64,
)
    ensures
        create_outcome(s, sender, amount, unlock_timestamp, hash).1.oracle == s.oracle,
        claim_outcome(s, claimant, gift_id, proof, now).1.oracle == s.oracle,
{
}

} // verus!
