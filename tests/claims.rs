use ed25519_dalek::{Signer, SigningKey};
use rand::rngs::OsRng;
use rand::RngCore;
use time_lock::contract::TimeLockContract;
use time_lock::payload::expected_message;
use time_lock::types::{Abort, Address, Error, GiftStatus, MAX_GIFT_AMOUNT, MIN_GIFT_AMOUNT};

fn random_contract_address() -> Address {
    let mut bytes = [0u8; 32];
    OsRng.fill_bytes(&mut bytes);
    Address::Contract(bytes)
}

fn sign_claim(oracle: &SigningKey, claimant: &Address, hash: &str) -> [u8; 64] {
    let payload = expected_message(claimant, &String::from(hash)).unwrap();
    oracle.sign(&payload).to_bytes()
}

fn initialized() -> (TimeLockContract, SigningKey) {
    let oracle = SigningKey::generate(&mut OsRng);
    let mut c = TimeLockContract::new();
    c.initialize(oracle.verifying_key().to_bytes()).unwrap();
    (c, oracle)
}

#[test]
fn test_claim_gift() {
    let now: u64 = 0;
    let (mut c, oracle) = initialized();

    let sender = random_contract_address();
    let recipient_phone_hash = String::from("hash_of_phone_number");
    let amount: i128 = 10_000_000;
    let unlock_time = now + 100;
    let gift_id = c.create_gift(sender, amount, unlock_time, recipient_phone_hash.clone()).unwrap();

    let claimant = random_contract_address();
    let proof = sign_claim(&oracle, &claimant, &recipient_phone_hash);

    let res = c.claim_gift(claimant, gift_id, &proof, now);
    assert!(res.is_ok());
    assert_eq!(res, Ok(Err(Error::NotUnlocked)));

    let res = c.claim_gift(claimant, gift_id, &proof, unlock_time + 1);
    assert_eq!(res, Ok(Ok(())));
    let g = c.gift(gift_id).unwrap();
    assert_eq!(g.status, GiftStatus::Claimed);
    assert_eq!(g.recipient, Some(claimant));

    let res = c.claim_gift(claimant, gift_id, &proof, unlock_time + 1);
    assert_eq!(res, Ok(Err(Error::AlreadyClaimed)));
}

#[test]
#[should_panic]
fn test_invalid_proof() {
    let now: u64 = 0;
    let (mut c, oracle) = initialized();

    let sender = random_contract_address();
    let recipient_phone_hash = String::from("hash_of_phone_number");
    let amount: i128 = 10_000_000;
    let unlock_time = now;
    let gift_id = c.create_gift(sender, amount, unlock_time, recipient_phone_hash).unwrap();

    let claimant = random_contract_address();
    let proof = sign_claim(&oracle, &claimant, "wrong_hash");

    let res = c.claim_gift(claimant, gift_id, &proof, now);
    let g = c.gift(gift_id).unwrap();
    if res == Err(Abort::InvalidProof) && g.status == GiftStatus::Created && g.recipient.is_none() {
        panic!("claim aborted: {:?}", res);
    }
}

#[test]
fn identifiers_increase_from_one() {
    let (mut c, _) = initialized();
    let s = random_contract_address();
    let a = c.create_gift(s, MIN_GIFT_AMOUNT, 10, String::from("h1")).unwrap();
    let b = c.create_gift(s, MAX_GIFT_AMOUNT, 10, String::from("h2")).unwrap();
    let d = c.create_gift(s, 10_000_000, 10, String::from("h3")).unwrap();
    assert_eq!((a, b, d), (1, 2, 3));
    for id in [a, b, d] {
        let g = c.gift(id).unwrap();
        assert_eq!(g.status, GiftStatus::Created);
        assert_eq!(g.recipient, None);
        assert_eq!(g.sender, s);
    }
    assert_eq!(c.gift(2).unwrap().amount, MAX_GIFT_AMOUNT);
    assert_eq!(c.gift(3).unwrap().recipient_phone_hash, "h3");
}

#[test]
fn create_before_initialize_uses_first_identifier() {
    let mut c = TimeLockContract::new();
    let s = random_contract_address();
    assert_eq!(c.create_gift(s, 10_000_000, 0, String::from("h")), Ok(1));
    assert_eq!(c.create_gift(s, 10_000_000, 0, String::from("h")), Ok(2));
}

#[test]
fn amounts_out_of_bounds_abort() {
    let (mut c, _) = initialized();
    let s = random_contract_address();
    for amount in [MIN_GIFT_AMOUNT - 1, MAX_GIFT_AMOUNT + 1, 0, -1, i128::MIN, i128::MAX] {
        assert_eq!(c.create_gift(s, amount, 0, String::from("h")), Err(Abort::InvalidAmount));
    }
    assert!(c.gift(1).is_none());
    assert_eq!(c.create_gift(s, MIN_GIFT_AMOUNT, 0, String::from("h")), Ok(1));
}

#[test]
fn claim_of_unknown_gift_is_not_found() {
    let (mut c, oracle) = initialized();
    let claimant = random_contract_address();
    let proof = sign_claim(&oracle, &claimant, "h");
    assert_eq!(c.claim_gift(claimant, 42, &proof, 1_000), Ok(Err(Error::GiftNotFound)));
    let mut fresh = TimeLockContract::new();
    assert_eq!(fresh.claim_gift(claimant, 1, &[0u8; 64], 0), Ok(Err(Error::GiftNotFound)));
}

#[test]
fn valid_proof_before_unlock_is_not_unlocked() {
    let (mut c, oracle) = initialized();
    let id = c.create_gift(random_contract_address(), 10_000_000, 500, String::from("h")).unwrap();
    let claimant = random_contract_address();
    let proof = sign_claim(&oracle, &claimant, "h");
    assert_eq!(c.claim_gift(claimant, id, &proof, 499), Ok(Err(Error::NotUnlocked)));
    assert_eq!(c.claim_gift(claimant, id, &proof, 500), Ok(Ok(())));
}

#[test]
fn proof_for_another_claimant_aborts() {
    let (mut c, oracle) = initialized();
    let id = c.create_gift(random_contract_address(), 10_000_000, 0, String::from("h")).unwrap();
    let claimant = random_contract_address();
    let other = random_contract_address();
    let proof = sign_claim(&oracle, &other, "h");
    assert_eq!(c.claim_gift(claimant, id, &proof, 0), Err(Abort::InvalidProof));
    assert_eq!(c.gift(id).unwrap().status, GiftStatus::Created);
    assert_eq!(c.claim_gift(other, id, &proof, 0), Ok(Ok(())));
}

#[test]
fn proof_by_another_key_aborts() {
    let (mut c, _) = initialized();
    let stranger = SigningKey::generate(&mut OsRng);
    let id = c.create_gift(random_contract_address(), 10_000_000, 0, String::from("h")).unwrap();
    let claimant = random_contract_address();
    let proof = sign_claim(&stranger, &claimant, "h");
    assert_eq!(c.claim_gift(claimant, id, &proof, 0), Err(Abort::InvalidProof));
}

#[test]
fn second_claim_by_anyone_is_already_claimed() {
    let (mut c, oracle) = initialized();
    let id = c.create_gift(random_contract_address(), 10_000_000, 0, String::from("h")).unwrap();
    let first = random_contract_address();
    let second = random_contract_address();
    assert_eq!(c.claim_gift(first, id, &sign_claim(&oracle, &first, "h"), 0), Ok(Ok(())));
    assert_eq!(c.claim_gift(second, id, &sign_claim(&oracle, &second, "h"), 9), Ok(Err(Error::AlreadyClaimed)));
    assert_eq!(c.gift(id).unwrap().recipient, Some(first));
}

#[test]
fn second_initialize_aborts_and_keeps_key() {
    let (mut c, oracle) = initialized();
    let key = oracle.verifying_key().to_bytes();
    assert_eq!(c.initialize([9u8; 32]), Err(Abort::AlreadyInitialized));
    assert_eq!(c.oracle_key(), Some(key));
}

#[test]
fn claim_without_oracle_key_aborts() {
    let mut c = TimeLockContract::new();
    let id = c.create_gift(random_contract_address(), 10_000_000, 0, String::from("h")).unwrap();
    assert_eq!(c.claim_gift(random_contract_address(), id, &[0u8; 64], 0), Err(Abort::NotInitialized));
}

#[test]
fn message_for_contract_claimant_is_exact() {
    let m = expected_message(&Address::Contract([7u8; 32]), &String::from("ab")).unwrap();
    let mut want = vec![0u8, 0, 0, 18, 0, 0, 0, 1];
    want.extend_from_slice(&[7u8; 32]);
    want.extend_from_slice(&[0, 0, 0, 14, 0, 0, 0, 2, b'a', b'b', 0, 0]);
    assert_eq!(m, want);
}

#[test]
fn message_for_account_claimant_is_exact() {
    let m = expected_message(&Address::Account([3u8; 32]), &String::from("")).unwrap();
    let mut want = vec![0u8, 0, 0, 18, 0, 0, 0, 0, 0, 0, 0, 0];
    want.extend_from_slice(&[3u8; 32]);
    want.extend_from_slice(&[0, 0, 0, 14, 0, 0, 0, 0]);
    assert_eq!(m, want);
}

#[test]
fn message_encodes_hash_as_padded_utf8() {
    let m = expected_message(&Address::Contract([0u8; 32]), &String::from("h\u{e9}!")).unwrap();
    let mut want = vec![0u8, 0, 0, 18, 0, 0, 0, 1];
    want.extend_from_slice(&[0u8; 32]);
    want.extend_from_slice(&[0, 0, 0, 14, 0, 0, 0, 4, b'h', 0xC3, 0xA9, b'!']);
    assert_eq!(m, want);
}
