use vstd::prelude::*;
use vstd::utf8::encode_utf8;
use crate::types::Address;
use soroban_sdk::xdr::{
    AccountId, Limits, PublicKey, ScAddress, ScString, ScVal, StringM, Uint256, WriteXdr,
};

verus! {

/// The canonical (XDR) encoding of an address as a contract value: the value
/// tag `SCV_ADDRESS` (18), the address kind (0 for an account, 1 for a
/// contract), for an account the key kind `PUBLIC_KEY_TYPE_ED25519` (0), then
/// the 32 bytes; every tag is a big-endian 32-bit word.
pub open spec fn address_xdr(a: Address) -> Seq<u8> {
    match a {
        Address::Account(k) => seq![0u8, 0, 0, 18] + seq![0u8, 0, 0, 0] + seq![0u8, 0, 0, 0] + k@,
        Address::Contract(h) => seq![0u8, 0, 0, 18] + seq![0u8, 0, 0, 1] + h@,
    }
}

/// The big-endian bytes of a 32-bit word.
pub open spec fn be_word(n: u32) -> Seq<u8> {
    seq![(n >> 24u32) as u8, (n >> 16u32) as u8, (n >> 8u32) as u8, n as u8]
}

/// The zero bytes that bring `len` bytes up to a multiple of four.
pub open spec fn xdr_padding(len: nat) -> Seq<u8> {
    Seq::new(((4 - len % 4) % 4) as nat, |i: int| 0u8)
}

/// The canonical (XDR) encoding of a text as a contract string value: the
/// value tag `SCV_STRING` (14), the byte length as a big-endian word, the
/// UTF-8 bytes, and zero padding to a multiple of four; `None` where the byte
/// length does not fit in a word.
pub open spec fn text_xdr(s: Seq<char>) -> Option<Seq<u8>> {
    let b = encode_utf8(s);
    if b.len() <= u32::MAX {
        Some(seq![0u8, 0, 0, 14] + be_word(b.len() as u32) + b + xdr_padding(b.len()))
    } else {
        None
    }
}

/// The message the oracle signs to authorise `claimant` for a gift bound to
/// the secret hash `hash`: the encoding of the claimant followed by the
/// encoding of the hash, with no separator.
pub open spec fn claim_message(claimant: Address, hash: Seq<char>) -> Option<Seq<u8>> {
    match text_xdr(hash) {
        Some(t) => Some(address_xdr(claimant) + t),
        None => None,
    }
}

/// Relies on stellar-xdr's `WriteXdr::to_xdr` for `ScVal::Address`: with no
/// limits it writes the tags and bytes above into a growing buffer, which
/// cannot fail.
#[verifier::external_body]
fn encode_address(a: &Address) -> (r: Option<Vec<u8>>)
    ensures
        r is Some,
        r->Some_0@ == address_xdr(*a),
{
    let v = match a {
        Address::Account(k) => ScAddress::Account(AccountId(PublicKey::PublicKeyTypeEd25519(Uint256(*k)))),
        Address::Contract(h) => ScAddress::Contract(soroban_sdk::xdr::Hash(*h)),
    };
    ScVal::Address(v).to_xdr(Limits::none()).ok()
}

/// Relies on stellar-xdr's `StringM::try_from` and `WriteXdr::to_xdr` for
/// `ScVal::String`: `try_from` refuses more than `u32::MAX` bytes; with no
/// limits the write then puts the tag, the length, the bytes and the padding
/// above into a growing buffer, which cannot fail.
#[verifier::external_body]
fn encode_text(s: &String) -> (r: Option<Vec<u8>>)
    ensures
        r is Some <==> text_xdr(s@) is Some,
        r is Some ==> r->Some_0@ == text_xdr(s@)->Some_0,
{
    let m = StringM::try_from(s.as_bytes().to_vec()).ok()?;
    ScVal::String(ScString(m)).to_xdr(Limits::none()).ok()
}

/// Builds the message that the oracle must have signed for `claimant` to
/// claim a gift bound to `hash`.
pub fn expected_message(claimant: &Address, hash: &String) -> (r: Option<Vec<u8>>)
    ensures
        r is Some <==> claim_message(*claimant, hash@) is Some,
        r is Some ==> r->Some_0@ == claim_message(*claimant, hash@)->Some_0,
{
    let a = encode_address(claimant);
    let t = encode_text(hash);
    match (a, t) {
        (Some(mut a), Some(mut t)) => {
            a.append(&mut t);
            Some(a)
        },
        _ => None,
    }
}

} // verus!
