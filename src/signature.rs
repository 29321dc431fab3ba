use vstd::prelude::*;

verus! {

/// Whether Ed25519, in its strict form, accepts `sig` as a signature by the
/// holder of public key `key` over `msg`. It is false where `key` is not a
/// valid point encoding.
pub uninterp spec fn ed25519_accepts(key: Seq<u8>, msg: Seq<u8>, sig: Seq<u8>) -> bool;

/// Relies on ed25519-dalek's `VerifyingKey::from_bytes` and
/// `VerifyingKey::verify_strict`, the check the ledger host applies to an
/// oracle signature: the verdict depends on the key, message and signature
/// alone.
#[verifier::external_body]
pub(crate) fn ed25519_verify(key: &[u8; 32], msg: &Vec<u8>, sig: &[u8; 64]) -> (r: bool)
    ensures
        r == ed25519_accepts(key@, msg@, sig@),
{
    match ed25519_dalek::VerifyingKey::from_bytes(key) {
        Ok(k) => k.verify_strict(msg.as_slice(), &ed25519_dalek::Signature::from_bytes(sig)).is_ok(),
        Err(_) => false,
    }
}

} // verus!
