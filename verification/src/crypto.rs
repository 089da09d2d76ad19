//! The signature primitive, consumed as an opaque
//! `verify(publicKey, message, signature) -> bool`.
//!
//! The interceptor does not implement Ed25519; the primitive stands behind
//! one trusted wrapper, and every contract above it speaks of the named
//! result `ed25519_verifies` alone.

use vstd::prelude::*;

verus! {

/// Whether the Ed25519 primitive accepts `sig` as a valid signature by the
/// 32-byte public key `pk` over the message `msg`. The primitive is a pure
/// function of the three byte sequences alone.
pub uninterp spec fn ed25519_verifies(pk: Seq<u8>, msg: Seq<u8>, sig: Seq<u8>) -> bool;

/// Relies on `ed25519_dalek::PublicKey::from_bytes`,
/// `ed25519_dalek::Signature::from_bytes` and
/// `ed25519_dalek::Verifier::verify`: together the verification primitive.
/// All three are deterministic functions of the bytes handed to them, so the
/// result depends on the three arguments alone; a key or signature that the
/// crate refuses to parse (wrong length, no curve point) verifies nothing,
/// which the wrapper folds into the same `false`.
#[verifier::external_body]
pub(crate) fn ed25519_verify(public_key: &[u8], message: &[u8], signature: &[u8]) -> (r: bool)
    ensures
        r == ed25519_verifies(public_key@, message@, signature@),
{
    let key = match ed25519_dalek::PublicKey::from_bytes(public_key) {
        Ok(k) => k,
        Err(_) => return false,
    };
    let sig = match ed25519_dalek::Signature::from_bytes(signature) {
        Ok(s) => s,
        Err(_) => return false,
    };
    ed25519_dalek::Verifier::verify(&key, message, &sig).is_ok()
}

} // verus!
