//! Trusted entry points into `ed25519-dalek`, with the names that the rest of
//! the library reasons about. Keys are handled as their 32-byte encodings.

use ed25519_dalek::{Signature, Signer, SigningKey, Verifier, VerifyingKey};
use vstd::prelude::*;

verus! {

/// The encoded public key of the Ed25519 secret key `secret`.
pub uninterp spec fn ed25519_public_spec(secret: Seq<u8>) -> Seq<u8>;

/// The Ed25519 signature of `msg` under the secret key `secret`.
pub uninterp spec fn ed25519_sign_spec(secret: Seq<u8>, msg: Seq<u8>) -> Seq<u8>;

/// The 32 bytes decode to a public key (a point on the curve).
pub uninterp spec fn ed25519_key_decodes_spec(pk: Seq<u8>) -> bool;

/// `sig` is a valid Ed25519 signature of `msg` under the public key `pk`.
pub uninterp spec fn ed25519_verify_spec(pk: Seq<u8>, msg: Seq<u8>, sig: Seq<u8>) -> bool;

/// Calls `SigningKey::from_bytes(secret).verifying_key().to_bytes()`.
/// Trusted: the result is determined by the secret key, and a public key
/// derived from a secret key always decodes again.
#[verifier::external_body]
pub(crate) fn ed25519_public_key(secret: &[u8; 32]) -> (pk: [u8; 32])
    ensures
        pk@ == ed25519_public_spec(secret@),
        ed25519_key_decodes_spec(pk@),
{
    SigningKey::from_bytes(secret).verifying_key().to_bytes()
}

/// Calls `Signer::sign` of `SigningKey::from_bytes(secret)` on `msg`.
/// Trusted: Ed25519 signing is deterministic (RFC 8032), and a signature made
/// with a secret key verifies under the public key derived from it.
#[verifier::external_body]
pub(crate) fn ed25519_sign(secret: &[u8; 32], msg: &[u8]) -> (sig: [u8; 64])
    ensures
        sig@ == ed25519_sign_spec(secret@, msg@),
        ed25519_verify_spec(ed25519_public_spec(secret@), msg@, sig@),
{
    SigningKey::from_bytes(secret).sign(msg).to_bytes()
}

/// Calls `VerifyingKey::from_bytes(pk)` and, when the key decodes,
/// `Verifier::verify` with `Signature::from_bytes(sig)`. Trusted: `None` exactly
/// when the key does not decode, otherwise whether the signature verifies.
#[verifier::external_body]
pub(crate) fn ed25519_verify(pk: &[u8; 32], msg: &[u8], sig: &[u8; 64]) -> (ok: Option<bool>)
    ensures
        ok is None <==> !ed25519_key_decodes_spec(pk@),
        ok matches Some(b) ==> b == ed25519_verify_spec(pk@, msg@, sig@),
{
    match VerifyingKey::from_bytes(pk) {
        Ok(key) => Some(key.verify(msg, &Signature::from_bytes(sig)).is_ok()),
        Err(_) => None,
    }
}

} // verus!
