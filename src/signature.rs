//! The Ed25519 primitive, reached through ed25519-dalek.
//!
//! Keys and signatures are held as plain byte arrays; what the primitive
//! computes from them is given a name here and nowhere spelled out.

use vstd::prelude::*;

verus! {

/// The public key that belongs to a secret key.
pub uninterp spec fn public_key_of(secret: Seq<u8>) -> Seq<u8>;

/// The (deterministic) Ed25519 signature of a message under a secret key.
pub uninterp spec fn signature_of(secret: Seq<u8>, message: Seq<u8>) -> Seq<u8>;

/// Whether a signature verifies for a message under a public key.
pub uninterp spec fn signature_valid(public_key: Seq<u8>, message: Seq<u8>, signature: Seq<u8>) -> bool;

/// Relies on `ed25519_dalek::SigningKey::generate` with the operating
/// system's generator: a fresh random secret key. Nothing is known of it.
#[verifier::external_body]
pub(crate) fn fresh_secret_key() -> (r: [u8; 32]) {
    ed25519_dalek::SigningKey::generate(&mut rand_core::OsRng).to_bytes()
}

/// Relies on `ed25519_dalek::SigningKey::from_bytes` and `verifying_key`:
/// the public key is a function of the secret key alone.
#[verifier::external_body]
pub(crate) fn public_key_for(secret: &[u8; 32]) -> (r: [u8; 32])
    ensures
        r@ == public_key_of(secret@),
{
    ed25519_dalek::SigningKey::from_bytes(secret).verifying_key().to_bytes()
}

/// Relies on `<ed25519_dalek::SigningKey as Signer>::sign`: Ed25519 signing
/// is deterministic, and a signature it makes verifies under the key's own
/// public key.
#[verifier::external_body]
pub(crate) fn sign_message(secret: &[u8; 32], message: &[u8]) -> (r: [u8; 64])
    ensures
        r@ == signature_of(secret@, message@),
        signature_valid(public_key_of(secret@), message@, r@),
{
    let key = ed25519_dalek::SigningKey::from_bytes(secret);
    ed25519_dalek::Signer::sign(&key, message).to_bytes()
}

/// Relies on `ed25519_dalek::VerifyingKey::from_bytes` and
/// `<VerifyingKey as Verifier>::verify`: the answer depends on the key,
/// the message and the signature alone; a key that is not a curve point
/// verifies nothing.
#[verifier::external_body]
pub(crate) fn verify_message(public_key: &[u8; 32], message: &[u8], signature: &[u8; 64]) -> (r: bool)
    ensures
        r == signature_valid(public_key@, message@, signature@),
{
    let sig = ed25519_dalek::Signature::from_bytes(signature);
    match ed25519_dalek::VerifyingKey::from_bytes(public_key) {
        Ok(key) => ed25519_dalek::Verifier::verify(&key, message, &sig).is_ok(),
        Err(_) => false,
    }
}

} // verus!
