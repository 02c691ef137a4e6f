//! Hashing and signature checks, done by the `blake2` and `schnorrkel`
//! crates.
//!
//! The verifier cannot look into either crate. Each result that the token
//! depends on therefore has a name: a function of the bytes handed in, about
//! which nothing more is claimed than that the call below computes it.

use blake2::digest::consts::U32;
use blake2::{Blake2b, Digest};
use schnorrkel::{PublicKey, Signature};
use vstd::prelude::*;

verus! {

/// The BLAKE2b digest of `data` with a 32-byte output.
pub uninterp spec fn blake2b_256(data: Seq<u8>) -> Seq<u8>;

/// Whether 64 bytes are accepted as an sr25519 signature by
/// `schnorrkel::Signature::from_bytes`.
pub uninterp spec fn sr25519_signature_parses(signature: Seq<u8>) -> bool;

/// Whether 32 bytes are accepted as an sr25519 public key by
/// `schnorrkel::PublicKey::from_bytes`.
pub uninterp spec fn sr25519_public_key_parses(key: Seq<u8>) -> bool;

/// Whether `signature` is a signature by `key` on `message` in the signing
/// context `context`, as `schnorrkel::PublicKey::verify_simple` decides it.
/// False where key or signature do not parse.
pub uninterp spec fn sr25519_verifies(
    key: Seq<u8>,
    context: Seq<u8>,
    message: Seq<u8>,
    signature: Seq<u8>,
) -> bool;

/// Calls `Digest::digest` of `blake2::Blake2b<U32>`: the digest is a function
/// of the bytes alone, named `blake2b_256`.
#[verifier::external_body]
pub(crate) fn blake2b_256_digest(data: &[u8]) -> (digest: [u8; 32])
    ensures
        digest@ == blake2b_256(data@),
{
    Blake2b::<U32>::digest(data).into()
}

/// Calls `schnorrkel::Signature::from_bytes` and reports whether it returned
/// a signature.
#[verifier::external_body]
pub(crate) fn signature_parses(signature: &[u8; 64]) -> (ok: bool)
    ensures
        ok == sr25519_signature_parses(signature@),
{
    Signature::from_bytes(signature).is_ok()
}

/// Calls `schnorrkel::PublicKey::from_bytes` and reports whether it returned
/// a key.
#[verifier::external_body]
pub(crate) fn public_key_parses(key: &[u8; 32]) -> (ok: bool)
    ensures
        ok == sr25519_public_key_parses(key@),
{
    PublicKey::from_bytes(key).is_ok()
}

/// Calls `schnorrkel::PublicKey::verify_simple` on the parsed key and
/// signature and reports whether it accepted. The signing transcript takes
/// no context longer than 32 bits can count, and panics on one; such a
/// context is left out.
#[verifier::external_body]
pub(crate) fn signature_verifies(
    key: &[u8; 32],
    context: &[u8],
    message: &[u8; 32],
    signature: &[u8; 64],
) -> (ok: bool)
    requires
        context@.len() <= u32::MAX,
    ensures
        ok == sr25519_verifies(key@, context@, message@, signature@),
{
    match (PublicKey::from_bytes(key), Signature::from_bytes(signature)) {
        (Ok(key), Ok(signature)) => key.verify_simple(context, message, &signature).is_ok(),
        _ => false,
    }
}

} // verus!
