//! Trusted boundary to the outside cryptography crates.
//!
//! Every function here only converts between plain byte values and the
//! outside crates' types and makes one outside call; what the call
//! returns is named by an uninterpreted spec function where it is a pure
//! function of the arguments.

use blake2::Digest;
use vstd::prelude::*;

verus! {

/// The 32-byte BLAKE2b digest of the input bytes. The digest depends on
/// the input bytes alone.
pub uninterp spec fn blake2b_256_of(data: Seq<u8>) -> Seq<u8>;

/// Relies on blake2's `Blake2b256`: the unkeyed BLAKE2b hash with a
/// 32-byte digest, a pure function of the input bytes.
#[verifier::external_body]
pub fn blake2b_256(data: &[u8]) -> (digest: [u8; 32])
    ensures
        digest@ == blake2b_256_of(data@),
{
    let mut hasher = blake2::Blake2b256::new();
    hasher.update(data);
    hasher.finalize().into()
}

/// Whether `sig` is a valid sr25519 signature on `msg` under the public
/// key `pk`. Verification is deterministic in its three inputs.
pub uninterp spec fn sr25519_verified(pk: Seq<u8>, msg: Seq<u8>, sig: Seq<u8>) -> bool;

/// Relies on sp_core::sr25519::Pair::verify (via the sp_core::crypto::Pair
/// trait): schnorrkel signature verification, deterministic in the
/// public key, message and signature.
#[verifier::external_body]
pub fn sr25519_verify(pk: &[u8; 32], msg: &[u8], sig: &[u8; 64]) -> (r: bool)
    ensures
        r == sr25519_verified(pk@, msg@, sig@),
{
    let public = sp_core::sr25519::Public::from_raw(*pk);
    let signature = sp_core::sr25519::Signature::from_raw(*sig);
    <sp_core::sr25519::Pair as sp_core::crypto::Pair>::verify(&signature, msg, &public)
}

/// The sr25519 public key derived from a 32-byte mini-secret seed; a pure
/// function of the seed.
pub uninterp spec fn sr25519_public_of(seed: Seq<u8>) -> Seq<u8>;

/// Relies on sp_core::sr25519::Pair::from_seed and Pair::public: the
/// public key of the keypair expanded from a mini-secret seed, a pure
/// function of the seed.
#[verifier::external_body]
pub fn sr25519_public(seed: &[u8; 32]) -> (pk: [u8; 32])
    ensures
        pk@ == sr25519_public_of(seed@),
{
    let pair = <sp_core::sr25519::Pair as sp_core::crypto::Pair>::from_seed(seed);
    <sp_core::sr25519::Pair as sp_core::crypto::Pair>::public(&pair).to_raw()
}

/// Relies on sp_core::sr25519::Pair::from_seed and Pair::sign. The
/// signature is randomized, so its bytes are not a function of the
/// arguments; what holds of every outcome is that the produced
/// signature verifies, under the keypair's public key, over exactly the
/// signed message (Pair::verify's documented round trip with sign).
#[verifier::external_body]
pub fn sr25519_sign(seed: &[u8; 32], msg: &[u8]) -> (sig: [u8; 64])
    ensures
        sr25519_verified(sr25519_public_of(seed@), msg@, sig@),
{
    let pair = <sp_core::sr25519::Pair as sp_core::crypto::Pair>::from_seed(seed);
    <sp_core::sr25519::Pair as sp_core::crypto::Pair>::sign(&pair, msg).to_raw()
}

/// Whether `sig` is a valid ed25519 signature on `msg` under the public
/// key `pk`. Verification is deterministic in its three inputs.
pub uninterp spec fn ed25519_verified(pk: Seq<u8>, msg: Seq<u8>, sig: Seq<u8>) -> bool;

/// Relies on sp_core::ed25519::Pair::verify (via the sp_core::crypto::Pair
/// trait): ed25519 signature verification, deterministic in the public
/// key, message and signature.
#[verifier::external_body]
pub fn ed25519_verify(pk: &[u8; 32], msg: &[u8], sig: &[u8; 64]) -> (r: bool)
    ensures
        r == ed25519_verified(pk@, msg@, sig@),
{
    let public = sp_core::ed25519::Public::from_raw(*pk);
    let signature = sp_core::ed25519::Signature::from_raw(*sig);
    <sp_core::ed25519::Pair as sp_core::crypto::Pair>::verify(&signature, msg, &public)
}

} // verus!
