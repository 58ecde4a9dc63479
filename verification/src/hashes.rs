use vstd::prelude::*;

use crypto::digest::Digest;

verus! {

/// The SHA-256 digest of a byte sequence, as rust-crypto computes it.
pub uninterp spec fn spec_sha256(data: Seq<u8>) -> Seq<u8>;

/// The RIPEMD-160 digest of a byte sequence, as rust-crypto computes it.
pub uninterp spec fn spec_ripemd160(data: Seq<u8>) -> Seq<u8>;

/// Relies on crypto::sha2::Sha256: the digest is a function of the input
/// alone and is always 32 bytes long.
#[verifier::external_body]
pub(crate) fn sha256_digest(data: &[u8]) -> (r: Vec<u8>)
    ensures
        r@ == spec_sha256(data@),
        r@.len() == 32,
{
    let mut h = crypto::sha2::Sha256::new();
    h.input(data);
    let mut out = vec![0u8; h.output_bytes()];
    h.result(&mut out);
    out
}

/// Relies on crypto::ripemd160::Ripemd160: the digest is a function of the
/// input alone and is always 20 bytes long.
#[verifier::external_body]
pub(crate) fn ripemd160_digest(data: &[u8]) -> (r: Vec<u8>)
    ensures
        r@ == spec_ripemd160(data@),
        r@.len() == 20,
{
    let mut h = crypto::ripemd160::Ripemd160::new();
    h.input(data);
    let mut out = vec![0u8; h.output_bytes()];
    h.result(&mut out);
    out
}

} // verus!
