use vstd::prelude::*;

use crate::derivation::{spec_pub_of, spec_scalar_valid};
use crate::errors::Error;
use k256::ecdsa::signature::{Signer, Verifier};

verus! {

/// The 64-byte compact (R parallel S) ECDSA signature that k256's
/// deterministic RFC 6979 signer produces over a message with a secret key.
pub uninterp spec fn spec_ecdsa_sign(sk: Seq<u8>, msg: Seq<u8>) -> Seq<u8>;

/// Whether k256's verifier accepts a compact signature over a message under
/// a SEC1-encoded public key; false when the key or signature bytes do not
/// parse.  A deterministic function of the three byte sequences.
pub uninterp spec fn spec_ecdsa_verify(pk: Seq<u8>, msg: Seq<u8>, sig: Seq<u8>) -> bool;

/// Whether k256's deterministic RFC 6979 signer succeeds on a secret key and
/// message: it fails only when the derived nonce or a signature scalar comes
/// out zero, which is a function of the two arguments alone.
pub uninterp spec fn spec_ecdsa_sign_ok(sk: Seq<u8>, msg: Seq<u8>) -> bool;

/// Relies on k256::ecdsa::SigningKey: `from_slice` accepts exactly the byte
/// strings whose value is a valid secret scalar, and `try_sign` is the
/// deterministic RFC 6979 ECDSA signer over SHA-256, which fails only on a
/// zero nonce or a zero signature scalar — a deterministic function of key
/// and message — and whose 64-byte compact output verifies under the
/// signer's own public key.
#[verifier::external_body]
pub(crate) fn ecdsa_sign(sk: &[u8], msg: &[u8]) -> (r: Result<Vec<u8>, Error>)
    ensures
        r is Ok <==> (spec_scalar_valid(sk@) && spec_ecdsa_sign_ok(sk@, msg@)),
        r matches Ok(sig) ==> {
            &&& sig@ == spec_ecdsa_sign(sk@, msg@)
            &&& sig@.len() == 64
            &&& spec_ecdsa_verify(spec_pub_of(sk@), msg@, sig@)
        },
        r matches Err(e) ==> e == Error::PrivateKey,
{
    let key = k256::ecdsa::SigningKey::from_slice(sk).map_err(|_| Error::PrivateKey)?;
    let sig: k256::ecdsa::Signature = key.try_sign(msg).map_err(|_| Error::PrivateKey)?;
    Ok(sig.to_bytes().to_vec())
}

/// Relies on k256::ecdsa::VerifyingKey: `from_sec1_bytes`,
/// `Signature::from_slice` and `verify` together decide, deterministically,
/// whether the signature is a valid ECDSA signature over the message under
/// the public key.
#[verifier::external_body]
pub(crate) fn ecdsa_verify(pk: &[u8], msg: &[u8], sig: &[u8]) -> (r: bool)
    ensures
        r == spec_ecdsa_verify(pk@, msg@, sig@),
{
    let vk = match k256::ecdsa::VerifyingKey::from_sec1_bytes(pk) {
        Ok(k) => k,
        Err(_) => return false,
    };
    let s = match k256::ecdsa::Signature::from_slice(sig) {
        Ok(s) => s,
        Err(_) => return false,
    };
    vk.verify(msg, &s).is_ok()
}

/// Check a compact ECDSA signature over a message against a SEC1-encoded
/// public key.
pub fn verify(public_key: &[u8], msg: &[u8], signature: &[u8]) -> (r: bool)
    ensures
        r == spec_ecdsa_verify(public_key@, msg@, signature@),
{
    ecdsa_verify(public_key, msg, signature)
}

} // verus!
