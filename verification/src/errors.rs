use vstd::prelude::*;

verus! {

/// The error kinds the keyring can surface.
///
/// `InvalidMnemonic`: the phrase failed wordlist or checksum validation.
/// `PrivateKey`: master or derived key construction failed.
/// `InvalidKey`: a lookup by address found nothing; recoverable.
#[derive(Clone, Copy, Debug, PartialEq, Eq, Structural)]
pub enum Error {
    InvalidMnemonic,
    PrivateKey,
    InvalidKey,
}

} // verus!
