use vstd::prelude::*;

use crate::errors::Error;
use bitcoin::util::bip32::{DerivationPath, ExtendedPrivKey, ExtendedPubKey};
use std::str::FromStr;
use vstd::string::StringSliceAdditionalSpecFns;

verus! {

/// The longest phrase, in bytes, that the keyring accepts.  Real mnemonics
/// are at most 24 words (about 200 bytes); the bound leaves room for over
/// 500 words, and keeps the parser's checksum routine — which panics once a
/// phrase of wordlist words reaches about 750 of them — out of reach.
pub const MAX_PHRASE_BYTES: usize = 2048;

/// Whether a phrase is within the accepted length bound.
pub open spec fn spec_phrase_within_limit(words: &str) -> bool {
    words.spec_bytes().len() <= MAX_PHRASE_BYTES
}

/// Test the accepted length bound on a phrase.
pub fn phrase_within_limit(words: &str) -> (r: bool)
    ensures
        r == spec_phrase_within_limit(words),
{
    let bytes = words.as_bytes();
    bytes.len() <= MAX_PHRASE_BYTES
}

/// Whether bitcoin_wallet's BIP-39 parser accepts a phrase: the word count
/// is a positive multiple of six, every word is on the english wordlist, and
/// the embedded checksum matches.  Constrained only on phrases within the
/// length bound; longer ones are never handed to the parser.
pub uninterp spec fn spec_mnemonic_valid(words: Seq<char>) -> bool;

/// The 64-byte BIP-39 seed of a valid phrase with an empty passphrase
/// (PBKDF2-HMAC-SHA512, 2048 rounds), as bitcoin_wallet computes it.
pub uninterp spec fn spec_seed(words: Seq<char>) -> Seq<u8>;

/// Whether BIP-32 key derivation along `m/44'/118'/0'/0/0` succeeds on a
/// seed: every scalar met on the way is a valid secp256k1 secret key.  This
/// is a deterministic property of the seed bytes.
pub uninterp spec fn spec_seed_derivable(seed: Seq<u8>) -> bool;

/// The 32 raw bytes of the secret key that BIP-32 derivation along
/// `m/44'/118'/0'/0/0` yields from a seed, as the bitcoin crate computes it.
pub uninterp spec fn spec_derived_priv(seed: Seq<u8>) -> Seq<u8>;

/// The 33-byte compressed SEC1 encoding of the secp256k1 public key that
/// corresponds to a secret key's raw bytes.
pub uninterp spec fn spec_pub_of(sk: Seq<u8>) -> Seq<u8>;

/// Whether k256 accepts a byte sequence as a secp256k1 secret key: 24 to 32
/// bytes whose big-endian value (zero-padded to 32 bytes) is non-zero and
/// below the curve order.  The 32 raw bytes of a derived key always qualify.
pub uninterp spec fn spec_scalar_valid(sk: Seq<u8>) -> bool;

/// Relies on bitcoin_wallet::mnemonic::Mnemonic: `from_str` accepts a phrase
/// if and only if it passes wordlist and checksum validation, and `to_seed`
/// with an empty passphrase is the 64-byte PBKDF2-HMAC-SHA512 seed of the
/// phrase, a function of the phrase alone.  The length bound is demanded
/// because `from_str`'s checksum routine panics on a phrase of roughly 750
/// wordlist words or more (it reads one checksum bit per four payload bytes
/// from a 256-bit digest, and unwraps the read); every shorter phrase is
/// accepted or rejected without panicking.
#[verifier::external_body]
pub(crate) fn mnemonic_to_seed(mnemonic_words: &str) -> (r: Result<Vec<u8>, Error>)
    requires
        spec_phrase_within_limit(mnemonic_words),
    ensures
        r is Ok <==> spec_mnemonic_valid(mnemonic_words@),
        r matches Ok(seed) ==> seed@ == spec_seed(mnemonic_words@) && seed@.len() == 64,
        r matches Err(e) ==> e == Error::InvalidMnemonic,
{
    match bitcoin_wallet::mnemonic::Mnemonic::from_str(mnemonic_words) {
        Ok(m) => Ok(m.to_seed(Some("")).0),
        Err(_) => Err(Error::InvalidMnemonic),
    }
}

/// Relies on the bitcoin crate's BIP-32 implementation:
/// `ExtendedPrivKey::new_master` and `derive_priv` along the fixed path
/// `m/44'/118'/0'/0/0` (parsed by `DerivationPath::from_str`) are a
/// deterministic function of the seed, succeed exactly when every scalar met
/// on the way is a valid secp256k1 secret key, and yield a key whose raw
/// bytes `ExtendedPubKey::from_private` turns into the corresponding
/// 33-byte compressed public key.
#[verifier::external_body]
pub(crate) fn derive_keypair_from_seed(seed: &[u8]) -> (r: Result<(Vec<u8>, Vec<u8>), Error>)
    ensures
        r is Ok <==> spec_seed_derivable(seed@),
        r matches Ok(pair) ==> {
            &&& pair.0@ == spec_derived_priv(seed@)
            &&& pair.0@.len() == 32
            &&& spec_scalar_valid(pair.0@)
            &&& pair.1@ == spec_pub_of(pair.0@)
            &&& pair.1@.len() == 33
        },
        r matches Err(e) ==> e == Error::PrivateKey,
{
    let secp = bitcoin::secp256k1::Secp256k1::new();
    let path = DerivationPath::from_str("m/44'/118'/0'/0/0").map_err(|_| Error::PrivateKey)?;
    let master = ExtendedPrivKey::new_master(bitcoin::network::constants::Network::Bitcoin, seed)
        .map_err(|_| Error::PrivateKey)?;
    let account = master.derive_priv(&secp, &path).map_err(|_| Error::PrivateKey)?;
    let xpub = ExtendedPubKey::from_private(&secp, &account);
    Ok((account.private_key.to_bytes(), xpub.public_key.to_bytes()))
}

} // verus!
