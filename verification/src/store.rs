use vstd::prelude::*;

use crate::derivation::{
    derive_keypair_from_seed, mnemonic_to_seed, phrase_within_limit, spec_derived_priv,
    spec_mnemonic_valid, spec_phrase_within_limit, spec_pub_of, spec_scalar_valid, spec_seed,
    spec_seed_derivable,
};
use crate::ecdsa::{ecdsa_sign, spec_ecdsa_sign, spec_ecdsa_sign_ok, spec_ecdsa_verify, verify};
use crate::errors::Error;
use crate::hashes::{ripemd160_digest, sha256_digest, spec_ripemd160, spec_sha256};

verus! {

/// An account address: the 20-byte `RIPEMD160(SHA256(public key))` digest
/// under which a keypair is stored.
pub type Address = Vec<u8>;

/// A stored keypair: the 33-byte compressed SEC1 public key and the 32 raw
/// bytes of the corresponding secp256k1 secret key.  The private key is
/// sensitive: it never leaves the store except through `sign`, and the type
/// deliberately has no `Debug`, so the bytes cannot end up in log output.
pub struct KeyEntry {
    /// Public key
    pub public_key: Vec<u8>,
    /// Private key
    pub private_key: Vec<u8>,
}

/// The mathematical value of a stored keypair: both keys as byte sequences.
#[verifier::ext_equal]
pub struct KeyEntryView {
    pub public_key: Seq<u8>,
    pub private_key: Seq<u8>,
}

impl View for KeyEntry {
    type V = KeyEntryView;

    open spec fn view(&self) -> KeyEntryView {
        KeyEntryView { public_key: self.public_key@, private_key: self.private_key@ }
    }
}

/// Copy a byte vector.
fn clone_bytes(v: &Vec<u8>) -> (r: Vec<u8>)
    ensures
        r@ == v@,
{
    let mut r: Vec<u8> = Vec::new();
    let mut i: usize = 0;
    while i < v.len()
        invariant
            i <= v.len(),
            r@ == v@.take(i as int),
        decreases v.len() - i,
    {
        r.push(v[i]);
        proof {
            assert(v@.take(i + 1) =~= v@.take(i as int).push(v@[i as int]));
        }
        i += 1;
    }
    proof {
        assert(v@.take(v@.len() as int) =~= v@);
    }
    r
}

impl Clone for KeyEntry {
    /// Cloning keeps both keys byte for byte.
    fn clone(&self) -> (r: Self)
        ensures
            r@ == self@,
    {
        KeyEntry {
            public_key: clone_bytes(&self.public_key),
            private_key: clone_bytes(&self.private_key),
        }
    }
}

/// The address of a public key: `RIPEMD160(SHA256(pk))`.
pub open spec fn spec_address_of(pk: Seq<u8>) -> Seq<u8> {
    spec_ripemd160(spec_sha256(pk))
}

/// Whether derivation succeeds on a phrase: the phrase is a valid mnemonic
/// and its seed survives BIP-32 derivation.
pub open spec fn spec_derivation_ok(words: Seq<char>) -> bool {
    spec_mnemonic_valid(words) && spec_seed_derivable(spec_seed(words))
}

/// The keypair a valid phrase derives to.
pub open spec fn spec_derived_entry(words: Seq<char>) -> KeyEntryView {
    let sk = spec_derived_priv(spec_seed(words));
    KeyEntryView { public_key: spec_pub_of(sk), private_key: sk }
}

/// The address a valid phrase derives to.
pub open spec fn spec_derived_address(words: Seq<char>) -> Seq<u8> {
    spec_address_of(spec_derived_entry(words).public_key)
}

/// Return an address from a public key's bytes: SHA-256 first, RIPEMD-160
/// over the digest; the resulting 20 bytes are the address, with no further
/// encoding.
pub fn get_address(pk: &Vec<u8>) -> (r: Vec<u8>)
    ensures
        r@ == spec_address_of(pk@),
        r@.len() == 20,
{
    let sha = sha256_digest(pk.as_slice());
    ripemd160_digest(sha.as_slice())
}

/// No two stored pairs share an address.
pub open spec fn unique_keys(s: Seq<(Address, KeyEntry)>) -> bool {
    forall|i: int, j: int|
        0 <= i < s.len() && 0 <= j < s.len() && i != j ==> s[i].0@ != s[j].0@
}

/// The mapping a sequence of stored pairs represents; a later pair would
/// shadow an earlier one with the same address.
pub open spec fn entries_map(s: Seq<(Address, KeyEntry)>) -> Map<Seq<u8>, KeyEntryView>
    decreases s.len(),
{
    if s.len() == 0 {
        Map::empty()
    } else {
        entries_map(s.drop_last()).insert(s.last().0@, s.last().1@)
    }
}

proof fn lemma_unique_drop_last(s: Seq<(Address, KeyEntry)>)
    requires
        unique_keys(s),
        s.len() > 0,
    ensures
        unique_keys(s.drop_last()),
{
    assert forall|i: int, j: int|
        0 <= i < s.drop_last().len() && 0 <= j < s.drop_last().len() && i != j
        implies s.drop_last()[i].0@ != s.drop_last()[j].0@ by {
        assert(s.drop_last()[i] == s[i]);
        assert(s.drop_last()[j] == s[j]);
    }
}

proof fn lemma_entries_map_contains(s: Seq<(Address, KeyEntry)>, k: Seq<u8>)
    ensures
        entries_map(s).contains_key(k) <==> exists|i: int| 0 <= i < s.len() && s[i].0@ == k,
    decreases s.len(),
{
    if s.len() > 0 {
        lemma_entries_map_contains(s.drop_last(), k);
        if entries_map(s).contains_key(k) {
            if k == s.last().0@ {
                assert(s[s.len() - 1].0@ == k);
            } else {
                let i = choose|i: int| 0 <= i < s.drop_last().len() && s.drop_last()[i].0@ == k;
                assert(s[i].0@ == k);
            }
        }
        if exists|i: int| 0 <= i < s.len() && s[i].0@ == k {
            let i = choose|i: int| 0 <= i < s.len() && s[i].0@ == k;
            if i < s.len() - 1 {
                assert(s.drop_last()[i].0@ == k);
            }
        }
    }
}

proof fn lemma_entries_map_index(s: Seq<(Address, KeyEntry)>, i: int)
    requires
        unique_keys(s),
        0 <= i < s.len(),
    ensures
        entries_map(s).contains_key(s[i].0@),
        entries_map(s)[s[i].0@] == s[i].1@,
    decreases s.len(),
{
    if i < s.len() - 1 {
        lemma_unique_drop_last(s);
        lemma_entries_map_index(s.drop_last(), i);
        assert(s.drop_last()[i] == s[i]);
        assert(s.last().0@ != s[i].0@);
    }
}

proof fn lemma_entries_map_push(s: Seq<(Address, KeyEntry)>, p: (Address, KeyEntry))
    ensures
        entries_map(s.push(p)) == entries_map(s).insert(p.0@, p.1@),
{
    assert(s.push(p).drop_last() =~= s);
    assert(s.push(p).last() == p);
}

proof fn lemma_entries_map_remove(s: Seq<(Address, KeyEntry)>, i: int)
    requires
        unique_keys(s),
        0 <= i < s.len(),
    ensures
        entries_map(s.remove(i)) == entries_map(s).remove(s[i].0@),
    decreases s.len(),
{
    let k = s[i].0@;
    s.remove_ensures(i);
    if i == s.len() - 1 {
        assert(s.remove(i) =~= s.drop_last());
        lemma_unique_drop_last(s);
        lemma_entries_map_contains(s.drop_last(), k);
        assert forall|j: int| 0 <= j < s.drop_last().len() implies s.drop_last()[j].0@ != k by {
            assert(s.drop_last()[j] == s[j]);
        }
        assert(!entries_map(s.drop_last()).contains_key(k));
        assert(entries_map(s).remove(k) =~= entries_map(s.drop_last()));
    } else {
        let dl = s.drop_last();
        lemma_unique_drop_last(s);
        lemma_entries_map_remove(dl, i);
        assert(dl[i] == s[i]);
        assert(s.remove(i).drop_last() =~= dl.remove(i));
        assert(s.remove(i).last() == s.last());
        assert(entries_map(s.remove(i)) == entries_map(dl.remove(i)).insert(
            s.last().0@,
            s.last().1@,
        ));
        assert(s.last().0@ != k);
        assert(entries_map(dl).remove(k).insert(s.last().0@, s.last().1@) =~= entries_map(
            dl,
        ).insert(s.last().0@, s.last().1@).remove(k));
    }
}

proof fn lemma_unique_remove(s: Seq<(Address, KeyEntry)>, i: int)
    requires
        unique_keys(s),
        0 <= i < s.len(),
    ensures
        unique_keys(s.remove(i)),
        forall|j: int|
            0 <= j < s.remove(i).len() && s[i].0@ == s.remove(i)[j].0@ ==> false,
{
    s.remove_ensures(i);
    let r = s.remove(i);
    assert forall|a: int, b: int|
        0 <= a < r.len() && 0 <= b < r.len() && a != b implies r[a].0@ != r[b].0@ by {
        let a0 = if a < i { a } else { a + 1 };
        let b0 = if b < i { b } else { b + 1 };
        assert(r[a] == s[a0]);
        assert(r[b] == s[b0]);
    }
    assert forall|j: int| 0 <= j < r.len() implies s[i].0@ != r[j].0@ by {
        let j0 = if j < i { j } else { j + 1 };
        assert(r[j] == s[j0]);
    }
}

/// Compare two byte vectors for equality.
fn bytes_eq(a: &Vec<u8>, b: &Vec<u8>) -> (r: bool)
    ensures
        r <==> a@ == b@,
{
    if a.len() != b.len() {
        return false;
    }
    let mut i: usize = 0;
    while i < a.len()
        invariant
            i <= a.len(),
            a@.len() == b@.len(),
            forall|j: int| 0 <= j < i ==> a@[j] == b@[j],
        decreases a.len() - i,
    {
        if a[i] != b[i] {
            return false;
        }
        i += 1;
    }
    proof {
        assert(a@ =~= b@);
    }
    true
}

/// The position of an address among the stored pairs, if any.
fn find_index(store: &Vec<(Address, KeyEntry)>, addr: &Vec<u8>) -> (r: Option<usize>)
    ensures
        r matches Some(i) ==> i < store@.len() && store@[i as int].0@ == addr@,
        r is None ==> forall|j: int| 0 <= j < store@.len() ==> store@[j].0@ != addr@,
{
    let mut i: usize = 0;
    while i < store.len()
        invariant
            i <= store.len(),
            forall|j: int| 0 <= j < i ==> store@[j].0@ != addr@,
        decreases store.len() - i,
    {
        if bytes_eq(&store[i].0, addr) {
            return Some(i);
        }
        i += 1;
    }
    None
}

/// The key store: a mapping from account address to keypair, held in memory.
pub enum KeyRing {
    MemoryKeyStore { store: Vec<(Address, KeyEntry)> },
}

/// Which backing store a key ring is created over; only the in-memory
/// backend exists.
pub enum StoreBackend {
    Memory,
}

/// The mapping a key ring holds.
pub open spec fn keyring_map(r: KeyRing) -> Map<Seq<u8>, KeyEntryView> {
    match r {
        KeyRing::MemoryKeyStore { store } => entries_map(store@),
    }
}

/// Well-formedness of a key ring: no address is stored twice.
pub open spec fn keyring_wf(r: KeyRing) -> bool {
    match r {
        KeyRing::MemoryKeyStore { store } => unique_keys(store@),
    }
}

/// The operations of a key store.  The contracts speak of `key_map`, the
/// mapping from address bytes to keypairs that an implementation holds.
pub trait KeyRingOperations: Sized {
    /// The mapping from address to keypair this store holds.
    spec fn key_map(&self) -> Map<Seq<u8>, KeyEntryView>;

    /// The store's internal invariant.
    spec fn wf(&self) -> bool;

    /// Initialize a key store over the chosen backend; it starts empty.
    fn init(backend: StoreBackend) -> (r: KeyRing)
        ensures
            keyring_wf(r),
            keyring_map(r) == Map::<Seq<u8>, KeyEntryView>::empty(),
    ;

    /// Derive a keypair from a mnemonic phrase, store it under its address,
    /// and return the address.  `InvalidMnemonic` exactly when the phrase is
    /// over the length bound or fails validation, `PrivateKey` exactly when
    /// key construction fails; on failure the store is unchanged.
    fn add_from_mnemonic(&mut self, mnemonic_words: &str) -> (r: Result<Address, Error>)
        requires
            old(self).wf(),
        ensures
            final(self).wf(),
            r is Ok <==> (spec_phrase_within_limit(mnemonic_words) && spec_derivation_ok(
                mnemonic_words@,
            )),
            r matches Ok(addr) ==> addr@.len() == 20,
            r matches Ok(addr) ==> addr@ == spec_derived_address(mnemonic_words@)
                && final(self).key_map() == old(self).key_map().insert(
                spec_derived_address(mnemonic_words@),
                spec_derived_entry(mnemonic_words@),
            ),
            r is Ok ==> spec_scalar_valid(spec_derived_entry(mnemonic_words@).private_key),
            !spec_phrase_within_limit(mnemonic_words) ==> (r matches Err(e) && e
                == Error::InvalidMnemonic),
            spec_phrase_within_limit(mnemonic_words) && !spec_mnemonic_valid(mnemonic_words@)
                ==> (r matches Err(e) && e == Error::InvalidMnemonic),
            spec_phrase_within_limit(mnemonic_words) && spec_mnemonic_valid(mnemonic_words@)
                && !spec_seed_derivable(spec_seed(mnemonic_words@)) ==> (r matches Err(e) && e
                == Error::PrivateKey),
            r is Err ==> final(self).key_map() == old(self).key_map(),
    ;

    /// Return the entry stored at an address; `InvalidKey` exactly when the
    /// address is absent.
    fn get(&self, address: Vec<u8>) -> (r: Result<&KeyEntry, Error>)
        requires
            self.wf(),
        ensures
            self.key_map().contains_key(address@) ==> (r matches Ok(k) && k@
                == self.key_map()[address@]),
            !self.key_map().contains_key(address@) ==> (r matches Err(e) && e
                == Error::InvalidKey),
    ;

    /// Store an entry under an address, returning the entry previously held
    /// there, if any.  A second insert at the same address replaces the
    /// first.
    fn insert(&mut self, addr: Vec<u8>, key: KeyEntry) -> (r: Option<KeyEntry>)
        requires
            old(self).wf(),
        ensures
            final(self).wf(),
            final(self).key_map() == old(self).key_map().insert(addr@, key@),
            old(self).key_map().contains_key(addr@) ==> (r matches Some(k) && k@ == old(
                self,
            ).key_map()[addr@]),
            !old(self).key_map().contains_key(addr@) ==> r is None,
    ;

    /// Sign a message with the key stored at an address.  `InvalidKey`
    /// exactly when the address is absent; `PrivateKey` exactly when the
    /// stored bytes are not a valid secret key or the deterministic signer
    /// fails on this key and message.  Otherwise signing succeeds, and the
    /// signature is the deterministic compact ECDSA signature of the
    /// message, 64 bytes long, and verifies under the signer's public key.
    fn sign(&self, signer: Vec<u8>, msg: Vec<u8>) -> (r: Result<Vec<u8>, Error>)
        requires
            self.wf(),
        ensures
            !self.key_map().contains_key(signer@) ==> (r matches Err(e) && e
                == Error::InvalidKey),
            self.key_map().contains_key(signer@) ==> {
                let sk = self.key_map()[signer@].private_key;
                &&& (r is Ok <==> spec_scalar_valid(sk) && spec_ecdsa_sign_ok(sk, msg@))
                &&& (r matches Err(e) ==> e == Error::PrivateKey)
                &&& (r matches Ok(sig) ==> {
                    &&& sig@ == spec_ecdsa_sign(sk, msg@)
                    &&& sig@.len() == 64
                    &&& spec_ecdsa_verify(spec_pub_of(sk), msg@, sig@)
                })
            },
    ;
}

impl KeyRingOperations for KeyRing {
    open spec fn key_map(&self) -> Map<Seq<u8>, KeyEntryView> {
        keyring_map(*self)
    }

    open spec fn wf(&self) -> bool {
        keyring_wf(*self)
    }

    /// Initialize an in-memory key entry store.
    fn init(backend: StoreBackend) -> (r: KeyRing) {
        match backend {
            StoreBackend::Memory => {
                let store: Vec<(Address, KeyEntry)> = Vec::new();
                KeyRing::MemoryKeyStore { store }
            },
        }
    }

    /// Add a key entry in the store using a mnemonic.
    fn add_from_mnemonic(&mut self, mnemonic_words: &str) -> (r: Result<Address, Error>) {
        if !phrase_within_limit(mnemonic_words) {
            return Err(Error::InvalidMnemonic);
        }
        let seed = match mnemonic_to_seed(mnemonic_words) {
            Ok(s) => s,
            Err(e) => {
                return Err(e);
            },
        };
        let (sk, pk) = match derive_keypair_from_seed(seed.as_slice()) {
            Ok(p) => p,
            Err(e) => {
                return Err(e);
            },
        };
        let address = get_address(&pk);
        let key = KeyEntry { public_key: pk, private_key: sk };
        let addr_copy = clone_bytes(&address);
        self.insert(addr_copy, key);
        Ok(address)
    }

    /// Return a key entry stored at an address.
    fn get(&self, address: Vec<u8>) -> (r: Result<&KeyEntry, Error>) {
        match self {
            KeyRing::MemoryKeyStore { store } => {
                match find_index(store, &address) {
                    Some(i) => {
                        proof {
                            lemma_entries_map_index(store@, i as int);
                        }
                        Ok(&store[i].1)
                    },
                    None => {
                        proof {
                            lemma_entries_map_contains(store@, address@);
                        }
                        Err(Error::InvalidKey)
                    },
                }
            },
        }
    }

    /// Insert an entry in the key store.
    fn insert(&mut self, addr: Vec<u8>, key: KeyEntry) -> (r: Option<KeyEntry>) {
        match self {
            KeyRing::MemoryKeyStore { store } => {
                match find_index(store, &addr) {
                    Some(i) => {
                        proof {
                            lemma_entries_map_index(store@, i as int);
                            lemma_entries_map_remove(store@, i as int);
                            lemma_unique_remove(store@, i as int);
                        }
                        let ghost s_before = store@;
                        let previous = store.remove(i);
                        proof {
                            lemma_entries_map_push(store@, (addr, key));
                        }
                        store.push((addr, key));
                        proof {
                            let ghost s_after = store@;
                            assert(entries_map(s_after) =~= entries_map(s_before).insert(
                                addr@,
                                key@,
                            ));
                            assert forall|a: int, b: int|
                                0 <= a < s_after.len() && 0 <= b < s_after.len() && a != b
                                implies s_after[a].0@ != s_after[b].0@ by {
                                if a < s_after.len() - 1 && b < s_after.len() - 1 {
                                    assert(s_after[a] == s_before.remove(i as int)[a]);
                                    assert(s_after[b] == s_before.remove(i as int)[b]);
                                } else if a == s_after.len() - 1 {
                                    assert(s_after[b] == s_before.remove(i as int)[b]);
                                    assert(s_before.remove(i as int)[b].0@ != s_before[i as int].0@);
                                } else {
                                    assert(s_after[a] == s_before.remove(i as int)[a]);
                                    assert(s_before.remove(i as int)[a].0@ != s_before[i as int].0@);
                                }
                            }
                        }
                        Some(previous.1)
                    },
                    None => {
                        proof {
                            lemma_entries_map_contains(store@, addr@);
                            lemma_entries_map_push(store@, (addr, key));
                        }
                        let ghost s_before = store@;
                        store.push((addr, key));
                        proof {
                            let ghost s_after = store@;
                            assert forall|a: int, b: int|
                                0 <= a < s_after.len() && 0 <= b < s_after.len() && a != b
                                implies s_after[a].0@ != s_after[b].0@ by {
                                if a < s_after.len() - 1 && b < s_after.len() - 1 {
                                    assert(s_after[a] == s_before[a]);
                                    assert(s_after[b] == s_before[b]);
                                }
                            }
                        }
                        None
                    },
                }
            },
        }
    }

    /// Sign a message with the key stored at an address.
    fn sign(&self, signer: Vec<u8>, msg: Vec<u8>) -> (r: Result<Vec<u8>, Error>) {
        let key = match self.get(signer) {
            Ok(k) => k,
            Err(e) => {
                return Err(e);
            },
        };
        ecdsa_sign(key.private_key.as_slice(), msg.as_slice())
    }
}

/// Determinism law: a successful `add_from_mnemonic` stores, at an address
/// that is a function of the phrase alone, an entry that is a function of
/// the phrase alone; two stores fed the same phrase therefore hold the same
/// entry at the same address, whatever else they hold.
pub proof fn lemma_add_from_mnemonic_deterministic(
    m1: Map<Seq<u8>, KeyEntryView>,
    m2: Map<Seq<u8>, KeyEntryView>,
    words: Seq<char>,
)
    ensures
        m1.insert(spec_derived_address(words), spec_derived_entry(words)).contains_key(
            spec_derived_address(words),
        ),
        m1.insert(spec_derived_address(words), spec_derived_entry(words))[spec_derived_address(
            words,
        )] == m2.insert(spec_derived_address(words), spec_derived_entry(words))[
            spec_derived_address(words)],
{
}

/// Overwrite law: inserting a second entry at an address already present
/// replaces the first; a lookup afterwards yields the second entry, and the
/// store is as if the first insert had never happened.
pub proof fn lemma_insert_overwrites(
    m: Map<Seq<u8>, KeyEntryView>,
    addr: Seq<u8>,
    first: KeyEntryView,
    second: KeyEntryView,
)
    ensures
        m.insert(addr, first).insert(addr, second)[addr] == second,
        m.insert(addr, first).insert(addr, second) == m.insert(addr, second),
{
    assert(m.insert(addr, first).insert(addr, second) =~= m.insert(addr, second));
}

/// Round-trip law: the message is signed with the key stored at `signer` and
/// the signature checked against the stored public key.  The answer exists
/// exactly when the address is present and signing succeeds; it is then the
/// verification result of the stored public key, the message and that
/// signature; and when the stored keypair matches — as every entry from
/// `add_from_mnemonic` does — the answer is `Some(true)`.
pub fn signed_message_verifies(ring: &KeyRing, signer: Address, msg: Vec<u8>) -> (ok: Option<bool>)
    requires
        keyring_wf(*ring),
    ensures
        ({
            let km = keyring_map(*ring);
            &&& (ok is None <==> !(km.contains_key(signer@) && spec_scalar_valid(
                km[signer@].private_key,
            ) && spec_ecdsa_sign_ok(km[signer@].private_key, msg@)))
            &&& (ok matches Some(b) ==> b == spec_ecdsa_verify(
                km[signer@].public_key,
                msg@,
                spec_ecdsa_sign(km[signer@].private_key, msg@),
            ))
            &&& ((km.contains_key(signer@) && km[signer@].public_key == spec_pub_of(
                km[signer@].private_key,
            ) && spec_scalar_valid(km[signer@].private_key) && spec_ecdsa_sign_ok(
                km[signer@].private_key,
                msg@,
            )) ==> ok == Some(true))
        }),
{
    let msg_copy = clone_bytes(&msg);
    let public_key = match ring.get(clone_bytes(&signer)) {
        Ok(entry) => clone_bytes(&entry.public_key),
        Err(_) => {
            return None;
        },
    };
    let signature = match ring.sign(signer, msg) {
        Ok(s) => s,
        Err(_) => {
            return None;
        },
    };
    Some(verify(public_key.as_slice(), msg_copy.as_slice(), signature.as_slice()))
}

} // verus!
