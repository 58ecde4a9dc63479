use keyring::errors::Error;
use keyring::store::{get_address, KeyEntry, KeyRing, KeyRingOperations, StoreBackend};

const MNEMONIC: &str = "abandon abandon abandon abandon abandon abandon abandon abandon abandon abandon abandon about";

const OTHER_MNEMONIC: &str = "legal winner thank year wave sausage worth useful legal winner thank yellow";

fn hex(bytes: &[u8]) -> String {
    let mut s = String::new();
    for b in bytes {
        s.push_str(&format!("{:02x}", b));
    }
    s
}

#[test]
fn add_from_mnemonic_is_deterministic() {
    let mut ring1 = KeyRing::init(StoreBackend::Memory);
    let mut ring2 = KeyRing::init(StoreBackend::Memory);
    let addr1 = ring1.add_from_mnemonic(MNEMONIC).expect("valid mnemonic");
    let addr2 = ring2.add_from_mnemonic(MNEMONIC).expect("valid mnemonic");
    assert_eq!(addr1, addr2);
    let e1 = ring1.get(addr1.clone()).expect("stored");
    let e2 = ring2.get(addr2).expect("stored");
    assert_eq!(e1.public_key, e2.public_key);
    assert_eq!(e1.private_key, e2.private_key);
}

#[test]
fn different_mnemonics_give_different_addresses() {
    let mut ring = KeyRing::init(StoreBackend::Memory);
    let addr1 = ring.add_from_mnemonic(MNEMONIC).expect("valid mnemonic");
    let addr2 = ring.add_from_mnemonic(OTHER_MNEMONIC).expect("valid mnemonic");
    assert_ne!(addr1, addr2);
}

#[test]
fn unknown_address_get_returns_invalid_key() {
    let ring = KeyRing::init(StoreBackend::Memory);
    let r = ring.get(vec![0u8; 20]);
    assert!(matches!(r, Err(Error::InvalidKey)));
}

#[test]
fn unknown_address_sign_returns_invalid_key() {
    let ring = KeyRing::init(StoreBackend::Memory);
    let r = ring.sign(vec![0u8; 20], b"payload".to_vec());
    assert!(matches!(r, Err(Error::InvalidKey)));
}

#[test]
fn invalid_mnemonic_is_rejected_and_store_unchanged() {
    let mut ring = KeyRing::init(StoreBackend::Memory);
    let addr = ring.add_from_mnemonic(MNEMONIC).expect("valid mnemonic");

    // wrong word count
    let r = ring.add_from_mnemonic("hello world");
    assert!(matches!(r, Err(Error::InvalidMnemonic)));

    // corrupted checksum: twelve times the same word
    let r = ring.add_from_mnemonic(
        "abandon abandon abandon abandon abandon abandon abandon abandon abandon abandon abandon abandon",
    );
    assert!(matches!(r, Err(Error::InvalidMnemonic)));

    // an unknown word
    let r = ring.add_from_mnemonic(
        "abandon abandon abandon abandon abandon abandon abandon abandon abandon abandon abandon zzzzzz",
    );
    assert!(matches!(r, Err(Error::InvalidMnemonic)));

    // the earlier entry is still there, nothing else appeared
    assert!(ring.get(addr).is_ok());
    assert!(matches!(ring.get(vec![1u8; 20]), Err(Error::InvalidKey)));
}

#[test]
fn overlong_phrase_is_rejected_not_panicking() {
    let mut ring = KeyRing::init(StoreBackend::Memory);
    // 750 wordlist words: over the length bound; must surface an error,
    // never abort
    let phrase = "abandon ".repeat(750).trim_end().to_string();
    let r = ring.add_from_mnemonic(&phrase);
    assert!(matches!(r, Err(Error::InvalidMnemonic)));
}

#[test]
fn insert_overwrites_previous_entry() {
    let mut ring = KeyRing::init(StoreBackend::Memory);
    let addr = ring.add_from_mnemonic(MNEMONIC).expect("valid mnemonic");
    let original_pk = ring.get(addr.clone()).expect("stored").public_key.clone();

    let replacement = KeyEntry {
        public_key: vec![1u8, 2, 3],
        private_key: vec![4u8, 5, 6],
    };
    let previous = ring.insert(addr.clone(), replacement).expect("address was present");
    assert_eq!(previous.public_key, original_pk);

    let entry = ring.get(addr.clone()).expect("stored");
    assert_eq!(entry.public_key, vec![1u8, 2, 3]);
    assert_eq!(entry.private_key, vec![4u8, 5, 6]);

    // inserting at a fresh address returns nothing
    let fresh = KeyEntry { public_key: vec![9u8], private_key: vec![8u8] };
    assert!(ring.insert(vec![7u8; 20], fresh).is_none());
}

#[test]
fn known_vector_address_and_public_key() {
    let mut ring = KeyRing::init(StoreBackend::Memory);
    let addr = ring.add_from_mnemonic(MNEMONIC).expect("valid mnemonic");
    assert_eq!(addr.len(), 20);
    let entry = ring.get(addr.clone()).expect("stored");
    assert_eq!(entry.public_key.len(), 33);
    assert_eq!(entry.private_key.len(), 32);
    assert_eq!(
        hex(&entry.public_key),
        "024f4e2ad99c34d60b9ba6283c9431a8418af8673212961f97a77b6377fcd05b62"
    );
    assert_eq!(hex(&addr), "28ff5c6d57d8cfd492b6fb42614536ed648e01fd");
}

#[test]
fn address_pipeline_known_vector() {
    let addr = get_address(&Vec::new());
    assert_eq!(addr.len(), 20);
    assert_eq!(hex(&addr), "b472a266d0bd89c13706a4132ccfb16f7c3b9fcb");
}
