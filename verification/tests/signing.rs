use keyring::ecdsa::verify;
use keyring::store::{signed_message_verifies, KeyRing, KeyRingOperations, StoreBackend};

const MNEMONIC: &str = "abandon abandon abandon abandon abandon abandon abandon abandon abandon abandon abandon about";

#[test]
fn signature_round_trip_verifies() {
    let mut ring = KeyRing::init(StoreBackend::Memory);
    let addr = ring.add_from_mnemonic(MNEMONIC).expect("valid mnemonic");
    let msg = b"an arbitrary payload".to_vec();
    let sig = ring.sign(addr.clone(), msg.clone()).expect("signing succeeds");
    let public_key = ring.get(addr.clone()).expect("stored").public_key.clone();
    assert!(verify(&public_key, &msg, &sig));

    assert_eq!(
        signed_message_verifies(&ring, addr, msg),
        Some(true)
    );
}

#[test]
fn signature_does_not_verify_under_wrong_inputs() {
    let mut ring = KeyRing::init(StoreBackend::Memory);
    let addr = ring.add_from_mnemonic(MNEMONIC).expect("valid mnemonic");
    let msg = b"an arbitrary payload".to_vec();
    let sig = ring.sign(addr.clone(), msg.clone()).expect("signing succeeds");
    let public_key = ring.get(addr).expect("stored").public_key.clone();

    // a different message does not verify
    assert!(!verify(&public_key, b"another payload", &sig));

    // a corrupted signature does not verify
    let mut bad = sig.clone();
    bad[10] ^= 0xff;
    assert!(!verify(&public_key, &msg, &bad));
}

#[test]
fn signature_is_compact_and_message_dependent() {
    let mut ring = KeyRing::init(StoreBackend::Memory);
    let addr = ring.add_from_mnemonic(MNEMONIC).expect("valid mnemonic");
    let sig1 = ring.sign(addr.clone(), b"first".to_vec()).expect("signing succeeds");
    let sig2 = ring.sign(addr.clone(), b"second".to_vec()).expect("signing succeeds");
    assert_eq!(sig1.len(), 64);
    assert_eq!(sig2.len(), 64);
    assert_ne!(sig1, sig2);

    // deterministic: the same message signs to the same bytes
    let sig1_again = ring.sign(addr, b"first".to_vec()).expect("signing succeeds");
    assert_eq!(sig1, sig1_again);
}
