use ledger_core::hasher::Hasher;
use ledger_core::keypair::{PrivateKey, VerifyError};
use ledger_core::transaction::Transaction;

#[test]
fn test_sign_transaction() {
    let key = PrivateKey::generate_key();
    let mut tx = Transaction {
        data: br#"foo"#.to_vec(),
        key: None,
        signature: None,
        hash: None,
        seen: None,
    };

    assert!(tx.sign(&key).is_ok());
    assert!(tx.key.is_some());
    assert!(tx.signature.is_some());
}

#[test]
fn test_verify_transaction() {
    let key = PrivateKey::generate_key();
    let mut tx = Transaction {
        data: br#"foo"#.to_vec(),
        key: None,
        signature: None,
        hash: None,
        seen: None,
    };

    assert!(tx.sign(&key).is_ok());
    assert!(tx.verify().is_ok());

    let old_key = tx.key;
    tx.key = Some(PrivateKey::generate_key().generate_public());

    assert!(tx.verify().is_err());

    tx.key = old_key;
    tx.data = br#"Hello World!"#.to_vec();

    assert!(tx.verify().is_err());
}

#[test]
fn unsigned_transaction_is_missing_signature() {
    let mut tx = Transaction::new(b"foo".to_vec()).unwrap();
    assert_eq!(tx.verify(), Err(VerifyError::MissingSignature));
    let key = PrivateKey::generate_key();
    tx.key = Some(key.generate_public());
    assert_eq!(tx.verify(), Err(VerifyError::MissingSignature));
}

#[test]
fn mutated_payload_fails_with_signature_mismatch() {
    let key_a = PrivateKey::generate_key();
    let mut tx = Transaction::new(b"transfer 5".to_vec()).unwrap();
    tx.sign(&key_a).unwrap();
    tx.data = b"transfer 500".to_vec();
    assert_eq!(tx.verify(), Err(VerifyError::InvalidSignature));
}

#[test]
fn resigning_replaces_signature_and_key() {
    let a = PrivateKey::generate_key();
    let b = PrivateKey::generate_key();
    let mut tx = Transaction::new(b"foo".to_vec()).unwrap();
    tx.sign(&a).unwrap();
    tx.sign(&b).unwrap();
    assert_eq!(tx.key.unwrap().key, b.generate_public().key);
    assert!(tx.verify().is_ok());
}

#[test]
fn transaction_hash_is_memoized() {
    let mut tx = Transaction::new(b"abc".to_vec()).unwrap();
    let first = tx.hash(Hasher::new());
    assert!(tx.hash.is_some());
    tx.data = b"changed".to_vec();
    let second = tx.hash(Hasher::new());
    assert!(first == second);
    assert_eq!(
        first.to_string(),
        "ba7816bf8f01cfea414140de5dae2223b00361a396177a9cb410ff61f20015ad"
    );
}

#[test]
fn seen_last_write_wins() {
    let mut tx = Transaction::new(vec![]).unwrap();
    assert_eq!(tx.seen(), None);
    tx.set_seen(3);
    tx.set_seen(-7);
    assert_eq!(tx.seen(), Some(-7));
}
