use ledger_core::address::Address;
use ledger_core::encoding::{Encode, Encoder};
use ledger_core::hash::LengthError;
use ledger_core::hasher::Hasher;
use ledger_core::transaction::Transaction;

#[test]
fn hash_from_bytes_checks_length() {
    let ok = ledger_core::hash::Hash::from_bytes(&[7u8; 32]).unwrap();
    assert_eq!(ok.to_vec(), vec![7u8; 32]);
    assert_eq!(
        ledger_core::hash::Hash::from_bytes(&[7u8; 31]),
        Err(LengthError { expected: 32, actual: 31 })
    );
    assert_eq!(
        ledger_core::hash::Hash::from_bytes(&[7u8; 33]),
        Err(LengthError { expected: 32, actual: 33 })
    );
    assert!(ledger_core::hash::Hash::from_bytes(&[]).is_err());
}

#[test]
fn address_from_bytes_checks_length() {
    let a = Address::from_bytes(&[0xabu8; 20]).unwrap();
    assert_eq!(a.to_string(), "ab".repeat(20));
    assert_eq!(
        Address::from_bytes(&[1u8; 32]),
        Err(LengthError { expected: 20, actual: 32 })
    );
}

#[test]
fn zero_hash_and_hex() {
    let z = ledger_core::hash::Hash::default();
    assert!(z.is_zero());
    assert_eq!(z.to_string(), "0".repeat(64));
    let mut bytes = [0u8; 32];
    bytes[0] = 0x0f;
    bytes[31] = 0xa0;
    let h = ledger_core::hash::Hash(bytes);
    assert!(!h.is_zero());
    let s = h.to_string();
    assert!(s.starts_with("0f00"));
    assert!(s.ends_with("00a0"));
    assert!(h != z);
    assert!(h == ledger_core::hash::Hash(bytes));
}

#[test]
fn hash_binary_round_trip() {
    let h = ledger_core::hash::Hash([9u8; 32]);
    let mut out = vec![1u8, 2];
    h.encode_binary(&mut out);
    assert_eq!(out.len(), 34);
    assert_eq!(&out[2..], &[9u8; 32][..]);
    let back = ledger_core::hash::Hash::decode_binary(&out[2..]).unwrap();
    assert!(back == h);
    assert_eq!(
        ledger_core::hash::Hash::decode_binary(&out[..10]),
        Err(LengthError { expected: 32, actual: 10 })
    );
}

#[test]
fn random_hashes_differ() {
    let a = ledger_core::hash::Hash::random();
    let b = ledger_core::hash::Hash::random();
    assert!(a != b);
}

#[test]
fn transaction_hash_is_sha256_of_payload() {
    let tx = Transaction::new(b"abc".to_vec()).unwrap();
    let h = Hasher::new().hash(&tx).unwrap();
    assert_eq!(
        h.to_string(),
        "ba7816bf8f01cfea414140de5dae2223b00361a396177a9cb410ff61f20015ad"
    );
}

#[test]
fn encoder_collects_encodings() {
    let mut tx = Transaction::new(b"xy".to_vec()).unwrap();
    tx.set_seen(5);
    let mut enc = Encoder::new();
    enc.encode(&tx);
    enc.encode(&tx);
    assert_eq!(enc.into_bytes(), b"xyxy".to_vec());
}
