use ledger_core::block::{Block, Header};
use ledger_core::encoding::{Decode, Decoder, Encode, Encoder};
use ledger_core::hash::LengthError;
use ledger_core::hasher::{Bytes, Hasher};
use ledger_core::keypair::{PrivateKey, VerifyError};
use ledger_core::transaction::Transaction;

fn fixed_header(height: u32) -> Header {
    Header {
        version: 1,
        data: ledger_core::hash::Hash([0x11u8; 32]),
        prev_block: ledger_core::hash::Hash([0x22u8; 32]),
        timestamp: -2,
        height,
    }
}

#[test]
fn test_sign_block() {
    let key = PrivateKey::generate_key();
    let mut b = Block::random_block(0);
    assert!(b.sign(key).is_ok());
    assert!(b.signature.is_some());
}

#[test]
fn test_verify_block() {
    let key = PrivateKey::generate_key();
    let mut b = Block::random_block(0);
    assert!(b.sign(key).is_ok());
    println!("{:?}", b);
    assert!(b.verify().is_ok());

    let other_key = PrivateKey::generate_key();
    let old_validator = b.validator;
    b.validator = Some(other_key.generate_public());
    assert!(b.verify().is_err());
    b.validator = old_validator;
    b.header.height = 100;

    assert!(b.verify().is_err());
}

#[test]
fn header_encoding_is_little_endian() {
    let bytes = fixed_header(0x0102_0304).as_bytes();
    assert_eq!(bytes.len(), 80);
    assert_eq!(&bytes[0..4], &[1, 0, 0, 0]);
    assert_eq!(&bytes[4..36], &[0x11u8; 32][..]);
    assert_eq!(&bytes[36..68], &[0x22u8; 32][..]);
    assert_eq!(&bytes[68..76], &[0xfe, 0xff, 0xff, 0xff, 0xff, 0xff, 0xff, 0xff]);
    assert_eq!(&bytes[76..80], &[4, 3, 2, 1]);
}

#[test]
fn equal_headers_hash_equal() {
    let mut a = Block::new(fixed_header(7), vec![]);
    let mut b = Block::new(fixed_header(7), vec![Transaction::new(b"x".to_vec()).unwrap()]);
    let ha = a.hash(Hasher::new());
    let hb = b.hash(Hasher::new());
    assert!(ha == hb);
    assert!(a.hash(Hasher::new()) == ha);
    let mut c = Block::new(fixed_header(8), vec![]);
    assert!(c.hash(Hasher::new()) != ha);
    assert!(!ha.is_zero());
}

#[test]
fn block_hash_is_memoized() {
    let mut b = Block::new(fixed_header(1), vec![]);
    let first = b.hash(Hasher::new());
    b.header.height = 2;
    assert!(b.hash(Hasher::new()) == first);
}

#[test]
fn unsigned_block_is_missing_signature() {
    let b = Block::random_block(3);
    assert_eq!(b.verify(), Err(VerifyError::MissingSignature));
}

#[test]
fn block_with_invalid_transaction_is_rejected() {
    let tx_key = PrivateKey::generate_key();
    let mut good = Transaction::new(b"good".to_vec()).unwrap();
    good.sign(&tx_key).unwrap();
    let unsigned = Transaction::new(b"bad".to_vec()).unwrap();
    let mut b = Block::new(fixed_header(1), vec![]);
    b.add_transaction(&good).unwrap();
    b.add_transaction(&good).unwrap();
    b.add_transaction(&unsigned).unwrap();
    assert_eq!(b.transactions.len(), 3);
    b.sign(PrivateKey::generate_key()).unwrap();
    assert_eq!(b.verify(), Err(VerifyError::InvalidTransaction { index: 2 }));
    b.transactions.pop();
    assert!(b.verify().is_ok());
}

#[test]
fn signed_random_block_verifies() {
    let b = Block::random_block_with_signature(4);
    assert_eq!(b.header.height, 4);
    assert_eq!(b.header.version, 1);
    assert!(b.verify().is_ok());
}

#[test]
fn header_decodes_to_what_was_encoded() {
    let h = fixed_header(42);
    let mut enc = Encoder::new();
    enc.encode(&h);
    enc.encode(&ledger_core::hash::Hash([5u8; 32]));
    let bytes = enc.into_bytes();
    assert_eq!(bytes.len(), 112);
    let mut dec = Decoder::new(bytes);
    let back: Result<Header, LengthError> = dec.decode();
    assert!(back.unwrap() == h);
    let short: Result<Header, LengthError> = dec.decode();
    assert_eq!(short.unwrap_err(), LengthError { expected: 80, actual: 32 });
    let tail: Result<ledger_core::hash::Hash, LengthError> = dec.decode();
    assert!(tail.unwrap() == ledger_core::hash::Hash([5u8; 32]));
    let empty: Result<ledger_core::hash::Hash, LengthError> = dec.decode();
    assert_eq!(empty.unwrap_err(), LengthError { expected: 32, actual: 0 });
}
