use ledger_core::block::{Block, Header};
use ledger_core::blockchain::{Blockchain, ChainError};
use ledger_core::keypair::{PrivateKey, VerifyError};
use ledger_core::storage::MemoryStore;
use ledger_core::validator::{BlockValidator, ValidationError};

fn new_blockchain_with_genesis() -> Blockchain {
    let bc = Blockchain::new(&mut Block::random_block(0));
    assert!(bc.is_ok());
    bc.unwrap()
}

#[test]
fn test_add_block() {
    let mut bc = new_blockchain_with_genesis();

    let len = 1000;
    for i in 1..len + 1 {
        let mut rand = Block::random_block_with_signature(i);
        assert!(bc.add_block(&mut rand).is_ok());
    }
}

#[test]
fn unsigned_genesis_is_accepted() {
    let mut genesis = Block::random_block(0);
    assert!(genesis.signature.is_none());
    let bc = Blockchain::new(&mut genesis).unwrap();
    assert_eq!(bc.height(), 0);
    assert!(genesis.hash.is_some());
    assert!(bc.get_header(0).unwrap() == genesis.header);
    assert!(bc.get_header(1).is_none());
    assert!(bc.has_block(0).is_ok());
    assert!(bc.has_block(1).is_err());
}

#[test]
fn height_zero_after_genesis_is_duplicate() {
    let mut bc = new_blockchain_with_genesis();
    let mut b = Block::random_block_with_signature(0);
    assert_eq!(
        bc.add_block(&mut b),
        Err(ChainError::Validation(ValidationError::DuplicateHeight))
    );
    assert_eq!(bc.height(), 0);
}

#[test]
fn tip_grows_by_one_or_not_at_all() {
    let mut bc = new_blockchain_with_genesis();
    let mut b1 = Block::random_block_with_signature(1);
    assert!(bc.add_block(&mut b1).is_ok());
    assert_eq!(bc.height(), 1);

    let mut unsigned = Block::random_block(2);
    assert_eq!(
        bc.add_block(&mut unsigned),
        Err(ChainError::Validation(ValidationError::Verify(VerifyError::MissingSignature)))
    );
    assert_eq!(bc.height(), 1);

    let mut tampered = Block::random_block_with_signature(2);
    tampered.header.timestamp += 1;
    assert_eq!(
        bc.add_block(&mut tampered),
        Err(ChainError::Validation(ValidationError::Verify(VerifyError::InvalidSignature)))
    );
    assert_eq!(bc.height(), 1);

    let mut b2 = Block::random_block_with_signature(2);
    assert!(bc.add_block(&mut b2).is_ok());
    assert_eq!(bc.height(), 2);
    assert!(bc.get_header(2).unwrap() == b2.header);
}

#[test]
fn second_block_at_same_height_is_rejected() {
    let mut bc = new_blockchain_with_genesis();
    let mut first = Block::random_block_with_signature(1);
    let mut second = Block::random_block_with_signature(1);
    assert!(bc.add_block(&mut first).is_ok());
    assert_eq!(
        bc.add_block(&mut second),
        Err(ChainError::Validation(ValidationError::DuplicateHeight))
    );
    assert_eq!(bc.height(), 1);
}

#[test]
fn header_lookup_past_tip_is_none() {
    let bc = new_blockchain_with_genesis();
    assert!(bc.get_header(u32::MAX).is_none());
    let h: Header = bc.get_header(0).unwrap();
    assert_eq!(h.height, 0);
}

#[test]
fn chain_from_chosen_parts() {
    let mut genesis = Block::random_block(0);
    let mut bc: Blockchain<MemoryStore, BlockValidator> =
        Blockchain::with_parts(MemoryStore::new(), BlockValidator::new_validator(), &mut genesis)
            .unwrap();
    bc.set_validator(BlockValidator::new_validator());
    let mut b = Block::random_block_with_signature(1);
    assert!(bc.add_block(&mut b).is_ok());
    assert!(b.hash.is_some());
    assert_eq!(bc.height(), 1);
}
