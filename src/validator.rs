use vstd::prelude::*;

use crate::block::Block;
use crate::keypair::VerifyError;

verus! {

/// Why a block was not admitted to the chain.
#[derive(Debug, Clone, Copy, PartialEq, Eq, Structural)]
pub enum ValidationError {
    /// The chain already holds a block at or above this height.
    DuplicateHeight,
    /// The block's own check failed.
    Verify(VerifyError),
}

/// The admission rule: the height must lie above the tip, and the block must verify.
pub open spec fn admission(tip: int, b: Block) -> Result<(), ValidationError> {
    if b.header.height <= tip {
        Err(ValidationError::DuplicateHeight)
    } else {
        match b.verification() {
            Ok(()) => Ok(()),
            Err(e) => Err(ValidationError::Verify(e)),
        }
    }
}

/// Decides whether a candidate block may extend a chain whose tip is at height `tip`. Every
/// rule admits only blocks above the tip: a chain grows forward and never replaces a height.
pub trait Validator {
    spec fn decision(&self, tip: int, b: Block) -> Result<(), ValidationError>;

    fn validate_block(&self, tip: u32, b: &Block) -> (r: Result<(), ValidationError>)
        ensures
            r == self.decision(tip as int, *b),
            r is Ok ==> b.header.height > tip,
    ;
}

/// The single-validator rule of this chain; holds no state.
#[derive(Debug, Clone, Copy)]
pub struct BlockValidator {}

impl BlockValidator {
    pub fn new_validator() -> BlockValidator {
        BlockValidator {}
    }
}

impl Validator for BlockValidator {
    open spec fn decision(&self, tip: int, b: Block) -> Result<(), ValidationError> {
        admission(tip, b)
    }

    fn validate_block(&self, tip: u32, b: &Block) -> (r: Result<(), ValidationError>) {
        if b.header.height <= tip {
            return Err(ValidationError::DuplicateHeight);
        }
        match b.verify() {
            Ok(()) => Ok(()),
            Err(e) => Err(ValidationError::Verify(e)),
        }
    }
}

/// Of two blocks at one height offered in turn, at most one is admitted: once the first is
/// appended the tip has reached its height. This holds where that height is at most one above
/// the tip; a block further above is admitted at the next position, and a second one at its
/// height is admitted after it.
pub proof fn lemma_one_block_per_height(tip: int, b1: Block, b2: Block)
    requires
        b1.header.height == b2.header.height,
        b1.header.height <= tip + 1,
        admission(tip, b1) is Ok,
    ensures
        admission(tip + 1, b2) == Err::<(), ValidationError>(ValidationError::DuplicateHeight),
{
}

} // verus!
