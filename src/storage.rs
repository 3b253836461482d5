use vstd::prelude::*;

use crate::block::{tx_views, Block, Header};

verus! {

/// The backend refused to persist a block.
#[derive(Debug, Clone, Copy, PartialEq, Eq, Structural)]
pub struct StorageError {}

/// An append-only store of accepted blocks.
pub trait Storage {
    /// Headers of the blocks stored so far, in order.
    spec fn stored(&self) -> Seq<Header>;

    /// Whether the backend takes `b` in its current state.
    spec fn accepts(&self, b: Block) -> bool;

    fn put(&mut self, b: &Block) -> (r: Result<(), StorageError>)
        ensures
            r is Ok <==> old(self).accepts(*b),
            r is Ok ==> final(self).stored() == old(self).stored().push(b.header),
            r is Err ==> final(self).stored() == old(self).stored(),
    ;
}

/// Keeps copies of the stored blocks in memory; never refuses one.
pub struct MemoryStore {
    blocks: Vec<Block>,
}

impl MemoryStore {
    pub fn new() -> (r: MemoryStore)
        ensures
            r.stored() == Seq::<Header>::empty(),
    {
        MemoryStore { blocks: Vec::new() }
    }
}

impl Storage for MemoryStore {
    closed spec fn stored(&self) -> Seq<Header> {
        self.blocks@.map_values(|b: Block| b.header)
    }

    open spec fn accepts(&self, b: Block) -> bool {
        true
    }

    fn put(&mut self, b: &Block) -> (r: Result<(), StorageError>) {
        self.blocks.push(b.copy());
        assert(self.blocks@.map_values(|x: Block| x.header) =~= old(self).blocks@.map_values(
            |x: Block| x.header,
        ).push(b.header));
        Ok(())
    }
}

} // verus!
