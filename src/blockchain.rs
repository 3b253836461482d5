use vstd::prelude::*;

use crate::block::{tx_views, Block, Header};
use crate::hasher::Hasher;
use crate::storage::{MemoryStore, Storage, StorageError};
use crate::validator::{BlockValidator, ValidationError, Validator};

verus! {

/// Why `add_block` did not append.
#[derive(Debug, Clone, Copy, PartialEq, Eq, Structural)]
pub enum ChainError {
    Validation(ValidationError),
    Storage(StorageError),
}

/// `b` after `add_block`: only the memoized hash may have changed.
pub open spec fn same_block_but_hash(b: Block, old_b: Block) -> bool {
    &&& b.header == old_b.header
    &&& tx_views(b.transactions@) == tx_views(old_b.transactions@)
    &&& b.signature == old_b.signature
    &&& b.validator == old_b.validator
    &&& b.prev_hash == old_b.prev_hash
}

/// The canonical chain: one header per height from the genesis block on, the store of the
/// accepted blocks, and the admission rule, both chosen when the chain is made. Mutation takes
/// `&mut self`, so validating a block and appending it happen in one exclusive step.
pub struct Blockchain<S: Storage = MemoryStore, V: Validator = BlockValidator> {
    headers: Vec<Header>,
    store: S,
    validator: V,
}

impl Blockchain<MemoryStore, BlockValidator> {
    /// A chain with an in-memory store and the single-validator rule, holding the genesis
    /// block, which is admitted without validation.
    pub fn new(genesis: &mut Block) -> (r: Result<Blockchain, ()>)
        ensures
            r matches Ok(bc) && bc.wf() && bc.headers() == seq![old(genesis).header],
            same_block_but_hash(*final(genesis), *old(genesis)),
            final(genesis).hash is Some,
    {
        match Blockchain::with_parts(MemoryStore::new(), BlockValidator::new_validator(), genesis) {
            Ok(bc) => Ok(bc),
            Err(_) => Err(()),
        }
    }
}

impl<S: Storage, V: Validator> Blockchain<S, V> {
    /// At least the genesis header, every height fits in `u32`, and the store holds exactly
    /// the blocks whose headers the chain lists.
    pub closed spec fn wf(&self) -> bool {
        &&& 1 <= self.headers@.len() <= u32::MAX as int + 1
        &&& self.store.stored() == self.headers@
    }

    /// The headers, index equal to height.
    pub closed spec fn headers(&self) -> Seq<Header> {
        self.headers@
    }

    /// The store of accepted blocks.
    pub closed spec fn store(&self) -> S {
        self.store
    }

    /// The admission rule.
    pub closed spec fn rule(&self) -> V {
        self.validator
    }

    /// Height of the tip: the number of headers less one.
    pub open spec fn tip(&self) -> int {
        self.headers().len() - 1
    }

    /// A chain over an empty `store` with the admission rule `validator`, holding the genesis
    /// block, which is admitted without validation; fails only if the store refuses it.
    pub fn with_parts(store: S, validator: V, genesis: &mut Block) -> (r: Result<
        Blockchain<S, V>,
        StorageError,
    >)
        requires
            store.stored() == Seq::<Header>::empty(),
        ensures
            same_block_but_hash(*final(genesis), *old(genesis)),
            final(genesis).hash is Some,
            r is Ok <==> store.accepts(*final(genesis)),
            r matches Ok(bc) ==> bc.wf() && bc.headers() == seq![old(genesis).header] && bc.rule()
                == validator,
    {
        let _ = genesis.hash(Hasher::new());
        let mut store = store;
        match store.put(genesis) {
            Ok(()) => {},
            Err(e) => {
                return Err(e);
            },
        }
        let mut headers: Vec<Header> = Vec::new();
        headers.push(genesis.header);
        assert(store.stored() =~= headers@);
        Ok(Blockchain { headers, store, validator })
    }

    /// Replaces the admission rule for blocks offered from now on.
    pub fn set_validator(&mut self, v: V)
        requires
            old(self).wf(),
        ensures
            final(self).wf(),
            final(self).headers() == old(self).headers(),
            final(self).store() == old(self).store(),
            final(self).rule() == v,
    {
        self.validator = v;
    }

    /// Validates `b` against the current tip and, only if it passes and the store takes it,
    /// stores it and appends its header.
    pub fn add_block(&mut self, b: &mut Block) -> (r: Result<(), ChainError>)
        requires
            old(self).wf(),
        ensures
            final(self).wf(),
            final(self).rule() == old(self).rule(),
            same_block_but_hash(*final(b), *old(b)),
            r is Ok ==> final(b).hash is Some,
            match old(self).rule().decision(old(self).tip(), *old(b)) {
                Err(e) => r == Err::<(), ChainError>(ChainError::Validation(e)) && final(self).headers()
                    == old(self).headers() && final(self).store() == old(self).store(),
                Ok(()) => (r is Ok <==> old(self).store().accepts(*final(b))) && (r is Ok
                    ==> final(self).headers() == old(self).headers().push(old(b).header)) && (r is Err
                    ==> (r matches Err(ChainError::Storage(_))) && final(self).headers() == old(
                    self,
                ).headers()),
            },
    {
        match self.validator.validate_block(self.height(), b) {
            Ok(()) => {},
            Err(e) => {
                return Err(ChainError::Validation(e));
            },
        }
        self.add_block_without_validation(b)
    }

    /// Stores `b` and appends its header without checking it; if the store refuses it
    /// nothing is appended.
    pub fn add_block_without_validation(&mut self, b: &mut Block) -> (r: Result<(), ChainError>)
        requires
            old(self).wf(),
            old(self).tip() < u32::MAX,
        ensures
            final(self).wf(),
            final(self).rule() == old(self).rule(),
            same_block_but_hash(*final(b), *old(b)),
            final(b).hash is Some,
            r is Ok <==> old(self).store().accepts(*final(b)),
            r is Ok ==> final(self).headers() == old(self).headers().push(old(b).header),
            r is Err ==> (r matches Err(ChainError::Storage(_))) && final(self).headers() == old(
                self,
            ).headers(),
    {
        let _ = b.hash(Hasher::new());
        match self.store.put(b) {
            Ok(()) => {},
            Err(e) => {
                return Err(ChainError::Storage(e));
            },
        }
        self.headers.push(b.header);
        Ok(())
    }

    /// The header at `h`, or `None` past the tip.
    pub fn get_header(&self, h: u32) -> (r: Option<Header>)
        requires
            self.wf(),
        ensures
            h <= self.tip() ==> r == Some(self.headers()[h as int]),
            h > self.tip() ==> r is None,
    {
        if (h as usize) < self.headers.len() {
            Some(self.headers[h as usize])
        } else {
            None
        }
    }

    /// `Ok` when the chain holds a block at height `h`.
    pub fn has_block(&self, h: u32) -> (r: Result<(), ()>)
        requires
            self.wf(),
        ensures
            r is Ok <==> h <= self.tip(),
    {
        if h <= self.height() {
            Ok(())
        } else {
            Err(())
        }
    }

    /// Height of the tip.
    pub fn height(&self) -> (r: u32)
        requires
            self.wf(),
        ensures
            r == self.tip(),
    {
        (self.headers.len() - 1) as u32
    }
}

} // verus!
