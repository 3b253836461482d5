use vstd::prelude::*;

use crate::encoding::{le_i64, le_u32, put_i64_le, put_u32_le};
use crate::hasher::{sha256_of, Bytes, Hasher};
use crate::keypair::{
    public_point_of, signature_of, signature_valid, signing_succeeds, PrivateKey, PublicKey, SignError, Signature,
    VerifyError,
};
use crate::transaction::{tx_verification, Transaction, TransactionView};

verus! {

/// Block metadata: its position in the chain and its link to the previous block.
#[derive(Debug, Clone, Copy)]
pub struct Header {
    pub version: u32,
    pub data: crate::hash::Hash,
    pub prev_block: crate::hash::Hash,
    pub timestamp: i64,
    pub height: u32,
}

impl PartialEq for Header {
    fn eq(&self, o: &Header) -> (r: bool) {
        self.version == o.version && self.data == o.data && self.prev_block == o.prev_block
            && self.timestamp == o.timestamp && self.height == o.height
    }
}

impl vstd::std_specs::cmp::PartialEqSpecImpl for Header {
    open spec fn obeys_eq_spec() -> bool {
        true
    }

    open spec fn eq_spec(&self, o: &Header) -> bool {
        &&& self.version == o.version
        &&& self.data@ == o.data@
        &&& self.prev_block@ == o.prev_block@
        &&& self.timestamp == o.timestamp
        &&& self.height == o.height
    }
}

impl Bytes for Header {
    /// Canonical little-endian encoding: version, data commitment, previous block,
    /// timestamp, height; 80 bytes.
    open spec fn encoding(&self) -> Seq<u8> {
        le_u32(self.version) + self.data@ + self.prev_block@ + le_i64(self.timestamp) + le_u32(
            self.height,
        )
    }

    fn as_bytes(&self) -> (r: Vec<u8>) {
        let mut out: Vec<u8> = Vec::new();
        put_u32_le(&mut out, self.version);
        self.data.encode_binary(&mut out);
        self.prev_block.encode_binary(&mut out);
        put_i64_le(&mut out, self.timestamp);
        put_u32_le(&mut out, self.height);
        assert(out@ =~= self.encoding());
        out
    }
}

/// Headers with equal field values have equal identity hashes: the hash is the digest of the
/// canonical encoding, and the encoding depends on the field values alone.
pub proof fn lemma_header_hash_deterministic(a: Header, b: Header)
    requires
        a.version == b.version,
        a.data@ == b.data@,
        a.prev_block@ == b.prev_block@,
        a.timestamp == b.timestamp,
        a.height == b.height,
    ensures
        a.encoding() == b.encoding(),
        sha256_of(a.encoding()) == sha256_of(b.encoding()),
{
}

/// Relies on chrono::Utc::now: the current time in whole seconds since the Unix epoch;
/// nothing is promised of its value.
#[verifier::external_body]
fn now_timestamp() -> (r: i64) {
    chrono::Utc::now().timestamp()
}

/// Index of the first transaction that does not verify, if any.
pub open spec fn first_invalid(txs: Seq<TransactionView>) -> Option<int>
    decreases txs.len(),
{
    if txs.len() == 0 {
        None
    } else {
        match first_invalid(txs.drop_last()) {
            Some(i) => Some(i),
            None => if tx_verification(txs.last()) is Err {
                Some(txs.len() - 1)
            } else {
                None
            },
        }
    }
}

/// Views of a list of transactions.
pub open spec fn tx_views(txs: Seq<Transaction>) -> Seq<TransactionView> {
    txs.map_values(|t: Transaction| t@)
}

/// The outcome of checking a block: its signature over the header encoding, then every
/// transaction.
pub open spec fn block_verification(
    header: Header,
    txs: Seq<TransactionView>,
    signature: Option<Signature>,
    validator: Option<PublicKey>,
) -> Result<(), VerifyError> {
    match (signature, validator) {
        (Some(s), Some(v)) => if !signature_valid(v@, header.encoding(), s@) {
            Err(VerifyError::InvalidSignature)
        } else {
            match first_invalid(txs) {
                Some(i) => Err(VerifyError::InvalidTransaction { index: i as usize }),
                None => Ok(()),
            }
        },
        _ => Err(VerifyError::MissingSignature),
    }
}

/// A header with its transactions, the validator's signature over the header, and a
/// memoized identity hash.
#[derive(Debug, Clone)]
pub struct Block {
    pub header: Header,
    pub transactions: Vec<Transaction>,
    pub signature: Option<Signature>,
    pub validator: Option<PublicKey>,
    /// Memoized hash of the header encoding.
    pub hash: Option<crate::hash::Hash>,
    pub prev_hash: Option<crate::hash::Hash>,
}

impl Block {
    pub open spec fn verification(&self) -> Result<(), VerifyError> {
        block_verification(
            self.header,
            tx_views(self.transactions@),
            self.signature,
            self.validator,
        )
    }

    /// A copy with the same header, signature, key, memo and transaction values.
    pub fn copy(&self) -> (r: Block)
        ensures
            r.header == self.header,
            tx_views(r.transactions@) == tx_views(self.transactions@),
            r.signature == self.signature,
            r.validator == self.validator,
            r.hash == self.hash,
            r.prev_hash == self.prev_hash,
    {
        let mut txs: Vec<Transaction> = Vec::new();
        let mut i: usize = 0;
        while i < self.transactions.len()
            invariant
                i <= self.transactions@.len(),
                txs@.len() == i,
                forall|k: int| 0 <= k < i ==> txs@[k]@ == self.transactions@[k]@,
            decreases self.transactions@.len() - i,
        {
            txs.push(self.transactions[i].copy());
            i += 1;
        }
        assert(tx_views(txs@) =~= tx_views(self.transactions@));
        Block {
            header: self.header,
            transactions: txs,
            signature: self.signature,
            validator: self.validator,
            hash: self.hash,
            prev_hash: self.prev_hash,
        }
    }

    /// The stored signature checks out under the stored key over the header encoding.
    pub open spec fn signature_checks(&self) -> bool {
        match (self.signature, self.validator) {
            (Some(s), Some(v)) => signature_valid(v@, self.header.encoding(), s@),
            _ => false,
        }
    }

    /// An unsigned, unhashed block.
    pub fn new(header: Header, transactions: Vec<Transaction>) -> (r: Block)
        ensures
            r.header == header,
            r.transactions@ == transactions@,
            r.signature is None,
            r.validator is None,
            r.hash is None,
            r.prev_hash is None,
    {
        Block { header, transactions, hash: None, signature: None, validator: None, prev_hash: None }
    }

    pub fn add_transaction(&mut self, t: &Transaction) -> (r: Result<(), ()>)
        ensures
            r is Ok,
            tx_views(final(self).transactions@) == tx_views(old(self).transactions@).push(t@),
            final(self).header == old(self).header,
            final(self).signature == old(self).signature,
            final(self).validator == old(self).validator,
            final(self).hash == old(self).hash,
            final(self).prev_hash == old(self).prev_hash,
    {
        self.transactions.push(t.copy());
        assert(tx_views(self.transactions@) =~= tx_views(old(self).transactions@).push(t@));
        Ok(())
    }

    /// An unsigned block at height `h` with random commitments and the current time.
    pub fn random_block(h: u32) -> (r: Block)
        ensures
            r.header.version == 1,
            r.header.height == h,
            r.transactions@.len() == 0,
            r.signature is None,
            r.validator is None,
            r.hash is None,
            r.prev_hash is None,
    {
        let header = Header {
            version: 1,
            data: crate::hash::Hash::random(),
            prev_block: crate::hash::Hash::random(),
            timestamp: now_timestamp(),
            height: h,
        };
        Block::new(header, Vec::new())
    }

    /// A random block at height `h`, signed by a fresh key.
    pub fn random_block_with_signature(h: u32) -> (r: Block)
        ensures
            r.header.version == 1,
            r.header.height == h,
            r.transactions@.len() == 0,
            r.signature is Some ==> r.verification() is Ok,
    {
        let key = PrivateKey::generate_key();
        let mut b = Self::random_block(h);
        let _ = b.sign(key);
        assert(first_invalid(tx_views(b.transactions@)) is None) by {
            assert(tx_views(b.transactions@).len() == 0);
        }
        b
    }

    /// The identity hash: the digest of the header encoding, computed on the first call and
    /// then returned from the memo unchanged.
    pub fn hash(&mut self, hasher: Hasher) -> (r: crate::hash::Hash)
        ensures
            old(self).hash matches Some(h) ==> r == h,
            old(self).hash is None ==> r@ == sha256_of(old(self).header.encoding()),
            final(self).hash == Some(r),
            final(self).header == old(self).header,
            final(self).transactions@ == old(self).transactions@,
            final(self).signature == old(self).signature,
            final(self).validator == old(self).validator,
            final(self).prev_hash == old(self).prev_hash,
    {
        match self.hash {
            Some(h) => h,
            None => {
                let h = hasher.hash(&self.header).unwrap();
                self.hash = Some(h);
                h
            },
        }
    }

    /// Signs the header encoding and records the signer's public key; on failure nothing
    /// changes.
    pub fn sign(&mut self, key: PrivateKey) -> (r: Result<(), SignError>)
        ensures
            final(self).header == old(self).header,
            final(self).transactions@ == old(self).transactions@,
            final(self).hash == old(self).hash,
            final(self).prev_hash == old(self).prev_hash,
            r is Ok <==> signing_succeeds(key.secret(), old(self).header.encoding()),
            r is Ok ==> final(self).signature_checks(),
            r is Err ==> final(self).signature == old(self).signature && final(self).validator
                == old(self).validator,
            r is Ok ==> (final(self).signature matches Some(s) && s@ == signature_of(
                key.secret(),
                old(self).header.encoding(),
            )),
            r is Ok ==> (final(self).validator matches Some(v) && v@ == public_point_of(
                key.secret(),
            )),
            r is Ok ==> (first_invalid(tx_views(old(self).transactions@)) is None
                <==> final(self).verification() is Ok),
    {
        let bytes = self.header.as_bytes();
        match key.sign(bytes.as_slice()) {
            Ok(s) => {
                self.signature = Some(s);
                self.validator = Some(key.generate_public());
                Ok(())
            },
            Err(e) => Err(e),
        }
    }

    /// Checks the signature over the header, then every transaction; the first failure found
    /// is returned.
    pub fn verify(&self) -> (r: Result<(), VerifyError>)
        ensures
            r == self.verification(),
    {
        let (s, v) = match (self.signature, self.validator) {
            (Some(s), Some(v)) => (s, v),
            _ => {
                return Err(VerifyError::MissingSignature);
            },
        };
        let bytes = self.header.as_bytes();
        if v.verify(bytes.as_slice(), &s).is_err() {
            return Err(VerifyError::InvalidSignature);
        }
        let ghost txs = tx_views(self.transactions@);
        let mut i: usize = 0;
        while i < self.transactions.len()
            invariant
                i <= self.transactions@.len(),
                txs == tx_views(self.transactions@),
                self.signature == Some(s),
                self.validator == Some(v),
                signature_valid(v@, self.header.encoding(), s@),
                first_invalid(txs.take(i as int)) is None,
            decreases self.transactions@.len() - i,
        {
            let ghost prefix = txs.take(i as int + 1);
            assert(prefix.drop_last() =~= txs.take(i as int));
            assert(prefix.last() == self.transactions@[i as int]@);
            if self.transactions[i].verify().is_err() {
                assert(first_invalid(prefix) == Some(i as int));
                assert(first_invalid(txs) == Some(i as int)) by {
                    lemma_first_invalid_prefix(txs, i as int + 1);
                }
                return Err(VerifyError::InvalidTransaction { index: i });
            }
            i += 1;
        }
        assert(txs.take(i as int) =~= txs);
        Ok(())
    }
}

/// A failure found in a prefix is the first failure of the whole list.
proof fn lemma_first_invalid_prefix(txs: Seq<TransactionView>, n: int)
    requires
        0 <= n <= txs.len(),
        first_invalid(txs.take(n)) is Some,
    ensures
        first_invalid(txs) == first_invalid(txs.take(n)),
    decreases txs.len() - n,
{
    if n < txs.len() {
        assert(txs.take(n + 1).drop_last() =~= txs.take(n));
        lemma_first_invalid_prefix(txs, n + 1);
    } else {
        assert(txs.take(n) =~= txs);
    }
}

} // verus!
