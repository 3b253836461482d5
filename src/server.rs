use vstd::prelude::*;

use crate::block::{tx_views, Block, Header};
use crate::blockchain::{Blockchain, ChainError};
use crate::hasher::{sha256, sha256_of, Bytes, Hasher};
use crate::encoding::{le_i64, le_u32};
use crate::keypair::{public_point_of, signing_succeeds, PrivateKey, SignError, VerifyError};
use crate::transaction::{tx_verification, Transaction, TransactionView};
use crate::txpool::{has_key, identity, sorted_by_seen, stored_form, TxPool};

verus! {

broadcast use vstd::seq_lib::group_to_multiset_ensures;

/// Admits an inbound transaction to the pool: it must verify, and one already held under the
/// same identity hash is left as it is.
pub fn handle_transaction(pool: &mut TxPool, tx: &Transaction) -> (r: Result<(), VerifyError>)
    requires
        old(pool).wf(),
    ensures
        final(pool).wf(),
        r == tx_verification(tx@),
        r is Err ==> final(pool).entries() == old(pool).entries(),
        r is Ok && has_key(old(pool).entries(), identity(tx@)) ==> final(pool).entries() == old(
            pool,
        ).entries(),
        r is Ok && !has_key(old(pool).entries(), identity(tx@)) ==> final(pool).entries().len()
            == old(pool).entries().len() + 1 && final(pool).entries().drop_last() == old(
            pool,
        ).entries() && stored_form(final(pool).entries().last(), tx@),
{
    match tx.verify() {
        Ok(()) => {},
        Err(e) => {
            return Err(e);
        },
    }
    let mut staged = tx.copy();
    let hash = staged.hash(Hasher::new());
    if pool.has(&hash) {
        return Ok(());
    }
    let _ = pool.add(staged);
    Ok(())
}

/// The payloads of a list of transactions, one after another.
pub open spec fn payloads(s: Seq<TransactionView>) -> Seq<u8>
    decreases s.len(),
{
    if s.len() == 0 {
        Seq::empty()
    } else {
        payloads(s.drop_last()) + s.last().data
    }
}

fn concat_payloads(txs: &Vec<Transaction>) -> (r: Vec<u8>)
    ensures
        r@ == payloads(tx_views(txs@)),
{
    let mut out: Vec<u8> = Vec::new();
    let mut i: usize = 0;
    while i < txs.len()
        invariant
            i <= txs@.len(),
            out@ == payloads(tx_views(txs@).take(i as int)),
        decreases txs@.len() - i,
    {
        let mut d = txs[i].data.clone();
        out.append(&mut d);
        i += 1;
        assert(tx_views(txs@).take(i as int).drop_last() =~= tx_views(txs@).take(i as int - 1));
    }
    assert(tx_views(txs@).take(i as int) =~= tx_views(txs@));
    out
}

/// Why no block was produced.
#[derive(Debug, Clone, Copy, PartialEq, Eq, Structural)]
pub enum ProduceError {
    /// The tip is at the largest height there is.
    ChainFull,
    Sign(SignError),
    Chain(ChainError),
}

/// Whether every transaction in a list verifies.
pub open spec fn all_verify(s: Seq<TransactionView>) -> bool {
    forall|i: int| 0 <= i < s.len() ==> (#[trigger] tx_verification(s[i])) is Ok
}

/// `s` is an order in which the pool's entries may be drained: the same entries, sorted by
/// arrival mark.
pub open spec fn drain_order(s: Seq<TransactionView>, entries: Seq<TransactionView>) -> bool {
    s.to_multiset() == entries.to_multiset() && sorted_by_seen(s)
}

/// The canonical encoding of the header a producer builds on `prev` for the transactions `s`:
/// version 1, the digest of their payloads, the digest of `prev`, the time and the height.
pub open spec fn produced_encoding(
    prev: Header,
    s: Seq<TransactionView>,
    timestamp: i64,
    height: u32,
) -> Seq<u8> {
    le_u32(1) + sha256_of(payloads(s)) + sha256_of(prev.encoding()) + le_i64(timestamp) + le_u32(
        height,
    )
}

/// The block-production step: takes the pool's contents in arrival order, builds the block
/// one above the tip and linked to the tip's hash, signs it with `key` and offers it to the
/// chain. On success the pool is emptied and the accepted block is returned; on any failure
/// chain and pool are unchanged.
pub fn create_new_block(
    chain: &mut Blockchain,
    pool: &mut TxPool,
    key: PrivateKey,
    timestamp: i64,
) -> (r: Result<Block, ProduceError>)
    requires
        old(chain).wf(),
        old(pool).wf(),
    ensures
        final(chain).wf(),
        final(pool).wf(),
        r is Err ==> final(chain).headers() == old(chain).headers() && final(pool).entries()
            == old(pool).entries(),
        old(chain).tip() == u32::MAX ==> r == Err::<Block, ProduceError>(ProduceError::ChainFull),
        r matches Ok(b) ==> {
            &&& final(pool).entries().len() == 0
            &&& all_verify(old(pool).entries())
            &&& final(chain).headers() == old(chain).headers().push(b.header)
            &&& b.header.version == 1
            &&& b.header.height == old(chain).tip() + 1
            &&& b.header.timestamp == timestamp
            &&& b.header.prev_block@ == sha256_of(old(chain).headers().last().encoding())
            &&& drain_order(tx_views(b.transactions@), old(pool).entries())
            &&& b.header.data@ == sha256_of(payloads(tx_views(b.transactions@)))
            &&& b.header.encoding() == produced_encoding(
                old(chain).headers().last(),
                tx_views(b.transactions@),
                timestamp,
                b.header.height,
            )
            &&& b.validator matches Some(v) && v@ == public_point_of(key.secret())
            &&& b.verification() is Ok
            &&& b.hash is Some
        },
        r matches Err(ProduceError::Sign(_)) ==> exists|s: Seq<TransactionView>|
            drain_order(s, old(pool).entries()) && !signing_succeeds(
                key.secret(),
                produced_encoding(
                    old(chain).headers().last(),
                    s,
                    timestamp,
                    (old(chain).tip() + 1) as u32,
                ),
            ),
        old(chain).tip() < u32::MAX && all_verify(old(pool).entries()) ==> (r is Ok || r is Err
            && r->Err_0 is Sign),
{
    let tip = chain.height();
    if tip == u32::MAX {
        return Err(ProduceError::ChainFull);
    }
    let prev = chain.get_header(tip).unwrap();
    let prev_hash = Hasher::new().hash(&prev).unwrap();
    let txs = pool.drain_ordered();
    let body = concat_payloads(&txs);
    let data = crate::hash::Hash(sha256(body.as_slice()));
    let header = Header { version: 1, data, prev_block: prev_hash, timestamp, height: tip + 1 };
    let mut block = Block::new(header, txs);
    let ghost drained = tx_views(block.transactions@);
    assert(header.encoding() == produced_encoding(prev, drained, timestamp, header.height));
    assert(drain_order(drained, pool.entries()));
    match block.sign(key) {
        Ok(()) => {},
        Err(e) => {
            return Err(ProduceError::Sign(e));
        },
    }
    proof {
        lemma_same_multiset_all_verify(drained, pool.entries());
    }
    match chain.add_block(&mut block) {
        Ok(()) => {},
        Err(e) => {
            return Err(ProduceError::Chain(e));
        },
    }
    let _ = pool.flush();
    Ok(block)
}

/// Lists with the same elements agree on whether all of them verify; when all do, none is
/// the first to fail.
proof fn lemma_same_multiset_all_verify(a: Seq<TransactionView>, b: Seq<TransactionView>)
    requires
        a.to_multiset() == b.to_multiset(),
    ensures
        all_verify(a) <==> all_verify(b),
        all_verify(a) <==> crate::block::first_invalid(a) is None,
{
    broadcast use vstd::seq_lib::group_to_multiset_ensures;

    if all_verify(b) {
        assert forall|i: int| 0 <= i < a.len() implies (#[trigger] tx_verification(a[i])) is Ok by {
            assert(a.to_multiset().count(a[i]) > 0);
            assert(b.contains(a[i]));
        }
    }
    if all_verify(a) {
        assert forall|i: int| 0 <= i < b.len() implies (#[trigger] tx_verification(b[i])) is Ok by {
            assert(b.to_multiset().count(b[i]) > 0);
            assert(a.contains(b[i]));
        }
    }
    lemma_first_invalid_none(a);
}

proof fn lemma_first_invalid_none(a: Seq<TransactionView>)
    ensures
        all_verify(a) <==> crate::block::first_invalid(a) is None,
    decreases a.len(),
{
    if a.len() > 0 {
        lemma_first_invalid_none(a.drop_last());
        if all_verify(a.drop_last()) {
            if !all_verify(a) {
                let i = choose|i: int| 0 <= i < a.len() && (#[trigger] tx_verification(a[i])) is Err;
                if i < a.len() - 1 {
                    assert(a.drop_last()[i] == a[i]);
                }
            }
        } else {
            let i = choose|i: int|
                0 <= i < a.drop_last().len() && (#[trigger] tx_verification(a.drop_last()[i]))
                    is Err;
            assert(a[i] == a.drop_last()[i]);
        }
    }
}

} // verus!
