use vstd::prelude::*;

use crate::hasher::{sha256_of, Hasher};
use crate::transaction::{Transaction, TransactionView};

verus! {

broadcast use vstd::seq_lib::group_to_multiset_ensures;

/// The identity hash of a transaction: its memo if set, else the digest of its payload.
pub open spec fn identity(t: TransactionView) -> Seq<u8> {
    match t.hash {
        Some(h) => h@,
        None => sha256_of(t.data),
    }
}

/// The key under which a pool entry is held.
pub open spec fn key_of(t: TransactionView) -> Seq<u8> {
    t.hash.unwrap()@
}

/// `s` is `t` as a pool stores it: the same transaction with its identity hash memoized.
pub open spec fn stored_form(s: TransactionView, t: TransactionView) -> bool {
    &&& s.data == t.data
    &&& s.key == t.key
    &&& s.signature == t.signature
    &&& s.seen == t.seen
    &&& s.hash is Some
    &&& key_of(s) == identity(t)
}

pub open spec fn has_key(s: Seq<TransactionView>, key: Seq<u8>) -> bool {
    exists|i: int| 0 <= i < s.len() && key_of(s[i]) == key
}

/// Arrival order: no mark sorts before every mark.
pub open spec fn seen_le(a: Option<i64>, b: Option<i64>) -> bool {
    match (a, b) {
        (None, _) => true,
        (Some(_), None) => false,
        (Some(x), Some(y)) => x <= y,
    }
}

pub open spec fn sorted_by_seen(s: Seq<TransactionView>) -> bool {
    forall|i: int, j: int| 0 <= i < j < s.len() ==> seen_le(s[i].seen, s[j].seen)
}

fn seen_le_exec(a: Option<i64>, b: Option<i64>) -> (r: bool)
    ensures
        r == seen_le(a, b),
{
    match (a, b) {
        (None, _) => true,
        (Some(_), None) => false,
        (Some(x), Some(y)) => x <= y,
    }
}

/// Transactions waiting for a block, held under their identity hashes; one entry per hash.
pub struct TxPool {
    transactions: Vec<Transaction>,
}

impl TxPool {
    /// The entries, in no meaningful order.
    pub closed spec fn entries(&self) -> Seq<TransactionView> {
        self.transactions@.map_values(|t: Transaction| t@)
    }

    /// Every entry carries its hash, and no two share one.
    pub open spec fn wf(&self) -> bool {
        &&& forall|i: int| 0 <= i < self.entries().len() ==> (#[trigger] self.entries()[i]).hash is Some
        &&& forall|i: int, j: int|
            0 <= i < j < self.entries().len() ==> key_of(#[trigger] self.entries()[i]) != key_of(
                #[trigger] self.entries()[j],
            )
    }

    pub fn new() -> (r: TxPool)
        ensures
            r.wf(),
            r.entries() == Seq::<TransactionView>::empty(),
    {
        let r = TxPool { transactions: Vec::new() };
        assert(r.entries() =~= Seq::<TransactionView>::empty());
        r
    }

    /// Stores `tx` under its identity hash; an entry already held under that hash is
    /// replaced.
    pub fn add(&mut self, mut tx: Transaction) -> (r: Result<(), ()>)
        requires
            old(self).wf(),
        ensures
            r is Ok,
            final(self).wf(),
            !has_key(old(self).entries(), identity(tx@)) ==> final(self).entries().len()
                == old(self).entries().len() + 1 && final(self).entries().drop_last()
                == old(self).entries() && stored_form(final(self).entries().last(), tx@),
            has_key(old(self).entries(), identity(tx@)) ==> final(self).entries().len()
                == old(self).entries().len() && exists|i: int|
                0 <= i < old(self).entries().len() && key_of(old(self).entries()[i]) == identity(
                    tx@,
                ) && stored_form(final(self).entries()[i], tx@) && final(self).entries()
                    == old(self).entries().update(i, final(self).entries()[i]),
    {
        let ghost t0 = tx@;
        let h = tx.hash(Hasher::new());
        assert(stored_form(tx@, t0));
        let ghost old_entries = self.entries();
        match self.position(&h) {
            Some(i) => {
                self.transactions[i] = tx;
                assert(self.entries() =~= old_entries.update(i as int, tx@));
                assert(self.wf()) by {
                    assert forall|a: int, b: int|
                        0 <= a < b < self.entries().len() implies key_of(self.entries()[a])
                        != key_of(self.entries()[b]) by {
                        assert(key_of(old_entries[a]) != key_of(old_entries[b]));
                    }
                }
                assert(self.entries()[i as int] == tx@);
            },
            None => {
                self.transactions.push(tx);
                assert(self.entries() =~= old_entries.push(tx@));
                assert(self.entries().drop_last() =~= old_entries);
            },
        }
        Ok(())
    }

    /// Index of the entry held under `hash`, if any.
    fn position(&self, hash: &crate::hash::Hash) -> (r: Option<usize>)
        requires
            self.wf(),
        ensures
            r matches Some(i) ==> i < self.entries().len() && key_of(self.entries()[i as int])
                == hash@,
            r is None <==> !has_key(self.entries(), hash@),
    {
        let mut i: usize = 0;
        while i < self.transactions.len()
            invariant
                self.wf(),
                i <= self.entries().len(),
                forall|k: int| 0 <= k < i ==> key_of(self.entries()[k]) != hash@,
            decreases self.entries().len() - i,
        {
            assert(self.entries()[i as int] == self.transactions@[i as int]@);
            let same = match self.transactions[i].hash {
                Some(k) => k == *hash,
                None => false,
            };
            if same {
                return Some(i);
            }
            i += 1;
        }
        None
    }

    /// Whether an entry is held under `hash`.
    pub fn has(&self, hash: &crate::hash::Hash) -> (r: bool)
        requires
            self.wf(),
        ensures
            r == has_key(self.entries(), hash@),
    {
        self.position(hash).is_some()
    }

    pub fn len(&self) -> (r: usize)
        ensures
            r == self.entries().len(),
    {
        self.transactions.len()
    }

    /// Removes every entry.
    pub fn flush(&mut self) -> (r: Result<(), ()>)
        ensures
            r is Ok,
            final(self).wf(),
            final(self).entries() == Seq::<TransactionView>::empty(),
    {
        self.transactions.clear();
        assert(self.entries() =~= Seq::<TransactionView>::empty());
        Ok(())
    }

    /// Copies of the entries in arrival order, unmarked ones first; the pool is unchanged.
    pub fn drain_ordered(&self) -> (r: Vec<Transaction>)
        ensures
            r@.map_values(|t: Transaction| t@).to_multiset() == self.entries().to_multiset(),
            sorted_by_seen(r@.map_values(|t: Transaction| t@)),
    {
        let mut out: Vec<Transaction> = Vec::new();
        let mut i: usize = 0;
        while i < self.transactions.len()
            invariant
                i <= self.entries().len(),
                out@.map_values(|t: Transaction| t@).to_multiset() == self.entries().take(
                    i as int,
                ).to_multiset(),
                sorted_by_seen(out@.map_values(|t: Transaction| t@)),
            decreases self.entries().len() - i,
        {
            let t = self.transactions[i].copy();
            let ghost before = out@.map_values(|x: Transaction| x@);
            let mut j: usize = 0;
            while j < out.len() && seen_le_exec(out[j].seen, t.seen)
                invariant
                    j <= out@.len(),
                    before == out@.map_values(|x: Transaction| x@),
                    forall|k: int| 0 <= k < j ==> seen_le(before[k].seen, t.seen),
                decreases out@.len() - j,
            {
                j += 1;
            }
            let ghost tv = t@;
            out.insert(j, t);
            let ghost after = out@.map_values(|x: Transaction| x@);
            assert(after =~= before.insert(j as int, tv));
            assert(self.entries().take(i as int + 1) =~= self.entries().take(i as int).push(
                self.entries()[i as int],
            ));
            assert(sorted_by_seen(after)) by {
                assert forall|a: int, b: int| 0 <= a < b < after.len() implies seen_le(
                    after[a].seen,
                    after[b].seen,
                ) by {
                    if b == j {
                        assert(seen_le(before[a].seen, tv.seen));
                    } else if a == j {
                        assert(!seen_le(before[j as int].seen, tv.seen));
                        assert(seen_le(before[j as int].seen, before[b - 1].seen) || j
                            == b - 1);
                    } else if a < j && b > j {
                        assert(seen_le(before[a].seen, before[b - 1].seen));
                    } else if b < j {
                        assert(seen_le(before[a].seen, before[b].seen));
                    } else {
                        assert(seen_le(before[a - 1].seen, before[b - 1].seen));
                    }
                }
            }
            i += 1;
        }
        assert(self.entries().take(i as int) =~= self.entries());
        out
    }
}

} // verus!
