//! The deduplicating pool of pending transactions.

use vstd::prelude::*;
use crate::transaction::TransactionRecord;

verus! {

/// What one admission attempt observed.
#[derive(Clone, Copy, PartialEq, Eq, Structural, Debug)]
pub enum AdmitOutcome {
    /// The identity was new; the record is now in the pool.
    Inserted,
    /// A record with this identity was already pooled; nothing changed.
    AlreadyPresent,
}

/// The pending-transaction pool: a collection of records keyed by transaction
/// identity, with each identity present at most once.
///
/// The caller serializes access (one admission attempt at a time), so the
/// check-then-insert step of [`AdmissionPool::try_admit`] is atomic relative
/// to other attempts: of all attempts for one new identity, exactly one
/// observes [`AdmitOutcome::Inserted`]. Entries are never expired by this
/// core; [`AdmissionPool::remove`] lets an external eviction policy take one
/// out without breaking uniqueness.
pub struct AdmissionPool {
    pub records: Vec<TransactionRecord>,
}

/// What one `try_admit` call does to the pool: the step relation that chains
/// of admission attempts are reasoned over.
pub open spec fn admit_transition(
    pre: AdmissionPool,
    post: AdmissionPool,
    record: TransactionRecord,
    r: AdmitOutcome,
) -> bool {
    &&& (r == AdmitOutcome::Inserted) == !pre.has_identity(record.identity())
    &&& post.has_identity(record.identity())
    &&& (r == AdmitOutcome::Inserted ==> post.records@ == pre.records@.push(record))
    &&& (r == AdmitOutcome::AlreadyPresent ==> post == pre)
    &&& forall|id: u64|
        #[trigger] post.has_identity(id) == (pre.has_identity(id) || id == record.identity())
}

impl AdmissionPool {
    /// Each transaction identity appears at most once.
    pub open spec fn wf(self) -> bool {
        forall|i: int, j: int|
            0 <= i < j < self.records@.len()
                ==> self.records@[i].identity() != self.records@[j].identity()
    }

    pub open spec fn has_identity(self, id: u64) -> bool {
        exists|i: int|
            0 <= i < self.records@.len() && self.records@[i].identity() == id
    }

    pub fn new() -> (p: AdmissionPool)
        ensures
            p.wf(),
            p.records@.len() == 0,
    {
        AdmissionPool { records: Vec::new() }
    }

    pub fn len(&self) -> (n: usize)
        ensures
            n == self.records@.len(),
    {
        self.records.len()
    }

    fn find(&self, id: u64) -> (r: Option<usize>)
        ensures
            match r {
                Some(i) => i < self.records@.len() && self.records@[i as int].identity() == id,
                None => !self.has_identity(id),
            },
    {
        let mut i: usize = 0;
        while i < self.records.len()
            invariant
                i <= self.records@.len(),
                forall|k: int| 0 <= k < i ==> self.records@[k].identity() != id,
            decreases self.records@.len() - i,
        {
            if self.records[i].transaction.identity == id {
                return Some(i);
            }
            i += 1;
        }
        None
    }

    pub fn contains_identity(&self, id: u64) -> (r: bool)
        ensures
            r == self.has_identity(id),
    {
        self.find(id).is_some()
    }

    /// The pooled record under `id`, if any.
    pub fn lookup(&self, id: u64) -> (r: Option<TransactionRecord>)
        ensures
            match r {
                Some(rec) => rec.identity() == id && self.records@.contains(rec),
                None => !self.has_identity(id),
            },
    {
        match self.find(id) {
            Some(i) => Some(self.records[i]),
            None => None,
        }
    }

    /// The atomic check-then-insert: admit `record` unless its identity is
    /// already pooled. On `Inserted` the record stays visible to later
    /// lookups until it is explicitly removed.
    pub fn try_admit(&mut self, record: TransactionRecord) -> (r: AdmitOutcome)
        requires
            old(self).wf(),
        ensures
            final(self).wf(),
            admit_transition(*old(self), *final(self), record, r),
    {
        match self.find(record.transaction.identity) {
            Some(_) => AdmitOutcome::AlreadyPresent,
            None => {
                self.records.push(record);
                proof {
                    assert(self.records@.last() == record);
                    assert(self.has_identity(record.identity()));
                    assert forall|i: int, j: int|
                        0 <= i < j < self.records@.len() implies
                        self.records@[i].identity() != self.records@[j].identity() by {
                        if j < self.records@.len() - 1 {
                            assert(old(self).records@[i].identity()
                                != old(self).records@[j].identity());
                        } else {
                            assert(self.records@[j] == record);
                            assert(old(self).records@[i].identity() != record.identity());
                        }
                    }
                    assert forall|id: u64|
                        #[trigger] self.has_identity(id) == (old(self).has_identity(id)
                            || id == record.identity()) by {
                        if old(self).has_identity(id) {
                            let k = choose|k: int|
                                0 <= k < old(self).records@.len()
                                    && old(self).records@[k].identity() == id;
                            assert(self.records@[k].identity() == id);
                        }
                        if self.has_identity(id) && id != record.identity() {
                            let k = choose|k: int|
                                0 <= k < self.records@.len()
                                    && self.records@[k].identity() == id;
                            assert(k < old(self).records@.len());
                            assert(old(self).records@[k].identity() == id);
                        }
                    }
                }
                AdmitOutcome::Inserted
            },
        }
    }

    /// Take the record under `id` out of the pool, for an eviction policy
    /// layered on top of this core. Every other record stays pooled.
    pub fn remove(&mut self, id: u64) -> (r: Option<TransactionRecord>)
        requires
            old(self).wf(),
        ensures
            final(self).wf(),
            !final(self).has_identity(id),
            match r {
                Some(rec) => {
                    &&& rec.identity() == id
                    &&& old(self).records@.contains(rec)
                    &&& final(self).records@.len() == old(self).records@.len() - 1
                },
                None => {
                    &&& !old(self).has_identity(id)
                    &&& *final(self) == *old(self)
                },
            },
            forall|other: u64|
                other != id ==> #[trigger] final(self).has_identity(other)
                    == old(self).has_identity(other),
    {
        match self.find(id) {
            None => None,
            Some(i) => {
                let rec = self.records.remove(i);
                proof {
                    assert(self.records@ == old(self).records@.remove(i as int));
                    assert(old(self).records@[i as int] == rec);
                    assert(old(self).records@.contains(rec));
                    assert forall|k: int, l: int|
                        0 <= k < l < self.records@.len() implies
                        self.records@[k].identity() != self.records@[l].identity() by {
                        let ok = if k < i { k } else { k + 1 };
                        let ol = if l < i { l } else { l + 1 };
                        assert(self.records@[k] == old(self).records@[ok]);
                        assert(self.records@[l] == old(self).records@[ol]);
                    }
                    assert forall|k: int|
                        0 <= k < self.records@.len() implies
                        #[trigger] self.records@[k].identity() != id by {
                        let ok = if k < i { k } else { k + 1 };
                        assert(self.records@[k] == old(self).records@[ok]);
                        assert(ok != i);
                    }
                    assert forall|other: u64| other != id implies
                        #[trigger] self.has_identity(other)
                            == old(self).has_identity(other) by {
                        if old(self).has_identity(other) {
                            let k = choose|k: int|
                                0 <= k < old(self).records@.len()
                                    && old(self).records@[k].identity() == other;
                            assert(k != i);
                            let nk = if k < i { k } else { k - 1 };
                            assert(self.records@[nk] == old(self).records@[k]);
                        }
                        if self.has_identity(other) {
                            let k = choose|k: int|
                                0 <= k < self.records@.len()
                                    && self.records@[k].identity() == other;
                            let ok = if k < i { k } else { k + 1 };
                            assert(self.records@[k] == old(self).records@[ok]);
                        }
                    }
                }
                Some(rec)
            },
        }
    }
}

/// How many attempts in a chain of admission outcomes observed `Inserted`.
pub open spec fn count_inserted(outcomes: Seq<AdmitOutcome>) -> nat
    decreases outcomes.len(),
{
    if outcomes.len() == 0 {
        0
    } else {
        count_inserted(outcomes.drop_last())
            + if outcomes.last() == AdmitOutcome::Inserted { 1nat } else { 0nat }
    }
}

proof fn lemma_count_inserted_single(outcomes: Seq<AdmitOutcome>)
    requires
        outcomes.len() >= 1,
        outcomes[0] == AdmitOutcome::Inserted,
        forall|i: int| 1 <= i < outcomes.len() ==> outcomes[i] == AdmitOutcome::AlreadyPresent,
    ensures
        count_inserted(outcomes) == 1,
    decreases outcomes.len(),
{
    if outcomes.len() == 1 {
        assert(outcomes.drop_last().len() == 0);
        assert(outcomes.last() == outcomes[0]);
        assert(count_inserted(outcomes.drop_last()) == 0);
    } else {
        assert(outcomes.last() == outcomes[outcomes.len() - 1]);
        assert(outcomes.last() == AdmitOutcome::AlreadyPresent);
        let rest = outcomes.drop_last();
        assert(rest[0] == outcomes[0]);
        assert forall|i: int| 1 <= i < rest.len() implies
            rest[i] == AdmitOutcome::AlreadyPresent by {
            assert(rest[i] == outcomes[i]);
        }
        lemma_count_inserted_single(rest);
    }
}

/// Exactly-once admission: the pool's exclusive access serializes concurrent
/// admission attempts for one identity into a chain of `try_admit` steps.
/// However long that chain is, if the identity is new at its start, exactly
/// the first step observes `Inserted` and every later step observes
/// `AlreadyPresent` — so at most one attempt ever goes on to broadcast.
pub proof fn lemma_exactly_one_insertion(
    pools: Seq<AdmissionPool>,
    outcomes: Seq<AdmitOutcome>,
    record: TransactionRecord,
)
    requires
        pools.len() == outcomes.len() + 1,
        outcomes.len() >= 1,
        !pools[0].has_identity(record.identity()),
        forall|i: int|
            0 <= i < outcomes.len()
                ==> admit_transition(pools[i], pools[i + 1], record, #[trigger] outcomes[i]),
    ensures
        outcomes[0] == AdmitOutcome::Inserted,
        forall|i: int| 1 <= i < outcomes.len() ==> outcomes[i] == AdmitOutcome::AlreadyPresent,
        count_inserted(outcomes) == 1,
{
    assert forall|i: int| 1 <= i < outcomes.len() implies
        outcomes[i] == AdmitOutcome::AlreadyPresent by {
        assert(admit_transition(pools[i - 1], pools[i], record, outcomes[i - 1]));
        assert(pools[i].has_identity(record.identity()));
        assert(admit_transition(pools[i], pools[i + 1], record, outcomes[i]));
    }
    lemma_count_inserted_single(outcomes);
}

} // verus!
