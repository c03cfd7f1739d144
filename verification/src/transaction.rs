//! Transactions as the admission pipeline reads them.

use vstd::prelude::*;

verus! {

/// A decoded transaction, reduced to what admission reads of it.
///
/// `identity` is the transaction's canonical identity: the deduplication key,
/// independent of byte-level encoding differences. `value_balance` is the
/// consensus value-balance field; a negative balance marks a coinbase-style
/// transaction, which mints value and may only originate from local block
/// production, never from peer gossip.
#[derive(Clone, Copy, PartialEq, Eq, Structural, Debug)]
pub struct Transaction {
    pub identity: u64,
    pub value_balance: i64,
}

impl Transaction {
    /// A coinbase-style transaction: it mints new value.
    pub open spec fn is_coinbase(self) -> bool {
        self.value_balance < 0
    }

    pub fn new(identity: u64, value_balance: i64) -> (t: Transaction)
        ensures
            t.identity == identity,
            t.value_balance == value_balance,
    {
        Transaction { identity, value_balance }
    }
}

/// A pool entry: the decoded transaction together with the length of its
/// serialized form, as it arrived on the wire.
#[derive(Clone, Copy, PartialEq, Eq, Structural, Debug)]
pub struct TransactionRecord {
    pub transaction: Transaction,
    pub size: usize,
}

impl TransactionRecord {
    /// The identity under which this record is deduplicated.
    pub open spec fn identity(self) -> u64 {
        self.transaction.identity
    }
}

} // verus!
