//! The pipeline-wide guarantees, proved from the step relations that the
//! pipeline functions ensure.

use vstd::prelude::*;
use crate::context::NodeContext;
use crate::peer::PeerAddress;
use crate::pipeline::block_transition;
use crate::pipeline::is_propagated;
use crate::pipeline::record_of;
use crate::pipeline::tx_transition;
use crate::pipeline::DecodeOutcome;
use crate::pipeline::TxOutcome;
use crate::pipeline::ValidationEngineError;
use crate::pipeline::ValidationOutcome;
use crate::pool::AdmissionPool;
use crate::transaction::Transaction;

verus! {

/// Dedup: submitting a valid transaction of one identity twice — whatever the
/// senders and whatever bytes carried it — broadcasts exactly once. The first
/// call admits and propagates; the second changes neither the pool nor any
/// channel, and after it the pool holds exactly one record for the identity.
pub proof fn lemma_dedup_single_broadcast(
    c0: NodeContext,
    c1: NodeContext,
    c2: NodeContext,
    p0: AdmissionPool,
    p1: AdmissionPool,
    p2: AdmissionPool,
    bytes1: Seq<u8>,
    bytes2: Seq<u8>,
    tx1: Transaction,
    tx2: Transaction,
    sender1: PeerAddress,
    sender2: PeerAddress,
    r1: Result<TxOutcome, ValidationEngineError>,
    r2: Result<TxOutcome, ValidationEngineError>,
)
    requires
        p0.wf(),
        !p0.has_identity(tx1.identity),
        !tx1.is_coinbase(),
        !tx2.is_coinbase(),
        tx2.identity == tx1.identity,
        tx_transition(c0, c1, p0, p1, bytes1,
            DecodeOutcome::Decoded(tx1), ValidationOutcome::Valid, sender1, r1),
        tx_transition(c1, c2, p1, p2, bytes2,
            DecodeOutcome::Decoded(tx2), ValidationOutcome::Valid, sender2, r2),
    ensures
        is_propagated(r1),
        r2 == Ok::<TxOutcome, ValidationEngineError>(TxOutcome::DuplicateAdmission),
        p2 == p1,
        c2 == c1,
        p1.has_identity(tx1.identity),
        forall|i: int, j: int|
            0 <= i < p1.records@.len() && 0 <= j < p1.records@.len()
                && p1.records@[i].identity() == tx1.identity
                && p1.records@[j].identity() == tx1.identity
                ==> i == j,
{
    let old_len = p0.records@.len() as int;
    assert(p1.records@ == p0.records@.push(record_of(tx1, bytes1)));
    assert(p1.records@[old_len] == record_of(tx1, bytes1));
    assert(p1.has_identity(tx1.identity));
    assert forall|i: int, j: int|
        0 <= i < p1.records@.len() && 0 <= j < p1.records@.len()
            && p1.records@[i].identity() == tx1.identity
            && p1.records@[j].identity() == tx1.identity
            implies i == j by {
        if i < old_len {
            assert(p1.records@[i] == p0.records@[i]);
            assert(p0.has_identity(tx1.identity));
        }
        if j < old_len {
            assert(p1.records@[j] == p0.records@[j]);
            assert(p0.has_identity(tx1.identity));
        }
    }
}

/// No echo, transaction path: whatever one admission attempt does, the
/// channels of the transaction's sender and of the local node come out of it
/// untouched — neither ever receives the rebroadcast.
pub proof fn lemma_no_echo_transaction(
    c0: NodeContext,
    c1: NodeContext,
    p0: AdmissionPool,
    p1: AdmissionPool,
    bytes: Seq<u8>,
    decoded: DecodeOutcome,
    verdict: ValidationOutcome,
    sender: PeerAddress,
    r: Result<TxOutcome, ValidationEngineError>,
)
    requires
        tx_transition(c0, c1, p0, p1, bytes, decoded, verdict, sender, r),
    ensures
        forall|k: int|
            0 <= k < c0.channels.channels@.len()
                && ((#[trigger] c0.channels.channels@[k]).address == sender
                    || c0.channels.channels@[k].address == c0.local_address)
                ==> c1.channels.channels@[k] == c0.channels.channels@[k],
{
    if is_propagated(r) {
        assert forall|k: int|
            0 <= k < c0.channels.channels@.len()
                && ((#[trigger] c0.channels.channels@[k]).address == sender
                    || c0.channels.channels@[k].address == c0.local_address)
                implies c1.channels.channels@[k] == c0.channels.channels@[k] by {
            assert(!crate::fanout::eligible(
                c0.channels.channels@[k].address, sender, c0.local_address));
        }
    } else {
        assert(c1 == c0);
    }
}

/// No echo, block path: the block's miner and the local node never receive
/// the block back.
pub proof fn lemma_no_echo_block(
    c0: NodeContext,
    c1: NodeContext,
    bytes: Seq<u8>,
    miner: PeerAddress,
    count: usize,
)
    requires
        block_transition(c0, c1, bytes, miner, count),
    ensures
        forall|k: int|
            0 <= k < c0.channels.channels@.len()
                && ((#[trigger] c0.channels.channels@[k]).address == miner
                    || c0.channels.channels@[k].address == c0.local_address)
                ==> c1.channels.channels@[k] == c0.channels.channels@[k],
{
    assert forall|k: int|
        0 <= k < c0.channels.channels@.len()
            && ((#[trigger] c0.channels.channels@[k]).address == miner
                || c0.channels.channels@[k].address == c0.local_address)
            implies c1.channels.channels@[k] == c0.channels.channels@[k] by {
        assert(!crate::fanout::eligible(
            c0.channels.channels@[k].address, miner, c0.local_address));
    }
}

/// The positive side of fan-out: when an admission attempt does broadcast,
/// every connected peer that is eligible and whose channel accepts the write
/// receives exactly one transaction envelope carrying the submitted bytes.
pub proof fn lemma_propagated_reaches_every_eligible_peer(
    c0: NodeContext,
    c1: NodeContext,
    p0: AdmissionPool,
    p1: AdmissionPool,
    bytes: Seq<u8>,
    decoded: DecodeOutcome,
    verdict: ValidationOutcome,
    sender: PeerAddress,
    r: Result<TxOutcome, ValidationEngineError>,
)
    requires
        tx_transition(c0, c1, p0, p1, bytes, decoded, verdict, sender, r),
        is_propagated(r),
    ensures
        forall|k: int|
            0 <= k < c0.channels.channels@.len()
                && crate::fanout::fanout_writes(
                    c0.registry, c0.channels, k, sender, c0.local_address)
                ==> (#[trigger] c1.channels.channels@[k]).outbox_views()
                    == c0.channels.channels@[k].outbox_views()
                        .push(crate::message::MessageView::Transaction(bytes)),
{
}

/// Coinbase rejection: a transaction with negative value balance that arrives
/// over gossip is never admitted and never broadcast, whatever the validation
/// gate's verdict was.
pub proof fn lemma_coinbase_never_admitted(
    c0: NodeContext,
    c1: NodeContext,
    p0: AdmissionPool,
    p1: AdmissionPool,
    bytes: Seq<u8>,
    tx: Transaction,
    verdict: ValidationOutcome,
    sender: PeerAddress,
    r: Result<TxOutcome, ValidationEngineError>,
)
    requires
        tx.is_coinbase(),
        tx_transition(c0, c1, p0, p1, bytes,
            DecodeOutcome::Decoded(tx), verdict, sender, r),
    ensures
        p1 == p0,
        c1 == c0,
        !is_propagated(r),
{
}

} // verus!
