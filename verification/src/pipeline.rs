//! The admission pipeline: decode outcome in, validation verdict in,
//! admission decision and fan-out out.

use vstd::prelude::*;
use crate::context::NodeContext;
use crate::fanout::fan_out;
use crate::fanout::fanout_effect;
use crate::fanout::successful_sends;
use crate::message::MessageKind;
use crate::peer::PeerAddress;
use crate::pool::AdmissionPool;
use crate::pool::AdmitOutcome;
use crate::transaction::Transaction;
use crate::transaction::TransactionRecord;

verus! {

/// What the external decode collaborator made of the inbound bytes.
#[derive(Clone, Copy, PartialEq, Eq, Structural, Debug)]
pub enum DecodeOutcome {
    /// The bytes parsed into a transaction.
    Decoded(Transaction),
    /// The bytes are noise; the pipeline swallows them without effect.
    Malformed,
}

/// An operational failure inside the external validation engine (a ledger
/// read failure, not a verdict). It is the one condition that crosses the
/// pipeline boundary as an error.
#[derive(Clone, Copy, PartialEq, Eq, Structural, Debug)]
pub struct ValidationEngineError {
    pub code: u64,
}

/// The validation gate's tri-state answer for a decoded transaction.
#[derive(Clone, Copy, PartialEq, Eq, Structural, Debug)]
pub enum ValidationOutcome {
    /// Legal under consensus rules against current ledger state.
    Valid,
    /// Rejected by consensus rules: a normal terminal outcome, not an error.
    Rejected,
    /// The engine itself failed; the attempt is aborted and the caller told.
    Failed(ValidationEngineError),
}

/// Why a decoded transaction was dropped by policy.
#[derive(Clone, Copy, PartialEq, Eq, Structural, Debug)]
pub enum RejectReason {
    /// The validation gate judged it invalid under consensus rules.
    ConsensusInvalid,
    /// It is a coinbase-style transaction (negative value balance) arriving
    /// over gossip; those may only originate from local block production.
    CoinbaseFromGossip,
}

/// The terminal outcome of one transaction admission attempt. Every variant
/// but an engine failure is a success of the pipeline itself: the node never
/// errors out over one malformed, rejected or duplicate peer message.
#[derive(Clone, Copy, PartialEq, Eq, Structural, Debug)]
pub enum TxOutcome {
    /// Undecodable bytes, swallowed with no admission and no broadcast.
    MalformedInput,
    /// Decoded but dropped by policy; no admission, no broadcast.
    PolicyRejection(RejectReason),
    /// The identity is already pooled; rebroadcast is suppressed.
    DuplicateAdmission,
    /// Newly admitted and fanned out; the count of successful sends is kept
    /// for observability.
    Propagated { successful_sends: usize },
}

/// `r` reports a fresh admission that was broadcast.
pub open spec fn is_propagated(r: Result<TxOutcome, ValidationEngineError>) -> bool {
    match r {
        Ok(TxOutcome::Propagated { .. }) => true,
        _ => false,
    }
}

/// The record that admission builds for a decoded transaction: the
/// transaction plus the length of its serialized form.
pub open spec fn record_of(tx: Transaction, bytes: Seq<u8>) -> TransactionRecord {
    TransactionRecord { transaction: tx, size: bytes.len() as usize }
}

/// What one `process_transaction_internal` call does, for every combination
/// of decode outcome, validation verdict and pool state.
pub open spec fn tx_transition(
    pre_ctx: NodeContext,
    post_ctx: NodeContext,
    pre_pool: AdmissionPool,
    post_pool: AdmissionPool,
    bytes: Seq<u8>,
    decoded: DecodeOutcome,
    verdict: ValidationOutcome,
    sender: PeerAddress,
    r: Result<TxOutcome, ValidationEngineError>,
) -> bool {
    &&& post_ctx.registry == pre_ctx.registry
    &&& post_ctx.local_address == pre_ctx.local_address
    &&& match decoded {
        DecodeOutcome::Malformed => {
            // Malformed input is treated as noise: success, no effect.
            &&& r == Ok::<TxOutcome, ValidationEngineError>(TxOutcome::MalformedInput)
            &&& post_pool == pre_pool
            &&& post_ctx == pre_ctx
        },
        DecodeOutcome::Decoded(tx) => match verdict {
            ValidationOutcome::Failed(e) => {
                // Only an engine failure crosses the boundary as an error.
                &&& r == Err::<TxOutcome, ValidationEngineError>(e)
                &&& post_pool == pre_pool
                &&& post_ctx == pre_ctx
            },
            ValidationOutcome::Rejected => {
                &&& r == Ok::<TxOutcome, ValidationEngineError>(
                    TxOutcome::PolicyRejection(RejectReason::ConsensusInvalid))
                &&& post_pool == pre_pool
                &&& post_ctx == pre_ctx
            },
            ValidationOutcome::Valid => {
                if tx.is_coinbase() {
                    &&& r == Ok::<TxOutcome, ValidationEngineError>(
                        TxOutcome::PolicyRejection(RejectReason::CoinbaseFromGossip))
                    &&& post_pool == pre_pool
                    &&& post_ctx == pre_ctx
                } else if pre_pool.has_identity(tx.identity) {
                    // Anti-flood: a known identity is admitted once and
                    // rebroadcast never.
                    &&& r == Ok::<TxOutcome, ValidationEngineError>(TxOutcome::DuplicateAdmission)
                    &&& post_pool == pre_pool
                    &&& post_ctx == pre_ctx
                } else {
                    &&& post_pool.records@ == pre_pool.records@.push(record_of(tx, bytes))
                    &&& fanout_effect(
                        pre_ctx.registry,
                        pre_ctx.channels,
                        post_ctx.channels,
                        MessageKind::Transaction,
                        bytes,
                        sender,
                        pre_ctx.local_address,
                    )
                    &&& r == Ok::<TxOutcome, ValidationEngineError>(TxOutcome::Propagated {
                        successful_sends: successful_sends(
                            pre_ctx.registry.peers@,
                            pre_ctx.channels,
                            sender,
                            pre_ctx.local_address,
                        ) as usize,
                    })
                }
            },
        },
    }
}

/// Verify a transaction, add it to the pending pool, propagate it to peers.
///
/// The decode outcome and the validation verdict come from the external
/// collaborators; the caller holds exclusive access to `pool` for the whole
/// call, so validation and admission form one atomic step relative to other
/// admission attempts. Broadcast happens only on a genuinely new admission,
/// never to the sender and never to the local node, and is best-effort per
/// peer.
pub fn process_transaction_internal(
    context: &mut NodeContext,
    pool: &mut AdmissionPool,
    transaction_bytes: &Vec<u8>,
    decoded: DecodeOutcome,
    verdict: ValidationOutcome,
    transaction_sender: PeerAddress,
) -> (r: Result<TxOutcome, ValidationEngineError>)
    requires
        old(context).wf(),
        old(pool).wf(),
    ensures
        final(context).wf(),
        final(pool).wf(),
        tx_transition(
            *old(context),
            *final(context),
            *old(pool),
            *final(pool),
            transaction_bytes@,
            decoded,
            verdict,
            transaction_sender,
            r,
        ),
{
    let tx = match decoded {
        DecodeOutcome::Malformed => {
            return Ok(TxOutcome::MalformedInput);
        },
        DecodeOutcome::Decoded(tx) => tx,
    };
    match verdict {
        ValidationOutcome::Failed(e) => Err(e),
        ValidationOutcome::Rejected => {
            Ok(TxOutcome::PolicyRejection(RejectReason::ConsensusInvalid))
        },
        ValidationOutcome::Valid => {
            if tx.value_balance < 0 {
                return Ok(TxOutcome::PolicyRejection(RejectReason::CoinbaseFromGossip));
            }
            let record = TransactionRecord { transaction: tx, size: transaction_bytes.len() };
            match pool.try_admit(record) {
                AdmitOutcome::AlreadyPresent => Ok(TxOutcome::DuplicateAdmission),
                AdmitOutcome::Inserted => {
                    let n = fan_out(
                        context,
                        MessageKind::Transaction,
                        transaction_bytes,
                        transaction_sender,
                    );
                    Ok(TxOutcome::Propagated { successful_sends: n })
                },
            }
        },
    }
}

/// What one `propagate_block` call does.
pub open spec fn block_transition(
    pre_ctx: NodeContext,
    post_ctx: NodeContext,
    bytes: Seq<u8>,
    miner: PeerAddress,
    count: usize,
) -> bool {
    &&& post_ctx.registry == pre_ctx.registry
    &&& post_ctx.local_address == pre_ctx.local_address
    &&& fanout_effect(
        pre_ctx.registry,
        pre_ctx.channels,
        post_ctx.channels,
        MessageKind::Block,
        bytes,
        miner,
        pre_ctx.local_address,
    )
    &&& count == successful_sends(
        pre_ctx.registry.peers@,
        pre_ctx.channels,
        miner,
        pre_ctx.local_address,
    )
}

/// Broadcast an already-validated block to the connected peers, excluding its
/// miner and the local node. No validation and no deduplication happen here —
/// block validity is established upstream. Per-peer failures are absorbed;
/// the returned count of successful sends is kept for observability.
pub fn propagate_block(
    context: &mut NodeContext,
    data: &Vec<u8>,
    block_miner: PeerAddress,
) -> (count: usize)
    requires
        old(context).wf(),
    ensures
        final(context).wf(),
        block_transition(*old(context), *final(context), data@, block_miner, count),
{
    fan_out(context, MessageKind::Block, data, block_miner)
}

} // verus!
