use gossip_gate::process_transaction_internal;
use gossip_gate::propagate_block;
use gossip_gate::AdmissionPool;
use gossip_gate::AdmitOutcome;
use gossip_gate::DecodeOutcome;
use gossip_gate::NodeContext;
use gossip_gate::OutboundChannel;
use gossip_gate::PeerAddress;
use gossip_gate::RejectReason;
use gossip_gate::Transaction;
use gossip_gate::TransactionRecord;
use gossip_gate::TxOutcome;
use gossip_gate::ValidationEngineError;
use gossip_gate::ValidationOutcome;
use gossip_gate::WireMessage;

fn addr(n: u32) -> PeerAddress {
    PeerAddress::new(n, 9000 + n as u16)
}

fn ctx_with_peers(local: PeerAddress, peers: &[(PeerAddress, bool)]) -> NodeContext {
    let mut ctx = NodeContext::new(local);
    for (a, deliverable) in peers {
        ctx.connect_peer(OutboundChannel::new(*a, *deliverable));
    }
    ctx
}

fn outbox_of<'a>(ctx: &'a NodeContext, a: PeerAddress) -> &'a Vec<WireMessage> {
    &ctx
        .channels
        .channels
        .iter()
        .find(|c| c.address == a)
        .expect("no channel for address")
        .outbox
}

fn total_messages(ctx: &NodeContext) -> usize {
    ctx.channels.channels.iter().map(|c| c.outbox.len()).sum()
}

#[test]
fn scenario_new_transaction_fans_out() {
    let local = addr(100);
    let (a, b, c) = (addr(1), addr(2), addr(3));
    let mut ctx = ctx_with_peers(local, &[(a, true), (b, true), (c, true)]);
    let mut pool = AdmissionPool::new();
    let bytes: Vec<u8> = vec![0xAA, 0xBB, 0xCC];
    let tx = Transaction::new(7, 10);

    let r = process_transaction_internal(
        &mut ctx,
        &mut pool,
        &bytes,
        DecodeOutcome::Decoded(tx),
        ValidationOutcome::Valid,
        a,
    );

    assert_eq!(r, Ok(TxOutcome::Propagated { successful_sends: 2 }));
    assert!(pool.contains_identity(7));
    assert_eq!(pool.len(), 1);
    assert_eq!(
        pool.lookup(7),
        Some(TransactionRecord { transaction: tx, size: 3 })
    );
    assert!(outbox_of(&ctx, a).is_empty());
    assert_eq!(outbox_of(&ctx, b), &vec![WireMessage::Transaction(bytes.clone())]);
    assert_eq!(outbox_of(&ctx, c), &vec![WireMessage::Transaction(bytes.clone())]);
}

#[test]
fn scenario_duplicate_resubmission_is_silent() {
    let local = addr(100);
    let (a, b, c) = (addr(1), addr(2), addr(3));
    let mut ctx = ctx_with_peers(local, &[(a, true), (b, true), (c, true)]);
    let mut pool = AdmissionPool::new();
    let bytes: Vec<u8> = vec![0xAA, 0xBB, 0xCC];
    let tx = Transaction::new(7, 10);

    let first = process_transaction_internal(
        &mut ctx,
        &mut pool,
        &bytes,
        DecodeOutcome::Decoded(tx),
        ValidationOutcome::Valid,
        a,
    );
    assert_eq!(first, Ok(TxOutcome::Propagated { successful_sends: 2 }));
    let sent_before = total_messages(&ctx);

    // the same transaction arrives again, this time from b
    let second = process_transaction_internal(
        &mut ctx,
        &mut pool,
        &bytes,
        DecodeOutcome::Decoded(tx),
        ValidationOutcome::Valid,
        b,
    );
    assert_eq!(second, Ok(TxOutcome::DuplicateAdmission));
    assert_eq!(pool.len(), 1);
    assert_eq!(total_messages(&ctx), sent_before);
}

#[test]
fn scenario_block_fans_out_except_miner() {
    let local = addr(100);
    let (a, b, c) = (addr(1), addr(2), addr(3));
    let mut ctx = ctx_with_peers(local, &[(a, true), (b, true), (c, true)]);
    let bytes: Vec<u8> = vec![0x01, 0x02];

    let count = propagate_block(&mut ctx, &bytes, c);

    assert_eq!(count, 2);
    assert_eq!(outbox_of(&ctx, a), &vec![WireMessage::Block(bytes.clone())]);
    assert_eq!(outbox_of(&ctx, b), &vec![WireMessage::Block(bytes.clone())]);
    assert!(outbox_of(&ctx, c).is_empty());
}

#[test]
fn dedup_broadcasts_exactly_once_across_senders() {
    let local = addr(100);
    let (a, b, c) = (addr(1), addr(2), addr(3));
    let mut ctx = ctx_with_peers(local, &[(a, true), (b, true), (c, true)]);
    let mut pool = AdmissionPool::new();
    let bytes: Vec<u8> = vec![9, 9, 9];
    let tx = Transaction::new(42, 1);

    let mut broadcasts: usize = 0;
    for sender in [a, b, c, a] {
        let r = process_transaction_internal(
            &mut ctx,
            &mut pool,
            &bytes,
            DecodeOutcome::Decoded(tx),
            ValidationOutcome::Valid,
            sender,
        );
        if matches!(r, Ok(TxOutcome::Propagated { .. })) {
            broadcasts += 1;
        }
    }
    assert_eq!(broadcasts, 1);
    assert_eq!(pool.len(), 1);
    // only the first pass (from a) wrote anything: one message each for b and c
    assert_eq!(total_messages(&ctx), 2);
}

#[test]
fn no_echo_to_sender_or_local() {
    let local = addr(100);
    let (a, b) = (addr(1), addr(2));
    // the node appears in its own registry alongside the peers
    let mut ctx = ctx_with_peers(local, &[(a, true), (local, true), (b, true)]);
    let mut pool = AdmissionPool::new();
    let bytes: Vec<u8> = vec![5];

    let r = process_transaction_internal(
        &mut ctx,
        &mut pool,
        &bytes,
        DecodeOutcome::Decoded(Transaction::new(1, 0)),
        ValidationOutcome::Valid,
        a,
    );

    assert_eq!(r, Ok(TxOutcome::Propagated { successful_sends: 1 }));
    assert!(outbox_of(&ctx, a).is_empty());
    assert!(outbox_of(&ctx, local).is_empty());
    assert_eq!(outbox_of(&ctx, b).len(), 1);
}

#[test]
fn no_echo_block_to_miner_or_local() {
    let local = addr(100);
    let (a, m) = (addr(1), addr(2));
    let mut ctx = ctx_with_peers(local, &[(a, true), (m, true), (local, true)]);
    let bytes: Vec<u8> = vec![7, 7];

    let count = propagate_block(&mut ctx, &bytes, m);

    assert_eq!(count, 1);
    assert_eq!(outbox_of(&ctx, a).len(), 1);
    assert!(outbox_of(&ctx, m).is_empty());
    assert!(outbox_of(&ctx, local).is_empty());
}

#[test]
fn admission_inserts_exactly_once() {
    let mut pool = AdmissionPool::new();
    let tx = Transaction::new(11, 3);

    let mut inserted: usize = 0;
    for size in [10usize, 20, 30, 40, 50] {
        // the same identity arrives five times, with varying encodings
        let r = pool.try_admit(TransactionRecord { transaction: tx, size });
        if r == AdmitOutcome::Inserted {
            inserted += 1;
        }
    }
    assert_eq!(inserted, 1);
    assert_eq!(pool.len(), 1);
    // the surviving record is the first one admitted
    assert_eq!(
        pool.lookup(11),
        Some(TransactionRecord { transaction: tx, size: 10 })
    );
}

#[test]
fn coinbase_never_admitted_nor_broadcast() {
    let local = addr(100);
    let (a, b) = (addr(1), addr(2));
    let mut ctx = ctx_with_peers(local, &[(a, true), (b, true)]);
    let mut pool = AdmissionPool::new();
    let bytes: Vec<u8> = vec![1, 2];
    let coinbase = Transaction::new(8, -5);

    // even a Valid verdict does not let a coinbase in through gossip
    let r = process_transaction_internal(
        &mut ctx,
        &mut pool,
        &bytes,
        DecodeOutcome::Decoded(coinbase),
        ValidationOutcome::Valid,
        a,
    );
    assert_eq!(
        r,
        Ok(TxOutcome::PolicyRejection(RejectReason::CoinbaseFromGossip))
    );
    assert_eq!(pool.len(), 0);
    assert!(!pool.contains_identity(8));
    assert_eq!(total_messages(&ctx), 0);
}

#[test]
fn invalid_transaction_rejected_without_effect() {
    let local = addr(100);
    let a = addr(1);
    let mut ctx = ctx_with_peers(local, &[(a, true)]);
    let mut pool = AdmissionPool::new();
    let bytes: Vec<u8> = vec![3];

    let r = process_transaction_internal(
        &mut ctx,
        &mut pool,
        &bytes,
        DecodeOutcome::Decoded(Transaction::new(4, 2)),
        ValidationOutcome::Rejected,
        a,
    );
    assert_eq!(
        r,
        Ok(TxOutcome::PolicyRejection(RejectReason::ConsensusInvalid))
    );
    assert_eq!(pool.len(), 0);
    assert_eq!(total_messages(&ctx), 0);
}

#[test]
fn engine_failure_propagates_and_aborts() {
    let local = addr(100);
    let a = addr(1);
    let mut ctx = ctx_with_peers(local, &[(a, true)]);
    let mut pool = AdmissionPool::new();
    let bytes: Vec<u8> = vec![3];
    let e = ValidationEngineError { code: 17 };

    let r = process_transaction_internal(
        &mut ctx,
        &mut pool,
        &bytes,
        DecodeOutcome::Decoded(Transaction::new(4, 2)),
        ValidationOutcome::Failed(e),
        a,
    );
    assert_eq!(r, Err(e));
    assert_eq!(pool.len(), 0);
    assert_eq!(total_messages(&ctx), 0);
}

#[test]
fn malformed_bytes_swallowed() {
    let local = addr(100);
    let a = addr(1);
    let mut ctx = ctx_with_peers(local, &[(a, true)]);
    let mut pool = AdmissionPool::new();
    let bytes: Vec<u8> = vec![0xFF; 64];

    let r = process_transaction_internal(
        &mut ctx,
        &mut pool,
        &bytes,
        DecodeOutcome::Malformed,
        ValidationOutcome::Valid,
        a,
    );
    assert_eq!(r, Ok(TxOutcome::MalformedInput));
    assert_eq!(pool.len(), 0);
    assert_eq!(total_messages(&ctx), 0);
}

#[test]
fn best_effort_fanout_counts_failures() {
    let local = addr(100);
    let sender = addr(9);
    let (a, b, c, d) = (addr(1), addr(2), addr(3), addr(4));
    // writes to b and d fail; a and c accept
    let mut ctx = ctx_with_peers(
        local,
        &[(sender, true), (a, true), (b, false), (c, true), (d, false)],
    );
    let mut pool = AdmissionPool::new();
    let bytes: Vec<u8> = vec![6];

    let r = process_transaction_internal(
        &mut ctx,
        &mut pool,
        &bytes,
        DecodeOutcome::Decoded(Transaction::new(5, 0)),
        ValidationOutcome::Valid,
        sender,
    );

    // 4 eligible peers, 2 failures: the operation still succeeds and reports 4 - 2
    assert_eq!(r, Ok(TxOutcome::Propagated { successful_sends: 2 }));
    assert_eq!(outbox_of(&ctx, a).len(), 1);
    assert!(outbox_of(&ctx, b).is_empty());
    assert_eq!(outbox_of(&ctx, c).len(), 1);
    assert!(outbox_of(&ctx, d).is_empty());
}

#[test]
fn peer_without_channel_skipped_silently() {
    let local = addr(100);
    let (a, b, sender) = (addr(1), addr(2), addr(3));
    let mut ctx = ctx_with_peers(local, &[(a, true)]);
    // b is registered as connected but its channel is missing: transient skew
    ctx.registry.insert(b);
    let mut pool = AdmissionPool::new();
    let bytes: Vec<u8> = vec![4, 4];

    let r = process_transaction_internal(
        &mut ctx,
        &mut pool,
        &bytes,
        DecodeOutcome::Decoded(Transaction::new(6, 1)),
        ValidationOutcome::Valid,
        sender,
    );
    assert_eq!(r, Ok(TxOutcome::Propagated { successful_sends: 1 }));
    assert_eq!(outbox_of(&ctx, a).len(), 1);
}

#[test]
fn empty_registry_propagates_to_nobody() {
    let local = addr(100);
    let mut ctx = NodeContext::new(local);
    let mut pool = AdmissionPool::new();
    let bytes: Vec<u8> = vec![1];

    let r = process_transaction_internal(
        &mut ctx,
        &mut pool,
        &bytes,
        DecodeOutcome::Decoded(Transaction::new(2, 0)),
        ValidationOutcome::Valid,
        addr(1),
    );
    assert_eq!(r, Ok(TxOutcome::Propagated { successful_sends: 0 }));
    assert_eq!(pool.len(), 1);

    let count = propagate_block(&mut ctx, &bytes, addr(1));
    assert_eq!(count, 0);
}

#[test]
fn removal_allows_readmission() {
    let mut pool = AdmissionPool::new();
    let tx = Transaction::new(21, 2);
    let rec = TransactionRecord { transaction: tx, size: 8 };

    assert_eq!(pool.try_admit(rec), AdmitOutcome::Inserted);
    assert_eq!(pool.remove(21), Some(rec));
    assert_eq!(pool.len(), 0);
    assert_eq!(pool.remove(21), None);
    assert_eq!(pool.try_admit(rec), AdmitOutcome::Inserted);
    assert_eq!(pool.len(), 1);
}

#[test]
fn removal_leaves_other_entries() {
    let mut pool = AdmissionPool::new();
    let rec1 = TransactionRecord { transaction: Transaction::new(1, 0), size: 1 };
    let rec2 = TransactionRecord { transaction: Transaction::new(2, 0), size: 2 };
    pool.try_admit(rec1);
    pool.try_admit(rec2);

    assert_eq!(pool.remove(1), Some(rec1));
    assert!(pool.contains_identity(2));
    assert_eq!(pool.lookup(2), Some(rec2));
    assert_eq!(pool.len(), 1);
}

#[test]
fn registry_holds_each_address_once() {
    let mut reg = gossip_gate::PeerRegistry::new();
    let a = addr(1);
    reg.insert(a);
    reg.insert(a);
    assert_eq!(reg.len(), 1);
    assert!(reg.contains(a));
    assert!(!reg.contains(addr(2)));
}

#[test]
fn channel_write_failure_changes_nothing() {
    let a = addr(1);
    let mut broken = OutboundChannel::new(a, false);
    assert!(!broken.write(WireMessage::Block(vec![1])));
    assert!(broken.outbox.is_empty());

    let mut healthy = OutboundChannel::new(a, true);
    assert!(healthy.write(WireMessage::Block(vec![1])));
    assert_eq!(healthy.outbox, vec![WireMessage::Block(vec![1])]);
}
