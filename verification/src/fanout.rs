//! Best-effort fan-out of one message to the eligible connected peers.

use vstd::prelude::*;
use crate::channel::lemma_channel_presence_preserved;
use crate::channel::ChannelTable;
use crate::channel::SendAttempt;
use crate::context::NodeContext;
use crate::message::envelope;
use crate::message::MessageKind;
use crate::peer::PeerAddress;
use crate::peer::PeerRegistry;

verus! {

/// Peer `p` is an eligible fan-out target: neither the originator of the
/// message (its sender or miner) nor the local node itself. The double
/// exclusion keeps a message from echoing back to whoever sent it and keeps
/// the node from messaging itself when it appears in its own registry.
pub open spec fn eligible(p: PeerAddress, originator: PeerAddress, local: PeerAddress) -> bool {
    p != originator && p != local
}

/// Of the first `n` registry entries, how many are eligible targets whose
/// channel exists and accepts the write.
pub open spec fn successful_sends_upto(
    reg: Seq<PeerAddress>,
    table: ChannelTable,
    originator: PeerAddress,
    local: PeerAddress,
    n: int,
) -> nat
    decreases n,
{
    if n <= 0 {
        0
    } else {
        successful_sends_upto(reg, table, originator, local, n - 1)
            + if eligible(reg[n - 1], originator, local)
                && table.has_deliverable_channel(reg[n - 1]) { 1nat } else { 0nat }
    }
}

/// The success count one fan-out pass over `reg` against `table` reports.
pub open spec fn successful_sends(
    reg: Seq<PeerAddress>,
    table: ChannelTable,
    originator: PeerAddress,
    local: PeerAddress,
) -> nat {
    successful_sends_upto(reg, table, originator, local, reg.len() as int)
}

/// Of the first `n` registry entries, how many writes the pass attempts: one
/// per eligible target that has a channel at all (an eligible peer without a
/// channel is skipped silently, tolerated as transient registry/table skew).
pub open spec fn attempted_sends_upto(
    reg: Seq<PeerAddress>,
    table: ChannelTable,
    originator: PeerAddress,
    local: PeerAddress,
    n: int,
) -> nat
    decreases n,
{
    if n <= 0 {
        0
    } else {
        attempted_sends_upto(reg, table, originator, local, n - 1)
            + if eligible(reg[n - 1], originator, local)
                && table.has_channel(reg[n - 1]) { 1nat } else { 0nat }
    }
}

pub open spec fn attempted_sends(
    reg: Seq<PeerAddress>,
    table: ChannelTable,
    originator: PeerAddress,
    local: PeerAddress,
) -> nat {
    attempted_sends_upto(reg, table, originator, local, reg.len() as int)
}

/// Of the first `n` registry entries, how many attempted writes fail: the
/// eligible targets whose channel exists but does not accept the write.
pub open spec fn failed_sends_upto(
    reg: Seq<PeerAddress>,
    table: ChannelTable,
    originator: PeerAddress,
    local: PeerAddress,
    n: int,
) -> nat
    decreases n,
{
    if n <= 0 {
        0
    } else {
        failed_sends_upto(reg, table, originator, local, n - 1)
            + if eligible(reg[n - 1], originator, local)
                && table.has_channel(reg[n - 1])
                && !table.has_deliverable_channel(reg[n - 1]) { 1nat } else { 0nat }
    }
}

pub open spec fn failed_sends(
    reg: Seq<PeerAddress>,
    table: ChannelTable,
    originator: PeerAddress,
    local: PeerAddress,
) -> nat {
    failed_sends_upto(reg, table, originator, local, reg.len() as int)
}

/// Channel `k` of `pre` receives the fan-out: its peer is connected, eligible,
/// and the channel accepts the write.
pub open spec fn fanout_writes(
    registry: PeerRegistry,
    pre: ChannelTable,
    k: int,
    originator: PeerAddress,
    local: PeerAddress,
) -> bool {
    &&& registry.has_peer(pre.channels@[k].address)
    &&& eligible(pre.channels@[k].address, originator, local)
    &&& pre.channels@[k].deliverable
}

/// What one fan-out pass does to the channel table: every channel of a
/// connected, eligible peer whose write succeeds gets exactly one `kind`
/// envelope carrying `payload` appended to its outbox; every other channel —
/// the originator's, the local node's, the unconnected ones and the failing
/// ones — is left exactly as it was.
pub open spec fn fanout_effect(
    registry: PeerRegistry,
    pre: ChannelTable,
    post: ChannelTable,
    kind: MessageKind,
    payload: Seq<u8>,
    originator: PeerAddress,
    local: PeerAddress,
) -> bool {
    &&& post.channels@.len() == pre.channels@.len()
    &&& forall|k: int| 0 <= k < pre.channels@.len() ==> {
        &&& (#[trigger] post.channels@[k]).address == pre.channels@[k].address
        &&& post.channels@[k].deliverable == pre.channels@[k].deliverable
    }
    &&& forall|k: int|
        0 <= k < pre.channels@.len() && fanout_writes(registry, pre, k, originator, local)
            ==> (#[trigger] post.channels@[k]).outbox_views()
                == pre.channels@[k].outbox_views().push(envelope(kind, payload))
    &&& forall|k: int|
        0 <= k < pre.channels@.len() && !fanout_writes(registry, pre, k, originator, local)
            ==> #[trigger] post.channels@[k] == pre.channels@[k]
}

/// `a` occurs among the first `j` registry entries.
spec fn appears_before(reg: Seq<PeerAddress>, a: PeerAddress, j: int) -> bool {
    exists|m: int| 0 <= m < j && reg[m] == a
}

/// Channel `k` has been written by the pass once the first `j` registry
/// entries are handled.
spec fn written_by(
    reg: Seq<PeerAddress>,
    table: ChannelTable,
    k: int,
    originator: PeerAddress,
    local: PeerAddress,
    j: int,
) -> bool {
    &&& appears_before(reg, table.channels@[k].address, j)
    &&& eligible(table.channels@[k].address, originator, local)
    &&& table.channels@[k].deliverable
}

/// Offer one `kind` envelope carrying `payload` to every connected peer except
/// `originator` and the local node, over a point-in-time snapshot of the
/// registry. Best-effort: a peer without a channel is skipped, a failed write
/// is absorbed, and neither stops the pass; the returned count says how many
/// writes succeeded.
pub fn fan_out(
    context: &mut NodeContext,
    kind: MessageKind,
    payload: &Vec<u8>,
    originator: PeerAddress,
) -> (count: usize)
    requires
        old(context).wf(),
    ensures
        final(context).wf(),
        final(context).registry == old(context).registry,
        final(context).local_address == old(context).local_address,
        fanout_effect(
            old(context).registry,
            old(context).channels,
            final(context).channels,
            kind,
            payload@,
            originator,
            old(context).local_address,
        ),
        count == successful_sends(
            old(context).registry.peers@,
            old(context).channels,
            originator,
            old(context).local_address,
        ),
{
    let ghost pre = *context;
    let ghost reg = context.registry.peers@;
    let local = context.local_address;
    let mut count: usize = 0;
    let mut j: usize = 0;
    let n = context.registry.len();
    while j < n
        invariant
            pre.wf(),
            n == reg.len(),
            j <= n,
            count <= j,
            context.registry == pre.registry,
            context.local_address == pre.local_address,
            local == pre.local_address,
            reg == pre.registry.peers@,
            context.channels.wf(),
            context.channels.channels@.len() == pre.channels.channels@.len(),
            forall|k: int| 0 <= k < pre.channels.channels@.len() ==> {
                &&& (#[trigger] context.channels.channels@[k]).address
                    == pre.channels.channels@[k].address
                &&& context.channels.channels@[k].deliverable
                    == pre.channels.channels@[k].deliverable
            },
            forall|k: int|
                0 <= k < pre.channels.channels@.len()
                    && written_by(reg, pre.channels, k, originator, local, j as int)
                    ==> (#[trigger] context.channels.channels@[k]).outbox_views()
                        == pre.channels.channels@[k].outbox_views()
                            .push(envelope(kind, payload@)),
            forall|k: int|
                0 <= k < pre.channels.channels@.len()
                    && !written_by(reg, pre.channels, k, originator, local, j as int)
                    ==> #[trigger] context.channels.channels@[k]
                        == pre.channels.channels@[k],
            count == successful_sends_upto(reg, pre.channels, originator, local, j as int),
        decreases n - j,
    {
        let p = context.registry.peers[j];
        proof {
            assert(p == reg[j as int]);
            // The registry holds each address once, so `p` has not been
            // handled by an earlier iteration.
            assert forall|m: int| 0 <= m < j implies reg[m] != p by {
                assert(pre.registry.wf());
            }
            assert(!appears_before(reg, p, j as int));
        }
        if p != originator && p != local {
            let ghost t_pre = context.channels;
            let r = context.channels.send_to(p, kind, payload);
            proof {
                lemma_channel_presence_preserved(pre.channels, t_pre, p);
                assert forall|k: int|
                    0 <= k < pre.channels.channels@.len()
                        && written_by(reg, pre.channels, k, originator, local, j as int + 1)
                        implies (#[trigger] context.channels.channels@[k]).outbox_views()
                            == pre.channels.channels@[k].outbox_views()
                                .push(envelope(kind, payload@)) by {
                    let a = pre.channels.channels@[k].address;
                    if appears_before(reg, a, j as int) {
                        // written earlier; this iteration targets `p != a`
                        assert(a != p);
                        assert(!(t_pre.channels@[k].address == p && t_pre.channels@[k].deliverable));
                        assert(context.channels.channels@[k] == t_pre.channels@[k]);
                    } else {
                        // first written now: its address must be `p`
                        let m = choose|m: int| 0 <= m < j as int + 1 && reg[m] == a;
                        assert(m == j as int);
                        assert(a == p);
                        assert(!written_by(reg, pre.channels, k, originator, local, j as int));
                        assert(t_pre.channels@[k] == pre.channels.channels@[k]);
                        assert(t_pre.channels@[k].address == p && t_pre.channels@[k].deliverable);
                    }
                }
                assert forall|k: int|
                    0 <= k < pre.channels.channels@.len()
                        && !written_by(reg, pre.channels, k, originator, local, j as int + 1)
                        implies #[trigger] context.channels.channels@[k]
                            == pre.channels.channels@[k] by {
                    let a = pre.channels.channels@[k].address;
                    assert(!written_by(reg, pre.channels, k, originator, local, j as int));
                    assert(context.channels.channels@[k] == t_pre.channels@[k]
                        || (t_pre.channels@[k].address == p && t_pre.channels@[k].deliverable));
                    if t_pre.channels@[k].address == p && t_pre.channels@[k].deliverable {
                        // the channel of `p`, and deliverable: it was written now,
                        // contradicting !written_by at j + 1
                        assert(appears_before(reg, p, j as int + 1));
                        assert(a == p && pre.channels.channels@[k].deliverable);
                        assert(eligible(a, originator, local));
                        assert(false);
                    }
                }
            }
            match r {
                SendAttempt::Sent => {
                    proof {
                        assert(t_pre.has_deliverable_channel(p));
                        assert(pre.channels.has_deliverable_channel(reg[j as int]));
                        assert(successful_sends_upto(reg, pre.channels, originator, local, j as int + 1)
                            == successful_sends_upto(reg, pre.channels, originator, local, j as int) + 1);
                    }
                    count += 1;
                },
                _ => {
                    proof {
                        assert(!t_pre.has_deliverable_channel(p));
                        assert(!pre.channels.has_deliverable_channel(reg[j as int]));
                        assert(successful_sends_upto(reg, pre.channels, originator, local, j as int + 1)
                            == successful_sends_upto(reg, pre.channels, originator, local, j as int));
                    }
                },
            }
        } else {
            proof {
                assert(!eligible(reg[j as int], originator, local));
                assert(successful_sends_upto(reg, pre.channels, originator, local, j as int + 1)
                    == successful_sends_upto(reg, pre.channels, originator, local, j as int));
                assert forall|k: int|
                    0 <= k < pre.channels.channels@.len()
                        && !written_by(reg, pre.channels, k, originator, local, j as int + 1)
                        implies #[trigger] context.channels.channels@[k]
                            == pre.channels.channels@[k] by {
                    assert(!written_by(reg, pre.channels, k, originator, local, j as int));
                }
                assert forall|k: int|
                    0 <= k < pre.channels.channels@.len()
                        && written_by(reg, pre.channels, k, originator, local, j as int + 1)
                        implies (#[trigger] context.channels.channels@[k]).outbox_views()
                            == pre.channels.channels@[k].outbox_views()
                                .push(envelope(kind, payload@)) by {
                    let a = pre.channels.channels@[k].address;
                    if !written_by(reg, pre.channels, k, originator, local, j as int) {
                        let m = choose|m: int| 0 <= m < j as int + 1 && reg[m] == a;
                        assert(m == j as int);
                        assert(!eligible(a, originator, local));
                        assert(false);
                    }
                }
            }
        }
        j += 1;
    }
    proof {
        assert forall|k: int| 0 <= k < pre.channels.channels@.len() implies
            written_by(reg, pre.channels, k, originator, local, reg.len() as int)
                == fanout_writes(pre.registry, pre.channels, k, originator, local) by {
            let a = pre.channels.channels@[k].address;
            if appears_before(reg, a, reg.len() as int) {
                let m = choose|m: int| 0 <= m < reg.len() && reg[m] == a;
                assert(pre.registry.has_peer(a));
            }
            if pre.registry.has_peer(a) {
                let m = choose|m: int| 0 <= m < reg.len() && reg[m] == a;
                assert(appears_before(reg, a, reg.len() as int));
            }
        }
    }
    count
}

proof fn lemma_send_accounting_upto(
    reg: Seq<PeerAddress>,
    table: ChannelTable,
    originator: PeerAddress,
    local: PeerAddress,
    n: int,
)
    requires
        n <= reg.len(),
    ensures
        successful_sends_upto(reg, table, originator, local, n)
            + failed_sends_upto(reg, table, originator, local, n)
            == attempted_sends_upto(reg, table, originator, local, n),
    decreases n,
{
    if n > 0 {
        lemma_send_accounting_upto(reg, table, originator, local, n - 1);
        let a = reg[n - 1];
        if table.has_deliverable_channel(a) {
            let k = choose|k: int|
                0 <= k < table.channels@.len()
                    && table.channels@[k].address == a
                    && table.channels@[k].deliverable;
            assert(table.has_channel(a));
        }
    }
}

/// Best-effort fan-out accounting: the writes a pass attempts (one per
/// eligible connected peer that has a channel) are partitioned into the ones
/// that succeed and the ones that fail, so when writes to `k` of `n` eligible
/// peers fail, the pass still reaches all `n` and reports `n - k` successes.
pub proof fn lemma_best_effort_accounting(
    reg: Seq<PeerAddress>,
    table: ChannelTable,
    originator: PeerAddress,
    local: PeerAddress,
)
    ensures
        successful_sends(reg, table, originator, local)
            + failed_sends(reg, table, originator, local)
            == attempted_sends(reg, table, originator, local),
{
    lemma_send_accounting_upto(reg, table, originator, local, reg.len() as int);
}

} // verus!
