//! Per-peer outbound channels and the table that maps a peer address to one.

use vstd::prelude::*;
use crate::message::envelope;
use crate::message::MessageKind;
use crate::message::MessageView;
use crate::message::WireMessage;
use crate::peer::PeerAddress;

verus! {

/// One peer's outbound channel: a sink that accepts wire messages addressed
/// to that peer and can fail independently of every other peer's channel.
///
/// The transport that drains `outbox` onto the network is an external
/// collaborator; `deliverable` stands for whether a write to this peer
/// currently succeeds, so one unreachable peer never affects the others.
pub struct OutboundChannel {
    pub address: PeerAddress,
    pub deliverable: bool,
    pub outbox: Vec<WireMessage>,
}

impl OutboundChannel {
    /// The messages accepted so far, as message values in order of acceptance.
    pub open spec fn outbox_views(self) -> Seq<MessageView> {
        self.outbox@.map_values(|m: WireMessage| m@)
    }

    pub fn new(address: PeerAddress, deliverable: bool) -> (c: OutboundChannel)
        ensures
            c.address == address,
            c.deliverable == deliverable,
            c.outbox_views() == Seq::<MessageView>::empty(),
    {
        let c = OutboundChannel { address, deliverable, outbox: Vec::new() };
        proof {
            assert(c.outbox_views() =~= Seq::<MessageView>::empty());
        }
        c
    }

    /// Hand one message to this channel. A failed write changes nothing and
    /// is reported to the caller, who may go on with other peers.
    pub fn write(&mut self, m: WireMessage) -> (r: bool)
        ensures
            final(self).address == old(self).address,
            final(self).deliverable == old(self).deliverable,
            r == old(self).deliverable,
            r ==> final(self).outbox_views() == old(self).outbox_views().push(m@),
            !r ==> *final(self) == *old(self),
    {
        if self.deliverable {
            self.outbox.push(m);
            proof {
                assert(self.outbox_views() =~= old(self).outbox_views().push(m@));
            }
            true
        } else {
            false
        }
    }
}

/// The verdict of one per-peer send attempt.
#[derive(Clone, Copy, PartialEq, Eq, Structural, Debug)]
pub enum SendAttempt {
    /// The channel accepted the message.
    Sent,
    /// A channel exists but the write to it failed; only this peer is affected.
    WriteFailed,
    /// No channel is known for the address; the peer is skipped silently,
    /// since the registry and the table may be transiently out of sync.
    NoChannel,
}

/// Maps each connected peer's address to its outbound channel. Entries are
/// maintained by the external connection lifecycle; the pipeline only looks
/// addresses up and writes messages.
pub struct ChannelTable {
    pub channels: Vec<OutboundChannel>,
}

impl ChannelTable {
    /// At most one channel per address, so "the channel of peer `a`" is
    /// unambiguous and one fan-out pass writes to it at most once.
    pub open spec fn wf(self) -> bool {
        forall|i: int, j: int|
            0 <= i < j < self.channels@.len()
                ==> self.channels@[i].address != self.channels@[j].address
    }

    pub open spec fn has_channel(self, a: PeerAddress) -> bool {
        exists|i: int|
            0 <= i < self.channels@.len() && self.channels@[i].address == a
    }

    /// A channel for `a` exists and a write to it currently succeeds.
    pub open spec fn has_deliverable_channel(self, a: PeerAddress) -> bool {
        exists|i: int|
            0 <= i < self.channels@.len()
                && self.channels@[i].address == a
                && self.channels@[i].deliverable
    }

    pub fn new() -> (t: ChannelTable)
        ensures
            t.wf(),
            t.channels@.len() == 0,
    {
        ChannelTable { channels: Vec::new() }
    }

    pub fn len(&self) -> (n: usize)
        ensures
            n == self.channels@.len(),
    {
        self.channels.len()
    }

    /// Register a channel for a peer that has none yet.
    pub fn add_channel(&mut self, c: OutboundChannel)
        requires
            old(self).wf(),
            !old(self).has_channel(c.address),
        ensures
            final(self).wf(),
            final(self).channels@ == old(self).channels@.push(c),
            final(self).has_channel(c.address),
    {
        self.channels.push(c);
        proof {
            assert(self.channels@.last() == c);
            assert forall|i: int, j: int|
                0 <= i < j < self.channels@.len() implies
                self.channels@[i].address != self.channels@[j].address by {
                if j < self.channels@.len() - 1 {
                    assert(old(self).channels@[i].address != old(self).channels@[j].address);
                } else {
                    assert(self.channels@[j] == c);
                    assert(!old(self).has_channel(c.address));
                    assert(old(self).channels@[i].address != c.address);
                }
            }
        }
    }

    fn find(&self, a: PeerAddress) -> (r: Option<usize>)
        ensures
            match r {
                Some(i) => i < self.channels@.len() && self.channels@[i as int].address == a,
                None => !self.has_channel(a),
            },
    {
        let mut i: usize = 0;
        while i < self.channels.len()
            invariant
                i <= self.channels@.len(),
                forall|k: int| 0 <= k < i ==> self.channels@[k].address != a,
            decreases self.channels@.len() - i,
        {
            if self.channels[i].address == a {
                return Some(i);
            }
            i += 1;
        }
        None
    }

    /// Look the peer's channel up and offer it one `kind` envelope carrying
    /// `payload`. Exactly the channel of `a` can change, and only by accepting
    /// that envelope at the end of its outbox.
    pub fn send_to(&mut self, a: PeerAddress, kind: MessageKind, payload: &Vec<u8>) -> (r: SendAttempt)
        requires
            old(self).wf(),
        ensures
            final(self).wf(),
            final(self).channels@.len() == old(self).channels@.len(),
            forall|k: int| 0 <= k < old(self).channels@.len() ==> {
                &&& (#[trigger] final(self).channels@[k]).address == old(self).channels@[k].address
                &&& final(self).channels@[k].deliverable == old(self).channels@[k].deliverable
            },
            forall|k: int|
                0 <= k < old(self).channels@.len()
                    && !(old(self).channels@[k].address == a && old(self).channels@[k].deliverable)
                    ==> final(self).channels@[k] == old(self).channels@[k],
            forall|k: int|
                0 <= k < old(self).channels@.len()
                    && (#[trigger] old(self).channels@[k]).address == a
                    && old(self).channels@[k].deliverable
                    ==> final(self).channels@[k].outbox_views()
                        == old(self).channels@[k].outbox_views().push(envelope(kind, payload@)),
            (r == SendAttempt::Sent) == old(self).has_deliverable_channel(a),
            (r == SendAttempt::NoChannel) == !old(self).has_channel(a),
            (r == SendAttempt::WriteFailed)
                == (old(self).has_channel(a) && !old(self).has_deliverable_channel(a)),
    {
        match self.find(a) {
            None => SendAttempt::NoChannel,
            Some(i) => {
                let ghost pre = *self;
                let m = WireMessage::new(kind, payload.clone());
                let c = &mut self.channels[i];
                let ok = c.write(m);
                proof {
                    assert(self.channels@ == pre.channels@.update(i as int, self.channels@[i as int]));
                    assert forall|k: int|
                        0 <= k < pre.channels@.len() && k != i implies
                        self.channels@[k] == pre.channels@[k] by {}
                    // Uniqueness: no channel other than `i` carries address `a`.
                    assert forall|k: int|
                        0 <= k < pre.channels@.len() && pre.channels@[k].address == a implies
                        k == i by {
                        if k != i {
                            assert(pre.channels@[k].address != pre.channels@[i as int].address);
                        }
                    }
                    if ok {
                        assert(pre.has_deliverable_channel(a));
                    } else {
                        assert(!pre.has_deliverable_channel(a));
                    }
                }
                if ok {
                    SendAttempt::Sent
                } else {
                    SendAttempt::WriteFailed
                }
            },
        }
    }
}

/// Whether a peer has a channel, and whether that channel accepts writes,
/// depends only on each entry's address and flag: any change that keeps both
/// keeps the two membership queries.
pub proof fn lemma_channel_presence_preserved(pre: ChannelTable, post: ChannelTable, a: PeerAddress)
    requires
        post.channels@.len() == pre.channels@.len(),
        forall|k: int| 0 <= k < pre.channels@.len() ==> {
            &&& (#[trigger] post.channels@[k]).address == pre.channels@[k].address
            &&& post.channels@[k].deliverable == pre.channels@[k].deliverable
        },
    ensures
        post.has_channel(a) == pre.has_channel(a),
        post.has_deliverable_channel(a) == pre.has_deliverable_channel(a),
{
    if pre.has_channel(a) {
        let k = choose|k: int|
            0 <= k < pre.channels@.len() && pre.channels@[k].address == a;
        assert(post.channels@[k].address == a);
    }
    if post.has_channel(a) {
        let k = choose|k: int|
            0 <= k < post.channels@.len() && post.channels@[k].address == a;
        assert(pre.channels@[k].address == a);
    }
    if pre.has_deliverable_channel(a) {
        let k = choose|k: int|
            0 <= k < pre.channels@.len()
                && pre.channels@[k].address == a
                && pre.channels@[k].deliverable;
        assert(post.channels@[k].address == a && post.channels@[k].deliverable);
    }
    if post.has_deliverable_channel(a) {
        let k = choose|k: int|
            0 <= k < post.channels@.len()
                && post.channels@[k].address == a
                && post.channels@[k].deliverable;
        assert(pre.channels@[k].address == a && pre.channels@[k].deliverable);
    }
}

} // verus!
