//! The shared node context handed into every pipeline invocation.

use vstd::prelude::*;
use crate::channel::ChannelTable;
use crate::channel::OutboundChannel;
use crate::peer::PeerAddress;
use crate::peer::PeerRegistry;

verus! {

/// Aggregates the registry of connected peers, the table of their outbound
/// channels, and this node's own advertised address.
///
/// One context is shared by all pipeline invocations for the life of the node.
/// The pipeline never changes the peer set: it only reads the registry and
/// writes messages into channels.
pub struct NodeContext {
    pub registry: PeerRegistry,
    pub channels: ChannelTable,
    pub local_address: PeerAddress,
}

impl NodeContext {
    pub open spec fn wf(self) -> bool {
        self.registry.wf() && self.channels.wf()
    }

    pub fn new(local_address: PeerAddress) -> (c: NodeContext)
        ensures
            c.wf(),
            c.local_address == local_address,
            c.registry.peers@.len() == 0,
            c.channels.channels@.len() == 0,
    {
        NodeContext {
            registry: PeerRegistry::new(),
            channels: ChannelTable::new(),
            local_address,
        }
    }

    /// The connection lifecycle registers a peer and its channel together, so
    /// every registered peer has a channel to look up.
    pub fn connect_peer(&mut self, channel: OutboundChannel)
        requires
            old(self).wf(),
            !old(self).channels.has_channel(channel.address),
        ensures
            final(self).wf(),
            final(self).local_address == old(self).local_address,
            final(self).registry.has_peer(channel.address),
            final(self).channels.channels@ == old(self).channels.channels@.push(channel),
            forall|b: PeerAddress|
                old(self).registry.has_peer(b) ==> final(self).registry.has_peer(b),
            !old(self).registry.has_peer(channel.address)
                ==> final(self).registry.peers@
                    == old(self).registry.peers@.push(channel.address),
            old(self).registry.has_peer(channel.address)
                ==> final(self).registry == old(self).registry,
    {
        self.registry.insert(channel.address);
        self.channels.add_channel(channel);
    }
}

} // verus!
