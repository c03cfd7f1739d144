//! Peer endpoints and the registry of currently connected peers.

use vstd::prelude::*;

verus! {

/// A network endpoint identifier (host and port). Used as the key for both
/// registry membership and channel lookup.
#[derive(Clone, Copy, PartialEq, Eq, Structural, Hash, Debug)]
pub struct PeerAddress {
    pub host: u32,
    pub port: u16,
}

impl PeerAddress {
    pub fn new(host: u32, port: u16) -> (a: PeerAddress)
        ensures
            a.host == host,
            a.port == port,
    {
        PeerAddress { host, port }
    }
}

/// The set of peer addresses currently considered connected.
///
/// Membership is maintained by the external connection lifecycle; the pipeline
/// only reads it. A fan-out pass iterates over a point-in-time snapshot of
/// this registry.
pub struct PeerRegistry {
    pub peers: Vec<PeerAddress>,
}

impl PeerRegistry {
    /// No address is listed twice, so one fan-out pass offers at most one copy
    /// of a message to each peer.
    pub open spec fn wf(self) -> bool {
        forall|i: int, j: int|
            0 <= i < j < self.peers@.len() ==> self.peers@[i] != self.peers@[j]
    }

    pub open spec fn has_peer(self, a: PeerAddress) -> bool {
        self.peers@.contains(a)
    }

    pub fn new() -> (r: PeerRegistry)
        ensures
            r.wf(),
            r.peers@.len() == 0,
    {
        PeerRegistry { peers: Vec::new() }
    }

    pub fn len(&self) -> (n: usize)
        ensures
            n == self.peers@.len(),
    {
        self.peers.len()
    }

    pub fn contains(&self, a: PeerAddress) -> (r: bool)
        ensures
            r == self.has_peer(a),
    {
        let mut i: usize = 0;
        while i < self.peers.len()
            invariant
                i <= self.peers@.len(),
                forall|k: int| 0 <= k < i ==> self.peers@[k] != a,
            decreases self.peers@.len() - i,
        {
            if self.peers[i] == a {
                return true;
            }
            i += 1;
        }
        false
    }

    /// Record `a` as connected; connecting an already-connected peer is a
    /// no-op, so the uniqueness of entries is preserved.
    pub fn insert(&mut self, a: PeerAddress)
        requires
            old(self).wf(),
        ensures
            final(self).wf(),
            final(self).has_peer(a),
            forall|b: PeerAddress| old(self).has_peer(b) ==> final(self).has_peer(b),
            old(self).has_peer(a) ==> *final(self) == *old(self),
            !old(self).has_peer(a) ==> final(self).peers@ == old(self).peers@.push(a),
    {
        if !self.contains(a) {
            self.peers.push(a);
            assert(self.peers@.last() == a);
            assert(self.has_peer(a));
            assert forall|b: PeerAddress| old(self).has_peer(b) implies self.has_peer(b) by {
                let k = choose|k: int|
                    0 <= k < old(self).peers@.len() && old(self).peers@[k] == b;
                assert(self.peers@[k] == b);
            }
        }
    }
}

} // verus!
