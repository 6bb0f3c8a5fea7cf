//! The ready connections of one tier, and the outbound handshakes under
//! way, with the rules that admit a new connection.
use std::collections::{HashMap, HashSet};
use vstd::prelude::*;

use crate::peer_actor::Connection;
use crate::protocol::{PeerId, PeerType};

verus! {

broadcast use vstd::std_specs::hash::group_hash_axioms;

/// Why a connection was not admitted.
#[derive(Clone, Copy, Debug, PartialEq, Eq, Structural)]
pub enum PoolError {
    /// A ready connection to the peer exists.
    AlreadyConnected,
    /// This node is already connecting to the peer, and wins the tie.
    AlreadyStartedConnecting,
    /// The peer is this node.
    LoopConnection,
}

/// Whether an inbound connection from `peer` loses to this node's own
/// outbound handshake to it: the side with the smaller id keeps the
/// connection it opened.
pub open spec fn inbound_loses_tie(me: PeerId, peer: PeerId) -> bool {
    peer.0 >= me.0
}

/// The connections of one tier.
pub struct Pool {
    me: PeerId,
    ready: HashMap<u64, Connection>,
    outbound_handshakes: HashSet<u64>,
}

impl Pool {
    pub closed spec fn me(&self) -> PeerId {
        self.me
    }

    /// The ready connections, by peer id.
    pub closed spec fn ready(&self) -> Map<u64, Connection> {
        self.ready@
    }

    /// The peers this node is handshaking with on an outbound stream.
    pub closed spec fn outbound(&self) -> Set<u64> {
        self.outbound_handshakes@
    }

    pub fn new(me: PeerId) -> (r: Self)
        ensures
            r.me() == me,
            r.ready() == Map::<u64, Connection>::empty(),
            r.outbound() == Set::<u64>::empty(),
    {
        Pool { me, ready: HashMap::new(), outbound_handshakes: HashSet::new() }
    }

    /// Reserves the outbound handshake to `peer_id`; fails if the peer is
    /// connected or a handshake to it is already under way.
    pub fn start_outbound(&mut self, peer_id: PeerId) -> (r: Result<(), PoolError>)
        ensures
            final(self).me() == old(self).me(),
            final(self).ready() == old(self).ready(),
            r == (if old(self).ready().contains_key(peer_id.0) {
                Err(PoolError::AlreadyConnected)
            } else if old(self).outbound().contains(peer_id.0) {
                Err(PoolError::AlreadyStartedConnecting)
            } else {
                Ok(())
            }),
            final(self).outbound() == (if r is Ok {
                old(self).outbound().insert(peer_id.0)
            } else {
                old(self).outbound()
            }),
    {
        if self.ready.contains_key(&peer_id.0) {
            return Err(PoolError::AlreadyConnected);
        }
        if self.outbound_handshakes.contains(&peer_id.0) {
            return Err(PoolError::AlreadyStartedConnecting);
        }
        self.outbound_handshakes.insert(peer_id.0);
        Ok(())
    }

    /// Releases the outbound handshake to `peer_id` (the handshake ended).
    pub fn finish_outbound(&mut self, peer_id: PeerId)
        ensures
            final(self).me() == old(self).me(),
            final(self).ready() == old(self).ready(),
            final(self).outbound() == old(self).outbound().remove(peer_id.0),
    {
        self.outbound_handshakes.remove(&peer_id.0);
    }

    /// Admits a handshaked connection: refused to oneself, to a peer already
    /// connected, and, for an inbound connection racing this node's own
    /// outbound handshake, when this node wins the tie. An admitted outbound
    /// connection ends its handshake.
    pub fn insert_ready(&mut self, conn: Connection) -> (r: Result<(), PoolError>)
        ensures
            final(self).me() == old(self).me(),
            r == (if conn.peer_id == old(self).me() {
                Err(PoolError::LoopConnection)
            } else if old(self).ready().contains_key(conn.peer_id.0) {
                Err(PoolError::AlreadyConnected)
            } else if conn.peer_type == PeerType::Inbound && old(self).outbound().contains(conn.peer_id.0)
                && inbound_loses_tie(old(self).me(), conn.peer_id) {
                Err(PoolError::AlreadyStartedConnecting)
            } else {
                Ok(())
            }),
            r is Ok ==> final(self).ready() == old(self).ready().insert(conn.peer_id.0, conn),
            r is Err ==> final(self).ready() == old(self).ready(),
            final(self).outbound() == (if r is Ok && conn.peer_type == PeerType::Outbound {
                old(self).outbound().remove(conn.peer_id.0)
            } else {
                old(self).outbound()
            }),
    {
        let id = conn.peer_id.0;
        if conn.peer_id == self.me {
            return Err(PoolError::LoopConnection);
        }
        if self.ready.contains_key(&id) {
            return Err(PoolError::AlreadyConnected);
        }
        if conn.peer_type == PeerType::Inbound && self.outbound_handshakes.contains(&id) && id
            >= self.me.0 {
            return Err(PoolError::AlreadyStartedConnecting);
        }
        if conn.peer_type == PeerType::Outbound {
            self.outbound_handshakes.remove(&id);
        }
        self.ready.insert(id, conn);
        Ok(())
    }

    /// Drops the ready connection to `peer_id`, if any.
    pub fn remove(&mut self, peer_id: PeerId) -> (r: bool)
        ensures
            r == old(self).ready().contains_key(peer_id.0),
            final(self).me() == old(self).me(),
            final(self).ready() == old(self).ready().remove(peer_id.0),
            final(self).outbound() == old(self).outbound(),
    {
        self.ready.remove(&peer_id.0).is_some()
    }

    /// Whether a ready connection to `peer_id` exists.
    pub fn is_connected(&self, peer_id: PeerId) -> (r: bool)
        ensures
            r == self.ready().contains_key(peer_id.0),
    {
        self.ready.contains_key(&peer_id.0)
    }
}

/// When two distinct nodes connect to each other at the same time, exactly
/// one of the two inbound connections loses the tie, so exactly one
/// connection survives.
pub proof fn lemma_simultaneous_connect_tie_break(a: PeerId, b: PeerId)
    requires
        a != b,
    ensures
        inbound_loses_tie(a, b) != inbound_loses_tie(b, a),
{
}

} // verus!
