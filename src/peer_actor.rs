//! The per-connection peer state machine: handshake negotiation, encoding
//! choice, duplicate and rate filtering of received frames, and the routing
//! of messages to the rest of the node.
//!
//! The machine does no I/O. Its driver reads frames, asks the outside
//! services (clock, signer, routing table, connection pool, clients) what
//! the machine needs to know, calls the machine, and carries out what it
//! decides.
use vstd::prelude::*;

use crate::dispatch::{receive_message, dispatch_of, Dispatch};
use crate::primitives::{CryptoHash, ShardId};
use crate::protocol::{
    edge_between, expects_response, routed_key, tier_allows, Edge, EdgeState, Encoding, GenesisId,
    Handshake, HandshakeFailureReason, PartialEdgeInfo, PeerChainInfo, PeerId,
    PeerInfo, PeerMessage, PeerType, ProtocolVersion, ReasonForBan, RoutedMessage,
    RoutedMessageBody, RoutingTableUpdate, Signature, SyncAccountsData, Tier,
};
use crate::routed_cache::{is_recent_duplicate, RoutedKey, RoutedMessageCache};
use crate::tracker::{recent_with, Tracker};

verus! {

/// Largest encoded message, in bytes. Frame lengths are 32-bit.
pub const NETWORK_MESSAGE_MAX_SIZE_BYTES: usize = 512 * 1024 * 1024;

/// Forwarded transactions accepted between two blocks, over all connections.
pub const MAX_TRANSACTIONS_PER_BLOCK_MESSAGE: u64 = 1000;

/// What the machine knows of its own node.
pub struct NodeConfig {
    pub my_peer_id: PeerId,
    pub genesis_id: GenesisId,
    /// The protocol version this node speaks.
    pub protocol_version: ProtocolVersion,
    /// The oldest protocol version this node accepts.
    pub min_allowed_protocol_version: ProtocolVersion,
    pub listen_port: Option<u16>,
    pub archival: bool,
    /// For this many milliseconds after a connection is established, removed
    /// edges in routing table updates from it are ignored.
    pub skip_tombstones_ms: Option<u64>,
}

/// Which side opened the stream; an outbound stream knows whom it expects.
#[derive(Clone, Copy, Debug, PartialEq, Eq, Structural)]
pub enum StreamConfig {
    Inbound,
    Outbound { peer_id: PeerId, tier: Tier },
}

/// OUTBOUND only: the handshake this side sends, which changes as the peer
/// answers with a failure or with its last edge.
#[derive(Clone, Copy, Debug, PartialEq, Eq, Structural)]
pub struct HandshakeSpec {
    pub peer_id: PeerId,
    pub genesis_id: GenesisId,
    pub tier: Tier,
    pub protocol_version: ProtocolVersion,
    pub partial_edge_info: PartialEdgeInfo,
}

/// A handshaked session with a peer.
#[derive(Clone, Debug, PartialEq, Eq)]
pub struct Connection {
    pub tier: Tier,
    pub peer_id: PeerId,
    pub peer_listen_port: Option<u16>,
    pub peer_type: PeerType,
    pub edge: Edge,
    pub initial_chain_info: PeerChainInfo,
    /// Largest block height seen from the peer.
    pub chain_height: u64,
    pub last_time_peer_requested: u64,
    pub last_time_received_message: u64,
    pub connection_established_time: u64,
}

/// Where the machine is: negotiating, ready, or banned and about to stop.
#[derive(Clone, Debug, PartialEq, Eq)]
pub enum PeerStatus {
    Connecting,
    Ready(Connection),
    Banned(ReasonForBan),
}

/// What this node tells about its chain in a handshake.
pub struct ChainInfo {
    pub height: u64,
    pub tracked_shards: Vec<ShardId>,
}

/// How the stream failed.
#[derive(Clone, Copy, Debug, PartialEq, Eq, Structural)]
pub enum IoErrorKind {
    UnexpectedEof,
    ConnectionReset,
    Other,
}

/// A failure of the framed stream.
#[derive(Clone, Copy, Debug, PartialEq, Eq, Structural)]
pub enum StreamError {
    Closed,
    MessageTooLarge { declared: u64 },
    RecvIo(IoErrorKind),
    QueueOverflow { pending_bytes: u64 },
    SendIo(IoErrorKind),
}

/// What the connection pool is told when the machine stops.
#[derive(Clone, Copy, Debug, PartialEq, Eq, Structural)]
pub enum ManagerNotice {
    Ban { peer_id: PeerId, ban_reason: ReasonForBan },
    Unregister { peer_id: PeerId, peer_type: PeerType, remove_from_peer_store: bool },
}

/// The encoding rule: a forced encoding wins; then proto once the peer
/// showed it speaks it; then none while connecting (try both), borsh after.
pub open spec fn encoding_for(force: Option<Encoding>, proto_seen: bool, connecting: bool) -> Option<Encoding> {
    if force.is_some() {
        force
    } else if proto_seen {
        Some(Encoding::Proto)
    } else if connecting {
        None
    } else {
        Some(Encoding::Borsh)
    }
}

/// The peer state machine of one connection.
pub struct PeerActor {
    config: NodeConfig,
    peer_type: PeerType,
    handshake_spec: Option<HandshakeSpec>,
    tracker: Tracker,
    routed_message_cache: RoutedMessageCache,
    protocol_buffers_supported: bool,
    force_encoding: Option<Encoding>,
    peer_status: PeerStatus,
    peer_id: Option<PeerId>,
}

impl PeerActor {
    pub closed spec fn config(&self) -> &NodeConfig {
        &self.config
    }

    pub closed spec fn peer_type(&self) -> PeerType {
        self.peer_type
    }

    pub closed spec fn handshake_spec(&self) -> Option<HandshakeSpec> {
        self.handshake_spec
    }

    pub closed spec fn status(&self) -> PeerStatus {
        self.peer_status
    }

    pub closed spec fn forced_encoding(&self) -> Option<Encoding> {
        self.force_encoding
    }

    pub closed spec fn proto_seen(&self) -> bool {
        self.protocol_buffers_supported
    }

    /// The peer, once known.
    pub closed spec fn other_peer(&self) -> Option<PeerId> {
        self.peer_id
    }

    /// When each recently accepted routed message arrived.
    pub closed spec fn routed_seen(&self) -> Map<RoutedKey, u64> {
        self.routed_message_cache.seen()
    }

    pub closed spec fn tracker_view(&self) -> &Tracker {
        &self.tracker
    }

    /// The stored handshake specification exists exactly for outbound
    /// connections, and the owned caches are well formed.
    pub closed spec fn wf(&self) -> bool {
        &&& self.routed_message_cache.wf()
        &&& self.tracker.wf()
        &&& (self.peer_type == PeerType::Outbound <==> self.handshake_spec.is_some())
    }

    pub open spec fn is_connecting(&self) -> bool {
        self.status() == PeerStatus::Connecting
    }

    /// A machine for a new stream. An outbound stream proposes the partial
    /// edge `partial_edge_info` in its handshake; `T1` outbound streams
    /// always use proto, since only proto carries the `T1` handshake.
    pub fn new(
        config: NodeConfig,
        stream_config: StreamConfig,
        force_encoding: Option<Encoding>,
        partial_edge_info: PartialEdgeInfo,
    ) -> (r: Self)
        ensures
            r.wf(),
            r.is_connecting(),
            r.config() == config,
            r.routed_seen() == Map::<RoutedKey, u64>::empty(),
            !r.proto_seen(),
            r.forced_encoding() == (match stream_config {
                StreamConfig::Outbound { tier: Tier::T1, .. } => Some(Encoding::Proto),
                _ => force_encoding,
            }),
            match stream_config {
                StreamConfig::Inbound => {
                    &&& r.peer_type() == PeerType::Inbound
                    &&& r.handshake_spec() == None::<HandshakeSpec>
                    &&& r.other_peer() == None::<PeerId>
                },
                StreamConfig::Outbound { peer_id, tier } => {
                    &&& r.peer_type() == PeerType::Outbound
                    &&& r.handshake_spec() == Some(
                        HandshakeSpec {
                            peer_id,
                            genesis_id: config.genesis_id,
                            tier,
                            protocol_version: config.protocol_version,
                            partial_edge_info,
                        },
                    )
                    &&& r.other_peer() == Some(peer_id)
                },
            },
    {
        let force_encoding = match stream_config {
            StreamConfig::Outbound { tier: Tier::T1, .. } => Some(Encoding::Proto),
            _ => force_encoding,
        };
        let (peer_type, handshake_spec, peer_id) = match stream_config {
            StreamConfig::Inbound => (PeerType::Inbound, None, None),
            StreamConfig::Outbound { peer_id, tier } => (
                PeerType::Outbound,
                Some(
                    HandshakeSpec {
                        peer_id,
                        genesis_id: config.genesis_id,
                        tier,
                        protocol_version: config.protocol_version,
                        partial_edge_info,
                    },
                ),
                Some(peer_id),
            ),
        };
        PeerActor {
            config,
            peer_type,
            handshake_spec,
            tracker: Tracker::new(),
            routed_message_cache: RoutedMessageCache::new(),
            protocol_buffers_supported: false,
            force_encoding,
            peer_status: PeerStatus::Connecting,
            peer_id,
        }
    }

    /// The encoding to use with the peer; `None` while it is not known, in
    /// which case frames are parsed both ways and sent twice.
    pub fn encoding(&self) -> (r: Option<Encoding>)
        ensures
            r == encoding_for(self.forced_encoding(), self.proto_seen(), self.is_connecting()),
    {
        if self.force_encoding.is_some() {
            return self.force_encoding;
        }
        if self.protocol_buffers_supported {
            return Some(Encoding::Proto);
        }
        match self.peer_status {
            PeerStatus::Connecting => None,
            _ => Some(Encoding::Borsh),
        }
    }

    /// Picks the parse of a frame: `as_proto` and `as_borsh` are the frame
    /// decoded under each encoding (`None` where decoding failed). With the
    /// encoding unknown, proto is tried first, and a proto parse latches
    /// proto for the rest of the connection.
    pub fn parse_message(&mut self, as_proto: Option<PeerMessage>, as_borsh: Option<PeerMessage>) -> (r:
        Option<PeerMessage>)
        ensures
            final(self).status() == old(self).status(),
            final(self).routed_seen() == old(self).routed_seen(),
            final(self).wf() == old(self).wf(),
            final(self).config() == old(self).config(),
            final(self).peer_type() == old(self).peer_type(),
            final(self).handshake_spec() == old(self).handshake_spec(),
            final(self).forced_encoding() == old(self).forced_encoding(),
            final(self).other_peer() == old(self).other_peer(),
            final(self).tracker_view() == old(self).tracker_view(),
            match encoding_for(old(self).forced_encoding(), old(self).proto_seen(), old(self).is_connecting()) {
                Some(Encoding::Proto) => r == as_proto && final(self).proto_seen() == old(self).proto_seen(),
                Some(Encoding::Borsh) => r == as_borsh && final(self).proto_seen() == old(self).proto_seen(),
                None => if as_proto.is_some() {
                    r == as_proto && final(self).proto_seen()
                } else {
                    r == as_borsh && final(self).proto_seen() == old(self).proto_seen()
                },
            },
    {
        match self.encoding() {
            Some(Encoding::Proto) => as_proto,
            Some(Encoding::Borsh) => as_borsh,
            None => {
                if as_proto.is_some() {
                    self.protocol_buffers_supported = true;
                    as_proto
                } else {
                    as_borsh
                }
            },
        }
    }

    /// The encodings under which `msg` is sent (none when it is a block the
    /// peer itself delivered to us). Sending a block request records it; a
    /// peers request on a ready connection is timestamped `now`.
    pub fn send_message(&mut self, msg: &PeerMessage, now: u64) -> (r: Vec<Encoding>)
        requires
            old(self).wf(),
            match old(self).status() {
                PeerStatus::Ready(conn) => tier_allows(conn.tier, msg),
                _ => true,
            },
        ensures
            final(self).wf(),
            r@ == (if (match msg {
                PeerMessage::Block(b) => old(self).tracker_view().received().contains(b.hash),
                _ => false,
            }) {
                Seq::<Encoding>::empty()
            } else {
                match encoding_for(old(self).forced_encoding(), old(self).proto_seen(), old(self).is_connecting()) {
                    Some(e) => seq![e],
                    None => seq![Encoding::Proto, Encoding::Borsh],
                }
            }),
            final(self).tracker_view().requested() == (match msg {
                PeerMessage::BlockRequest(h) => recent_with(old(self).tracker_view().requested(), *h),
                _ => old(self).tracker_view().requested(),
            }),
            final(self).tracker_view().received() == old(self).tracker_view().received(),
            final(self).tracker_view().sent() == old(self).tracker_view().sent(),
            final(self).status() == (match (old(self).status(), msg) {
                (PeerStatus::Ready(conn), PeerMessage::PeersRequest) => PeerStatus::Ready(
                    Connection { last_time_peer_requested: now, ..conn },
                ),
                _ => old(self).status(),
            }),
            final(self).routed_seen() == old(self).routed_seen(),
            final(self).config() == old(self).config(),
            final(self).peer_type() == old(self).peer_type(),
            final(self).handshake_spec() == old(self).handshake_spec(),
            final(self).proto_seen() == old(self).proto_seen(),
            final(self).forced_encoding() == old(self).forced_encoding(),
            final(self).other_peer() == old(self).other_peer(),
    {
        if let PeerMessage::PeersRequest = msg {
            if let PeerStatus::Ready(conn) = &mut self.peer_status {
                conn.last_time_peer_requested = now;
            }
        }
        let mut encodings: Vec<Encoding> = Vec::new();
        match msg {
            PeerMessage::Block(b) => {
                if self.tracker.has_received(&b.hash) {
                    return encodings;
                }
            },
            PeerMessage::BlockRequest(h) => self.tracker.push_request(*h),
            _ => {},
        }
        match self.encoding() {
            Some(e) => encodings.push(e),
            None => {
                encodings.push(Encoding::Proto);
                encodings.push(Encoding::Borsh);
            },
        }
        proof {
            match encoding_for(old(self).forced_encoding(), old(self).proto_seen(), old(self).is_connecting()) {
                Some(e) => assert(encodings@ =~= seq![e]),
                None => assert(encodings@ =~= seq![Encoding::Proto, Encoding::Borsh]),
            }
        }
        encodings
    }

    /// Accounts for an encoded frame of `len` bytes about to be sent; false
    /// (and nothing counted) when it exceeds the largest message size.
    pub fn record_sent_frame(&mut self, len: usize) -> (r: bool)
        requires
            old(self).wf(),
        ensures
            final(self).wf(),
            r == (len <= NETWORK_MESSAGE_MAX_SIZE_BYTES),
            r ==> final(self).tracker_view().sent().bytes == (if old(self).tracker_view().sent().bytes + len
                > u64::MAX {
                u64::MAX as int
            } else {
                old(self).tracker_view().sent().bytes + len
            }),
            !r ==> final(self).tracker_view() == old(self).tracker_view(),
            final(self).status() == old(self).status(),
            final(self).routed_seen() == old(self).routed_seen(),
            final(self).proto_seen() == old(self).proto_seen(),
    {
        if len > NETWORK_MESSAGE_MAX_SIZE_BYTES {
            return false;
        }
        self.tracker.increment_sent(len as u64);
        true
    }

    /// The handshake of tier `spec.tier` that this node sends to `spec.peer_id`.
    pub fn send_handshake(&self, spec: &HandshakeSpec, chain_info: &ChainInfo) -> (r: PeerMessage)
        ensures
            is_handshake_for(r, self.config(), *spec, chain_info),
    {
        let msg = Handshake {
            protocol_version: spec.protocol_version,
            oldest_supported_version: self.config.min_allowed_protocol_version,
            sender_peer_id: self.config.my_peer_id,
            target_peer_id: spec.peer_id,
            sender_listen_port: self.config.listen_port,
            sender_chain_info: PeerChainInfo {
                genesis_id: spec.genesis_id,
                height: chain_info.height,
                tracked_shards: chain_info.tracked_shards.clone(),
                archival: self.config.archival,
            },
            partial_edge_info: spec.partial_edge_info,
        };
        proof {
            assert(msg.sender_chain_info.tracked_shards@ =~= chain_info.tracked_shards@);
        }
        match spec.tier {
            Tier::T1 => PeerMessage::Tier1Handshake(msg),
            Tier::T2 => PeerMessage::Tier2Handshake(msg),
        }
    }

    /// Bans the peer; the driver then stops the machine.
    pub fn ban_peer(&mut self, ban_reason: ReasonForBan)
        ensures
            final(self).status() == PeerStatus::Banned(ban_reason),
            final(self).wf() == old(self).wf(),
            final(self).routed_seen() == old(self).routed_seen(),
            final(self).config() == old(self).config(),
            final(self).peer_type() == old(self).peer_type(),
            final(self).handshake_spec() == old(self).handshake_spec(),
            final(self).proto_seen() == old(self).proto_seen(),
            final(self).forced_encoding() == old(self).forced_encoding(),
            final(self).other_peer() == old(self).other_peer(),
            final(self).tracker_view() == old(self).tracker_view(),
    {
        self.peer_status = PeerStatus::Banned(ban_reason);
    }

    /// This node's id.
    pub fn my_node_id(&self) -> (r: PeerId)
        ensures
            r == self.config().my_peer_id,
    {
        self.config.my_peer_id
    }

    /// The peer's id, once known.
    pub fn other_peer_id(&self) -> (r: Option<PeerId>)
        ensures
            r == self.other_peer(),
    {
        self.peer_id
    }

    /// The connection, when ready.
    pub fn connection(&self) -> (r: Option<&Connection>)
        ensures
            r == (match self.status() {
                PeerStatus::Ready(conn) => Some(&conn),
                _ => None,
            }),
    {
        match &self.peer_status {
            PeerStatus::Ready(conn) => Some(conn),
            _ => None,
        }
    }

    /// What the machine sends when it starts: an outbound machine opens
    /// with its handshake; an inbound one waits.
    pub fn started(&self, chain_info: &ChainInfo) -> (r: Option<PeerMessage>)
        requires
            self.wf(),
        ensures
            match self.handshake_spec() {
                Some(spec) => self.peer_type() == PeerType::Outbound && r.is_some()
                    && is_handshake_for(r.unwrap(), self.config(), spec, chain_info),
                None => self.peer_type() == PeerType::Inbound && r.is_none(),
            },
    {
        match &self.handshake_spec {
            Some(spec) => Some(self.send_handshake(spec, chain_info)),
            None => None,
        }
    }

    /// What the connection pool is told when the machine stops: a ban if
    /// the peer was banned, else an unregistration that drops the peer from
    /// the peer store only if the connection got past the handshake.
    pub fn stopping(&self) -> (r: Option<ManagerNotice>)
        ensures
            r == (match self.other_peer() {
                Some(peer_id) => Some(
                    match self.status() {
                        PeerStatus::Banned(ban_reason) => ManagerNotice::Ban { peer_id, ban_reason },
                        _ => ManagerNotice::Unregister {
                            peer_id,
                            peer_type: self.peer_type(),
                            remove_from_peer_store: self.status() != PeerStatus::Connecting,
                        },
                    },
                ),
                None => None,
            }),
    {
        match self.peer_id {
            Some(peer_id) => Some(
                match &self.peer_status {
                    PeerStatus::Banned(ban_reason) => ManagerNotice::Ban { peer_id, ban_reason: *ban_reason },
                    PeerStatus::Connecting => ManagerNotice::Unregister {
                        peer_id,
                        peer_type: self.peer_type,
                        remove_from_peer_store: false,
                    },
                    PeerStatus::Ready(_) => ManagerNotice::Unregister {
                        peer_id,
                        peer_type: self.peer_type,
                        remove_from_peer_store: true,
                    },
                },
            ),
            None => None,
        }
    }

    /// Handles a failure of the stream; the driver then stops the machine.
    /// An oversized frame bans the peer as abusive. Returns whether the
    /// failure is an expected way for a connection to end.
    pub fn handle_stream_error(&mut self, err: StreamError) -> (expected: bool)
        ensures
            expected == (match err {
                StreamError::RecvIo(IoErrorKind::Other) | StreamError::SendIo(IoErrorKind::Other) => false,
                _ => true,
            }),
            final(self).status() == (match err {
                StreamError::MessageTooLarge { .. } => PeerStatus::Banned(ReasonForBan::Abusive),
                _ => old(self).status(),
            }),
            final(self).wf() == old(self).wf(),
            final(self).other_peer() == old(self).other_peer(),
            final(self).peer_type() == old(self).peer_type(),
    {
        match err {
            StreamError::Closed => true,
            StreamError::MessageTooLarge { .. } => {
                self.ban_peer(ReasonForBan::Abusive);
                true
            },
            StreamError::QueueOverflow { .. } => true,
            StreamError::RecvIo(kind) | StreamError::SendIo(kind) => match kind {
                IoErrorKind::UnexpectedEof | IoErrorKind::ConnectionReset => true,
                IoErrorKind::Other => false,
            },
        }
    }

    /// Handles a received handshake of tier `tier` (see `handshake_decision`).
    /// A bad signature bans the peer.
    pub fn process_handshake(&mut self, tier: Tier, handshake: Handshake, checks: HandshakeChecks) -> (r:
        HandshakeDecision)
        requires
            old(self).wf(),
        ensures
            final(self).wf(),
            r == handshake_decision(old(self).config(), old(self).peer_type(), old(self).handshake_spec(), tier, handshake, checks),
            final(self).status() == (match r {
                HandshakeDecision::Ban(reason) => PeerStatus::Banned(reason),
                _ => old(self).status(),
            }),
            final(self).routed_seen() == old(self).routed_seen(),
            final(self).config() == old(self).config(),
            final(self).peer_type() == old(self).peer_type(),
            final(self).handshake_spec() == old(self).handshake_spec(),
            final(self).proto_seen() == old(self).proto_seen(),
            final(self).forced_encoding() == old(self).forced_encoding(),
            final(self).other_peer() == old(self).other_peer(),
            final(self).tracker_view() == old(self).tracker_view(),
    {
        let ours = match self.peer_type {
            PeerType::Outbound => {
                let spec = match self.handshake_spec {
                    Some(spec) => spec,
                    None => {
                        return HandshakeDecision::Stop;
                    },
                };
                if handshake.protocol_version != spec.protocol_version
                    || handshake.sender_chain_info.genesis_id != spec.genesis_id
                    || handshake.sender_peer_id != spec.peer_id || tier != spec.tier
                    || handshake.partial_edge_info.nonce != spec.partial_edge_info.nonce {
                    return HandshakeDecision::Stop;
                }
                spec.partial_edge_info
            },
            PeerType::Inbound => {
                if self.config.min_allowed_protocol_version > handshake.protocol_version
                    || handshake.protocol_version > self.config.protocol_version {
                    return HandshakeDecision::Fail(
                        HandshakeFailureReason::ProtocolVersionMismatch {
                            version: self.config.protocol_version,
                            oldest_supported_version: self.config.min_allowed_protocol_version,
                        },
                    );
                }
                if handshake.sender_chain_info.genesis_id != self.config.genesis_id {
                    return HandshakeDecision::Fail(
                        HandshakeFailureReason::GenesisMismatch(self.config.genesis_id),
                    );
                }
                if handshake.target_peer_id != self.config.my_peer_id {
                    return HandshakeDecision::Fail(HandshakeFailureReason::InvalidTarget);
                }
                if !checks.nonce_ok {
                    return HandshakeDecision::Stop;
                }
                if let Some(last_edge) = checks.local_edge {
                    if last_edge.nonce >= handshake.partial_edge_info.nonce {
                        return HandshakeDecision::SendLastEdge(last_edge);
                    }
                }
                PartialEdgeInfo {
                    nonce: handshake.partial_edge_info.nonce,
                    signature: checks.our_signature,
                }
            },
        };
        if handshake.sender_peer_id == self.config.my_peer_id {
            return HandshakeDecision::Stop;
        }
        if !checks.signature_valid {
            self.ban_peer(ReasonForBan::InvalidSignature);
            return HandshakeDecision::Ban(ReasonForBan::InvalidSignature);
        }
        let nonce = handshake.partial_edge_info.nonce;
        let edge = Edge::new(
            self.config.my_peer_id,
            handshake.sender_peer_id,
            nonce,
            ours.signature,
            handshake.partial_edge_info.signature,
        );
        let protocol_version = handshake.protocol_version;
        let conn = Connection {
            tier,
            peer_id: handshake.sender_peer_id,
            peer_listen_port: handshake.sender_listen_port,
            peer_type: self.peer_type,
            edge,
            chain_height: handshake.sender_chain_info.height,
            initial_chain_info: handshake.sender_chain_info,
            last_time_peer_requested: checks.now,
            last_time_received_message: checks.now,
            connection_established_time: checks.now,
        };
        HandshakeDecision::Register(conn, ours, protocol_version)
    }

    /// Handles a message received while connecting: handshake failures and
    /// last edges (on outbound streams only) and handshakes.
    pub fn handle_msg_connecting(&mut self, msg: PeerMessage, checks: ConnectingChecks, chain_info: &ChainInfo) -> (r:
        ConnectingAction)
        requires
            old(self).wf(),
        ensures
            final(self).wf(),
            final(self).routed_seen() == old(self).routed_seen(),
            final(self).config() == old(self).config(),
            final(self).peer_type() == old(self).peer_type(),
            final(self).other_peer() == old(self).other_peer(),
            match msg {
                PeerMessage::HandshakeFailure(peer_info, reason) => {
                    &&& final(self).status() == old(self).status()
                    &&& if old(self).peer_type() == PeerType::Inbound {
                        r == ConnectingAction::Stop && final(self).handshake_spec() == old(self).handshake_spec()
                    } else {
                        match reason {
                            HandshakeFailureReason::GenesisMismatch(_) => r == ConnectingAction::Stop
                                && final(self).handshake_spec() == old(self).handshake_spec(),
                            HandshakeFailureReason::InvalidTarget => r
                                == ConnectingAction::UpdatePeerInfoAndStop(peer_info)
                                && final(self).handshake_spec() == old(self).handshake_spec(),
                            HandshakeFailureReason::ProtocolVersionMismatch { version, oldest_supported_version } =>
                                match common_version(old(self).config(), version, oldest_supported_version) {
                                None => r == ConnectingAction::Stop && final(self).handshake_spec()
                                    == old(self).handshake_spec(),
                                Some(v) => {
                                    let spec = HandshakeSpec {
                                        protocol_version: v,
                                        ..old(self).handshake_spec().unwrap()
                                    };
                                    &&& final(self).handshake_spec() == Some(spec)
                                    &&& r is Resend
                                    &&& is_handshake_for(r->Resend_0, old(self).config(), spec, chain_info)
                                },
                            },
                        }
                    }
                },
                PeerMessage::LastEdge(edge) => {
                    &&& final(self).status() == old(self).status()
                    &&& final(self).handshake_spec() == old(self).handshake_spec()
                    &&& r == (if old(self).peer_type() == PeerType::Inbound || !checks.edge_valid
                        || edge.nonce % 2 == 1 && edge.nonce > u64::MAX - 2
                        || edge.nonce % 2 == 0 && edge.nonce == u64::MAX {
                        ConnectingAction::Stop
                    } else {
                        ConnectingAction::ProposeNonce(
                            if edge.nonce % 2 == 1 { (edge.nonce + 2) as u64 } else { (edge.nonce + 1) as u64 },
                        )
                    })
                },
                PeerMessage::Tier1Handshake(h) => {
                    let d = handshake_decision(old(self).config(), old(self).peer_type(), old(self).handshake_spec(), Tier::T1, h, checks.handshake);
                    &&& r == ConnectingAction::Handshake(d)
                    &&& final(self).handshake_spec() == old(self).handshake_spec()
                    &&& final(self).status() == (match d {
                        HandshakeDecision::Ban(reason) => PeerStatus::Banned(reason),
                        _ => old(self).status(),
                    })
                },
                PeerMessage::Tier2Handshake(h) => {
                    let d = handshake_decision(old(self).config(), old(self).peer_type(), old(self).handshake_spec(), Tier::T2, h, checks.handshake);
                    &&& r == ConnectingAction::Handshake(d)
                    &&& final(self).handshake_spec() == old(self).handshake_spec()
                    &&& final(self).status() == (match d {
                        HandshakeDecision::Ban(reason) => PeerStatus::Banned(reason),
                        _ => old(self).status(),
                    })
                },
                _ => r == ConnectingAction::Ignore && final(self).status() == old(self).status()
                    && final(self).handshake_spec() == old(self).handshake_spec(),
            },
    {
        match msg {
            PeerMessage::HandshakeFailure(peer_info, reason) => {
                if self.peer_type == PeerType::Inbound {
                    return ConnectingAction::Stop;
                }
                match reason {
                    HandshakeFailureReason::GenesisMismatch(_) => ConnectingAction::Stop,
                    HandshakeFailureReason::ProtocolVersionMismatch { version, oldest_supported_version } => {
                        let common = if version < self.config.protocol_version {
                            version
                        } else {
                            self.config.protocol_version
                        };
                        if common < oldest_supported_version || common
                            < self.config.min_allowed_protocol_version {
                            return ConnectingAction::Stop;
                        }
                        let spec = match self.handshake_spec {
                            Some(spec) => HandshakeSpec { protocol_version: common, ..spec },
                            None => {
                                return ConnectingAction::Stop;
                            },
                        };
                        self.handshake_spec = Some(spec);
                        ConnectingAction::Resend(self.send_handshake(&spec, chain_info))
                    },
                    HandshakeFailureReason::InvalidTarget => ConnectingAction::UpdatePeerInfoAndStop(peer_info),
                }
            },
            PeerMessage::LastEdge(edge) => {
                if self.peer_type == PeerType::Inbound || !checks.edge_valid {
                    return ConnectingAction::Stop;
                }
                match edge.next() {
                    Some(nonce) => ConnectingAction::ProposeNonce(nonce),
                    None => ConnectingAction::Stop,
                }
            },
            PeerMessage::Tier1Handshake(h) => ConnectingAction::Handshake(
                self.process_handshake(Tier::T1, h, checks.handshake),
            ),
            PeerMessage::Tier2Handshake(h) => ConnectingAction::Handshake(
                self.process_handshake(Tier::T2, h, checks.handshake),
            ),
            _ => ConnectingAction::Ignore,
        }
    }

    /// OUTBOUND: proposes `partial_edge_info` (signed at the nonce asked by
    /// `ProposeNonce`) and returns the handshake to send again.
    pub fn retry_with_partial_edge(&mut self, partial_edge_info: PartialEdgeInfo, chain_info: &ChainInfo) -> (r:
        Option<PeerMessage>)
        requires
            old(self).wf(),
        ensures
            final(self).wf(),
            match old(self).handshake_spec() {
                Some(spec) => {
                    let spec = HandshakeSpec { partial_edge_info, ..spec };
                    &&& final(self).handshake_spec() == Some(spec)
                    &&& r.is_some()
                    &&& is_handshake_for(r.unwrap(), old(self).config(), spec, chain_info)
                },
                None => r.is_none() && final(self).handshake_spec() == old(self).handshake_spec(),
            },
            final(self).status() == old(self).status(),
            final(self).routed_seen() == old(self).routed_seen(),
            final(self).config() == old(self).config(),
            final(self).peer_type() == old(self).peer_type(),
            final(self).other_peer() == old(self).other_peer(),
    {
        match self.handshake_spec {
            Some(spec) => {
                let spec = HandshakeSpec { partial_edge_info, ..spec };
                self.handshake_spec = Some(spec);
                Some(self.send_handshake(&spec, chain_info))
            },
            None => None,
        }
    }

    /// Takes the pool's answer to a registration. Once accepted, the machine
    /// is ready; an inbound side answers with its own handshake of the same
    /// tier, and an outbound `T2` side asks for a full accounts data sync
    /// (`Some(true)`). Refused, the machine stops (`None`).
    pub fn on_register_response(
        &mut self,
        accepted: bool,
        conn: Connection,
        ours: PartialEdgeInfo,
        protocol_version: ProtocolVersion,
        chain_info: &ChainInfo,
    ) -> (r: Option<(Option<PeerMessage>, bool)>)
        requires
            old(self).wf(),
        ensures
            final(self).wf(),
            !accepted ==> r.is_none() && final(self).status() == old(self).status()
                && final(self).other_peer() == old(self).other_peer(),
            accepted ==> {
                &&& final(self).status() == PeerStatus::Ready(conn)
                &&& final(self).other_peer() == Some(conn.peer_id)
                &&& r.is_some()
                &&& if old(self).peer_type() == PeerType::Inbound {
                    let spec = HandshakeSpec {
                        peer_id: conn.peer_id,
                        genesis_id: old(self).config().genesis_id,
                        tier: conn.tier,
                        protocol_version,
                        partial_edge_info: ours,
                    };
                    &&& r.unwrap().0.is_some()
                    &&& is_handshake_for(r.unwrap().0.unwrap(), old(self).config(), spec, chain_info)
                    &&& !r.unwrap().1
                } else {
                    r.unwrap().0.is_none() && r.unwrap().1 == (conn.tier == Tier::T2)
                }
            },
            final(self).routed_seen() == old(self).routed_seen(),
            final(self).config() == old(self).config(),
            final(self).peer_type() == old(self).peer_type(),
            final(self).handshake_spec() == old(self).handshake_spec(),
    {
        if !accepted {
            return None;
        }
        let peer_id = conn.peer_id;
        let tier = conn.tier;
        self.peer_id = Some(peer_id);
        self.peer_status = PeerStatus::Ready(conn);
        if self.peer_type == PeerType::Inbound {
            let spec = HandshakeSpec {
                peer_id,
                genesis_id: self.config.genesis_id,
                tier,
                protocol_version,
                partial_edge_info: ours,
            };
            Some((Some(self.send_handshake(&spec, chain_info)), false))
        } else {
            Some((None, tier == Tier::T2))
        }
    }

    /// Filters a parsed frame and says how to handle it. A routed message
    /// seen within the drop period is dropped, and so is a forwarded
    /// transaction beyond the number allowed since the last block;
    /// `txns_since_last_block` is that count, shared by all connections, and
    /// its new value is returned. On a ready connection the receive time is
    /// recorded and a message not allowed on the tier stops the machine.
    pub fn handle_frame(&mut self, msg: PeerMessage, now: u64, txns_since_last_block: u64) -> (r: (
        FrameVerdict,
        u64,
    ))
        requires
            old(self).wf(),
        ensures
            final(self).wf(),
            r.1 == txns_after(old(self).routed_seen(), &msg, now, txns_since_last_block),
            frame_dropped(old(self).routed_seen(), &msg, now, txns_since_last_block) ==> {
                &&& r.0 == FrameVerdict::Drop
                &&& final(self).routed_seen() == old(self).routed_seen()
                &&& final(self).status() == old(self).status()
            },
            !frame_dropped(old(self).routed_seen(), &msg, now, txns_since_last_block) ==> {
                &&& match msg {
                    PeerMessage::Routed(m) => {
                        &&& final(self).routed_seen().contains_key(routed_key(&m))
                        &&& final(self).routed_seen()[routed_key(&m)] == now
                        &&& forall|j: RoutedKey| #[trigger]
                            final(self).routed_seen().contains_key(j) && j != routed_key(&m)
                                ==> old(self).routed_seen().contains_key(j) && final(self).routed_seen()[j]
                                == old(self).routed_seen()[j]
                    },
                    _ => final(self).routed_seen() == old(self).routed_seen(),
                }
                &&& match old(self).status() {
                    PeerStatus::Connecting => r.0 == FrameVerdict::Connecting(msg) && final(self).status()
                        == old(self).status(),
                    PeerStatus::Banned(_) => r.0 == FrameVerdict::Ignore && final(self).status() == old(self).status(),
                    PeerStatus::Ready(conn) => {
                        &&& final(self).status() == PeerStatus::Ready(
                            Connection { last_time_received_message: now, ..conn },
                        )
                        &&& if !tier_allows(conn.tier, &msg) {
                            r.0 == FrameVerdict::Stop
                        } else {
                            &&& r.0 is Ready
                            &&& handed_on(r.0->Ready_0, msg, old(self).config(), conn, now)
                        }
                    },
                }
            },
            final(self).config() == old(self).config(),
            final(self).peer_type() == old(self).peer_type(),
            final(self).handshake_spec() == old(self).handshake_spec(),
            final(self).proto_seen() == old(self).proto_seen(),
            final(self).forced_encoding() == old(self).forced_encoding(),
            final(self).other_peer() == old(self).other_peer(),
            final(self).tracker_view() == old(self).tracker_view(),
    {
        let mut txns = txns_since_last_block;
        match &msg {
            PeerMessage::Routed(m) => {
                let key = m.dedup_key();
                if self.routed_message_cache.is_duplicate(&key, now) {
                    return (FrameVerdict::Drop, txns);
                }
                if let RoutedMessageBody::ForwardTx(_) = &m.body {
                    if txns > MAX_TRANSACTIONS_PER_BLOCK_MESSAGE {
                        return (FrameVerdict::Drop, txns);
                    }
                    txns = txns + 1;
                }
                self.routed_message_cache.record(key, now);
            },
            PeerMessage::Block(_) => {
                txns = 0;
            },
            _ => {},
        }
        let verdict = match &mut self.peer_status {
            PeerStatus::Connecting => FrameVerdict::Connecting(msg),
            PeerStatus::Banned(_) => FrameVerdict::Ignore,
            PeerStatus::Ready(conn) => {
                conn.last_time_received_message = now;
                if !conn.tier.is_allowed(&msg) {
                    FrameVerdict::Stop
                } else {
                    let skip = match self.config.skip_tombstones_ms {
                        Some(d) => d > u64::MAX - conn.connection_established_time
                            || conn.connection_established_time + d > now,
                        None => false,
                    };
                    match msg {
                        PeerMessage::SyncRoutingTable(u) => {
                            if skip {
                                let edges = active_edges_of(&u.edges);
                                FrameVerdict::Ready(
                                    PeerMessage::SyncRoutingTable(
                                        RoutingTableUpdate { edges, accounts: u.accounts },
                                    ),
                                )
                            } else {
                                FrameVerdict::Ready(PeerMessage::SyncRoutingTable(u))
                            }
                        },
                        other => FrameVerdict::Ready(other),
                    }
                }
            },
        };
        (verdict, txns)
    }

    /// Handles a message on the ready connection (see `ready_action`). A
    /// routed message with a bad signature bans the peer; a block is
    /// recorded as received from the peer, and raises the peer's height.
    pub fn handle_msg_ready(&mut self, msg: PeerMessage, checks: ReadyChecks) -> (r: ReadyAction)
        requires
            old(self).wf(),
            old(self).status() is Ready,
        ensures
            final(self).wf(),
            ({
                let conn = old(self).status()->Ready_0;
                &&& r == ready_action(conn, old(self).tracker_view().requested(), msg, checks)
                &&& final(self).status() == (match r {
                    ReadyAction::Ban(reason) => PeerStatus::Banned(reason),
                    _ => match msg {
                        PeerMessage::Block(b) => PeerStatus::Ready(
                            Connection {
                                chain_height: if b.height > conn.chain_height {
                                    b.height
                                } else {
                                    conn.chain_height
                                },
                                ..conn
                            },
                        ),
                        _ => old(self).status(),
                    },
                })
                &&& final(self).tracker_view().received() == (match msg {
                    PeerMessage::Block(b) => recent_with(old(self).tracker_view().received(), b.hash),
                    _ => old(self).tracker_view().received(),
                })
            }),
            final(self).tracker_view().requested() == old(self).tracker_view().requested(),
            final(self).routed_seen() == old(self).routed_seen(),
            final(self).config() == old(self).config(),
            final(self).peer_type() == old(self).peer_type(),
            final(self).handshake_spec() == old(self).handshake_spec(),
            final(self).proto_seen() == old(self).proto_seen(),
            final(self).forced_encoding() == old(self).forced_encoding(),
            final(self).other_peer() == old(self).other_peer(),
    {
        let (tier, peer_id) = match &self.peer_status {
            PeerStatus::Ready(conn) => (conn.tier, conn.peer_id),
            _ => {
                return ReadyAction::Nothing;
            },
        };
        match msg {
            PeerMessage::Disconnect => ReadyAction::Stop,
            PeerMessage::Tier1Handshake(_) | PeerMessage::Tier2Handshake(_) => ReadyAction::Nothing,
            PeerMessage::HandshakeFailure(..) | PeerMessage::LastEdge(_) => ReadyAction::Nothing,
            PeerMessage::PeersRequest => ReadyAction::RequestPeers,
            PeerMessage::PeersResponse(peers) => ReadyAction::ForwardPeers(peers),
            PeerMessage::RequestUpdateNonce(edge_info) => ReadyAction::RequestUpdateNonce(peer_id, edge_info),
            PeerMessage::ResponseUpdateNonce(edge) => ReadyAction::ResponseUpdateNonce(edge),
            PeerMessage::SyncRoutingTable(update) => ReadyAction::SyncRoutingTable(peer_id, update),
            PeerMessage::SyncAccountsData(data) => ReadyAction::SyncAccountsData {
                reply_full_sync: data.requesting_full_sync,
                from: peer_id,
                data,
            },
            PeerMessage::Routed(mut m) => {
                if !checks.routed_signature_valid {
                    self.ban_peer(ReasonForBan::InvalidSignature);
                    return ReadyAction::Ban(ReasonForBan::InvalidSignature);
                }
                let route_back = if m.expect_response() {
                    Some((tier, m.hash, peer_id))
                } else {
                    None
                };
                let handling = if checks.message_for_me {
                    match m.body {
                        RoutedMessageBody::Ping { nonce, source } => RoutedHandling::Ping { nonce, source, hash: m.hash },
                        RoutedMessageBody::Pong { nonce, source } => RoutedHandling::Pong { nonce, source },
                        _ => RoutedHandling::Deliver(receive_message(PeerMessage::Routed(m), peer_id, false, checks.now)),
                    }
                } else if m.decrease_ttl() {
                    RoutedHandling::Forward(m)
                } else {
                    RoutedHandling::Dropped
                };
                ReadyAction::Routed { route_back, handling }
            },
            PeerMessage::Block(b) => {
                let hash = b.hash;
                let height = b.height;
                self.tracker.push_received(hash);
                if let PeerStatus::Ready(conn) = &mut self.peer_status {
                    if height > conn.chain_height {
                        conn.chain_height = height;
                    }
                }
                let requested = self.tracker.has_request(&hash);
                ReadyAction::Dispatch(receive_message(PeerMessage::Block(b), peer_id, requested, checks.now))
            },
            other => ReadyAction::Dispatch(receive_message(other, peer_id, false, checks.now)),
        }
    }

    /// Takes the pool's answer about a nonce update the peer asked for
    /// (`answering_request`) or announced: an updated edge is sent back to
    /// a request; a ban request bans the peer.
    pub fn on_update_nonce_response(&mut self, resp: UpdateNonceResponse, answering_request: bool) -> (r:
        Option<PeerMessage>)
        ensures
            r == (match resp {
                UpdateNonceResponse::EdgeUpdate(edge) => if answering_request {
                    Some(PeerMessage::ResponseUpdateNonce(edge))
                } else {
                    None
                },
                _ => None,
            }),
            final(self).status() == (match resp {
                UpdateNonceResponse::BanPeer(reason) => PeerStatus::Banned(reason),
                _ => old(self).status(),
            }),
            final(self).wf() == old(self).wf(),
            final(self).routed_seen() == old(self).routed_seen(),
            final(self).other_peer() == old(self).other_peer(),
    {
        match resp {
            UpdateNonceResponse::EdgeUpdate(edge) => if answering_request {
                Some(PeerMessage::ResponseUpdateNonce(edge))
            } else {
                None
            },
            UpdateNonceResponse::BanPeer(reason) => {
                self.ban_peer(reason);
                None
            },
            UpdateNonceResponse::Nothing => None,
        }
    }

    /// Handles a request of the pool: a ban bans the peer; either way the
    /// driver then stops the machine.
    pub fn handle_peer_manager_request(&mut self, req: PeerManagerRequest)
        ensures
            final(self).status() == (match req {
                PeerManagerRequest::BanPeer(reason) => PeerStatus::Banned(reason),
                PeerManagerRequest::UnregisterPeer => old(self).status(),
            }),
            final(self).wf() == old(self).wf(),
            final(self).other_peer() == old(self).other_peer(),
            final(self).peer_type() == old(self).peer_type(),
    {
        match req {
            PeerManagerRequest::BanPeer(reason) => self.ban_peer(reason),
            PeerManagerRequest::UnregisterPeer => {},
        }
    }

    /// Counts a received frame of `len` bytes.
    pub fn update_stats_on_receiving_message(&mut self, len: usize)
        ensures
            final(self).tracker_view().received_stats().bytes == (if old(self).tracker_view().received_stats().bytes
                + len > u64::MAX {
                u64::MAX as int
            } else {
                old(self).tracker_view().received_stats().bytes + len
            }),
            final(self).tracker_view().received_stats().count == (if old(self).tracker_view().received_stats().count
                == u64::MAX {
                u64::MAX as int
            } else {
                old(self).tracker_view().received_stats().count + 1
            }),
            final(self).status() == old(self).status(),
            final(self).wf() == old(self).wf(),
            final(self).routed_seen() == old(self).routed_seen(),
            final(self).proto_seen() == old(self).proto_seen(),
    {
        self.tracker.increment_received(len as u64);
    }
}

/// What the driver learned from the outside services for a handshake: the
/// clock's verdict on the nonce, the routing table's edge to the sender,
/// the check of the sender's partial signature, and this node's signature
/// of the edge at the sender's nonce.
#[derive(Clone, Copy, Debug, PartialEq, Eq, Structural)]
pub struct HandshakeChecks {
    pub nonce_ok: bool,
    pub local_edge: Option<Edge>,
    pub signature_valid: bool,
    pub our_signature: Signature,
    pub now: u64,
}

/// The outcome of a received handshake.
#[derive(Clone, Debug, PartialEq, Eq)]
pub enum HandshakeDecision {
    /// Disconnect.
    Stop,
    /// Reply with a handshake failure and stay connecting.
    Fail(HandshakeFailureReason),
    /// Reply with this edge as evidence that the nonce is too low, and stay
    /// connecting.
    SendLastEdge(Edge),
    /// Ban the peer.
    Ban(ReasonForBan),
    /// Register the connection with the pool; this node's partial edge and
    /// the protocol version go into the reply handshake.
    Register(Connection, PartialEdgeInfo, ProtocolVersion),
}

/// The steps shared by both sides once the handshake matched: refuse a
/// connection to oneself, ban a bad signature, else register the edge made
/// of both partial signatures.
pub open spec fn handshake_tail(
    config: &NodeConfig,
    tier: Tier,
    peer_type: PeerType,
    handshake: Handshake,
    ours: PartialEdgeInfo,
    checks: HandshakeChecks,
) -> HandshakeDecision {
    if handshake.sender_peer_id == config.my_peer_id {
        HandshakeDecision::Stop
    } else if !checks.signature_valid {
        HandshakeDecision::Ban(ReasonForBan::InvalidSignature)
    } else {
        HandshakeDecision::Register(
            Connection {
                tier,
                peer_id: handshake.sender_peer_id,
                peer_listen_port: handshake.sender_listen_port,
                peer_type,
                edge: edge_between(
                    config.my_peer_id,
                    handshake.sender_peer_id,
                    handshake.partial_edge_info.nonce,
                    ours.signature,
                    handshake.partial_edge_info.signature,
                ),
                chain_height: handshake.sender_chain_info.height,
                initial_chain_info: handshake.sender_chain_info,
                last_time_peer_requested: checks.now,
                last_time_received_message: checks.now,
                connection_established_time: checks.now,
            },
            ours,
            handshake.protocol_version,
        )
    }
}

/// What a received handshake of tier `tier` leads to. The outbound side
/// expects exactly what it proposed; the inbound side checks the version,
/// the genesis, the target, the nonce, and answers a stale nonce with the
/// edge it holds.
pub open spec fn handshake_decision(
    config: &NodeConfig,
    peer_type: PeerType,
    spec: Option<HandshakeSpec>,
    tier: Tier,
    handshake: Handshake,
    checks: HandshakeChecks,
) -> HandshakeDecision {
    match peer_type {
        PeerType::Outbound => match spec {
            Some(spec) => if handshake.protocol_version != spec.protocol_version
                || handshake.sender_chain_info.genesis_id != spec.genesis_id
                || handshake.sender_peer_id != spec.peer_id || tier != spec.tier
                || handshake.partial_edge_info.nonce != spec.partial_edge_info.nonce {
                HandshakeDecision::Stop
            } else {
                handshake_tail(config, tier, peer_type, handshake, spec.partial_edge_info, checks)
            },
            None => HandshakeDecision::Stop,
        },
        PeerType::Inbound => if !(config.min_allowed_protocol_version <= handshake.protocol_version
            <= config.protocol_version) {
            HandshakeDecision::Fail(
                HandshakeFailureReason::ProtocolVersionMismatch {
                    version: config.protocol_version,
                    oldest_supported_version: config.min_allowed_protocol_version,
                },
            )
        } else if handshake.sender_chain_info.genesis_id != config.genesis_id {
            HandshakeDecision::Fail(HandshakeFailureReason::GenesisMismatch(config.genesis_id))
        } else if handshake.target_peer_id != config.my_peer_id {
            HandshakeDecision::Fail(HandshakeFailureReason::InvalidTarget)
        } else if !checks.nonce_ok {
            HandshakeDecision::Stop
        } else if checks.local_edge.is_some() && checks.local_edge.unwrap().nonce
            >= handshake.partial_edge_info.nonce {
            HandshakeDecision::SendLastEdge(checks.local_edge.unwrap())
        } else {
            handshake_tail(
                config,
                tier,
                peer_type,
                handshake,
                PartialEdgeInfo {
                    nonce: handshake.partial_edge_info.nonce,
                    signature: checks.our_signature,
                },
                checks,
            )
        },
    }
}

/// What the driver learned for a message received while connecting: the
/// handshake checks, and whether a `LastEdge` edge carries valid signatures.
#[derive(Clone, Copy, Debug, PartialEq, Eq, Structural)]
pub struct ConnectingChecks {
    pub handshake: HandshakeChecks,
    pub edge_valid: bool,
}

/// The outcome of a message received while connecting.
#[derive(Clone, Debug, PartialEq, Eq)]
pub enum ConnectingAction {
    /// Disconnect.
    Stop,
    /// Send this handshake again (the version was renegotiated).
    Resend(PeerMessage),
    /// Tell the peer store about the peer, then disconnect.
    UpdatePeerInfoAndStop(PeerInfo),
    /// Sign a partial edge at this nonce and hand it to
    /// `retry_with_partial_edge`.
    ProposeNonce(u64),
    /// The received handshake led to this.
    Handshake(HandshakeDecision),
    /// Nothing to do.
    Ignore,
}

/// The version both sides speak after the peer reported `version` and
/// `oldest`, if this node accepts it.
pub open spec fn common_version(config: &NodeConfig, version: ProtocolVersion, oldest: ProtocolVersion) -> Option<ProtocolVersion> {
    let common = if version < config.protocol_version { version } else { config.protocol_version };
    if common < oldest || common < config.min_allowed_protocol_version {
        None
    } else {
        Some(common)
    }
}

/// Whether a received frame holding `msg` is dropped before any handling:
/// a routed message seen within the drop period, or a forwarded
/// transaction beyond the number allowed between two blocks.
pub open spec fn frame_dropped(seen: Map<RoutedKey, u64>, msg: &PeerMessage, now: u64, txns: u64) -> bool {
    match msg {
        PeerMessage::Routed(m) => is_recent_duplicate(seen, routed_key(m), now) || (m.body is ForwardTx
            && txns > MAX_TRANSACTIONS_PER_BLOCK_MESSAGE),
        _ => false,
    }
}

/// The count of forwarded transactions since the last block, after a frame
/// holding `msg`: a block resets it, an accepted forwarded transaction adds one.
pub open spec fn txns_after(seen: Map<RoutedKey, u64>, msg: &PeerMessage, now: u64, txns: u64) -> u64 {
    match msg {
        PeerMessage::Routed(m) => if !frame_dropped(seen, msg, now, txns) && m.body is ForwardTx {
            (txns + 1) as u64
        } else {
            txns
        },
        PeerMessage::Block(_) => 0,
        _ => txns,
    }
}

/// The active edges of `edges`, in order.
pub open spec fn active_edges(edges: Seq<Edge>) -> Seq<Edge> {
    edges.filter(|e: Edge| e.nonce % 2 == 1)
}

/// Whether removed edges are left out of routing table updates from `conn`
/// at `now`: for a while after the connection was established, if so configured.
pub open spec fn skips_tombstones(config: &NodeConfig, conn: Connection, now: u64) -> bool {
    match config.skip_tombstones_ms {
        Some(d) => conn.connection_established_time + d > now,
        None => false,
    }
}

/// Whether `out` is `msg` as handed on from the ready connection `conn` at
/// `now`: the same message, but for the removed edges of a routing table
/// update while tombstones are skipped.
pub open spec fn handed_on(out: PeerMessage, msg: PeerMessage, config: &NodeConfig, conn: Connection, now: u64) -> bool {
    match msg {
        PeerMessage::SyncRoutingTable(u) => if skips_tombstones(config, conn, now) {
            match out {
                PeerMessage::SyncRoutingTable(v) => v.edges@ == active_edges(u.edges@) && v.accounts == u.accounts,
                _ => false,
            }
        } else {
            out == msg
        },
        _ => out == msg,
    }
}

/// What a received frame leads to after the duplicate and rate filters.
#[derive(Clone, Debug, PartialEq, Eq)]
pub enum FrameVerdict {
    /// Dropped by a filter.
    Drop,
    /// Handle with `handle_msg_connecting`.
    Connecting(PeerMessage),
    /// Handle with `handle_msg_ready`.
    Ready(PeerMessage),
    /// A message not allowed on this tier: disconnect.
    Stop,
    /// The machine is banned and ignores it.
    Ignore,
}

/// What the driver learned for a message received on a ready connection.
#[derive(Clone, Copy, Debug, PartialEq, Eq, Structural)]
pub struct ReadyChecks {
    /// Whether a routed message is addressed to this node.
    pub message_for_me: bool,
    /// Whether a routed message's signature is valid.
    pub routed_signature_valid: bool,
    pub now: u64,
}

/// What becomes of a routed message once its signature checked out.
#[derive(Clone, Debug, PartialEq, Eq)]
pub enum RoutedHandling {
    /// A ping for this node: answer with a pong to `source`.
    Ping { nonce: u64, source: PeerId, hash: CryptoHash },
    /// A pong for this node: report it.
    Pong { nonce: u64, source: PeerId },
    /// Another message for this node: hand it on.
    Deliver(Dispatch),
    /// Not for this node: forward it, one hop fewer to live (at least one
    /// left).
    Forward(RoutedMessage),
    /// Not for this node, and no hop left once this one is taken: report
    /// it dropped.
    Dropped,
}

/// What a message on a ready connection leads to.
#[derive(Clone, Debug, PartialEq, Eq)]
pub enum ReadyAction {
    Stop,
    Nothing,
    /// Ask the pool for peers and send them back if there are any.
    RequestPeers,
    ForwardPeers(Vec<PeerInfo>),
    RequestUpdateNonce(PeerId, PartialEdgeInfo),
    ResponseUpdateNonce(Edge),
    SyncRoutingTable(PeerId, RoutingTableUpdate),
    /// Verify and store the data, broadcast what is new; first reply with
    /// everything known if the peer asked for a full sync.
    SyncAccountsData { reply_full_sync: bool, from: PeerId, data: SyncAccountsData },
    Ban(ReasonForBan),
    /// A routed message; the route back to `from` is remembered, keyed by the
    /// message's hash, when the author expects an answer.
    Routed { route_back: Option<(Tier, CryptoHash, PeerId)>, handling: RoutedHandling },
    Dispatch(Dispatch),
}

/// The handling of a routed message `m` with a valid signature.
pub open spec fn routed_handling(m: RoutedMessage, conn: Connection, checks: ReadyChecks) -> RoutedHandling {
    if checks.message_for_me {
        match m.body {
            RoutedMessageBody::Ping { nonce, source } => RoutedHandling::Ping { nonce, source, hash: m.hash },
            RoutedMessageBody::Pong { nonce, source } => RoutedHandling::Pong { nonce, source },
            _ => RoutedHandling::Deliver(dispatch_of(PeerMessage::Routed(m), conn.peer_id, false, checks.now)),
        }
    } else if m.ttl > 1 {
        RoutedHandling::Forward(RoutedMessage { ttl: (m.ttl - 1) as u8, ..m })
    } else {
        RoutedHandling::Dropped
    }
}

/// What `msg` on the ready connection `conn` leads to; `requested` lists
/// the blocks asked of the peer.
pub open spec fn ready_action(conn: Connection, requested: Seq<CryptoHash>, msg: PeerMessage, checks: ReadyChecks) -> ReadyAction {
    match msg {
        PeerMessage::Disconnect => ReadyAction::Stop,
        PeerMessage::Tier1Handshake(_) => ReadyAction::Nothing,
        PeerMessage::Tier2Handshake(_) => ReadyAction::Nothing,
        PeerMessage::HandshakeFailure(..) => ReadyAction::Nothing,
        PeerMessage::LastEdge(_) => ReadyAction::Nothing,
        PeerMessage::PeersRequest => ReadyAction::RequestPeers,
        PeerMessage::PeersResponse(peers) => ReadyAction::ForwardPeers(peers),
        PeerMessage::RequestUpdateNonce(info) => ReadyAction::RequestUpdateNonce(conn.peer_id, info),
        PeerMessage::ResponseUpdateNonce(edge) => ReadyAction::ResponseUpdateNonce(edge),
        PeerMessage::SyncRoutingTable(u) => ReadyAction::SyncRoutingTable(conn.peer_id, u),
        PeerMessage::SyncAccountsData(data) => ReadyAction::SyncAccountsData {
            reply_full_sync: data.requesting_full_sync,
            from: conn.peer_id,
            data,
        },
        PeerMessage::Routed(m) => if !checks.routed_signature_valid {
            ReadyAction::Ban(ReasonForBan::InvalidSignature)
        } else {
            ReadyAction::Routed {
                route_back: if expects_response(&m.body) {
                    Some((conn.tier, m.hash, conn.peer_id))
                } else {
                    None
                },
                handling: routed_handling(m, conn, checks),
            }
        },
        PeerMessage::Block(b) => ReadyAction::Dispatch(
            dispatch_of(msg, conn.peer_id, requested.contains(b.hash), checks.now),
        ),
        _ => ReadyAction::Dispatch(dispatch_of(msg, conn.peer_id, false, checks.now)),
    }
}

/// The pool's answer about a nonce update.
#[derive(Clone, Copy, Debug, PartialEq, Eq, Structural)]
pub enum UpdateNonceResponse {
    EdgeUpdate(Edge),
    BanPeer(ReasonForBan),
    Nothing,
}

/// A request of the pool to the machine.
#[derive(Clone, Copy, Debug, PartialEq, Eq, Structural)]
pub enum PeerManagerRequest {
    BanPeer(ReasonForBan),
    UnregisterPeer,
}

/// Why received accounts data was refused.
#[derive(Clone, Copy, Debug, PartialEq, Eq, Structural)]
pub enum AccountsDataError {
    InvalidSignature,
    DataTooLarge,
    SingleAccountMultipleData,
}

/// The ban for sending refused accounts data: a bad signature, or abuse.
pub fn accounts_data_ban_reason(err: AccountsDataError) -> (r: ReasonForBan)
    ensures
        r == (match err {
            AccountsDataError::InvalidSignature => ReasonForBan::InvalidSignature,
            _ => ReasonForBan::Abusive,
        }),
{
    match err {
        AccountsDataError::InvalidSignature => ReasonForBan::InvalidSignature,
        AccountsDataError::DataTooLarge => ReasonForBan::Abusive,
        AccountsDataError::SingleAccountMultipleData => ReasonForBan::Abusive,
    }
}

/// The answer to a peers request: the peers, unless there are none.
pub fn peers_reply(peers: Vec<PeerInfo>) -> (r: Option<PeerMessage>)
    ensures
        r == (if peers.len() > 0 {
            Some(PeerMessage::PeersResponse(peers))
        } else {
            None
        }),
{
    if peers.len() > 0 {
        Some(PeerMessage::PeersResponse(peers))
    } else {
        None
    }
}

/// A full sync of the accounts data known, either answering a request for
/// one or asking the peer for one in return.
pub fn full_accounts_sync(accounts_data: Vec<Vec<u8>>, requesting_full_sync: bool) -> (r: PeerMessage)
    ensures
        r == PeerMessage::SyncAccountsData(
            SyncAccountsData { accounts_data, requesting_full_sync, incremental: false },
        ),
{
    PeerMessage::SyncAccountsData(SyncAccountsData { accounts_data, requesting_full_sync, incremental: false })
}

/// The active edges of `edges`, in order.
fn active_edges_of(edges: &Vec<Edge>) -> (r: Vec<Edge>)
    ensures
        r@ == active_edges(edges@),
{
    let mut r: Vec<Edge> = Vec::new();
    proof {
        reveal(Seq::filter);
        assert(active_edges(edges@.take(0)) =~= Seq::<Edge>::empty());
    }
    let mut i: usize = 0;
    while i < edges.len()
        invariant
            0 <= i <= edges.len(),
            r@ == active_edges(edges@.take(i as int)),
        decreases edges.len() - i,
    {
        proof {
            assert(edges@.take(i + 1).drop_last() =~= edges@.take(i as int));
            assert(edges@.take(i + 1).last() == edges@[i as int]);
            reveal(Seq::filter);
            assert(active_edges(edges@.take(i + 1)) == (if edges@[i as int].nonce % 2 == 1 {
                active_edges(edges@.take(i as int)).push(edges@[i as int])
            } else {
                active_edges(edges@.take(i as int))
            }));
        }
        let e = edges[i];
        if e.edge_type() == EdgeState::Active {
            r.push(e);
        }
        i = i + 1;
    }
    proof {
        assert(edges@.take(i as int) =~= edges@);
    }
    r
}

/// Whether `msg` is the handshake that a node configured as `config` sends
/// for `spec`, announcing `chain_info`.
pub open spec fn is_handshake_for(msg: PeerMessage, config: &NodeConfig, spec: HandshakeSpec, chain_info: &ChainInfo) -> bool {
    let fits = |h: Handshake|
        {
            &&& h.protocol_version == spec.protocol_version
            &&& h.oldest_supported_version == config.min_allowed_protocol_version
            &&& h.sender_peer_id == config.my_peer_id
            &&& h.target_peer_id == spec.peer_id
            &&& h.sender_listen_port == config.listen_port
            &&& h.sender_chain_info.genesis_id == spec.genesis_id
            &&& h.sender_chain_info.height == chain_info.height
            &&& h.sender_chain_info.tracked_shards@ == chain_info.tracked_shards@
            &&& h.sender_chain_info.archival == config.archival
            &&& h.partial_edge_info == spec.partial_edge_info
        };
    match msg {
        PeerMessage::Tier1Handshake(h) => spec.tier == Tier::T1 && fits(h),
        PeerMessage::Tier2Handshake(h) => spec.tier == Tier::T2 && fits(h),
        _ => false,
    }
}

/// An edge is formed from a handshake only if the peer's partial signature
/// checked out, at the nonce of the handshake, and it holds exactly the two
/// partial signatures: the peer's, and this node's for that nonce.
pub proof fn lemma_edge_holds_both_signatures(
    config: &NodeConfig,
    peer_type: PeerType,
    spec: Option<HandshakeSpec>,
    tier: Tier,
    handshake: Handshake,
    checks: HandshakeChecks,
)
    requires
        handshake_decision(config, peer_type, spec, tier, handshake, checks) is Register,
    ensures
        ({
            let d = handshake_decision(config, peer_type, spec, tier, handshake, checks);
            let conn = d->Register_0;
            let ours = d->Register_1;
            let peer = handshake.sender_peer_id;
            &&& checks.signature_valid
            &&& peer != config.my_peer_id
            &&& conn.edge.nonce == handshake.partial_edge_info.nonce
            &&& ours.nonce == handshake.partial_edge_info.nonce
            &&& conn.edge.signature_of(peer) == Some(handshake.partial_edge_info.signature)
            &&& conn.edge.signature_of(config.my_peer_id) == Some(ours.signature)
        }),
{
}

/// A routed message accepted at `t` is dropped when a message with the same
/// author, target and signature arrives again by `t` plus the drop period,
/// as long as the cache still holds it.
pub proof fn lemma_repeated_routed_message_dropped(
    seen: Map<RoutedKey, u64>,
    first: RoutedMessage,
    again: RoutedMessage,
    t: u64,
    now: u64,
    txns: u64,
)
    requires
        seen.contains_key(routed_key(&first)),
        seen[routed_key(&first)] == t,
        again.author == first.author,
        again.target == first.target,
        again.signature == first.signature,
        now <= t + crate::routed_cache::DROP_DUPLICATED_MESSAGES_PERIOD_MS,
    ensures
        frame_dropped(seen, &PeerMessage::Routed(again), now, txns),
{
}

/// A handshake between two nodes that agree on genesis and tier, with a
/// version the inbound side accepts, fresh nonces and valid signatures,
/// leads both sides to register, and both form the same edge.
pub proof fn lemma_matching_handshakes_form_one_edge(
    out_config: &NodeConfig,
    in_config: &NodeConfig,
    spec: HandshakeSpec,
    first: Handshake,
    reply: Handshake,
    in_checks: HandshakeChecks,
    out_checks: HandshakeChecks,
)
    requires
        out_config.my_peer_id != in_config.my_peer_id,
        spec.peer_id == in_config.my_peer_id,
        spec.genesis_id == in_config.genesis_id,
        in_config.min_allowed_protocol_version <= spec.protocol_version <= in_config.protocol_version,
        first.protocol_version == spec.protocol_version,
        first.sender_peer_id == out_config.my_peer_id,
        first.target_peer_id == spec.peer_id,
        first.sender_chain_info.genesis_id == spec.genesis_id,
        first.partial_edge_info == spec.partial_edge_info,
        in_checks.nonce_ok,
        in_checks.signature_valid,
        in_checks.local_edge.is_none() || in_checks.local_edge.unwrap().nonce < spec.partial_edge_info.nonce,
        reply.protocol_version == first.protocol_version,
        reply.sender_peer_id == in_config.my_peer_id,
        reply.sender_chain_info.genesis_id == in_config.genesis_id,
        reply.partial_edge_info == (PartialEdgeInfo {
            nonce: first.partial_edge_info.nonce,
            signature: in_checks.our_signature,
        }),
        out_checks.signature_valid,
    ensures
        ({
            let d_in = handshake_decision(in_config, PeerType::Inbound, None, spec.tier, first, in_checks);
            let d_out = handshake_decision(out_config, PeerType::Outbound, Some(spec), spec.tier, reply, out_checks);
            &&& d_in is Register
            &&& d_out is Register
            &&& d_in->Register_0.edge == d_out->Register_0.edge
            &&& d_in->Register_1 == reply.partial_edge_info
        }),
{
    crate::protocol::lemma_edge_symmetric(
        in_config.my_peer_id,
        out_config.my_peer_id,
        first.partial_edge_info.nonce,
        in_checks.our_signature,
        first.partial_edge_info.signature,
    );
}

} // verus!
