//! The messages that peers exchange, as the peer state machine reads them.
use vstd::prelude::*;

use crate::primitives::{AccountId, CryptoHash, ShardId};

verus! {

/// Version of the network protocol.
pub type ProtocolVersion = u32;

/// Identifier of a node, derived from its public key.
#[derive(Clone, Copy, Debug, Default, PartialEq, Eq, Structural, Hash)]
pub struct PeerId(pub u64);

/// A signature, as a 64-bit value.
#[derive(Clone, Copy, Debug, Default, PartialEq, Eq, Structural, Hash)]
pub struct Signature(pub u64);

/// Identifier of an epoch.
#[derive(Clone, Copy, Debug, Default, PartialEq, Eq, Structural, Hash)]
pub struct EpochId(pub CryptoHash);

/// Identifies a chain by its genesis block.
#[derive(Clone, Copy, Debug, Default, PartialEq, Eq, Structural, Hash)]
pub struct GenesisId {
    pub hash: CryptoHash,
}

/// Admission class of a connection: `T1` for validators, `T2` for the mesh.
#[derive(Clone, Copy, Debug, PartialEq, Eq, Structural, Hash)]
pub enum Tier {
    T1,
    T2,
}

/// Which side opened the connection.
#[derive(Clone, Copy, Debug, PartialEq, Eq, Structural, Hash)]
pub enum PeerType {
    Inbound,
    Outbound,
}

/// Wire encoding of messages.
#[derive(Clone, Copy, Debug, PartialEq, Eq, Structural, Hash)]
pub enum Encoding {
    Proto,
    Borsh,
}

/// Why a peer is banned.
#[derive(Clone, Copy, Debug, PartialEq, Eq, Structural, Hash)]
pub enum ReasonForBan {
    BadBlock,
    BadBlockHeader,
    HeightFraud,
    BadHandshake,
    BadBlockApproval,
    Abusive,
    InvalidSignature,
    InvalidPeerId,
    InvalidHash,
    InvalidEdge,
    InvalidDistanceVector,
    Blacklisted,
}

/// One side of a prospective edge: a nonce and the signature of one endpoint.
#[derive(Clone, Copy, Debug, PartialEq, Eq, Structural, Hash)]
pub struct PartialEdgeInfo {
    pub nonce: u64,
    pub signature: Signature,
}

/// Whether an edge with this nonce stands for a live connection.
#[derive(Clone, Copy, Debug, PartialEq, Eq, Structural, Hash)]
pub enum EdgeState {
    Active,
    Removed,
}

/// Signed record that two peers are connected at a nonce; `peer0 < peer1`,
/// and `signature0` is the signature of `peer0`.
#[derive(Clone, Copy, Debug, PartialEq, Eq, Structural, Hash)]
pub struct Edge {
    pub peer0: PeerId,
    pub peer1: PeerId,
    pub nonce: u64,
    pub signature0: Signature,
    pub signature1: Signature,
}

/// The state an edge with nonce `nonce` stands for: odd nonces are active.
pub open spec fn edge_state_of(nonce: u64) -> EdgeState {
    if nonce % 2 == 1 {
        EdgeState::Active
    } else {
        EdgeState::Removed
    }
}

/// The smallest active nonce greater than `nonce`.
pub open spec fn next_active_nonce(nonce: u64) -> int {
    if nonce % 2 == 1 {
        nonce + 2
    } else {
        nonce + 1
    }
}

/// The edge between `a` and `b` at `nonce`, signed `sig_a` by `a` and
/// `sig_b` by `b`, with its peers in order.
pub open spec fn edge_between(a: PeerId, b: PeerId, nonce: u64, sig_a: Signature, sig_b: Signature) -> Edge {
    if a.0 < b.0 {
        Edge { peer0: a, peer1: b, nonce, signature0: sig_a, signature1: sig_b }
    } else {
        Edge { peer0: b, peer1: a, nonce, signature0: sig_b, signature1: sig_a }
    }
}

impl Edge {
    /// The edge between `a` and `b` at `nonce`, where `sig_a` is `a`'s
    /// signature and `sig_b` is `b`'s; the peers are stored in order.
    pub fn new(a: PeerId, b: PeerId, nonce: u64, sig_a: Signature, sig_b: Signature) -> (r: Edge)
        ensures
            r == edge_between(a, b, nonce, sig_a, sig_b),
            r.nonce == nonce,
            r.peer0.0 <= r.peer1.0,
            (r.peer0 == a && r.peer1 == b && r.signature0 == sig_a && r.signature1 == sig_b) || (r.peer0
                == b && r.peer1 == a && r.signature0 == sig_b && r.signature1 == sig_a),
            r.signature_of(a) == Some(sig_a) || a == b,
            r.signature_of(b) == Some(sig_b),
    {
        if a.0 < b.0 {
            Edge { peer0: a, peer1: b, nonce, signature0: sig_a, signature1: sig_b }
        } else {
            Edge { peer0: b, peer1: a, nonce, signature0: sig_b, signature1: sig_a }
        }
    }

    /// The signature the edge holds for `p`, if `p` is an endpoint.
    pub open spec fn signature_of(&self, p: PeerId) -> Option<Signature> {
        if p == self.peer0 {
            Some(self.signature0)
        } else if p == self.peer1 {
            Some(self.signature1)
        } else {
            None
        }
    }

    pub fn nonce(&self) -> (r: u64)
        ensures
            r == self.nonce,
    {
        self.nonce
    }

    pub fn edge_type(&self) -> (r: EdgeState)
        ensures
            r == edge_state_of(self.nonce),
    {
        if self.nonce % 2 == 1 {
            EdgeState::Active
        } else {
            EdgeState::Removed
        }
    }

    /// The nonce to propose for a new edge after this one, if it fits in 64 bits.
    pub fn next(&self) -> (r: Option<u64>)
        ensures
            match r {
                Some(n) => n == next_active_nonce(self.nonce),
                None => next_active_nonce(self.nonce) > u64::MAX,
            },
    {
        if self.nonce % 2 == 1 {
            self.nonce.checked_add(2)
        } else {
            self.nonce.checked_add(1)
        }
    }
}

/// What a node tells about its chain in a handshake.
#[derive(Clone, Debug, PartialEq, Eq)]
pub struct PeerChainInfo {
    pub genesis_id: GenesisId,
    pub height: u64,
    pub tracked_shards: Vec<ShardId>,
    pub archival: bool,
}

/// The first message of each side of a connection.
#[derive(Clone, Debug, PartialEq, Eq)]
pub struct Handshake {
    pub protocol_version: ProtocolVersion,
    pub oldest_supported_version: ProtocolVersion,
    pub sender_peer_id: PeerId,
    pub target_peer_id: PeerId,
    pub sender_listen_port: Option<u16>,
    pub sender_chain_info: PeerChainInfo,
    pub partial_edge_info: PartialEdgeInfo,
}

/// Identity of a node as other nodes know it.
#[derive(Clone, Debug, PartialEq, Eq)]
pub struct PeerInfo {
    pub id: PeerId,
    pub listen_port: Option<u16>,
    pub account_id: Option<AccountId>,
}

/// Why an inbound side refused a handshake.
#[derive(Clone, Copy, Debug, PartialEq, Eq, Structural)]
pub enum HandshakeFailureReason {
    ProtocolVersionMismatch { version: ProtocolVersion, oldest_supported_version: ProtocolVersion },
    GenesisMismatch(GenesisId),
    InvalidTarget,
}

/// Where a routed message goes: a peer, or back along the route of the
/// message with the given hash.
#[derive(Clone, Copy, Debug, PartialEq, Eq, Structural, Hash)]
pub enum PeerIdOrHash {
    PeerId(PeerId),
    Hash(CryptoHash),
}

/// The body of a routed message. Payloads that only the client reads are
/// carried as encoded bytes.
#[derive(Clone, Debug, PartialEq, Eq)]
pub enum RoutedMessageBody {
    BlockApproval(Vec<u8>),
    ForwardTx(Vec<u8>),
    TxStatusRequest(AccountId, CryptoHash),
    TxStatusResponse(Vec<u8>),
    ReceiptOutcomeRequest(CryptoHash),
    StateRequestHeader(ShardId, CryptoHash),
    StateRequestPart(ShardId, CryptoHash, u64),
    StateResponse(Vec<u8>),
    VersionedStateResponse(Vec<u8>),
    PartialEncodedChunkRequest(Vec<u8>),
    PartialEncodedChunkResponse(Vec<u8>),
    PartialEncodedChunk(Vec<u8>),
    VersionedPartialEncodedChunk(Vec<u8>),
    PartialEncodedChunkForward(Vec<u8>),
    Ping { nonce: u64, source: PeerId },
    Pong { nonce: u64, source: PeerId },
}

/// A message forwarded through the network towards `target`. `hash` is the
/// digest of the message, computed where it was decoded.
#[derive(Clone, Debug, PartialEq, Eq)]
pub struct RoutedMessage {
    pub target: PeerIdOrHash,
    pub author: PeerId,
    pub signature: Signature,
    pub ttl: u8,
    pub body: RoutedMessageBody,
    pub hash: CryptoHash,
}

/// Whether the author of a message with this body expects an answer.
pub open spec fn expects_response(body: &RoutedMessageBody) -> bool {
    match body {
        RoutedMessageBody::Ping { .. } => true,
        RoutedMessageBody::TxStatusRequest(..) => true,
        RoutedMessageBody::StateRequestHeader(..) => true,
        RoutedMessageBody::StateRequestPart(..) => true,
        RoutedMessageBody::PartialEncodedChunkRequest(..) => true,
        _ => false,
    }
}

impl RoutedMessage {
    pub fn expect_response(&self) -> (r: bool)
        ensures
            r == expects_response(&self.body),
    {
        match &self.body {
            RoutedMessageBody::Ping { .. } => true,
            RoutedMessageBody::TxStatusRequest(..) => true,
            RoutedMessageBody::StateRequestHeader(..) => true,
            RoutedMessageBody::StateRequestPart(..) => true,
            RoutedMessageBody::PartialEncodedChunkRequest(..) => true,
            _ => false,
        }
    }

    /// Takes one hop off the time to live (stopping at 0); false when none
    /// is left after that, and the message is to be dropped.
    pub fn decrease_ttl(&mut self) -> (r: bool)
        ensures
            final(self).ttl == (if old(self).ttl > 0 { (old(self).ttl - 1) as u8 } else { 0 }),
            r == (final(self).ttl > 0),
            final(self).target == old(self).target,
            final(self).author == old(self).author,
            final(self).signature == old(self).signature,
            final(self).body == old(self).body,
            final(self).hash == old(self).hash,
    {
        self.ttl = self.ttl.saturating_sub(1);
        self.ttl > 0
    }

    /// What identifies this message for duplicate detection: author, target
    /// and signature.
    pub fn dedup_key(&self) -> (r: (u64, u64, u64, u64))
        ensures
            r == routed_key(self),
    {
        match self.target {
            PeerIdOrHash::PeerId(p) => (self.author.0, 0, p.0, self.signature.0),
            PeerIdOrHash::Hash(h) => (self.author.0, 1, h.0, self.signature.0),
        }
    }
}

/// The key of a routed message: author, target kind and value, signature.
pub open spec fn routed_key(m: &RoutedMessage) -> (u64, u64, u64, u64) {
    match m.target {
        PeerIdOrHash::PeerId(p) => (m.author.0, 0, p.0, m.signature.0),
        PeerIdOrHash::Hash(h) => (m.author.0, 1, h.0, m.signature.0),
    }
}

/// A block, as the network layer reads it; the rest is encoded bytes.
#[derive(Clone, Debug, PartialEq, Eq)]
pub struct Block {
    pub hash: CryptoHash,
    pub height: u64,
    pub payload: Vec<u8>,
}

/// Accounts data exchanged between peers; each item is a signed record.
#[derive(Clone, Debug, PartialEq, Eq)]
pub struct SyncAccountsData {
    pub accounts_data: Vec<Vec<u8>>,
    pub requesting_full_sync: bool,
    pub incremental: bool,
}

/// Edges and account announcements exchanged to build routing tables.
#[derive(Clone, Debug, PartialEq, Eq)]
pub struct RoutingTableUpdate {
    pub edges: Vec<Edge>,
    pub accounts: Vec<Vec<u8>>,
}

/// A message between two directly connected peers.
#[derive(Clone, Debug, PartialEq, Eq)]
pub enum PeerMessage {
    Tier1Handshake(Handshake),
    Tier2Handshake(Handshake),
    HandshakeFailure(PeerInfo, HandshakeFailureReason),
    LastEdge(Edge),
    SyncRoutingTable(RoutingTableUpdate),
    RequestUpdateNonce(PartialEdgeInfo),
    ResponseUpdateNonce(Edge),
    SyncAccountsData(SyncAccountsData),
    PeersRequest,
    PeersResponse(Vec<PeerInfo>),
    BlockHeadersRequest(Vec<CryptoHash>),
    BlockHeaders(Vec<Vec<u8>>),
    BlockRequest(CryptoHash),
    Block(Block),
    Transaction(Vec<u8>),
    Routed(RoutedMessage),
    Disconnect,
    Challenge(Vec<u8>),
    EpochSyncRequest(EpochId),
    EpochSyncResponse(Vec<u8>),
    EpochSyncFinalizationRequest(EpochId),
    EpochSyncFinalizationResponse(Vec<u8>),
}

/// Whether a routed body belongs to the validator duties that `T1` carries:
/// block approvals and chunk parts.
pub open spec fn is_tier1_body(body: &RoutedMessageBody) -> bool {
    match body {
        RoutedMessageBody::BlockApproval(_) => true,
        RoutedMessageBody::VersionedPartialEncodedChunk(_) => true,
        RoutedMessageBody::PartialEncodedChunkForward(_) => true,
        _ => false,
    }
}

/// Whether a message may travel on a connection of tier `tier`.
pub open spec fn tier_allows(tier: Tier, msg: &PeerMessage) -> bool {
    match tier {
        Tier::T1 => match msg {
            PeerMessage::Tier1Handshake(_) => true,
            PeerMessage::HandshakeFailure(..) => true,
            PeerMessage::Disconnect => true,
            PeerMessage::Routed(m) => is_tier1_body(&m.body),
            _ => false,
        },
        Tier::T2 => match msg {
            PeerMessage::Tier1Handshake(_) => false,
            _ => true,
        },
    }
}

impl Tier {
    /// Whether `msg` may travel on a connection of this tier.
    pub fn is_allowed(&self, msg: &PeerMessage) -> (r: bool)
        ensures
            r == tier_allows(*self, msg),
    {
        match self {
            Tier::T1 => match msg {
                PeerMessage::Tier1Handshake(_) => true,
                PeerMessage::HandshakeFailure(..) => true,
                PeerMessage::Disconnect => true,
                PeerMessage::Routed(m) => match &m.body {
                    RoutedMessageBody::BlockApproval(_) => true,
                    RoutedMessageBody::VersionedPartialEncodedChunk(_) => true,
                    RoutedMessageBody::PartialEncodedChunkForward(_) => true,
                    _ => false,
                },
                _ => false,
            },
            Tier::T2 => match msg {
                PeerMessage::Tier1Handshake(_) => false,
                _ => true,
            },
        }
    }
}

/// Both ends of a handshake form the same edge: it does not depend on
/// which of the two peers builds it.
pub proof fn lemma_edge_symmetric(a: PeerId, b: PeerId, nonce: u64, sig_a: Signature, sig_b: Signature)
    requires
        a != b,
    ensures
        edge_between(a, b, nonce, sig_a, sig_b) == edge_between(b, a, nonce, sig_b, sig_a),
{
}

} // verus!
