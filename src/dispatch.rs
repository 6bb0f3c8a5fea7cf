//! Which sink handles a message received on a ready connection, in what
//! form, and what the connection does with the sink's answer.
use vstd::prelude::*;

use crate::primitives::{AccountId, CryptoHash, ShardId};
use crate::protocol::{
    Block, EpochId, PeerId, PeerIdOrHash, PeerMessage, ReasonForBan, RoutedMessageBody,
};

verus! {

/// A state response, in the first or the versioned format.
#[derive(Clone, Debug, PartialEq, Eq)]
pub enum StateResponseInfo {
    V1(Vec<u8>),
    V2(Vec<u8>),
}

/// A partial encoded chunk, in the first or the versioned format.
#[derive(Clone, Debug, PartialEq, Eq)]
pub enum PartialEncodedChunk {
    V1(Vec<u8>),
    Versioned(Vec<u8>),
}

/// What the client (full node logic) is handed.
#[derive(Clone, Debug, PartialEq, Eq)]
pub enum NetworkClientMessages {
    Block(Block, PeerId, bool),
    Transaction { transaction: Vec<u8>, is_forwarded: bool, check_only: bool },
    BlockHeaders(Vec<Vec<u8>>, PeerId),
    BlockApproval(Vec<u8>, PeerId),
    StateResponse(StateResponseInfo),
    PartialEncodedChunkRequest(Vec<u8>, CryptoHash),
    PartialEncodedChunkResponse(Vec<u8>, u64),
    PartialEncodedChunk(PartialEncodedChunk),
    PartialEncodedChunkForward(Vec<u8>),
    Challenge(Vec<u8>),
    EpochSyncResponse(PeerId, Vec<u8>),
    EpochSyncFinalizationResponse(PeerId, Vec<u8>),
}

/// What the view client (read-only queries) is handed.
#[derive(Clone, Debug, PartialEq, Eq)]
pub enum NetworkViewClientMessages {
    TxStatus { tx_hash: CryptoHash, signer_account_id: AccountId },
    TxStatusResponse(Vec<u8>),
    StateRequestHeader { shard_id: ShardId, sync_hash: CryptoHash },
    StateRequestPart { shard_id: ShardId, sync_hash: CryptoHash, part_id: u64 },
    BlockRequest(CryptoHash),
    BlockHeadersRequest(Vec<CryptoHash>),
    EpochSyncRequest { epoch_id: EpochId },
    EpochSyncFinalizationRequest { epoch_id: EpochId },
}

/// Where a received message goes.
#[derive(Clone, Debug, PartialEq, Eq)]
pub enum Dispatch {
    Client(NetworkClientMessages),
    /// The request, and the hash of the routed message that carried it, to
    /// address the answer.
    ViewClient(NetworkViewClientMessages, Option<CryptoHash>),
    /// No sink takes it.
    Ignore,
}

/// Whether the view client handles `msg`.
pub open spec fn is_view_client_message(msg: &PeerMessage) -> bool {
    match msg {
        PeerMessage::Routed(r) => match r.body {
            RoutedMessageBody::TxStatusRequest(..) => true,
            RoutedMessageBody::TxStatusResponse(_) => true,
            RoutedMessageBody::ReceiptOutcomeRequest(_) => true,
            RoutedMessageBody::StateRequestHeader(..) => true,
            RoutedMessageBody::StateRequestPart(..) => true,
            _ => false,
        },
        PeerMessage::BlockRequest(_) => true,
        PeerMessage::BlockHeadersRequest(_) => true,
        PeerMessage::EpochSyncRequest(_) => true,
        PeerMessage::EpochSyncFinalizationRequest(_) => true,
        _ => false,
    }
}

/// What the view client is handed for `msg`, if anything.
pub open spec fn view_client_request(msg: PeerMessage) -> Option<NetworkViewClientMessages> {
    match msg {
        PeerMessage::Routed(r) => match r.body {
            RoutedMessageBody::TxStatusRequest(account_id, tx_hash) => Some(
                NetworkViewClientMessages::TxStatus { tx_hash, signer_account_id: account_id },
            ),
            RoutedMessageBody::TxStatusResponse(result) => Some(
                NetworkViewClientMessages::TxStatusResponse(result),
            ),
            RoutedMessageBody::StateRequestHeader(shard_id, sync_hash) => Some(
                NetworkViewClientMessages::StateRequestHeader { shard_id, sync_hash },
            ),
            RoutedMessageBody::StateRequestPart(shard_id, sync_hash, part_id) => Some(
                NetworkViewClientMessages::StateRequestPart { shard_id, sync_hash, part_id },
            ),
            _ => None,
        },
        PeerMessage::BlockRequest(hash) => Some(NetworkViewClientMessages::BlockRequest(hash)),
        PeerMessage::BlockHeadersRequest(hashes) => Some(
            NetworkViewClientMessages::BlockHeadersRequest(hashes),
        ),
        PeerMessage::EpochSyncRequest(epoch_id) => Some(
            NetworkViewClientMessages::EpochSyncRequest { epoch_id },
        ),
        PeerMessage::EpochSyncFinalizationRequest(epoch_id) => Some(
            NetworkViewClientMessages::EpochSyncFinalizationRequest { epoch_id },
        ),
        _ => None,
    }
}

/// What the client is handed for `msg`, received from `peer_id` at `now`;
/// `requested` says whether a block was asked of this peer.
pub open spec fn client_request(
    msg: PeerMessage,
    peer_id: PeerId,
    requested: bool,
    now: u64,
) -> Option<NetworkClientMessages> {
    match msg {
        PeerMessage::Block(block) => Some(NetworkClientMessages::Block(block, peer_id, requested)),
        PeerMessage::Transaction(transaction) => Some(
            NetworkClientMessages::Transaction { transaction, is_forwarded: false, check_only: false },
        ),
        PeerMessage::BlockHeaders(headers) => Some(NetworkClientMessages::BlockHeaders(headers, peer_id)),
        PeerMessage::Routed(r) => match r.body {
            RoutedMessageBody::BlockApproval(a) => Some(NetworkClientMessages::BlockApproval(a, peer_id)),
            RoutedMessageBody::ForwardTx(transaction) => Some(
                NetworkClientMessages::Transaction { transaction, is_forwarded: true, check_only: false },
            ),
            RoutedMessageBody::StateResponse(info) => Some(
                NetworkClientMessages::StateResponse(StateResponseInfo::V1(info)),
            ),
            RoutedMessageBody::VersionedStateResponse(info) => Some(
                NetworkClientMessages::StateResponse(StateResponseInfo::V2(info)),
            ),
            RoutedMessageBody::PartialEncodedChunkRequest(request) => Some(
                NetworkClientMessages::PartialEncodedChunkRequest(request, r.hash),
            ),
            RoutedMessageBody::PartialEncodedChunkResponse(response) => Some(
                NetworkClientMessages::PartialEncodedChunkResponse(response, now),
            ),
            RoutedMessageBody::PartialEncodedChunk(chunk) => Some(
                NetworkClientMessages::PartialEncodedChunk(PartialEncodedChunk::V1(chunk)),
            ),
            RoutedMessageBody::VersionedPartialEncodedChunk(chunk) => Some(
                NetworkClientMessages::PartialEncodedChunk(PartialEncodedChunk::Versioned(chunk)),
            ),
            RoutedMessageBody::PartialEncodedChunkForward(forward) => Some(
                NetworkClientMessages::PartialEncodedChunkForward(forward),
            ),
            _ => None,
        },
        PeerMessage::Challenge(challenge) => Some(NetworkClientMessages::Challenge(challenge)),
        PeerMessage::EpochSyncResponse(response) => Some(
            NetworkClientMessages::EpochSyncResponse(peer_id, response),
        ),
        PeerMessage::EpochSyncFinalizationResponse(response) => Some(
            NetworkClientMessages::EpochSyncFinalizationResponse(peer_id, response),
        ),
        _ => None,
    }
}

/// Where `msg` goes: the view client for queries, the client for the rest
/// of what the node consumes, nowhere for what neither takes.
pub open spec fn dispatch_of(msg: PeerMessage, peer_id: PeerId, requested: bool, now: u64) -> Dispatch {
    if is_view_client_message(&msg) {
        match view_client_request(msg) {
            Some(req) => Dispatch::ViewClient(
                req,
                match msg {
                    PeerMessage::Routed(r) => Some(r.hash),
                    _ => None,
                },
            ),
            None => Dispatch::Ignore,
        }
    } else {
        match client_request(msg, peer_id, requested, now) {
            Some(req) => Dispatch::Client(req),
            None => Dispatch::Ignore,
        }
    }
}

/// Hands `msg`, received from `peer_id` at `now`, to the sink that handles
/// it; `requested` says whether this block was asked of the peer.
pub fn receive_message(msg: PeerMessage, peer_id: PeerId, requested: bool, now: u64) -> (r: Dispatch)
    ensures
        r == dispatch_of(msg, peer_id, requested, now),
{
    let view = match &msg {
        PeerMessage::Routed(r) => match &r.body {
            RoutedMessageBody::TxStatusRequest(..) => true,
            RoutedMessageBody::TxStatusResponse(_) => true,
            RoutedMessageBody::ReceiptOutcomeRequest(_) => true,
            RoutedMessageBody::StateRequestHeader(..) => true,
            RoutedMessageBody::StateRequestPart(..) => true,
            _ => false,
        },
        PeerMessage::BlockRequest(_) => true,
        PeerMessage::BlockHeadersRequest(_) => true,
        PeerMessage::EpochSyncRequest(_) => true,
        PeerMessage::EpochSyncFinalizationRequest(_) => true,
        _ => false,
    };
    if view {
        receive_view_client_message(msg)
    } else {
        receive_client_message(msg, peer_id, requested, now)
    }
}

/// The view client's part of `receive_message`.
pub fn receive_view_client_message(msg: PeerMessage) -> (r: Dispatch)
    ensures
        r == (match view_client_request(msg) {
            Some(req) => Dispatch::ViewClient(
                req,
                match msg {
                    PeerMessage::Routed(m) => Some(m.hash),
                    _ => None,
                },
            ),
            None => Dispatch::Ignore,
        }),
{
    match msg {
        PeerMessage::Routed(message) => {
            let hash = message.hash;
            let request = match message.body {
                RoutedMessageBody::TxStatusRequest(account_id, tx_hash) => {
                    NetworkViewClientMessages::TxStatus { tx_hash, signer_account_id: account_id }
                },
                RoutedMessageBody::TxStatusResponse(tx_result) => {
                    NetworkViewClientMessages::TxStatusResponse(tx_result)
                },
                RoutedMessageBody::StateRequestHeader(shard_id, sync_hash) => {
                    NetworkViewClientMessages::StateRequestHeader { shard_id, sync_hash }
                },
                RoutedMessageBody::StateRequestPart(shard_id, sync_hash, part_id) => {
                    NetworkViewClientMessages::StateRequestPart { shard_id, sync_hash, part_id }
                },
                _ => {
                    return Dispatch::Ignore;
                },
            };
            Dispatch::ViewClient(request, Some(hash))
        },
        PeerMessage::BlockRequest(hash) => Dispatch::ViewClient(
            NetworkViewClientMessages::BlockRequest(hash),
            None,
        ),
        PeerMessage::BlockHeadersRequest(hashes) => Dispatch::ViewClient(
            NetworkViewClientMessages::BlockHeadersRequest(hashes),
            None,
        ),
        PeerMessage::EpochSyncRequest(epoch_id) => Dispatch::ViewClient(
            NetworkViewClientMessages::EpochSyncRequest { epoch_id },
            None,
        ),
        PeerMessage::EpochSyncFinalizationRequest(epoch_id) => Dispatch::ViewClient(
            NetworkViewClientMessages::EpochSyncFinalizationRequest { epoch_id },
            None,
        ),
        _ => Dispatch::Ignore,
    }
}

/// The client's part of `receive_message`.
pub fn receive_client_message(msg: PeerMessage, peer_id: PeerId, requested: bool, now: u64) -> (r:
    Dispatch)
    ensures
        r == (match client_request(msg, peer_id, requested, now) {
            Some(req) => Dispatch::Client(req),
            None => Dispatch::Ignore,
        }),
{
    let request = match msg {
        PeerMessage::Block(block) => NetworkClientMessages::Block(block, peer_id, requested),
        PeerMessage::Transaction(transaction) => NetworkClientMessages::Transaction {
            transaction,
            is_forwarded: false,
            check_only: false,
        },
        PeerMessage::BlockHeaders(headers) => NetworkClientMessages::BlockHeaders(headers, peer_id),
        PeerMessage::Routed(routed_message) => {
            let msg_hash = routed_message.hash;
            match routed_message.body {
                RoutedMessageBody::BlockApproval(approval) => NetworkClientMessages::BlockApproval(
                    approval,
                    peer_id,
                ),
                RoutedMessageBody::ForwardTx(transaction) => NetworkClientMessages::Transaction {
                    transaction,
                    is_forwarded: true,
                    check_only: false,
                },
                RoutedMessageBody::StateResponse(info) => NetworkClientMessages::StateResponse(
                    StateResponseInfo::V1(info),
                ),
                RoutedMessageBody::VersionedStateResponse(info) => NetworkClientMessages::StateResponse(
                    StateResponseInfo::V2(info),
                ),
                RoutedMessageBody::PartialEncodedChunkRequest(request) => {
                    NetworkClientMessages::PartialEncodedChunkRequest(request, msg_hash)
                },
                RoutedMessageBody::PartialEncodedChunkResponse(response) => {
                    NetworkClientMessages::PartialEncodedChunkResponse(response, now)
                },
                RoutedMessageBody::PartialEncodedChunk(chunk) => {
                    NetworkClientMessages::PartialEncodedChunk(PartialEncodedChunk::V1(chunk))
                },
                RoutedMessageBody::VersionedPartialEncodedChunk(chunk) => {
                    NetworkClientMessages::PartialEncodedChunk(PartialEncodedChunk::Versioned(chunk))
                },
                RoutedMessageBody::PartialEncodedChunkForward(forward) => {
                    NetworkClientMessages::PartialEncodedChunkForward(forward)
                },
                _ => {
                    return Dispatch::Ignore;
                },
            }
        },
        PeerMessage::Challenge(challenge) => NetworkClientMessages::Challenge(challenge),
        PeerMessage::EpochSyncResponse(response) => NetworkClientMessages::EpochSyncResponse(
            peer_id,
            response,
        ),
        PeerMessage::EpochSyncFinalizationResponse(response) => {
            NetworkClientMessages::EpochSyncFinalizationResponse(peer_id, response)
        },
        _ => {
            return Dispatch::Ignore;
        },
    };
    Dispatch::Client(request)
}

/// What the view client answers.
#[derive(Clone, Debug, PartialEq, Eq)]
pub enum NetworkViewClientResponses {
    TxStatus(Vec<u8>),
    StateResponse(StateResponseInfo),
    Block(Block),
    BlockHeaders(Vec<Vec<u8>>),
    EpochSyncResponse(Vec<u8>),
    EpochSyncFinalizationResponse(Vec<u8>),
    NoResponse,
}

/// What the connection does with an answer.
#[derive(Clone, Debug, PartialEq, Eq)]
pub enum Reply {
    /// Send a routed message with this target and body, signed by this node.
    Routed(PeerIdOrHash, RoutedMessageBody),
    /// Send this message to the peer.
    Direct(PeerMessage),
    /// Nothing to send.
    Nothing,
}

/// The reply to a view client answer; routed answers go back along the route
/// of the request, whose hash is `msg_hash`.
pub open spec fn view_client_reply(resp: NetworkViewClientResponses, msg_hash: Option<CryptoHash>) -> Reply {
    match resp {
        NetworkViewClientResponses::TxStatus(result) => match msg_hash {
            Some(h) => Reply::Routed(PeerIdOrHash::Hash(h), RoutedMessageBody::TxStatusResponse(result)),
            None => Reply::Nothing,
        },
        NetworkViewClientResponses::StateResponse(info) => match msg_hash {
            Some(h) => Reply::Routed(
                PeerIdOrHash::Hash(h),
                match info {
                    StateResponseInfo::V1(b) => RoutedMessageBody::StateResponse(b),
                    StateResponseInfo::V2(b) => RoutedMessageBody::VersionedStateResponse(b),
                },
            ),
            None => Reply::Nothing,
        },
        NetworkViewClientResponses::Block(block) => Reply::Direct(PeerMessage::Block(block)),
        NetworkViewClientResponses::BlockHeaders(headers) => Reply::Direct(PeerMessage::BlockHeaders(headers)),
        NetworkViewClientResponses::EpochSyncResponse(r) => Reply::Direct(PeerMessage::EpochSyncResponse(r)),
        NetworkViewClientResponses::EpochSyncFinalizationResponse(r) => Reply::Direct(
            PeerMessage::EpochSyncFinalizationResponse(r),
        ),
        NetworkViewClientResponses::NoResponse => Reply::Nothing,
    }
}

/// Turns a view client answer into what is sent back.
pub fn on_view_client_response(resp: NetworkViewClientResponses, msg_hash: Option<CryptoHash>) -> (r:
    Reply)
    ensures
        r == view_client_reply(resp, msg_hash),
{
    match resp {
        NetworkViewClientResponses::TxStatus(tx_result) => match msg_hash {
            Some(h) => Reply::Routed(PeerIdOrHash::Hash(h), RoutedMessageBody::TxStatusResponse(tx_result)),
            None => Reply::Nothing,
        },
        NetworkViewClientResponses::StateResponse(state_response) => match msg_hash {
            Some(h) => {
                let body = match state_response {
                    StateResponseInfo::V1(b) => RoutedMessageBody::StateResponse(b),
                    StateResponseInfo::V2(b) => RoutedMessageBody::VersionedStateResponse(b),
                };
                Reply::Routed(PeerIdOrHash::Hash(h), body)
            },
            None => Reply::Nothing,
        },
        NetworkViewClientResponses::Block(block) => Reply::Direct(PeerMessage::Block(block)),
        NetworkViewClientResponses::BlockHeaders(headers) => Reply::Direct(PeerMessage::BlockHeaders(headers)),
        NetworkViewClientResponses::EpochSyncResponse(response) => Reply::Direct(
            PeerMessage::EpochSyncResponse(response),
        ),
        NetworkViewClientResponses::EpochSyncFinalizationResponse(response) => Reply::Direct(
            PeerMessage::EpochSyncFinalizationResponse(response),
        ),
        NetworkViewClientResponses::NoResponse => Reply::Nothing,
    }
}

/// What the client answers.
#[derive(Clone, Debug, PartialEq, Eq)]
pub enum NetworkClientResponses {
    InvalidTx(String),
    Ban { ban_reason: ReasonForBan },
    NoResponse,
}

/// What the connection does after the client answered.
#[derive(Clone, Copy, Debug, PartialEq, Eq, Structural)]
pub enum ClientOutcome {
    /// The message was processed: report it.
    Processed,
    /// An invalid transaction: tolerated, only logged.
    Tolerated,
    /// Ban the peer.
    Ban(ReasonForBan),
}

/// Decides what follows a client answer: a ban when the client asks for
/// one, nothing for an invalid transaction, a processed report otherwise.
pub fn on_client_response(resp: &NetworkClientResponses) -> (r: ClientOutcome)
    ensures
        r == (match resp {
            NetworkClientResponses::InvalidTx(_) => ClientOutcome::Tolerated,
            NetworkClientResponses::Ban { ban_reason } => ClientOutcome::Ban(*ban_reason),
            NetworkClientResponses::NoResponse => ClientOutcome::Processed,
        }),
{
    match resp {
        NetworkClientResponses::InvalidTx(_) => ClientOutcome::Tolerated,
        NetworkClientResponses::Ban { ban_reason } => ClientOutcome::Ban(*ban_reason),
        NetworkClientResponses::NoResponse => ClientOutcome::Processed,
    }
}

} // verus!
