//! Events that the network layer reports to observers and tests.
use vstd::prelude::*;

use crate::dispatch::{NetworkClientMessages, NetworkViewClientMessages};
use crate::protocol::{PeerMessage, ReasonForBan, SyncAccountsData, Tier};

verus! {

/// Why a connection was closed.
#[derive(Clone, Copy, Debug, PartialEq, Eq, Structural)]
pub enum ClosingReason {
    /// The peer was banned.
    Ban(ReasonForBan),
    /// The handshake did not complete.
    HandshakeFailed,
    /// The stream failed or was closed.
    StreamError,
    /// Either side asked to disconnect.
    Disconnected,
}

/// What the network layer reports.
#[derive(Clone, Debug, PartialEq, Eq)]
pub enum PeerManagerEvent {
    ServerStarted,
    PeerActorStarted(u64),
    ConnectionClosed { stream_id: u64, reason: ClosingReason },
    HandshakeStarted { stream_id: u64 },
    HandshakeCompleted { stream_id: u64 },
    MessageProcessed(Tier, PeerMessage),
    RoutingTableUpdate,
    Ping { nonce: u64 },
    Pong { nonce: u64 },
    RoutedMessageDropped,
}

/// What a client reports it was handed.
#[derive(Clone, Debug, PartialEq, Eq)]
pub enum ClientEvent {
    Client(NetworkClientMessages),
    ViewClient(NetworkViewClientMessages),
}

/// An event seen by an observer of a node.
#[derive(Clone, Debug, PartialEq, Eq)]
pub enum Event {
    Client(ClientEvent),
    PeerManager(PeerManagerEvent),
}

/// The accounts data of an event reporting that a `SyncAccountsData`
/// message was processed on a `T2` connection; `None` for any other event.
pub fn unwrap_sync_accounts_data_processed(ev: Event) -> (r: Option<SyncAccountsData>)
    ensures
        r == (match ev {
            Event::PeerManager(
                PeerManagerEvent::MessageProcessed(Tier::T2, PeerMessage::SyncAccountsData(msg)),
            ) => Some(msg),
            _ => None,
        }),
{
    match ev {
        Event::PeerManager(
            PeerManagerEvent::MessageProcessed(Tier::T2, PeerMessage::SyncAccountsData(msg)),
        ) => Some(msg),
        _ => None,
    }
}

} // verus!
