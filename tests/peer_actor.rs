use near_network_core::dispatch::{
    on_client_response, on_view_client_response, receive_message, ClientOutcome, Dispatch,
    NetworkClientMessages, NetworkClientResponses, NetworkViewClientMessages,
    NetworkViewClientResponses, Reply,
};
use near_network_core::events::{unwrap_sync_accounts_data_processed, Event, PeerManagerEvent};
use near_network_core::peer_actor::{
    accounts_data_ban_reason, full_accounts_sync, peers_reply, AccountsDataError, ChainInfo,
    ConnectingAction, ConnectingChecks, FrameVerdict, HandshakeChecks, HandshakeDecision,
    IoErrorKind, ManagerNotice, NodeConfig, PeerActor, PeerManagerRequest, PeerStatus,
    ReadyAction, ReadyChecks, RoutedHandling, StreamConfig, StreamError, UpdateNonceResponse,
    NETWORK_MESSAGE_MAX_SIZE_BYTES,
};
use near_network_core::primitives::CryptoHash;
use near_network_core::protocol::{
    Block, Edge, EdgeState, Encoding, GenesisId, Handshake, HandshakeFailureReason,
    PartialEdgeInfo, PeerId, PeerIdOrHash, PeerInfo, PeerMessage, PeerType, ReasonForBan,
    RoutedMessage, RoutedMessageBody, RoutingTableUpdate, Signature, SyncAccountsData, Tier,
};

const GENESIS: GenesisId = GenesisId { hash: CryptoHash(77) };

fn config(id: u64, min: u32, current: u32) -> NodeConfig {
    NodeConfig {
        my_peer_id: PeerId(id),
        genesis_id: GENESIS,
        protocol_version: current,
        min_allowed_protocol_version: min,
        listen_port: Some(24567),
        archival: false,
        skip_tombstones_ms: None,
    }
}

fn chain() -> ChainInfo {
    ChainInfo { height: 10, tracked_shards: vec![0, 1] }
}

fn handshake_of(msg: PeerMessage) -> Handshake {
    match msg {
        PeerMessage::Tier1Handshake(h) | PeerMessage::Tier2Handshake(h) => h,
        other => panic!("not a handshake: {:?}", other),
    }
}

fn checks(our_signature: u64, now: u64) -> ConnectingChecks {
    ConnectingChecks {
        handshake: HandshakeChecks {
            nonce_ok: true,
            local_edge: None,
            signature_valid: true,
            our_signature: Signature(our_signature),
            now,
        },
        edge_valid: true,
    }
}

/// Runs a handshake between an outbound machine of node 1 and an inbound
/// machine of node 2 and returns both, ready.
fn connect(min_in: u32, max_in: u32) -> (PeerActor, PeerActor) {
    let mut out = PeerActor::new(
        config(1, 50, 60),
        StreamConfig::Outbound { peer_id: PeerId(2), tier: Tier::T2 },
        None,
        PartialEdgeInfo { nonce: 9, signature: Signature(1001) },
    );
    let mut inb = PeerActor::new(config(2, min_in, max_in), StreamConfig::Inbound, None, PartialEdgeInfo { nonce: 0, signature: Signature(0) });
    let mut msg = out.started(&chain()).unwrap();
    loop {
        let action = inb.handle_msg_connecting(msg, checks(2002, 5), &chain());
        match action {
            ConnectingAction::Handshake(HandshakeDecision::Fail(reason)) => {
                let failure = PeerMessage::HandshakeFailure(
                    PeerInfo { id: PeerId(2), listen_port: None, account_id: None },
                    reason,
                );
                match out.handle_msg_connecting(failure, checks(1001, 5), &chain()) {
                    ConnectingAction::Resend(m) => msg = m,
                    other => panic!("unexpected {:?}", other),
                }
            }
            ConnectingAction::Handshake(HandshakeDecision::Register(conn, ours, version)) => {
                let (reply, full_sync) =
                    inb.on_register_response(true, conn, ours, version, &chain()).unwrap();
                assert!(!full_sync);
                let reply = reply.unwrap();
                match out.handle_msg_connecting(reply, checks(1001, 6), &chain()) {
                    ConnectingAction::Handshake(HandshakeDecision::Register(conn, ours, version)) => {
                        let (none, full_sync) =
                            out.on_register_response(true, conn, ours, version, &chain()).unwrap();
                        assert!(none.is_none());
                        assert!(full_sync);
                    }
                    other => panic!("unexpected {:?}", other),
                }
                return (out, inb);
            }
            other => panic!("unexpected {:?}", other),
        }
    }
}

fn ready_edge(m: &PeerActor) -> Edge {
    match m.connection() {
        Some(conn) => conn.edge,
        None => panic!("not ready"),
    }
}

#[test]
fn handshake_reaches_ready_with_symmetric_edge() {
    let (out, inb) = connect(50, 60);
    let e1 = ready_edge(&out);
    let e2 = ready_edge(&inb);
    assert_eq!(e1, e2);
    assert_eq!(e1.peer0, PeerId(1));
    assert_eq!(e1.signature0, Signature(1001));
    assert_eq!(e1.signature1, Signature(2002));
    assert_eq!(e1.nonce, 9);
    assert_eq!(e1.edge_type(), EdgeState::Active);
    assert_eq!(out.encoding(), Some(Encoding::Borsh));
    assert_eq!(out.other_peer_id(), Some(PeerId(2)));
    assert_eq!(inb.other_peer_id(), Some(PeerId(1)));
}

#[test]
fn handshake_version_renegotiation() {
    // The outbound side opens with version 60; the inbound side supports [55, 58].
    let mut out = PeerActor::new(
        config(1, 50, 60),
        StreamConfig::Outbound { peer_id: PeerId(2), tier: Tier::T2 },
        None,
        PartialEdgeInfo { nonce: 9, signature: Signature(1001) },
    );
    let mut inb = PeerActor::new(config(2, 55, 58), StreamConfig::Inbound, None, PartialEdgeInfo { nonce: 0, signature: Signature(0) });
    let first = out.started(&chain()).unwrap();
    assert_eq!(handshake_of(first.clone()).protocol_version, 60);
    let reason = match inb.handle_msg_connecting(first, checks(2002, 1), &chain()) {
        ConnectingAction::Handshake(HandshakeDecision::Fail(reason)) => reason,
        other => panic!("unexpected {:?}", other),
    };
    assert_eq!(
        reason,
        HandshakeFailureReason::ProtocolVersionMismatch { version: 58, oldest_supported_version: 55 }
    );
    let failure = PeerMessage::HandshakeFailure(
        PeerInfo { id: PeerId(2), listen_port: None, account_id: None },
        reason,
    );
    let retry = match out.handle_msg_connecting(failure, checks(1001, 1), &chain()) {
        ConnectingAction::Resend(m) => m,
        other => panic!("unexpected {:?}", other),
    };
    assert_eq!(handshake_of(retry).protocol_version, 58);
    let (out, inb) = connect(55, 58);
    assert!(out.connection().is_some());
    assert!(inb.connection().is_some());
}

#[test]
fn version_renegotiation_gives_up_below_minimum() {
    let mut out = PeerActor::new(
        config(1, 50, 60),
        StreamConfig::Outbound { peer_id: PeerId(2), tier: Tier::T2 },
        None,
        PartialEdgeInfo { nonce: 9, signature: Signature(1001) },
    );
    let failure = PeerMessage::HandshakeFailure(
        PeerInfo { id: PeerId(2), listen_port: None, account_id: None },
        HandshakeFailureReason::ProtocolVersionMismatch { version: 45, oldest_supported_version: 40 },
    );
    assert_eq!(out.handle_msg_connecting(failure, checks(1, 1), &chain()), ConnectingAction::Stop);
    let genesis = PeerMessage::HandshakeFailure(
        PeerInfo { id: PeerId(2), listen_port: None, account_id: None },
        HandshakeFailureReason::GenesisMismatch(GenesisId { hash: CryptoHash(1) }),
    );
    assert_eq!(out.handle_msg_connecting(genesis, checks(1, 1), &chain()), ConnectingAction::Stop);
    let info = PeerInfo { id: PeerId(3), listen_port: None, account_id: None };
    let target = PeerMessage::HandshakeFailure(info.clone(), HandshakeFailureReason::InvalidTarget);
    assert_eq!(
        out.handle_msg_connecting(target, checks(1, 1), &chain()),
        ConnectingAction::UpdatePeerInfoAndStop(info)
    );
}

#[test]
fn nonce_too_low_answered_with_last_edge() {
    let mut out = PeerActor::new(
        config(1, 50, 60),
        StreamConfig::Outbound { peer_id: PeerId(2), tier: Tier::T2 },
        None,
        PartialEdgeInfo { nonce: 5, signature: Signature(1001) },
    );
    let mut inb = PeerActor::new(config(2, 50, 60), StreamConfig::Inbound, None, PartialEdgeInfo { nonce: 0, signature: Signature(0) });
    let local = Edge::new(PeerId(2), PeerId(1), 7, Signature(20), Signature(10));
    let mut inbound_checks = checks(2002, 1);
    inbound_checks.handshake.local_edge = Some(local);
    let first = out.started(&chain()).unwrap();
    let evidence = match inb.handle_msg_connecting(first, inbound_checks, &chain()) {
        ConnectingAction::Handshake(HandshakeDecision::SendLastEdge(e)) => e,
        other => panic!("unexpected {:?}", other),
    };
    assert_eq!(evidence.nonce, 7);
    assert!(inb.connection().is_none());
    let nonce = match out.handle_msg_connecting(PeerMessage::LastEdge(evidence), checks(1001, 1), &chain()) {
        ConnectingAction::ProposeNonce(n) => n,
        other => panic!("unexpected {:?}", other),
    };
    assert!(nonce >= 8);
    assert_eq!(nonce, 9);
    let again = out
        .retry_with_partial_edge(PartialEdgeInfo { nonce, signature: Signature(1003) }, &chain())
        .unwrap();
    assert_eq!(handshake_of(again.clone()).partial_edge_info.nonce, 9);
    match inb.handle_msg_connecting(again, inbound_checks, &chain()) {
        ConnectingAction::Handshake(HandshakeDecision::Register(conn, ours, _)) => {
            assert_eq!(conn.edge.nonce, 9);
            assert_eq!(ours, PartialEdgeInfo { nonce: 9, signature: Signature(2002) });
        }
        other => panic!("unexpected {:?}", other),
    }
}

#[test]
fn inbound_handshake_checks() {
    let mut inb = PeerActor::new(config(2, 50, 60), StreamConfig::Inbound, None, PartialEdgeInfo { nonce: 0, signature: Signature(0) });
    let base = Handshake {
        protocol_version: 60,
        oldest_supported_version: 50,
        sender_peer_id: PeerId(1),
        target_peer_id: PeerId(2),
        sender_listen_port: None,
        sender_chain_info: near_network_core::protocol::PeerChainInfo {
            genesis_id: GENESIS,
            height: 3,
            tracked_shards: vec![],
            archival: false,
        },
        partial_edge_info: PartialEdgeInfo { nonce: 11, signature: Signature(5) },
    };
    let c = checks(2002, 1).handshake;
    let mut wrong_genesis = base.clone();
    wrong_genesis.sender_chain_info.genesis_id = GenesisId { hash: CryptoHash(3) };
    assert_eq!(
        inb.process_handshake(Tier::T2, wrong_genesis, c),
        HandshakeDecision::Fail(HandshakeFailureReason::GenesisMismatch(GENESIS))
    );
    let mut wrong_target = base.clone();
    wrong_target.target_peer_id = PeerId(9);
    assert_eq!(
        inb.process_handshake(Tier::T2, wrong_target, c),
        HandshakeDecision::Fail(HandshakeFailureReason::InvalidTarget)
    );
    let mut bad_nonce = c;
    bad_nonce.nonce_ok = false;
    assert_eq!(inb.process_handshake(Tier::T2, base.clone(), bad_nonce), HandshakeDecision::Stop);
    let mut myself = base.clone();
    myself.sender_peer_id = PeerId(2);
    assert_eq!(inb.process_handshake(Tier::T2, myself, c), HandshakeDecision::Stop);
    let mut bad_signature = c;
    bad_signature.signature_valid = false;
    assert_eq!(
        inb.process_handshake(Tier::T2, base, bad_signature),
        HandshakeDecision::Ban(ReasonForBan::InvalidSignature)
    );
    assert_eq!(inb.stopping(), None);
}

fn routed(author: u64, signature: u64, body: RoutedMessageBody) -> RoutedMessage {
    RoutedMessage {
        target: PeerIdOrHash::PeerId(PeerId(2)),
        author: PeerId(author),
        signature: Signature(signature),
        ttl: 5,
        body,
        hash: CryptoHash(signature + 1000),
    }
}

#[test]
fn duplicate_routed_message_dropped() {
    let (_, mut inb) = connect(50, 60);
    let m = routed(7, 70, RoutedMessageBody::BlockApproval(vec![1]));
    let (v1, _) = inb.handle_frame(PeerMessage::Routed(m.clone()), 1000, 0);
    assert!(matches!(v1, FrameVerdict::Ready(_)));
    let (v2, _) = inb.handle_frame(PeerMessage::Routed(m.clone()), 1010, 0);
    assert_eq!(v2, FrameVerdict::Drop);
    let (v3, _) = inb.handle_frame(PeerMessage::Routed(m.clone()), 1060, 0);
    assert!(matches!(v3, FrameVerdict::Ready(_)));
    // Exactly at the end of the period it is still a duplicate.
    let (v4, _) = inb.handle_frame(PeerMessage::Routed(m), 1110, 0);
    assert_eq!(v4, FrameVerdict::Drop);
}

#[test]
fn forwarded_transactions_are_limited_between_blocks() {
    let (_, mut inb) = connect(50, 60);
    let tx = routed(7, 1, RoutedMessageBody::ForwardTx(vec![9]));
    let (v, n) = inb.handle_frame(PeerMessage::Routed(tx), 0, 1000);
    assert!(matches!(v, FrameVerdict::Ready(_)));
    assert_eq!(n, 1001);
    let tx = routed(7, 2, RoutedMessageBody::ForwardTx(vec![9]));
    let (v, n) = inb.handle_frame(PeerMessage::Routed(tx), 0, 1001);
    assert_eq!(v, FrameVerdict::Drop);
    assert_eq!(n, 1001);
    let block = Block { hash: CryptoHash(5), height: 12, payload: vec![] };
    let (_, n) = inb.handle_frame(PeerMessage::Block(block), 0, 1001);
    assert_eq!(n, 0);
}

#[test]
fn tier1_rejects_general_messages() {
    let mut out = PeerActor::new(
        config(1, 50, 60),
        StreamConfig::Outbound { peer_id: PeerId(2), tier: Tier::T1 },
        Some(Encoding::Borsh),
        PartialEdgeInfo { nonce: 9, signature: Signature(1001) },
    );
    assert_eq!(out.encoding(), Some(Encoding::Proto));
    assert!(matches!(out.started(&chain()), Some(PeerMessage::Tier1Handshake(_))));
    assert!(Tier::T1.is_allowed(&PeerMessage::Disconnect));
    assert!(!Tier::T1.is_allowed(&PeerMessage::PeersRequest));
    assert!(!Tier::T2.is_allowed(&PeerMessage::Tier1Handshake(handshake_of(out.started(&chain()).unwrap()))));
}

#[test]
fn ping_for_me_is_answered() {
    let (_, mut inb) = connect(50, 60);
    let ping = routed(7, 3, RoutedMessageBody::Ping { nonce: 4, source: PeerId(7) });
    let c = ReadyChecks { message_for_me: true, routed_signature_valid: true, now: 1 };
    match inb.handle_msg_ready(PeerMessage::Routed(ping), c) {
        ReadyAction::Routed { route_back, handling } => {
            assert_eq!(route_back, Some((Tier::T2, CryptoHash(1003), PeerId(1))));
            assert_eq!(
                handling,
                RoutedHandling::Ping { nonce: 4, source: PeerId(7), hash: CryptoHash(1003) }
            );
        }
        other => panic!("unexpected {:?}", other),
    }
}

#[test]
fn routed_message_ttl() {
    let (_, mut inb) = connect(50, 60);
    let c = ReadyChecks { message_for_me: false, routed_signature_valid: true, now: 1 };
    let mut m = routed(7, 3, RoutedMessageBody::BlockApproval(vec![]));
    match inb.handle_msg_ready(PeerMessage::Routed(m.clone()), c) {
        ReadyAction::Routed { route_back: None, handling: RoutedHandling::Forward(f) } => {
            assert_eq!(f.ttl, 4)
        }
        other => panic!("unexpected {:?}", other),
    }
    m.ttl = 2;
    match inb.handle_msg_ready(PeerMessage::Routed(m.clone()), c) {
        ReadyAction::Routed { handling: RoutedHandling::Forward(f), .. } => assert_eq!(f.ttl, 1),
        other => panic!("unexpected {:?}", other),
    }
    // The last hop is used up here: the message is dropped, not forwarded
    // with nothing left to live.
    m.ttl = 1;
    match inb.handle_msg_ready(PeerMessage::Routed(m.clone()), c) {
        ReadyAction::Routed { handling: RoutedHandling::Dropped, .. } => {}
        other => panic!("unexpected {:?}", other),
    }
    m.ttl = 0;
    match inb.handle_msg_ready(PeerMessage::Routed(m.clone()), c) {
        ReadyAction::Routed { handling: RoutedHandling::Dropped, .. } => {}
        other => panic!("unexpected {:?}", other),
    }
    let bad = ReadyChecks { message_for_me: true, routed_signature_valid: false, now: 1 };
    assert_eq!(
        inb.handle_msg_ready(PeerMessage::Routed(m), bad),
        ReadyAction::Ban(ReasonForBan::InvalidSignature)
    );
    assert_eq!(
        inb.stopping(),
        Some(ManagerNotice::Ban { peer_id: PeerId(1), ban_reason: ReasonForBan::InvalidSignature })
    );
}

#[test]
fn oversize_frame_bans_abusive() {
    let (_, mut inb) = connect(50, 60);
    let declared = 600u64 * 1024 * 1024;
    assert!(inb.handle_stream_error(StreamError::MessageTooLarge { declared }));
    assert_eq!(
        inb.stopping(),
        Some(ManagerNotice::Ban { peer_id: PeerId(1), ban_reason: ReasonForBan::Abusive })
    );
    let (mut out, _) = connect(50, 60);
    assert!(!out.handle_stream_error(StreamError::RecvIo(IoErrorKind::Other)));
    assert!(out.handle_stream_error(StreamError::SendIo(IoErrorKind::ConnectionReset)));
    assert_eq!(
        out.stopping(),
        Some(ManagerNotice::Unregister {
            peer_id: PeerId(2),
            peer_type: PeerType::Outbound,
            remove_from_peer_store: true
        })
    );
}

#[test]
fn send_policy() {
    let (mut out, _) = connect(50, 60);
    let block = Block { hash: CryptoHash(5), height: 12, payload: vec![] };
    let c = ReadyChecks { message_for_me: false, routed_signature_valid: true, now: 1 };
    out.handle_msg_ready(PeerMessage::Block(block.clone()), c);
    assert!(out.send_message(&PeerMessage::Block(block), 2).is_empty());
    assert_eq!(out.send_message(&PeerMessage::BlockRequest(CryptoHash(6)), 2), vec![Encoding::Borsh]);
    assert_eq!(out.connection().unwrap().chain_height, 12);
    assert!(out.record_sent_frame(NETWORK_MESSAGE_MAX_SIZE_BYTES));
    assert!(!out.record_sent_frame(NETWORK_MESSAGE_MAX_SIZE_BYTES + 1));
    let fresh = PeerActor::new(config(3, 50, 60), StreamConfig::Inbound, None, PartialEdgeInfo { nonce: 0, signature: Signature(0) });
    let mut fresh = fresh;
    assert_eq!(
        fresh.send_message(&PeerMessage::Disconnect, 0),
        vec![Encoding::Proto, Encoding::Borsh]
    );
}

#[test]
fn parse_latches_proto() {
    let mut inb = PeerActor::new(config(2, 50, 60), StreamConfig::Inbound, None, PartialEdgeInfo { nonce: 0, signature: Signature(0) });
    assert_eq!(inb.encoding(), None);
    assert_eq!(inb.parse_message(None, Some(PeerMessage::Disconnect)), Some(PeerMessage::Disconnect));
    assert_eq!(inb.encoding(), None);
    assert_eq!(
        inb.parse_message(Some(PeerMessage::PeersRequest), Some(PeerMessage::Disconnect)),
        Some(PeerMessage::PeersRequest)
    );
    assert_eq!(inb.encoding(), Some(Encoding::Proto));
}

#[test]
fn tombstones_skipped_early() {
    let mut cfg = config(2, 50, 60);
    cfg.skip_tombstones_ms = Some(100);
    let mut inb = PeerActor::new(cfg, StreamConfig::Inbound, None, PartialEdgeInfo { nonce: 0, signature: Signature(0) });
    let hs = Handshake {
        protocol_version: 60,
        oldest_supported_version: 50,
        sender_peer_id: PeerId(1),
        target_peer_id: PeerId(2),
        sender_listen_port: None,
        sender_chain_info: near_network_core::protocol::PeerChainInfo {
            genesis_id: GENESIS,
            height: 3,
            tracked_shards: vec![],
            archival: false,
        },
        partial_edge_info: PartialEdgeInfo { nonce: 11, signature: Signature(5) },
    };
    let (conn, ours, v) = match inb.process_handshake(Tier::T2, hs, checks(2002, 1000).handshake) {
        HandshakeDecision::Register(conn, ours, v) => (conn, ours, v),
        other => panic!("unexpected {:?}", other),
    };
    inb.on_register_response(true, conn, ours, v, &chain()).unwrap();
    let update = RoutingTableUpdate {
        edges: vec![
            Edge::new(PeerId(3), PeerId(4), 3, Signature(1), Signature(2)),
            Edge::new(PeerId(3), PeerId(5), 4, Signature(1), Signature(2)),
        ],
        accounts: vec![],
    };
    match inb.handle_frame(PeerMessage::SyncRoutingTable(update.clone()), 1050, 0).0 {
        FrameVerdict::Ready(PeerMessage::SyncRoutingTable(u)) => assert_eq!(u.edges.len(), 1),
        other => panic!("unexpected {:?}", other),
    }
    match inb.handle_frame(PeerMessage::SyncRoutingTable(update), 1200, 0).0 {
        FrameVerdict::Ready(PeerMessage::SyncRoutingTable(u)) => assert_eq!(u.edges.len(), 2),
        other => panic!("unexpected {:?}", other),
    }
}

#[test]
fn dispatch_to_sinks() {
    let req = routed(7, 3, RoutedMessageBody::TxStatusRequest("alice".to_string(), CryptoHash(4)));
    assert_eq!(
        receive_message(PeerMessage::Routed(req), PeerId(1), false, 0),
        Dispatch::ViewClient(
            NetworkViewClientMessages::TxStatus {
                tx_hash: CryptoHash(4),
                signer_account_id: "alice".to_string()
            },
            Some(CryptoHash(1003))
        )
    );
    assert_eq!(
        receive_message(PeerMessage::Transaction(vec![1]), PeerId(1), false, 0),
        Dispatch::Client(NetworkClientMessages::Transaction {
            transaction: vec![1],
            is_forwarded: false,
            check_only: false
        })
    );
    assert_eq!(receive_message(PeerMessage::PeersRequest, PeerId(1), false, 0), Dispatch::Ignore);
    assert_eq!(
        on_view_client_response(NetworkViewClientResponses::TxStatus(vec![2]), Some(CryptoHash(8))),
        Reply::Routed(PeerIdOrHash::Hash(CryptoHash(8)), RoutedMessageBody::TxStatusResponse(vec![2]))
    );
    assert_eq!(
        on_client_response(&NetworkClientResponses::Ban { ban_reason: ReasonForBan::BadBlock }),
        ClientOutcome::Ban(ReasonForBan::BadBlock)
    );
    assert_eq!(
        on_client_response(&NetworkClientResponses::InvalidTx("bad".to_string())),
        ClientOutcome::Tolerated
    );
}

#[test]
fn small_helpers() {
    assert_eq!(accounts_data_ban_reason(AccountsDataError::DataTooLarge), ReasonForBan::Abusive);
    assert_eq!(
        accounts_data_ban_reason(AccountsDataError::InvalidSignature),
        ReasonForBan::InvalidSignature
    );
    assert_eq!(peers_reply(vec![]), None);
    let msg = full_accounts_sync(vec![vec![1]], true);
    let ev = Event::PeerManager(PeerManagerEvent::MessageProcessed(Tier::T2, msg));
    assert_eq!(
        unwrap_sync_accounts_data_processed(ev),
        Some(SyncAccountsData { accounts_data: vec![vec![1]], requesting_full_sync: true, incremental: false })
    );
    let ev = Event::PeerManager(PeerManagerEvent::MessageProcessed(Tier::T1, PeerMessage::Disconnect));
    assert_eq!(unwrap_sync_accounts_data_processed(ev), None);
    let e = Edge::new(PeerId(9), PeerId(2), u64::MAX, Signature(1), Signature(2));
    assert_eq!(e.peer0, PeerId(2));
    assert_eq!(e.signature0, Signature(2));
    assert_eq!(e.next(), None);
    assert_eq!(Edge::new(PeerId(1), PeerId(2), 8, Signature(1), Signature(2)).next(), Some(9));
}

#[test]
fn pool_requests_and_nonce_updates() {
    let (mut out, _) = connect(50, 60);
    let e = Edge::new(PeerId(1), PeerId(2), 11, Signature(1), Signature(2));
    assert_eq!(
        out.on_update_nonce_response(UpdateNonceResponse::EdgeUpdate(e), true),
        Some(PeerMessage::ResponseUpdateNonce(e))
    );
    assert_eq!(out.on_update_nonce_response(UpdateNonceResponse::EdgeUpdate(e), false), None);
    out.handle_peer_manager_request(PeerManagerRequest::BanPeer(ReasonForBan::Blacklisted));
    assert!(out.connection().is_none());
    assert_eq!(
        out.stopping(),
        Some(ManagerNotice::Ban { peer_id: PeerId(2), ban_reason: ReasonForBan::Blacklisted })
    );
    let _ = PeerStatus::Connecting;
}

#[test]
fn expected_stream_closes() {
    let (mut out, _) = connect(50, 60);
    assert!(out.handle_stream_error(StreamError::Closed));
    assert!(out.handle_stream_error(StreamError::QueueOverflow { pending_bytes: 1 << 30 }));
    assert!(out.handle_stream_error(StreamError::RecvIo(IoErrorKind::UnexpectedEof)));
    assert!(out.connection().is_some());
    assert_eq!(on_client_response(&NetworkClientResponses::NoResponse), ClientOutcome::Processed);
    let mut inb = PeerActor::new(config(2, 50, 60), StreamConfig::Inbound, None, PartialEdgeInfo { nonce: 0, signature: Signature(0) });
    assert_eq!(inb.handle_msg_connecting(PeerMessage::PeersRequest, checks(1, 1), &chain()), ConnectingAction::Ignore);
    let failure = PeerMessage::HandshakeFailure(
        PeerInfo { id: PeerId(1), listen_port: None, account_id: None },
        HandshakeFailureReason::InvalidTarget,
    );
    assert_eq!(inb.handle_msg_connecting(failure, checks(1, 1), &chain()), ConnectingAction::Stop);
    let edge = Edge::new(PeerId(1), PeerId(2), 3, Signature(1), Signature(2));
    assert_eq!(inb.handle_msg_connecting(PeerMessage::LastEdge(edge), checks(1, 1), &chain()), ConnectingAction::Stop);
    assert_eq!(inb.stopping(), None);
}
