use near_network_core::connection_pool::{Pool, PoolError};
use near_network_core::frame::{encode_frame, parse_frame, FrameParse};
use near_network_core::peer_actor::{Connection, NETWORK_MESSAGE_MAX_SIZE_BYTES};
use near_network_core::primitives::CryptoHash;
use near_network_core::protocol::{
    Edge, GenesisId, PeerChainInfo, PeerId, PeerType, Signature, Tier,
};
use near_network_core::rate::{Limit, Limiter};

#[test]
fn frame_round_trip() {
    let payload = vec![1u8, 2, 3, 250];
    let frame = encode_frame(&payload).unwrap();
    assert_eq!(frame, vec![0, 0, 0, 4, 1, 2, 3, 250]);
    match parse_frame(&frame) {
        FrameParse::Complete { payload: p, consumed } => {
            assert_eq!(p, payload);
            assert_eq!(consumed, 8);
        }
        other => panic!("unexpected {:?}", other),
    }
    assert_eq!(parse_frame(&vec![0, 0, 1]), FrameParse::Incomplete);
    assert_eq!(parse_frame(&vec![0, 0, 1, 0, 5]), FrameParse::Incomplete);
    let mut long = vec![0u8, 0, 1, 2];
    long.extend(std::iter::repeat(7u8).take(258));
    match parse_frame(&long) {
        FrameParse::Complete { payload: p, consumed } => {
            assert_eq!(p.len(), 258);
            assert_eq!(consumed, 262);
        }
        other => panic!("unexpected {:?}", other),
    }
}

#[test]
fn oversize_frame_refused() {
    // 600 MiB declared.
    let declared: u32 = 600 * 1024 * 1024;
    let header = declared.to_be_bytes().to_vec();
    assert_eq!(parse_frame(&header), FrameParse::TooLarge { declared });
    let max = (NETWORK_MESSAGE_MAX_SIZE_BYTES as u32).to_be_bytes().to_vec();
    assert_eq!(parse_frame(&max), FrameParse::Incomplete);
    assert_eq!(NETWORK_MESSAGE_MAX_SIZE_BYTES, 536870912);
}

#[test]
fn token_bucket() {
    let mut l = Limiter::new(Limit { qps: 10, burst: 20 }, 0);
    assert_eq!(l.try_acquire(15, 0), Ok(()));
    // 5 tokens left; 10 more are needed, at 10 per second: one second.
    assert_eq!(l.try_acquire(15, 0), Err(1_000_000_000));
    // Half a second later, 5 more are needed: half a second.
    assert_eq!(l.try_acquire(15, 500_000_000), Err(500_000_000));
    assert_eq!(l.try_acquire(15, 1_000_000_000), Ok(()));
    assert_eq!(l.try_acquire(1, 1_000_000_000), Err(100_000_000));
    // Never more than the capacity.
    assert_eq!(l.try_acquire(21, 100_000_000_000), Err(u64::MAX));
    assert_eq!(l.try_acquire(20, 100_000_000_000), Ok(()));
    let mut stuck = Limiter::new(Limit { qps: 0, burst: 1 }, 0);
    assert_eq!(stuck.try_acquire(1, 5), Ok(()));
    assert_eq!(stuck.try_acquire(1, 10), Err(u64::MAX));
}

fn conn(peer: u64, peer_type: PeerType) -> Connection {
    Connection {
        tier: Tier::T2,
        peer_id: PeerId(peer),
        peer_listen_port: None,
        peer_type,
        edge: Edge::new(PeerId(5), PeerId(peer), 1, Signature(1), Signature(2)),
        initial_chain_info: PeerChainInfo {
            genesis_id: GenesisId { hash: CryptoHash(0) },
            height: 0,
            tracked_shards: vec![],
            archival: false,
        },
        chain_height: 0,
        last_time_peer_requested: 0,
        last_time_received_message: 0,
        connection_established_time: 0,
    }
}

#[test]
fn pool_admission_and_tie_break() {
    let mut pool = Pool::new(PeerId(5));
    assert_eq!(pool.start_outbound(PeerId(9)), Ok(()));
    assert_eq!(pool.start_outbound(PeerId(9)), Err(PoolError::AlreadyStartedConnecting));
    // Node 9 dials us at the same time; we have the smaller id and keep ours.
    assert_eq!(pool.insert_ready(conn(9, PeerType::Inbound)), Err(PoolError::AlreadyStartedConnecting));
    assert_eq!(pool.insert_ready(conn(9, PeerType::Outbound)), Ok(()));
    assert_eq!(pool.start_outbound(PeerId(9)), Err(PoolError::AlreadyConnected));
    assert_eq!(pool.insert_ready(conn(9, PeerType::Inbound)), Err(PoolError::AlreadyConnected));
    // Node 3 has the smaller id: its inbound connection wins over ours.
    assert_eq!(pool.start_outbound(PeerId(3)), Ok(()));
    assert_eq!(pool.insert_ready(conn(3, PeerType::Inbound)), Ok(()));
    assert_eq!(pool.insert_ready(conn(5, PeerType::Inbound)), Err(PoolError::LoopConnection));
    assert!(pool.is_connected(PeerId(3)));
    assert!(pool.remove(PeerId(3)));
    assert!(!pool.is_connected(PeerId(3)));
    pool.finish_outbound(PeerId(3));
    assert_eq!(pool.start_outbound(PeerId(3)), Ok(()));
}
