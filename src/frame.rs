//! Length-prefixed frames over a byte stream: a big-endian 32-bit length,
//! then that many bytes. Frames longer than the largest message size are
//! refused before anything is allocated for them.
use vstd::prelude::*;

use crate::peer_actor::NETWORK_MESSAGE_MAX_SIZE_BYTES;

verus! {

/// The number of bytes of the length prefix.
pub const FRAME_HEADER_BYTES: usize = 4;

/// The value of four bytes read as a big-endian integer.
pub open spec fn be32(b0: u8, b1: u8, b2: u8, b3: u8) -> int {
    b0 * 16777216 + b1 * 65536 + b2 * 256 + b3
}

/// The four big-endian bytes of `n`.
pub open spec fn be32_bytes(n: u32) -> Seq<u8> {
    seq![
        (n / 16777216) as u8,
        ((n / 65536) % 256) as u8,
        ((n / 256) % 256) as u8,
        (n % 256) as u8,
    ]
}

proof fn lemma_be32_round_trip(n: u32)
    ensures
        be32(be32_bytes(n)[0], be32_bytes(n)[1], be32_bytes(n)[2], be32_bytes(n)[3]) == n,
{
    let b = be32_bytes(n);
    assert(b[0] == n / 16777216);
    assert(b[1] == (n / 65536) % 256);
    assert(b[2] == (n / 256) % 256);
    assert(b[3] == n % 256);
    assert(n / 16777216 * 16777216 + (n / 65536) % 256 * 65536 + (n / 256) % 256 * 256 + n % 256 == n)
        by (nonlinear_arith)
        requires
            0 <= n < 4294967296int,
    {
        assert(n / 65536 == (n / 16777216) * 256 + (n / 65536) % 256);
        assert(n / 256 == (n / 65536) * 256 + (n / 256) % 256);
        assert(n == (n / 256) * 256 + n % 256);
    }
}

/// The frame that carries `payload`, or `None` when the payload is larger
/// than the largest message size.
pub fn encode_frame(payload: &Vec<u8>) -> (r: Option<Vec<u8>>)
    ensures
        match r {
            Some(frame) => payload.len() <= NETWORK_MESSAGE_MAX_SIZE_BYTES && frame@ == be32_bytes(
                payload.len() as u32,
            ) + payload@,
            None => payload.len() > NETWORK_MESSAGE_MAX_SIZE_BYTES,
        },
{
    if payload.len() > NETWORK_MESSAGE_MAX_SIZE_BYTES {
        return None;
    }
    let n = payload.len() as u32;
    let mut frame: Vec<u8> = Vec::new();
    frame.push((n / 16777216) as u8);
    frame.push(((n / 65536) % 256) as u8);
    frame.push(((n / 256) % 256) as u8);
    frame.push((n % 256) as u8);
    let mut i: usize = 0;
    while i < payload.len()
        invariant
            0 <= i <= payload.len(),
            frame@ == be32_bytes(n) + payload@.take(i as int),
        decreases payload.len() - i,
    {
        frame.push(payload[i]);
        i = i + 1;
        proof {
            assert(frame@ =~= be32_bytes(n) + payload@.take(i as int));
        }
    }
    proof {
        assert(payload@.take(i as int) =~= payload@);
    }
    Some(frame)
}

/// What the start of a receive buffer holds.
#[derive(Clone, Debug, PartialEq, Eq)]
pub enum FrameParse {
    /// Not a whole frame yet.
    Incomplete,
    /// The declared length exceeds the largest message size: the peer is to
    /// be disconnected.
    TooLarge { declared: u32 },
    /// A whole frame: its payload, and how many bytes of the buffer it took.
    Complete { payload: Vec<u8>, consumed: usize },
}

/// Reads the frame at the start of `buf`.
pub fn parse_frame(buf: &Vec<u8>) -> (r: FrameParse)
    ensures
        buf.len() < FRAME_HEADER_BYTES ==> r == FrameParse::Incomplete,
        buf.len() >= FRAME_HEADER_BYTES ==> {
            let declared = be32(buf@[0], buf@[1], buf@[2], buf@[3]);
            if declared > NETWORK_MESSAGE_MAX_SIZE_BYTES {
                r == FrameParse::TooLarge { declared: declared as u32 }
            } else if buf.len() < FRAME_HEADER_BYTES + declared {
                r == FrameParse::Incomplete
            } else {
                &&& r is Complete
                &&& r->consumed == FRAME_HEADER_BYTES + declared
                &&& r->payload@ == buf@.subrange(FRAME_HEADER_BYTES as int, FRAME_HEADER_BYTES + declared)
            }
        },
{
    if buf.len() < FRAME_HEADER_BYTES {
        return FrameParse::Incomplete;
    }
    let declared: u32 = (buf[0] as u32) * 16777216 + (buf[1] as u32) * 65536 + (buf[2] as u32) * 256
        + (buf[3] as u32);
    if declared as usize > NETWORK_MESSAGE_MAX_SIZE_BYTES {
        return FrameParse::TooLarge { declared };
    }
    let len = declared as usize;
    if buf.len() - FRAME_HEADER_BYTES < len {
        return FrameParse::Incomplete;
    }
    let mut payload: Vec<u8> = Vec::new();
    let mut i: usize = 0;
    while i < len
        invariant
            0 <= i <= len,
            FRAME_HEADER_BYTES + len <= buf.len(),
            payload@ == buf@.subrange(FRAME_HEADER_BYTES as int, FRAME_HEADER_BYTES + i),
        decreases len - i,
    {
        payload.push(buf[FRAME_HEADER_BYTES + i]);
        i = i + 1;
        proof {
            assert(payload@ =~= buf@.subrange(FRAME_HEADER_BYTES as int, FRAME_HEADER_BYTES + i));
        }
    }
    FrameParse::Complete { payload, consumed: FRAME_HEADER_BYTES + len }
}

/// Parsing the frame that carries a payload gives the payload back.
pub proof fn lemma_frame_round_trip(payload: Seq<u8>, frame: Seq<u8>)
    requires
        payload.len() <= NETWORK_MESSAGE_MAX_SIZE_BYTES,
        frame == be32_bytes(payload.len() as u32) + payload,
    ensures
        frame.len() >= FRAME_HEADER_BYTES,
        be32(frame[0], frame[1], frame[2], frame[3]) == payload.len(),
        frame.subrange(FRAME_HEADER_BYTES as int, FRAME_HEADER_BYTES + payload.len()) == payload,
{
    lemma_be32_round_trip(payload.len() as u32);
    assert(frame[0] == be32_bytes(payload.len() as u32)[0]);
    assert(frame[1] == be32_bytes(payload.len() as u32)[1]);
    assert(frame[2] == be32_bytes(payload.len() as u32)[2]);
    assert(frame[3] == be32_bytes(payload.len() as u32)[3]);
    assert(frame.subrange(FRAME_HEADER_BYTES as int, FRAME_HEADER_BYTES + payload.len()) =~= payload);
}

} // verus!
