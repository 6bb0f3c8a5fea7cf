//! Per-connection record of the blocks asked for and received, and of the
//! bytes exchanged.
use vstd::prelude::*;

use crate::primitives::CryptoHash;

verus! {

/// Number of block hashes remembered in each direction.
pub const MAX_TRACK_SIZE: usize = 30;

/// `recent` after `h` was recorded: a hash already held stays where it is;
/// otherwise it is appended, and the oldest leaves when the list is full.
pub open spec fn recent_with(recent: Seq<CryptoHash>, h: CryptoHash) -> Seq<CryptoHash> {
    if recent.contains(h) {
        recent
    } else if recent.len() < MAX_TRACK_SIZE {
        recent.push(h)
    } else {
        recent.drop_first().push(h)
    }
}

/// Totals of frames and bytes in one direction.
#[derive(Clone, Copy, Debug, Default, PartialEq, Eq, Structural)]
pub struct TransferStats {
    pub count: u64,
    pub bytes: u64,
}

impl TransferStats {
    /// Counts one frame of `len` bytes; the totals stop at `u64::MAX`.
    pub fn record(&mut self, len: u64)
        ensures
            final(self).count == (if old(self).count == u64::MAX { u64::MAX as int } else {
                old(self).count + 1
            }),
            final(self).bytes == (if old(self).bytes + len > u64::MAX { u64::MAX as int } else {
                old(self).bytes + len
            }),
    {
        self.count = self.count.saturating_add(1);
        self.bytes = self.bytes.saturating_add(len);
    }
}

/// Blocks requested from and received from a peer, and traffic totals.
pub struct Tracker {
    requested: Vec<CryptoHash>,
    received: Vec<CryptoHash>,
    sent_bytes: TransferStats,
    received_bytes: TransferStats,
}

/// Records `h` in `v` as `recent_with` says.
fn push_recent(v: &mut Vec<CryptoHash>, h: CryptoHash)
    requires
        old(v).len() <= MAX_TRACK_SIZE,
    ensures
        final(v)@ == recent_with(old(v)@, h),
        final(v).len() <= MAX_TRACK_SIZE,
{
    if contains_hash(v, &h) {
        return ;
    }
    if v.len() >= MAX_TRACK_SIZE {
        v.remove(0);
    }
    v.push(h);
    proof {
        if old(v).len() >= MAX_TRACK_SIZE {
            assert(final(v)@ =~= old(v)@.drop_first().push(h));
        }
    }
}

/// Whether `v` holds `h`.
fn contains_hash(v: &Vec<CryptoHash>, h: &CryptoHash) -> (r: bool)
    ensures
        r == v@.contains(*h),
{
    let mut i: usize = 0;
    while i < v.len()
        invariant
            0 <= i <= v.len(),
            forall|j: int| 0 <= j < i ==> v@[j] != *h,
        decreases v.len() - i,
    {
        if v[i] == *h {
            return true;
        }
        i = i + 1;
    }
    false
}

impl Tracker {
    /// The hashes of the blocks last asked of the peer, oldest first.
    pub closed spec fn requested(&self) -> Seq<CryptoHash> {
        self.requested@
    }

    /// The hashes of the blocks last received from the peer, oldest first.
    pub closed spec fn received(&self) -> Seq<CryptoHash> {
        self.received@
    }

    /// Frames and bytes sent to the peer.
    pub closed spec fn sent(&self) -> TransferStats {
        self.sent_bytes
    }

    /// Frames and bytes received from the peer.
    pub closed spec fn received_stats(&self) -> TransferStats {
        self.received_bytes
    }

    pub closed spec fn wf(&self) -> bool {
        self.requested.len() <= MAX_TRACK_SIZE && self.received.len() <= MAX_TRACK_SIZE
    }

    pub fn new() -> (r: Self)
        ensures
            r.wf(),
            r.requested() == Seq::<CryptoHash>::empty(),
            r.received() == Seq::<CryptoHash>::empty(),
            r.sent() == (TransferStats { count: 0, bytes: 0 }),
            r.received_stats() == (TransferStats { count: 0, bytes: 0 }),
    {
        Tracker {
            requested: Vec::new(),
            received: Vec::new(),
            sent_bytes: TransferStats { count: 0, bytes: 0 },
            received_bytes: TransferStats { count: 0, bytes: 0 },
        }
    }

    pub fn push_request(&mut self, hash: CryptoHash)
        requires
            old(self).wf(),
        ensures
            final(self).wf(),
            final(self).requested() == recent_with(old(self).requested(), hash),
            final(self).received() == old(self).received(),
            final(self).sent() == old(self).sent(),
            final(self).received_stats() == old(self).received_stats(),
    {
        push_recent(&mut self.requested, hash);
    }

    pub fn push_received(&mut self, hash: CryptoHash)
        requires
            old(self).wf(),
        ensures
            final(self).wf(),
            final(self).received() == recent_with(old(self).received(), hash),
            final(self).requested() == old(self).requested(),
            final(self).sent() == old(self).sent(),
            final(self).received_stats() == old(self).received_stats(),
    {
        push_recent(&mut self.received, hash);
    }

    /// Counts a frame of `len` bytes sent to the peer.
    pub fn increment_sent(&mut self, len: u64)
        ensures
            final(self).requested() == old(self).requested(),
            final(self).received() == old(self).received(),
            final(self).wf() == old(self).wf(),
            final(self).received_stats() == old(self).received_stats(),
            final(self).sent().count == (if old(self).sent().count == u64::MAX { u64::MAX as int } else {
                old(self).sent().count + 1
            }),
            final(self).sent().bytes == (if old(self).sent().bytes + len > u64::MAX { u64::MAX as int } else {
                old(self).sent().bytes + len
            }),
    {
        self.sent_bytes.record(len);
    }

    /// Counts a frame of `len` bytes received from the peer.
    pub fn increment_received(&mut self, len: u64)
        ensures
            final(self).requested() == old(self).requested(),
            final(self).received() == old(self).received(),
            final(self).wf() == old(self).wf(),
            final(self).sent() == old(self).sent(),
            final(self).received_stats().count == (if old(self).received_stats().count == u64::MAX {
                u64::MAX as int
            } else {
                old(self).received_stats().count + 1
            }),
            final(self).received_stats().bytes == (if old(self).received_stats().bytes + len > u64::MAX {
                u64::MAX as int
            } else {
                old(self).received_stats().bytes + len
            }),
    {
        self.received_bytes.record(len);
    }

    /// Frames and bytes sent so far.
    pub fn sent_totals(&self) -> (r: TransferStats)
        ensures
            r == self.sent(),
    {
        self.sent_bytes
    }

    /// Frames and bytes received so far.
    pub fn received_totals(&self) -> (r: TransferStats)
        ensures
            r == self.received_stats(),
    {
        self.received_bytes
    }

    pub fn has_request(&self, hash: &CryptoHash) -> (r: bool)
        ensures
            r == self.requested().contains(*hash),
    {
        contains_hash(&self.requested, hash)
    }

    pub fn has_received(&self, hash: &CryptoHash) -> (r: bool)
        ensures
            r == self.received().contains(*hash),
    {
        contains_hash(&self.received, hash)
    }
}

} // verus!
