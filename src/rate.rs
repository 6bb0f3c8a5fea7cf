//! Token bucket limiting the bytes read from the connections of one tier.
//! Tokens are counted in billionths so that refills at any rate per second
//! are exact over nanoseconds.
use vstd::prelude::*;

verus! {

/// Billionths in one token; nanoseconds in one second.
pub const NANOS: u128 = 1_000_000_000;

/// Refill rate (tokens per second) and capacity of a bucket.
#[derive(Clone, Copy, Debug, PartialEq, Eq, Structural)]
pub struct Limit {
    pub qps: u64,
    pub burst: u64,
}

/// The billionths of tokens held at `now` when `tokens` were held at
/// `last`: refilled at `qps` per second, up to `burst` tokens.
pub open spec fn refilled(limit: Limit, tokens: int, last: u64, now: u64) -> int {
    let cap = limit.burst * NANOS;
    if now > last {
        let more = tokens + limit.qps * (now - last);
        if more > cap {
            cap
        } else {
            more
        }
    } else {
        tokens
    }
}

/// The nanoseconds to wait until `missing` billionths are refilled at `qps`
/// tokens per second, rounded up; `u64::MAX` when they never are.
pub open spec fn wait_for(missing: int, qps: u64) -> int {
    if qps == 0 {
        u64::MAX as int
    } else {
        let w = (missing + qps - 1) / (qps as int);
        if w > u64::MAX {
            u64::MAX as int
        } else {
            w
        }
    }
}

/// A token bucket.
pub struct Limiter {
    limit: Limit,
    tokens: u128,
    last: u64,
}

impl Limiter {
    pub closed spec fn limit(&self) -> Limit {
        self.limit
    }

    /// The billionths of tokens held at the last update.
    pub closed spec fn tokens(&self) -> int {
        self.tokens as int
    }

    /// The time of the last update, in nanoseconds.
    pub closed spec fn last(&self) -> u64 {
        self.last
    }

    pub closed spec fn wf(&self) -> bool {
        self.tokens <= self.limit.burst * NANOS
    }

    /// A full bucket at `now` (nanoseconds).
    pub fn new(limit: Limit, now: u64) -> (r: Self)
        ensures
            r.wf(),
            r.limit() == limit,
            r.tokens() == limit.burst * NANOS,
            r.last() == now,
    {
        Limiter { limit, tokens: (limit.burst as u128) * NANOS, last: now }
    }

    /// Takes `n` tokens at `now` if the bucket, refilled up to `now`, holds
    /// them; otherwise takes nothing and returns how many nanoseconds to
    /// wait before asking again. More tokens than the capacity are never
    /// available.
    pub fn try_acquire(&mut self, n: u64, now: u64) -> (r: Result<(), u64>)
        requires
            old(self).wf(),
        ensures
            final(self).wf(),
            final(self).limit() == old(self).limit(),
            final(self).last() == (if now > old(self).last() { now } else { old(self).last() }),
            ({
                let have = refilled(old(self).limit(), old(self).tokens(), old(self).last(), now);
                let need = n * NANOS;
                match r {
                    Ok(()) => have >= need && final(self).tokens() == have - need,
                    Err(wait) => have < need && final(self).tokens() == have && wait == (if n
                        > old(self).limit().burst {
                        u64::MAX as int
                    } else {
                        wait_for(need - have, old(self).limit().qps)
                    }),
                }
            }),
    {
        let cap: u128 = (self.limit.burst as u128) * NANOS;
        if now > self.last {
            let q = self.limit.qps as u128;
            let dt = (now - self.last) as u128;
            proof {
                assert(q * dt <= 0xffff_ffff_ffff_ffffu128 * 0xffff_ffff_ffff_ffffu128) by (nonlinear_arith)
                    requires
                        q <= 0xffff_ffff_ffff_ffffu128,
                        dt <= 0xffff_ffff_ffff_ffffu128,
                ;
            }
            let more: u128 = q * dt;
            if more > cap - self.tokens {
                self.tokens = cap;
            } else {
                self.tokens = self.tokens + more;
            }
            self.last = now;
        }
        let need: u128 = (n as u128) * NANOS;
        if self.tokens >= need {
            self.tokens = self.tokens - need;
            return Ok(());
        }
        if n > self.limit.burst || self.limit.qps == 0 {
            return Err(u64::MAX);
        }
        let qps = self.limit.qps as u128;
        let w: u128 = (need - self.tokens + qps - 1) / qps;
        if w > u64::MAX as u128 {
            Err(u64::MAX)
        } else {
            Err(w as u64)
        }
    }
}

} // verus!
