//! A token bucket that keeps the bot under AniList's request limit:
//! `requests` tokens that refill evenly over a window of seconds, one
//! spent per request.
//!
//! Tokens are counted exactly, in units of a nanosecond's share of a
//! token per request slot: one token is `window_secs * 10^9` units, and
//! each nanosecond that passes adds `requests` units, up to the bucket's
//! size. A window of zero seconds refills the bucket at once.

use crate::cache::NANOS_PER_SEC;
use std::time::Instant;
use vstd::prelude::*;

verus! {

/// How many units make one token.
pub open spec fn unit_of(window_secs: u64) -> int {
    if window_secs == 0 { 1 } else { window_secs * NANOS_PER_SEC }
}

/// A bucket of `requests` tokens over `window_secs` can be counted in 128 bits.
pub open spec fn fits(requests: u64, window_secs: u64) -> bool {
    requests * unit_of(window_secs) <= u128::MAX
}

/// A token bucket: its size in tokens, its window and its fill in units.
#[derive(Clone, Copy)]
pub struct TokenBucket {
    pub requests: u64,
    pub window_secs: u64,
    pub level: u128,
}

impl TokenBucket {
    /// One token in units.
    pub open spec fn unit(self) -> int {
        unit_of(self.window_secs)
    }

    /// A full bucket in units.
    pub open spec fn capacity(self) -> int {
        self.requests * self.unit()
    }

    /// The bucket can be counted and holds no more than it may.
    pub open spec fn wf(self) -> bool {
        &&& fits(self.requests, self.window_secs)
        &&& self.level <= self.capacity()
    }

    /// The fill after `elapsed` nanoseconds: what was there plus what
    /// flowed in, up to a full bucket.
    pub open spec fn refilled(self, elapsed: u128) -> int {
        if self.window_secs == 0 {
            self.capacity()
        } else if self.level + elapsed * self.requests >= self.capacity() {
            self.capacity()
        } else {
            self.level + elapsed * self.requests
        }
    }

    /// After `elapsed` nanoseconds a whole token is there to spend.
    pub open spec fn allows(self, elapsed: u128) -> bool {
        self.refilled(elapsed) >= self.unit()
    }

    /// The fill after a request `elapsed` nanoseconds on: refilled, less
    /// one token if one was there.
    pub open spec fn level_after(self, elapsed: u128) -> int {
        if self.allows(elapsed) {
            self.refilled(elapsed) - self.unit()
        } else {
            self.refilled(elapsed)
        }
    }

    /// A full bucket of `requests` tokens over `window_secs` seconds.
    pub fn full(requests: u64, window_secs: u64) -> (b: TokenBucket)
        requires
            fits(requests, window_secs),
        ensures
            b.wf(),
            b.requests == requests,
            b.window_secs == window_secs,
            b.level == b.capacity(),
    {
        let unit: u128 = if window_secs == 0 { 1 } else { (window_secs as u128) * NANOS_PER_SEC };
        TokenBucket { requests, window_secs, level: (requests as u128) * unit }
    }

    /// Refills the bucket for `elapsed` nanoseconds and spends a token if
    /// there is one; says whether there was.
    pub fn take(&mut self, elapsed: u128) -> (ok: bool)
        requires
            old(self).wf(),
        ensures
            final(self).wf(),
            final(self).requests == old(self).requests,
            final(self).window_secs == old(self).window_secs,
            ok == old(self).allows(elapsed),
            final(self).level == old(self).level_after(elapsed),
    {
        let r: u128 = self.requests as u128;
        let unit: u128 = if self.window_secs == 0 { 1 } else { (self.window_secs as u128) * NANOS_PER_SEC };
        let cap: u128 = r * unit;
        let filled: u128 = if self.window_secs == 0 {
            cap
        } else if r == 0 {
            self.level
        } else {
            let gap: u128 = cap - self.level;
            let most: u128 = gap / r;
            if elapsed > most {
                proof {
                    assert(elapsed * r >= (most + 1) * r) by (nonlinear_arith)
                        requires elapsed >= most + 1, r > 0;
                    assert((most + 1) * r > gap) by (nonlinear_arith)
                        requires most == gap / r, r > 0;
                }
                cap
            } else {
                proof {
                    assert(elapsed * r <= most * r) by (nonlinear_arith)
                        requires elapsed <= most, r > 0;
                    assert(most * r <= gap) by (nonlinear_arith)
                        requires most == gap / r, r > 0;
                }
                self.level + elapsed * r
            }
        };
        if filled >= unit {
            self.level = filled - unit;
            true
        } else {
            self.level = filled;
            false
        }
    }
}

/// The reply when no token is left.
pub open spec fn rate_limit_message() -> Seq<char> {
    "AniList rate limit reached. Please try again in a few seconds."@
}

/// The number of requests a bucket lets through out of `n` made at once,
/// and the fill they leave.
pub open spec fn burst(b: TokenBucket, n: nat) -> (nat, int)
    decreases n,
{
    if n == 0 {
        (0, b.level as int)
    } else {
        let (k, lvl) = burst(b, (n - 1) as nat);
        if lvl >= b.unit() { (k + 1, lvl - b.unit()) } else { (k, lvl) }
    }
}

/// With no time passing between them, `n` requests to a bucket that
/// refills over time are let through one per whole token it holds, up to
/// `n`; each one spends exactly one token.
pub proof fn burst_spends_whole_tokens(b: TokenBucket, n: nat)
    requires
        b.wf(),
        b.window_secs > 0,
    ensures
        burst(b, n).0 == if n <= (b.level as int) / b.unit() { n as int } else { (b.level as int) / b.unit() },
        burst(b, n).1 == (b.level as int) - burst(b, n).0 * b.unit(),
    decreases n,
{
    let u = b.unit();
    let l = b.level as int;
    assert(u > 0) by (nonlinear_arith)
        requires u == b.window_secs * NANOS_PER_SEC, b.window_secs > 0;
    if n > 0 {
        burst_spends_whole_tokens(b, (n - 1) as nat);
        let k = burst(b, (n - 1) as nat).0;
        let q = l / u;
        assert(l == q * u + l % u) by (nonlinear_arith)
            requires u > 0, q == l / u;
        assert(0 <= l % u < u) by (nonlinear_arith)
            requires u > 0;
        if k < q {
            assert(l - k * u >= u) by (nonlinear_arith)
                requires k + 1 <= q, l == q * u + l % u, l % u >= 0, u > 0;
            assert(l - k * u - u == l - (k + 1) * u) by (nonlinear_arith);
        } else {
            assert(l - k * u < u) by (nonlinear_arith)
                requires k >= q, l == q * u + l % u, l % u < u, u > 0;
        }
    }
}

/// The nanoseconds between consecutive requests, added up.
pub open spec fn total_elapsed(es: Seq<u128>) -> int
    decreases es.len(),
{
    if es.len() == 0 { 0 } else { total_elapsed(es.drop_last()) + es.last() }
}

/// A bucket after a request `elapsed` nanoseconds on.
pub open spec fn after(b: TokenBucket, elapsed: u128) -> TokenBucket {
    TokenBucket { level: b.level_after(elapsed) as u128, ..b }
}

/// Requests made `es[0]`, `es[1]`, ... nanoseconds apart: how many the
/// bucket lets through, and the bucket they leave.
pub open spec fn run(b: TokenBucket, es: Seq<u128>) -> (nat, TokenBucket)
    decreases es.len(),
{
    if es.len() == 0 {
        (0, b)
    } else {
        let (k, m) = run(b, es.drop_last());
        let e = es.last();
        (if m.allows(e) { k + 1 } else { k }, after(m, e))
    }
}

proof fn lemma_after_wf(b: TokenBucket, e: u128)
    requires
        b.wf(),
    ensures
        after(b, e).wf(),
        after(b, e).requests == b.requests,
        after(b, e).window_secs == b.window_secs,
        after(b, e).level == b.level_after(e),
{
    refill_stays_within(b, e);
    assert(b.unit() >= 1) by (nonlinear_arith)
        requires b.unit() == unit_of(b.window_secs);
    assert(b.capacity() <= u128::MAX) by (nonlinear_arith)
        requires b.capacity() == b.requests * b.unit(), fits(b.requests, b.window_secs), b.unit() == unit_of(b.window_secs);
}

/// Over any run of requests to a bucket that refills over time, the
/// requests let through, counted in units, never exceed what the bucket
/// held at the start plus what flowed in meanwhile: `requests` tokens per
/// window, and no more.
pub proof fn throughput_is_bounded(b: TokenBucket, es: Seq<u128>)
    requires
        b.wf(),
        b.window_secs > 0,
    ensures
        run(b, es).1.wf(),
        run(b, es).1.requests == b.requests,
        run(b, es).1.window_secs == b.window_secs,
        run(b, es).0 * b.unit() + run(b, es).1.level <= b.level + total_elapsed(es) * b.requests,
    decreases es.len(),
{
    if es.len() > 0 {
        let pre = es.drop_last();
        let e = es.last();
        throughput_is_bounded(b, pre);
        let (k, m) = run(b, pre);
        lemma_after_wf(m, e);
        assert(m.unit() == b.unit());
        assert(m.refilled(e) <= m.level + e * m.requests);
        assert(total_elapsed(es) == total_elapsed(pre) + e);
        let t = total_elapsed(pre);
        let r = b.requests as int;
        assert((t + e) * r == t * r + e * r) by (nonlinear_arith);
        if m.allows(e) {
            assert((k + 1) * b.unit() == k * b.unit() + b.unit()) by (nonlinear_arith);
        }
    }
}

/// A refill never overfills a bucket, and never drains one.
pub proof fn refill_stays_within(b: TokenBucket, elapsed: u128)
    requires
        b.wf(),
    ensures
        b.level <= b.refilled(elapsed) <= b.capacity(),
{
    assert(elapsed * b.requests >= 0) by (nonlinear_arith);
    assert(b.unit() >= 1) by (nonlinear_arith)
        requires b.unit() == unit_of(b.window_secs);
    assert(b.capacity() >= b.level);
    if b.window_secs == 0 {
        assert(b.capacity() >= 0) by (nonlinear_arith)
            requires b.capacity() == b.requests * b.unit(), b.unit() >= 1;
    }
}

/// The nanoseconds from reading `earlier` to reading `later` of one
/// clock, none if `later` reads before `earlier`.
pub open spec fn gap(earlier: u128, later: u128) -> u128 {
    if later >= earlier { (later - earlier) as u128 } else { 0 }
}

/// The gaps between consecutive readings `rs` of a clock, the first taken
/// from the reading `start`.
pub open spec fn gaps(start: u128, rs: Seq<u128>) -> Seq<u128>
    decreases rs.len(),
{
    if rs.len() == 0 {
        seq![]
    } else {
        let prev = if rs.len() == 1 { start } else { rs[rs.len() - 2] };
        gaps(start, rs.drop_last()).push(gap(prev, rs.last()))
    }
}

/// The readings `rs` never go back, and none reads before `start`.
pub open spec fn forward(start: u128, rs: Seq<u128>) -> bool {
    &&& forall|i: int| 0 <= i < rs.len() ==> start <= #[trigger] rs[i]
    &&& forall|i: int, j: int| 0 <= i <= j < rs.len() ==> #[trigger] rs[i] <= #[trigger] rs[j]
}

proof fn lemma_gaps_add_up(start: u128, rs: Seq<u128>)
    requires
        forward(start, rs),
    ensures
        total_elapsed(gaps(start, rs)) == if rs.len() == 0 { 0 } else { rs.last() - start },
    decreases rs.len(),
{
    if rs.len() > 0 {
        let pre = rs.drop_last();
        assert forall|i: int| 0 <= i < pre.len() implies start <= #[trigger] pre[i] by {
            assert(pre[i] == rs[i]);
        }
        assert forall|i: int, j: int| 0 <= i <= j < pre.len() implies #[trigger] pre[i] <= #[trigger] pre[j] by {
            assert(pre[i] == rs[i] && pre[j] == rs[j]);
        }
        lemma_gaps_add_up(start, pre);
        let g = gaps(start, rs);
        assert(g.drop_last() == gaps(start, pre));
        assert(rs.last() == rs[rs.len() - 1]);
        assert(start <= rs[rs.len() - 1]);
        if rs.len() >= 2 {
            assert(pre.last() == rs[rs.len() - 2]);
            assert(rs[rs.len() - 2] <= rs[rs.len() - 1]);
        }
    }
}

/// Requests made at clock readings that never go back, from a bucket
/// whose last refill was read at `start`: the requests let through,
/// counted in units, never exceed what the bucket held at the start plus
/// `requests` units for each nanosecond from `start` to the last reading.
/// With a full bucket of `n` tokens over `w` seconds this is at most `n`
/// requests plus `n` more for every `w` seconds that pass.
pub proof fn throughput_in_real_time(b: TokenBucket, start: u128, rs: Seq<u128>)
    requires
        b.wf(),
        b.window_secs > 0,
        forward(start, rs),
    ensures
        run(b, gaps(start, rs)).0 * b.unit() + run(b, gaps(start, rs)).1.level
            <= b.level + (if rs.len() == 0 { 0 } else { rs.last() - start }) * b.requests,
        run(b, gaps(start, rs)).0 * b.unit() <= b.capacity()
            + (if rs.len() == 0 { 0 } else { rs.last() - start }) * b.requests,
{
    lemma_gaps_add_up(start, rs);
    throughput_is_bounded(b, gaps(start, rs));
}

/// The limiter shared by every AniList request.
pub struct RateLimiter {
    bucket: TokenBucket,
    origin: Instant,
    last_refill: u128,
}

impl RateLimiter {
    #[verifier::type_invariant]
    spec fn bucket_is_sound(self) -> bool {
        self.bucket.wf()
    }

    /// The limiter's token bucket.
    pub closed spec fn bucket(self) -> TokenBucket {
        self.bucket
    }

    /// When the bucket was last refilled: nanoseconds on the monotonic
    /// clock since the limiter was made.
    pub closed spec fn last_refill(self) -> u128 {
        self.last_refill
    }

    /// A limiter allowing `requests_per_window` requests every
    /// `window_seconds`, starting full and refilled at the moment it is
    /// made.
    pub fn new(requests_per_window: u64, window_seconds: u64) -> (r: RateLimiter)
        requires
            fits(requests_per_window, window_seconds),
        ensures
            r.bucket().requests == requests_per_window,
            r.bucket().window_secs == window_seconds,
            r.bucket().level == r.bucket().capacity(),
            r.last_refill() == 0,
    {
        RateLimiter {
            bucket: TokenBucket::full(requests_per_window, window_seconds),
            origin: crate::clock::instant_now(),
            last_refill: 0,
        }
    }

    /// Takes a token for a request made `elapsed` nanoseconds after the
    /// last refill, leaving the refill moment as it is; refuses with the
    /// rate-limit message when no token is left.
    pub fn check_after(&mut self, elapsed: u128) -> (r: Result<(), String>)
        ensures
            final(self).bucket().wf(),
            final(self).bucket().requests == old(self).bucket().requests,
            final(self).bucket().window_secs == old(self).bucket().window_secs,
            final(self).bucket().level == old(self).bucket().level_after(elapsed),
            final(self).last_refill() == old(self).last_refill(),
            r is Ok <==> old(self).bucket().allows(elapsed),
            r matches Err(m) ==> m@ == rate_limit_message(),
    {
        proof {
            use_type_invariant(&*self);
        }
        let mut b = self.bucket;
        let ok = b.take(elapsed);
        self.bucket = b;
        if ok {
            Ok(())
        } else {
            Err(crate::text::owned("AniList rate limit reached. Please try again in a few seconds."))
        }
    }

    /// Takes a token for a request made now: the bucket refills for the
    /// time since its last refill, this moment becomes the last refill,
    /// and a token is spent if there is one.
    pub fn check(&mut self) -> (r: Result<(), String>)
        ensures
            final(self).bucket() == after(
                old(self).bucket(),
                gap(old(self).last_refill(), final(self).last_refill()),
            ),
            final(self).bucket().wf(),
            r is Ok <==> old(self).bucket().allows(gap(old(self).last_refill(), final(self).last_refill())),
            r matches Err(m) ==> m@ == rate_limit_message(),
    {
        proof {
            use_type_invariant(&*self);
        }
        let (now, _) = crate::clock::nanos_since(&self.origin);
        let elapsed: u128 = if now >= self.last_refill { now - self.last_refill } else { 0 };
        self.last_refill = now;
        self.check_after(elapsed)
    }
}

} // verus!
