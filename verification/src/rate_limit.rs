//! The rate limiter: spaces every call to the content API by a fixed minimum
//! interval, shared by all callers.
//!
//! The limiter records the completion instant of the previous protected call
//! — completion, not start, so a slow call cannot let the next caller in
//! early — and admits the next caller only once the interval has passed. A
//! fresh limiter has no prior use, so its first caller proceeds immediately.
//! The surrounding application supplies the clock readings and performs
//! the actual waiting and the mutual exclusion; the limiter's bookkeeping
//! here decides how long to wait and proves that admissions stay spaced.

use vstd::prelude::*;

verus! {

/// The interval bookkeeping of the limiter. `used` says whether any
/// protected call has completed yet; when it has, `last_use` is that
/// completion instant. While a caller holds the resource, `pending_start`
/// is the earliest instant its call may run.
pub struct RateLimiter {
    pub time_per: u64,
    pub used: bool,
    pub last_use: u64,
    pub in_use: bool,
    pub pending_start: u64,
}

impl RateLimiter {
    /// A held limiter whose resource has been used before admitted its
    /// holder no earlier than an interval after the previous completion.
    pub open spec fn wf(self) -> bool {
        self.in_use && self.used ==> self.pending_start >= self.last_use + self.time_per
    }

    /// A fresh limiter: no prior use, so the first caller is admitted
    /// immediately.
    pub fn new(time_per: u64) -> (r: RateLimiter)
        ensures
            r.time_per == time_per,
            !r.used,
            !r.in_use,
            r.wf(),
    {
        RateLimiter { time_per, used: false, last_use: 0, in_use: false, pending_start: 0 }
    }

    /// The same fresh limiter as `new`; the name is kept for construction
    /// sites that want the immediate first admission spelled out.
    pub fn new_fast(time_per: u64) -> (r: RateLimiter)
        ensures
            r.time_per == time_per,
            !r.used,
            !r.in_use,
            r.wf(),
    {
        RateLimiter { time_per, used: false, last_use: 0, in_use: false, pending_start: 0 }
    }

    /// Admits a caller at clock reading `now`: the caller must first wait
    /// the returned time, which stretches its start to at least one
    /// interval after the previous completion — zero when nothing has
    /// completed yet. Clock readings are monotone, so `now` is not before
    /// the recorded completion.
    pub fn acquire(&mut self, now: u64) -> (wait: u64)
        requires
            !old(self).in_use,
            old(self).wf(),
            old(self).used ==> now >= old(self).last_use,
            now + old(self).time_per <= u64::MAX,
        ensures
            wait == if !old(self).used {
                0u64
            } else if now - old(self).last_use >= old(self).time_per {
                0u64
            } else {
                (old(self).time_per - (now - old(self).last_use)) as u64
            },
            final(self).in_use,
            final(self).pending_start == now + wait,
            old(self).used ==> final(self).pending_start >= old(self).last_use + old(
                self,
            ).time_per,
            !old(self).used ==> final(self).pending_start == now,
            final(self).used == old(self).used,
            final(self).last_use == old(self).last_use,
            final(self).time_per == old(self).time_per,
            final(self).wf(),
    {
        let wait = if !self.used {
            0
        } else {
            let elapsed = now - self.last_use;
            if elapsed >= self.time_per {
                0
            } else {
                self.time_per - elapsed
            }
        };
        self.pending_start = now + wait;
        self.in_use = true;
        wait
    }

    /// Records the completion of the protected call at clock reading
    /// `finish` and releases the limiter. A call completes no earlier than
    /// it started, so each completion after the first lies at least one
    /// interval after the previous one: that spacing is the limiter's
    /// guarantee.
    pub fn release(&mut self, finish: u64)
        requires
            old(self).in_use,
            old(self).wf(),
            finish >= old(self).pending_start,
        ensures
            !final(self).in_use,
            final(self).used,
            final(self).last_use == finish,
            final(self).time_per == old(self).time_per,
            old(self).used ==> final(self).last_use >= old(self).last_use + old(self).time_per,
            final(self).wf(),
    {
        self.last_use = finish;
        self.used = true;
        self.in_use = false;
    }
}

/// One complete protected call on a free limiter: admitted at clock reading
/// `now`, completed at `finish`, with the wait respected in between. The
/// first call ever is only bound by its own duration.
pub open spec fn valid_use(s: RateLimiter, now: u64, finish: u64) -> bool {
    &&& !s.in_use
    &&& (s.used ==> now >= s.last_use)
    &&& now + s.time_per <= u64::MAX
    &&& finish >= now
    &&& (s.used ==> finish >= s.last_use + s.time_per)
}

/// The limiter after a completed protected call.
pub open spec fn spec_after_use(s: RateLimiter, finish: u64) -> RateLimiter {
    RateLimiter { used: true, last_use: finish, ..s }
}

/// The limiter after a sequence of completed calls, each given as its
/// admission and completion clock readings.
pub open spec fn spec_run_uses(s: RateLimiter, uses: Seq<(u64, u64)>) -> RateLimiter
    decreases uses.len(),
{
    if uses.len() == 0 {
        s
    } else {
        spec_after_use(spec_run_uses(s, uses.drop_last()), uses.last().1)
    }
}

/// Every call of the sequence was made on the limiter state its predecessors
/// left, respecting the limiter's admission rule.
pub open spec fn valid_uses(s: RateLimiter, uses: Seq<(u64, u64)>) -> bool
    decreases uses.len(),
{
    if uses.len() == 0 {
        true
    } else {
        valid_uses(s, uses.drop_last()) && valid_use(
            spec_run_uses(s, uses.drop_last()),
            uses.last().0,
            uses.last().1,
        )
    }
}

proof fn lemma_valid_uses_prefix(s: RateLimiter, uses: Seq<(u64, u64)>, k: int)
    requires
        valid_uses(s, uses),
        0 <= k <= uses.len(),
    ensures
        valid_uses(s, uses.take(k)),
    decreases uses.len(),
{
    if k < uses.len() {
        assert(uses.drop_last() =~= uses.take(uses.len() - 1));
        lemma_valid_uses_prefix(s, uses.drop_last(), k);
        assert(uses.drop_last().take(k) =~= uses.take(k));
    } else {
        assert(uses.take(k) =~= uses);
    }
}

proof fn lemma_run_uses_shape(s: RateLimiter, uses: Seq<(u64, u64)>)
    ensures
        spec_run_uses(s, uses).time_per == s.time_per,
        spec_run_uses(s, uses).in_use == s.in_use,
        uses.len() >= 1 ==> spec_run_uses(s, uses).used,
        uses.len() >= 1 ==> spec_run_uses(s, uses).last_use == uses.last().1,
    decreases uses.len(),
{
    if uses.len() > 0 {
        lemma_run_uses_shape(s, uses.drop_last());
    }
}

/// The rate limiter's guarantee: in any valid sequence of protected calls on
/// a free limiter, two consecutive completions lie at least one interval
/// apart — whatever the callers did and however long each call ran.
pub proof fn lemma_rate_limit_spacing(s: RateLimiter, uses: Seq<(u64, u64)>, i: int)
    requires
        !s.in_use,
        valid_uses(s, uses),
        0 <= i,
        i + 1 < uses.len(),
    ensures
        uses[i + 1].1 >= uses[i].1 + s.time_per,
{
    lemma_valid_uses_prefix(s, uses, i + 2);
    let p = uses.take(i + 2);
    assert(valid_uses(s, p));
    assert(p.drop_last() =~= uses.take(i + 1));
    assert(p.last() == uses[i + 1]);
    lemma_run_uses_shape(s, uses.take(i + 1));
    assert(uses.take(i + 1).last() == uses[i]);
    assert(valid_use(spec_run_uses(s, uses.take(i + 1)), uses[i + 1].0, uses[i + 1].1));
}

} // verus!
