//! Token-bucket rate limiting for value moving through the bridge.
//!
//! One state exists per direction: a single outbound limiter, and one
//! inbound limiter per remote chain. Capacity refills linearly from the last
//! recorded value toward the configured limit, reaching it after
//! [`RATE_LIMIT_DURATION`] seconds with no consumption in between.

use vstd::prelude::*;
use vstd::arithmetic::div_mod::{
    lemma_fundamental_div_mod,
    lemma_div_is_ordered,
    lemma_div_multiples_vanish,
};
use vstd::arithmetic::mul::{
    lemma_mul_inequality,
    lemma_mul_upper_bound,
    lemma_mul_is_commutative,
    lemma_mul_is_distributive_sub_other_way,
};

verus! {

/// Seconds over which capacity refills from zero to the configured limit.
pub const RATE_LIMIT_DURATION: i64 = 86400;

/// The rate-limiter state for one direction of travel.
#[derive(Clone, Copy, Debug, PartialEq, Eq, Structural)]
pub struct RateLimitState {
    /// Configured ceiling for the available capacity.
    pub limit: u64,
    /// Capacity that was available right after the last consumption.
    pub capacity_at_last_tx: u64,
    /// When the capacity was last consumed or the limit last adjusted.
    pub last_tx_timestamp: i64,
}

impl RateLimitState {
    /// Capacity never exceeds the limit and time never runs backwards.
    pub open spec fn wf(self) -> bool {
        &&& self.capacity_at_last_tx <= self.limit
        &&& 0 <= self.last_tx_timestamp
    }

    /// The capacity available at time `t`: the stored capacity plus the
    /// linear refill accrued since the last transaction, capped at the limit.
    pub open spec fn spec_capacity_at(self, t: int) -> int {
        let accrued = (t - self.last_tx_timestamp) * self.limit / (RATE_LIMIT_DURATION as int);
        if self.capacity_at_last_tx + accrued >= self.limit {
            self.limit as int
        } else {
            self.capacity_at_last_tx + accrued
        }
    }

    /// The earliest time at or after `now` when `amount` fits the capacity,
    /// as a closed form; for amounts above the limit, a stand-in one full
    /// refill period ahead, which callers must treat as "never".
    pub open spec fn spec_time_to_sufficient(self, now: i64, amount: u64) -> int {
        if amount > self.limit {
            now + RATE_LIMIT_DURATION
        } else if self.spec_capacity_at(now as int) >= amount {
            now as int
        } else {
            let need = amount - self.capacity_at_last_tx;
            self.last_tx_timestamp + (need * (RATE_LIMIT_DURATION as int) + self.limit - 1)
                / (self.limit as int)
        }
    }

    /// A fresh limiter: full capacity, never consumed.
    pub fn new(limit: u64) -> (r: RateLimitState)
        ensures
            r == (RateLimitState { limit, capacity_at_last_tx: limit, last_tx_timestamp: 0 }),
            r.wf(),
    {
        RateLimitState { limit, capacity_at_last_tx: limit, last_tx_timestamp: 0 }
    }

    /// The capacity available at time `now`.
    pub fn capacity_at(&self, now: i64) -> (r: u64)
        requires
            self.wf(),
            now >= self.last_tx_timestamp,
        ensures
            r == self.spec_capacity_at(now as int),
    {
        let dt: i64 = now - self.last_tx_timestamp;
        proof {
            lemma_mul_upper_bound(dt as int, i64::MAX as int, self.limit as int, u64::MAX as int);
        }
        let num: u128 = (dt as u128) * (self.limit as u128);
        let accrued: u128 = num / (RATE_LIMIT_DURATION as u128);
        let total: u128 = (self.capacity_at_last_tx as u128) + accrued;
        if total >= self.limit as u128 {
            self.limit
        } else {
            total as u64
        }
    }

    /// Tries to consume `amount` at time `now`. On success the capacity
    /// drops by `amount` and the clock is recorded; on failure nothing
    /// changes.
    pub fn consume(&mut self, now: i64, amount: u64) -> (consumed: bool)
        requires
            old(self).wf(),
            now >= old(self).last_tx_timestamp,
        ensures
            consumed == (old(self).spec_capacity_at(now as int) >= amount),
            consumed ==> *final(self) == (RateLimitState {
                limit: old(self).limit,
                capacity_at_last_tx: (old(self).spec_capacity_at(now as int) - amount) as u64,
                last_tx_timestamp: now,
            }),
            !consumed ==> *final(self) == *old(self),
            final(self).wf(),
            final(self).limit == old(self).limit,
    {
        let cap = self.capacity_at(now);
        if cap >= amount {
            self.capacity_at_last_tx = cap - amount;
            self.last_tx_timestamp = now;
            true
        } else {
            false
        }
    }

    /// Installs a new limit at time `now`: accrued refill is crystallized
    /// first, then clamped to the new limit, so that neither raising nor
    /// lowering the limit grants unearned capacity.
    pub fn set_limit(&mut self, new_limit: u64, now: i64)
        requires
            old(self).wf(),
            now >= old(self).last_tx_timestamp,
        ensures
            *final(self) == (RateLimitState {
                limit: new_limit,
                capacity_at_last_tx: (if old(self).spec_capacity_at(now as int) <= new_limit {
                    old(self).spec_capacity_at(now as int)
                } else {
                    new_limit as int
                }) as u64,
                last_tx_timestamp: now,
            }),
            final(self).wf(),
    {
        let cap = self.capacity_at(now);
        let clamped = if cap <= new_limit {
            cap
        } else {
            new_limit
        };
        self.limit = new_limit;
        self.capacity_at_last_tx = clamped;
        self.last_tx_timestamp = now;
    }

    /// The earliest time at or after `now` when `amount` would fit the
    /// capacity, assuming no further consumption; see
    /// [`lemma_time_to_sufficient`] for what the result guarantees.
    pub fn time_to_sufficient(&self, now: i64, amount: u64) -> (t: i64)
        requires
            self.wf(),
            now >= self.last_tx_timestamp,
            now <= i64::MAX - RATE_LIMIT_DURATION,
        ensures
            t == self.spec_time_to_sufficient(now, amount),
            now <= t <= now + RATE_LIMIT_DURATION,
    {
        if amount > self.limit {
            return now + RATE_LIMIT_DURATION;
        }
        let cap = self.capacity_at(now);
        if cap >= amount {
            return now;
        }
        let need: u64 = amount - self.capacity_at_last_tx;
        let num: u128 = (need as u128) * (RATE_LIMIT_DURATION as u128);
        let q: u128 = (num + (self.limit - 1) as u128) / (self.limit as u128);
        proof {
            lemma_ceil_div_bounds(need as int, self.limit as int);
            let qi = (need * (RATE_LIMIT_DURATION as int) + self.limit - 1) / (self.limit as int);
            let dt = now - self.last_tx_timestamp;
            assert(dt < qi) by {
                if dt >= qi {
                    lemma_mul_inequality(qi, dt, self.limit as int);
                    lemma_div_is_ordered(
                        need * (RATE_LIMIT_DURATION as int),
                        dt * self.limit,
                        RATE_LIMIT_DURATION as int,
                    );
                    lemma_div_multiples_vanish(need as int, RATE_LIMIT_DURATION as int);
                    lemma_mul_is_commutative(need as int, RATE_LIMIT_DURATION as int);
                }
            }
        }
        let t: i64 = self.last_tx_timestamp + (q as i64);
        t
    }
}

/// Bounds on the ceiling division used to solve for the refill time: with
/// `0 < need <= limit`, the quotient `q` of `(need * D + limit - 1) / limit`
/// satisfies `q * limit >= need * D`, `(q - 1) * limit < need * D`, and
/// `q <= D`.
proof fn lemma_ceil_div_bounds(need: int, limit: int)
    requires
        1 <= need <= limit,
    ensures
        ({
            let d = RATE_LIMIT_DURATION as int;
            let q = (need * d + limit - 1) / limit;
            &&& q * limit >= need * d
            &&& (q - 1) * limit <= need * d - 1
            &&& 1 <= q <= d
        }),
{
    let d = RATE_LIMIT_DURATION as int;
    let num = need * d;
    let q = (num + limit - 1) / limit;
    lemma_fundamental_div_mod(num + limit - 1, limit);
    lemma_mul_is_commutative(q, limit);
    lemma_mul_is_distributive_sub_other_way(limit, q, 1);
    assert(num >= d) by {
        lemma_mul_inequality(1, need, d);
    }
    assert(num <= limit * d) by {
        lemma_mul_inequality(need, limit, d);
        lemma_mul_is_commutative(need, d);
        lemma_mul_is_commutative(limit, d);
    }
    assert(q <= d) by {
        if q > d {
            lemma_mul_inequality(d + 1, q, limit);
            lemma_mul_is_distributive_sub_other_way(limit, d + 1, 1);
            lemma_mul_is_commutative(d + 1, limit);
            lemma_mul_is_commutative(d, limit);
            lemma_mul_is_commutative(limit, d);
        }
    }
    assert(q >= 1) by {
        if q < 1 {
            lemma_mul_inequality(q, 0, limit);
        }
    }
}

/// What one [`RateLimitState::consume`] attempt does, as a value-level
/// step: on sufficient capacity the amount is taken and the clock recorded,
/// otherwise nothing changes.
pub open spec fn spec_consume_step(s: RateLimitState, now: i64, amount: u64) -> RateLimitState {
    if s.spec_capacity_at(now as int) >= amount {
        RateLimitState {
            limit: s.limit,
            capacity_at_last_tx: (s.spec_capacity_at(now as int) - amount) as u64,
            last_tx_timestamp: now,
        }
    } else {
        s
    }
}

/// A whole run of consume attempts, first to last.
pub open spec fn spec_consume_fold(s: RateLimitState, calls: Seq<(i64, u64)>) -> RateLimitState
    decreases calls.len(),
{
    if calls.len() == 0 {
        s
    } else {
        spec_consume_fold(spec_consume_step(s, calls.first().0, calls.first().1), calls.drop_first())
    }
}

/// Over any sequence of consume attempts at non-decreasing times, the
/// stored capacity never exceeds the limit and never goes negative, and the
/// limit itself never moves: rate limiting cannot be driven out of bounds
/// by any call pattern.
pub proof fn lemma_consume_fold_wf(s: RateLimitState, calls: Seq<(i64, u64)>)
    requires
        s.wf(),
        calls.len() > 0 ==> calls[0].0 >= s.last_tx_timestamp,
        forall|i: int| 0 <= i < calls.len() - 1 ==> (#[trigger] calls[i].0) <= calls[i + 1].0,
    ensures
        spec_consume_fold(s, calls).wf(),
        spec_consume_fold(s, calls).limit == s.limit,
        calls.len() > 0 ==> spec_consume_fold(s, calls).last_tx_timestamp <= calls.last().0,
        calls.len() == 0 ==> spec_consume_fold(s, calls) == s,
    decreases calls.len(),
{
    if calls.len() > 0 {
        let now = calls.first().0;
        let amount = calls.first().1;
        let s1 = spec_consume_step(s, now, amount);
        lemma_capacity_monotonic(s, now as int, now as int);
        let rest = calls.drop_first();
        assert forall|i: int| 0 <= i < rest.len() - 1 implies (#[trigger] rest[i].0) <= rest[i
            + 1].0 by {
            assert(rest[i] == calls[i + 1]);
            assert(rest[i + 1] == calls[i + 2]);
        }
        if rest.len() > 0 {
            assert(rest[0] == calls[1]);
            assert(calls[0].0 <= calls[1].0);
        }
        lemma_consume_fold_wf(s1, rest);
        if rest.len() > 0 {
            assert(rest.last() == calls.last());
        }
    }
}

/// Between consumptions, the available capacity is monotone in time, never
/// negative, and never exceeds the configured limit.
pub proof fn lemma_capacity_monotonic(s: RateLimitState, t1: int, t2: int)
    requires
        s.wf(),
        s.last_tx_timestamp <= t1 <= t2,
    ensures
        0 <= s.spec_capacity_at(t1),
        s.spec_capacity_at(t1) <= s.spec_capacity_at(t2),
        s.spec_capacity_at(t2) <= s.limit,
{
    let d = RATE_LIMIT_DURATION as int;
    let last = s.last_tx_timestamp as int;
    lemma_mul_inequality(t1 - last, t2 - last, s.limit as int);
    lemma_div_is_ordered((t1 - last) * s.limit, (t2 - last) * s.limit, d);
    lemma_mul_inequality(0, t1 - last, s.limit as int);
    lemma_div_is_ordered(0, (t1 - last) * s.limit, d);
}

/// At `spec_time_to_sufficient` the capacity suffices for `amount`, and at
/// no earlier instant from `now` on does it: the solved release time is
/// exact. (Amounts above the limit never fit and get no such time.)
pub proof fn lemma_time_to_sufficient(s: RateLimitState, now: i64, amount: u64)
    requires
        s.wf(),
        now >= s.last_tx_timestamp,
        amount <= s.limit,
    ensures
        ({
            let t = s.spec_time_to_sufficient(now, amount);
            &&& now <= t
            &&& s.spec_capacity_at(t) >= amount
            &&& forall|u: int| now <= u < t ==> s.spec_capacity_at(u) < amount
        }),
{
    let d = RATE_LIMIT_DURATION as int;
    let last = s.last_tx_timestamp as int;
    let limit = s.limit as int;
    let cap = s.capacity_at_last_tx as int;
    let t = s.spec_time_to_sufficient(now, amount);
    if s.spec_capacity_at(now as int) >= amount {
        assert forall|u: int| now <= u < t implies s.spec_capacity_at(u) < amount by {}
    } else {
        let need = amount - cap;
        lemma_ceil_div_bounds(need, limit);
        let q = (need * d + limit - 1) / limit;
        assert(t == last + q);
        assert(now < t) by {
            if now - last >= q {
                lemma_mul_inequality(q, now - last, limit);
                lemma_div_is_ordered(need * d, (now - last) * limit, d);
                lemma_div_multiples_vanish(need, d);
                lemma_mul_is_commutative(need, d);
            }
        }
        assert(s.spec_capacity_at(t) >= amount) by {
            lemma_div_is_ordered(need * d, q * limit, d);
            lemma_div_multiples_vanish(need, d);
            lemma_mul_is_commutative(need, d);
        }
        assert forall|u: int| now <= u < t implies s.spec_capacity_at(u) < amount by {
            let du = u - last;
            lemma_mul_inequality(du, q - 1, limit);
            assert((q - 1) * limit <= need * d - 1);
            lemma_div_is_ordered(du * limit, need * d - 1, d);
            assert((need * d - 1) / d == need - 1) by {
                lemma_fundamental_div_mod(need * d - 1, d);
                lemma_div_multiples_vanish(need, d);
                lemma_mul_is_commutative(need, d);
                lemma_fundamental_div_mod(need * d, d);
            }
        }
    }
}

} // verus!
