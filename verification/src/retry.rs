//! Exponential-backoff delay schedules for reconnect and listen loops.
//!
//! A policy is a pure value generator: each call to `next_delay` returns a
//! jittered delay in milliseconds and advances the schedule. Growth is
//! geometric up to a fixed ceiling; after the ceiling is reached the delays
//! oscillate inside the jitter band around it, forever — the policy never
//! reports exhaustion. The multiplier and the jitter proportion are held as
//! integer ratios.

use vstd::prelude::*;

use vstd::arithmetic::div_mod::lemma_fundamental_div_mod;
use vstd::arithmetic::div_mod::lemma_div_is_ordered;
use vstd::arithmetic::mul::lemma_mul_inequality;

verus! {

/// Upper bound on any interval ceiling, in milliseconds. Far beyond any
/// practical schedule; it keeps every intermediate sum inside `u64`.
pub const BACKOFF_INTERVAL_CEILING_MS: u64 = 4_000_000_000_000_000_000;

/// The same bound expressed in whole seconds.
pub const BACKOFF_INTERVAL_CEILING_SECS: u64 = 4_000_000_000_000_000;

/// Relies on `rand::random`: draws a value from the thread-local generator.
/// Nothing is promised of the value.
pub assume_specification<T>[ rand::random::<T> ]() -> (r: T)
    where
        rand::distributions::Standard: rand::distributions::Distribution<T>,
;

/// An exponential-backoff schedule.
#[derive(Clone, Copy, PartialEq, Eq, Structural)]
pub struct RetryPolicy {
    /// The center of the next delay, in milliseconds.
    pub current_ms: u64,
    /// Growth multiplier, as the ratio `mult_num / mult_den`.
    pub mult_num: u64,
    pub mult_den: u64,
    /// Jitter proportion, as the ratio `rand_num / rand_den`.
    pub rand_num: u64,
    pub rand_den: u64,
    /// Cap on the center's growth, in milliseconds.
    pub max_interval_ms: u64,
}

impl RetryPolicy {
    /// A consistent schedule: the multiplier is at least one, the jitter
    /// proportion at most one, and the center never exceeds the ceiling.
    pub open spec fn wf(&self) -> bool {
        &&& 1 <= self.mult_den <= self.mult_num
        &&& 1 <= self.rand_den
        &&& self.rand_num <= self.rand_den
        &&& self.current_ms <= self.max_interval_ms
        &&& self.max_interval_ms <= BACKOFF_INTERVAL_CEILING_MS
    }

    /// The jitter allowance around a center `c`.
    pub open spec fn jitter(&self, c: u64) -> int {
        (c as int / self.rand_den as int) * self.rand_num as int
    }

    /// The center after one step: grown by the multiplier, capped at the
    /// ceiling.
    pub open spec fn advanced(&self, c: u64) -> int {
        let grown = c as int * self.mult_num as int / self.mult_den as int;
        if grown > self.max_interval_ms as int {
            self.max_interval_ms as int
        } else {
            grown
        }
    }

    /// The next delay of the schedule, in milliseconds.
    ///
    /// The result lies in the jitter band around the current center, and so
    /// never exceeds the ceiling plus the ceiling's jitter allowance. The
    /// center then advances by the multiplier, never decreases, and once it
    /// has reached the ceiling it stays there.
    pub fn next_delay(&mut self) -> (r: u64)
        requires
            old(self).wf(),
        ensures
            final(self).wf(),
            old(self).current_ms as int - old(self).jitter(old(self).current_ms) <= r as int <= old(
                self,
            ).current_ms as int + old(self).jitter(old(self).current_ms),
            r as int <= old(self).max_interval_ms as int + old(self).jitter(
                old(self).max_interval_ms,
            ),
            final(self).current_ms as int == old(self).advanced(old(self).current_ms),
            final(self).current_ms >= old(self).current_ms,
            old(self).current_ms == old(self).max_interval_ms ==> final(self).current_ms == old(
                self,
            ).max_interval_ms,
            final(self).mult_num == old(self).mult_num,
            final(self).mult_den == old(self).mult_den,
            final(self).rand_num == old(self).rand_num,
            final(self).rand_den == old(self).rand_den,
            final(self).max_interval_ms == old(self).max_interval_ms,
    {
        let c = self.current_ms;
        let d = c / self.rand_den;
        proof {
            let q = c as int / self.rand_den as int;
            lemma_fundamental_div_mod(c as int, self.rand_den as int);
            assert(self.rand_den as int * q <= c as int);
            lemma_mul_inequality(self.rand_num as int, self.rand_den as int, q);
            assert(self.rand_num as int * q <= self.rand_den as int * q);
            assert(d as int == q);
            vstd::arithmetic::mul::lemma_mul_is_commutative(d as int, self.rand_num as int);
            assert(d as int * self.rand_num as int <= c as int);
        }
        let j = d * self.rand_num;
        let lo = c - j;
        let hi = c + j;
        let span = hi - lo;
        let r = if span > 0 {
            let t = rand::random::<u64>();
            lo + t % (span + 1)
        } else {
            lo
        };
        proof {
            // the jitter allowance grows with the center, so the band around
            // the current center stays under the band around the ceiling
            lemma_div_is_ordered(c as int, self.max_interval_ms as int, self.rand_den as int);
            lemma_mul_inequality(
                c as int / self.rand_den as int,
                self.max_interval_ms as int / self.rand_den as int,
                self.rand_num as int,
            );
        }
        proof {
            vstd::arithmetic::mul::lemma_mul_upper_bound(
                c as int,
                BACKOFF_INTERVAL_CEILING_MS as int,
                self.mult_num as int,
                u64::MAX as int,
            );
        }
        let grown = (c as u128) * (self.mult_num as u128) / (self.mult_den as u128);
        proof {
            assert(grown as int == c as int * self.mult_num as int / self.mult_den as int);
            lemma_fundamental_div_mod(c as int * self.mult_den as int, self.mult_den as int);
            lemma_mul_inequality(self.mult_den as int, self.mult_num as int, c as int);
            assert(c as int * self.mult_den as int / self.mult_den as int == c as int) by {
                vstd::arithmetic::div_mod::lemma_div_multiples_vanish(
                    c as int,
                    self.mult_den as int,
                );
            }
            lemma_div_is_ordered(
                c as int * self.mult_den as int,
                c as int * self.mult_num as int,
                self.mult_den as int,
            );
            assert(c as int * self.mult_den as int == self.mult_den as int * c as int);
            assert(grown as int >= c as int);
        }
        if grown > self.max_interval_ms as u128 {
            self.current_ms = self.max_interval_ms;
        } else {
            self.current_ms = grown as u64;
        }
        r
    }
}

/// The schedule a socket-accept loop retries with: default growth, the
/// interval capped at one second so the listener recovers quickly.
pub fn listen_backoff() -> (r: RetryPolicy)
    ensures
        r.wf(),
        r == (RetryPolicy {
            current_ms: 500,
            mult_num: 3,
            mult_den: 2,
            rand_num: 1,
            rand_den: 2,
            max_interval_ms: 1000,
        }),
{
    RetryPolicy {
        current_ms: 500,
        mult_num: 3,
        mult_den: 2,
        rand_num: 1,
        rand_den: 2,
        max_interval_ms: 1000,
    }
}

/// The schedule the control channel reconnects with: multiplier three,
/// jitter proportion one fifth, and the interval capped at a caller-supplied
/// number of seconds.
pub fn run_control_chan_backoff(interval: u64) -> (r: RetryPolicy)
    ensures
        r.wf(),
        r.mult_num == 3 && r.mult_den == 1,
        r.rand_num == 1 && r.rand_den == 5,
        r.max_interval_ms as int == if interval >= BACKOFF_INTERVAL_CEILING_SECS {
            BACKOFF_INTERVAL_CEILING_MS as int
        } else {
            interval as int * 1000
        },
        r.current_ms as int == if r.max_interval_ms < 500 {
            r.max_interval_ms as int
        } else {
            500
        },
{
    let max_ms = if interval >= BACKOFF_INTERVAL_CEILING_SECS {
        BACKOFF_INTERVAL_CEILING_MS
    } else {
        interval * 1000
    };
    let start = if max_ms < 500 {
        max_ms
    } else {
        500
    };
    RetryPolicy {
        current_ms: start,
        mult_num: 3,
        mult_den: 1,
        rand_num: 1,
        rand_den: 5,
        max_interval_ms: max_ms,
    }
}

} // verus!
