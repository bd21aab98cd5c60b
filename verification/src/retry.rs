//! A timer for retrying a failed download, following the decorrelated-jitter
//! rule: every delay is drawn at random between a fixed floor and three times
//! the delay before it.
//!
//! Nothing here sleeps. The caller gets a number of milliseconds (or a
//! [`Duration`]) and waits for that long itself.

use crate::random::draw_in_range;
use rand::rngs::StdRng;
use std::ops::Range;
use std::time::Duration;
use vstd::prelude::*;

verus! {

/// Lowest possible lower bound of a delay, in milliseconds.
pub const MIN_LOW_BOUND: u32 = 1000;

/// Largest possible lower bound of a delay, in milliseconds.
pub const MAX_LOW_BOUND: u32 = u32::MAX - 1;

/// Largest factor by which one delay may exceed the delay before it.
pub const MAX_DELAY_MULT: u32 = 3;

/// The whole number of milliseconds that a [`Duration`] spans, as
/// `Duration::as_millis` reports it.
pub uninterp spec fn duration_millis(d: Duration) -> u128;

/// `Duration::as_millis` is the total number of whole milliseconds of the
/// duration; [`duration_millis`] is the name of that number.
pub assume_specification[ Duration::as_millis ](d: &Duration) -> (ms: u128)
    ensures
        ms == duration_millis(*d),
;

/// `Duration::from_millis` makes the duration of exactly that many
/// milliseconds, so `as_millis` of it gives the number back.
pub assume_specification[ Duration::from_millis ](millis: u64) -> (d: Duration)
    ensures
        duration_millis(d) == millis,
;

/// The floor that a requested base delay is held to.
pub open spec fn clamp_low_bound(base_delay_msec: int) -> int {
    if base_delay_msec < MIN_LOW_BOUND {
        MIN_LOW_BOUND as int
    } else if base_delay_msec > MAX_LOW_BOUND {
        MAX_LOW_BOUND as int
    } else {
        base_delay_msec
    }
}

/// Three times the last delay, held to what a `u32` can represent.
pub open spec fn tripled(last_delay_ms: u32) -> int {
    if last_delay_ms * MAX_DELAY_MULT > u32::MAX {
        u32::MAX as int
    } else {
        last_delay_ms * MAX_DELAY_MULT
    }
}

/// The exclusive upper end of the range that the next delay is drawn from.
pub open spec fn high_bound(low_bound_ms: u32, last_delay_ms: u32) -> int {
    if low_bound_ms + 1 >= tripled(last_delay_ms) {
        low_bound_ms + 1
    } else {
        tripled(last_delay_ms)
    }
}

/// The state of one series of retries.
///
/// The schedule is randomized, so that clients do not fall into step with one
/// another; it tends to wait longer and longer, so that a server that was down
/// is not flooded when it comes back; and it can still yield a short delay at
/// any point.
pub struct RetryDelay {
    /// The last delay that this object returned (in msec), or 0 if it never
    /// returned one.
    last_delay_ms: u32,
    /// The lowest allowable delay (in msec).
    low_bound_ms: u32,
}

impl RetryDelay {
    /// The floor stays within its two limits, so that the range to draw from
    /// is never empty.
    #[verifier::type_invariant]
    pub closed spec fn wf(&self) -> bool {
        MIN_LOW_BOUND <= self.low_bound_ms <= MAX_LOW_BOUND
    }

    /// The last delay returned, in milliseconds; 0 before the first.
    pub closed spec fn spec_last_delay_ms(&self) -> u32 {
        self.last_delay_ms
    }

    /// The lowest delay that can be returned, in milliseconds.
    pub closed spec fn spec_low_bound_ms(&self) -> u32 {
        self.low_bound_ms
    }

    /// The range `[low, high)` that the next delay is drawn from.
    pub open spec fn spec_delay_bounds(&self) -> (u32, u32) {
        (
            self.spec_low_bound_ms(),
            high_bound(self.spec_low_bound_ms(), self.spec_last_delay_ms()) as u32,
        )
    }

    /// Construct a new RetryDelay from a given base delay in milliseconds.
    ///
    /// The base delay defines the lowest possible interval that can be
    /// returned. A base delay under 1000 counts as 1000, and the largest
    /// `u32` counts as one less.
    pub fn from_msec(base_delay_msec: u32) -> (r: Self)
        ensures
            r.wf(),
            r.spec_last_delay_ms() == 0,
            r.spec_low_bound_ms() == clamp_low_bound(base_delay_msec as int),
    {
        let low_bound_ms = if base_delay_msec < MIN_LOW_BOUND {
            MIN_LOW_BOUND
        } else if base_delay_msec > MAX_LOW_BOUND {
            MAX_LOW_BOUND
        } else {
            base_delay_msec
        };
        RetryDelay { last_delay_ms: 0, low_bound_ms }
    }

    /// Construct a new RetryDelay from a given base delay.
    ///
    /// The delay is taken in whole milliseconds and then treated as in
    /// [`RetryDelay::from_msec`].
    pub fn from_duration(d: Duration) -> (r: Self)
        ensures
            r.wf(),
            r.spec_last_delay_ms() == 0,
            r.spec_low_bound_ms() == clamp_low_bound(duration_millis(d) as int),
    {
        let msec = d.as_millis();
        let msec = if msec > MAX_LOW_BOUND as u128 {
            MAX_LOW_BOUND
        } else {
            msec as u32
        };
        RetryDelay::from_msec(msec)
    }

    /// The last delay returned, in milliseconds; 0 before the first.
    #[verifier::when_used_as_spec(spec_last_delay_ms)]
    pub fn last_delay_ms(&self) -> (r: u32)
        ensures
            r == self.spec_last_delay_ms(),
    {
        self.last_delay_ms
    }

    /// The lowest delay that can be returned, in milliseconds.
    #[verifier::when_used_as_spec(spec_low_bound_ms)]
    pub fn low_bound_ms(&self) -> (r: u32)
        ensures
            r == self.spec_low_bound_ms(),
            MIN_LOW_BOUND <= r <= MAX_LOW_BOUND,
    {
        proof {
            use_type_invariant(self);
        }
        self.low_bound_ms
    }

    /// Record `delay_ms` as the delay that was handed out last. The next range
    /// is computed from it; the floor stays as it is.
    pub fn set_last_delay_ms(&mut self, delay_ms: u32)
        ensures
            final(self).wf(),
            final(self).spec_last_delay_ms() == delay_ms,
            final(self).spec_low_bound_ms() == old(self).spec_low_bound_ms(),
    {
        proof {
            use_type_invariant(&*self);
        }
        self.last_delay_ms = delay_ms;
    }

    /// Return a lower and an upper bound for the next delay to be yielded: the
    /// floor, and three times the last delay where that is more than the floor
    /// plus one. The product saturates at the largest `u32`.
    #[verifier::when_used_as_spec(spec_delay_bounds)]
    pub fn delay_bounds(&self) -> (r: (u32, u32))
        ensures
            r == self.spec_delay_bounds(),
            r.0 == self.spec_low_bound_ms(),
            r.1 == high_bound(self.spec_low_bound_ms(), self.spec_last_delay_ms()),
            r.0 < r.1,
    {
        proof {
            use_type_invariant(self);
        }
        let low = self.low_bound_ms;
        let tripled = match self.last_delay_ms.checked_mul(MAX_DELAY_MULT) {
            Some(t) => t,
            None => u32::MAX,
        };
        // low is at most MAX_LOW_BOUND, so low + 1 cannot overflow.
        let high = if low + 1 >= tripled {
            low + 1
        } else {
            tripled
        };
        (low, high)
    }

    /// Return the next delay to be used (in milliseconds), according to a
    /// given random number generator.
    ///
    /// The delay lies in the range that [`RetryDelay::delay_bounds`] gave
    /// before the call, and is recorded as the last delay.
    pub fn next_delay_msec(&mut self, rng: &mut StdRng) -> (val: u32)
        ensures
            final(self).wf(),
            old(self).spec_delay_bounds().0 <= val < old(self).spec_delay_bounds().1,
            final(self).spec_last_delay_ms() == val,
            final(self).spec_low_bound_ms() == old(self).spec_low_bound_ms(),
    {
        let (low, high) = self.delay_bounds();
        let val = draw_in_range(rng, low as u128, high as u128) as u32;
        self.set_last_delay_ms(val);
        val
    }

    /// Return the next delay to be used (as a [`Duration`]), according to a
    /// given random number generator.
    pub fn next_delay(&mut self, rng: &mut StdRng) -> (d: Duration)
        ensures
            final(self).wf(),
            duration_millis(d) == final(self).spec_last_delay_ms(),
            old(self).spec_delay_bounds().0 <= duration_millis(d) < old(self).spec_delay_bounds().1,
            final(self).spec_low_bound_ms() == old(self).spec_low_bound_ms(),
    {
        let val = self.next_delay_msec(rng);
        Duration::from_millis(val as u64)
    }
}

impl Default for RetryDelay {
    fn default() -> (r: Self)
        ensures
            r.wf(),
            r.spec_last_delay_ms() == 0,
            r.spec_low_bound_ms() == MIN_LOW_BOUND,
    {
        RetryDelay::from_msec(0)
    }
}

/// Configuration for how many times to retry a download, with what
/// frequency.
#[derive(Debug, Copy, Clone)]
pub struct RetryConfig {
    /// How many times to retry before giving up? Never 0.
    num: u32,
    /// The amount of time to delay after the first failure, and a
    /// lower bound for future delays.
    initial_delay: Duration,
}

impl RetryConfig {
    /// At least one attempt is made.
    #[verifier::type_invariant]
    pub closed spec fn wf(&self) -> bool {
        self.num >= 1
    }

    /// The number of attempts that this configuration allows.
    pub closed spec fn spec_n_attempts(&self) -> u32 {
        self.num
    }

    /// The delay after the first failure.
    pub closed spec fn spec_initial_delay(&self) -> Duration {
        self.initial_delay
    }

    /// Create a new RetryConfig to control our logic for retrying a given
    /// download.
    ///
    /// The resulting configuration will always make at least one attempt, and
    /// at most `attempts`. After a failure, it will wait at least
    /// `initial_delay` before trying again.
    pub fn new(attempts: u32, initial_delay: Duration) -> (r: Self)
        ensures
            r.wf(),
            r.spec_n_attempts() == (if attempts == 0 { 1u32 } else { attempts }),
            r.spec_initial_delay() == initial_delay,
    {
        let num: u32 = if attempts == 0 { 1 } else { attempts };
        RetryConfig { num, initial_delay }
    }

    /// Return the attempts that this configuration supports, numbered from 0.
    pub fn attempts(&self) -> (r: Range<u32>)
        ensures
            r.start == 0,
            r.end == self.spec_n_attempts(),
            r.end >= 1,
    {
        proof {
            use_type_invariant(self);
        }
        0..self.num
    }

    /// Return the number of times that we're supposed to retry, according to
    /// this RetryConfig.
    #[verifier::when_used_as_spec(spec_n_attempts)]
    pub fn n_attempts(&self) -> (r: u32)
        ensures
            r == self.spec_n_attempts(),
            r >= 1,
    {
        proof {
            use_type_invariant(self);
        }
        self.num
    }

    /// Return the delay after the first failure.
    #[verifier::when_used_as_spec(spec_initial_delay)]
    pub fn initial_delay(&self) -> (r: Duration)
        ensures
            r == self.spec_initial_delay(),
    {
        self.initial_delay
    }

    /// Return a RetryDelay object for this configuration.
    ///
    /// An initial delay of more whole milliseconds than a `u32` holds counts
    /// as the largest floor there is.
    pub fn schedule(&self) -> (r: RetryDelay)
        ensures
            r.wf(),
            r.spec_last_delay_ms() == 0,
            r.spec_low_bound_ms() == clamp_low_bound(
                duration_millis(self.spec_initial_delay()) as int,
            ),
    {
        RetryDelay::from_duration(self.initial_delay)
    }
}

impl Default for RetryConfig {
    fn default() -> (r: Self)
        ensures
            r.wf(),
            r.spec_n_attempts() == 3,
            duration_millis(r.spec_initial_delay()) == 1000,
    {
        RetryConfig { num: 3, initial_delay: Duration::from_millis(1000) }
    }
}

} // verus!
