//! The keyed rate limiter of the `governor` crate and the clock it reads.
//!
//! What this file says of `governor` is not proved. The limiter keeps one token
//! bucket for each key behind a shared reference and reads the time by itself, so the
//! same call may be answered differently from one moment to the next: the contracts
//! here say what holds of every answer, and no more.

use crate::duration::nanos_of;
use crate::shared::share;
use governor::clock::{Clock, DefaultClock};
use governor::middleware::StateInformationMiddleware;
use governor::state::keyed::DefaultKeyedStateStore;
use governor::{Quota, RateLimiter};
use std::hash::Hash;
use std::num::NonZeroU32;
use std::sync::Arc;
use std::time::Duration;
use vstd::prelude::*;

verus! {

/// The longest time, in nanoseconds, that a whole burst may take to come back.
/// `governor` makes a limiter for any quota whose whole burst fits in 64 bits of
/// nanoseconds. At each check it then adds the nanoseconds since the limiter was made
/// to the time of a whole burst, in 64 bits, and the check panics or counts wrongly
/// where that sum does not fit. Half of the range is therefore left to the running
/// time: below this bound the sum fits for the first 292 years of a limiter.
pub const MAX_BURST_NANOS: u64 = 0x7fff_ffff_ffff_ffff;

/// What the limiter answers to one request.
#[derive(Debug)]
pub enum CheckOutcome {
    /// A token was taken. The quota allows `burst_size` requests at once, and
    /// `remaining_burst_capacity` more could follow at this moment.
    Allowed { burst_size: u32, remaining_burst_capacity: u32 },
    /// No token was left. One is due after `wait`.
    Denied { wait: Duration, burst_size: u32 },
}

impl CheckOutcome {
    /// The burst size that the answer names.
    pub open spec fn quota_burst(self) -> u32 {
        match self {
            CheckOutcome::Allowed { burst_size, .. } => burst_size,
            CheckOutcome::Denied { burst_size, .. } => burst_size,
        }
    }

    /// Whether the answer is one that a limiter for a burst of `burst_size` may give:
    /// it names that burst size, and where a token was taken, less than a whole
    /// burst is left.
    pub open spec fn of_burst(self, burst_size: u32) -> bool {
        &&& self.quota_burst() == burst_size
        &&& self is Allowed ==> self->remaining_burst_capacity < burst_size
    }
}

/// A quota that the limiter can keep: a burst of at least one, a period of at least
/// one nanosecond, and a whole burst that replenishes within `MAX_BURST_NANOS`.
pub open spec fn quota_fits(period: Duration, burst_size: u32) -> bool {
    &&& burst_size > 0
    &&& nanos_of(period) > 0
    &&& nanos_of(period) * burst_size <= MAX_BURST_NANOS
}

/// The token buckets of the `governor` crate, one for each key: its `RateLimiter`
/// with the default store of keys and the default clock.
#[derive(Debug)]
#[verifier::external_body]
#[verifier::reject_recursive_types(K)]
pub struct Buckets<K: Hash + Eq + Clone> {
    limiter: RateLimiter<K, DefaultKeyedStateStore<K>, DefaultClock, StateInformationMiddleware>,
}

impl<K: Hash + Eq + Clone> Buckets<K> {
    /// `RateLimiter::keyed` for the quota `Quota::with_period(period)` with
    /// `allow_burst(burst_size)`: a limiter with no key in it. `governor` panics on a
    /// zero burst, a zero period and a period of more than 2^64 nanoseconds, and its
    /// arithmetic overflows on a burst longer than the counter; all are left out.
    #[verifier::external_body]
    pub(crate) fn keyed(period: Duration, burst_size: u32) -> Self
        requires
            quota_fits(period, burst_size),
    {
        let burst = NonZeroU32::new(burst_size).unwrap();
        let quota = Quota::with_period(period).unwrap().allow_burst(burst);
        Buckets { limiter: RateLimiter::keyed(quota).with_middleware::<StateInformationMiddleware>() }
    }

    /// `RateLimiter::retain_recent`: drops the buckets that are full again.
    #[verifier::external_body]
    pub(crate) fn retain_recent(&self) {
        self.limiter.retain_recent();
    }

    /// `RateLimiter::len`: the number of keys with a bucket, which may be out of date.
    #[verifier::external_body]
    pub(crate) fn len(&self) -> usize {
        self.limiter.len()
    }
}

/// A handle on the buckets of one quota, with the quota that the buckets were made
/// for. Its clones are handles on the same buckets.
#[derive(Debug)]
#[verifier::reject_recursive_types(K)]
pub struct KeyedLimiter<K: Hash + Eq + Clone> {
    shared: Arc<Buckets<K>>,
    period: Duration,
    burst_size: u32,
}

impl<K: Hash + Eq + Clone> KeyedLimiter<K> {
    /// The quota on record is one that the buckets can keep.
    #[verifier::type_invariant]
    spec fn keeps_quota(self) -> bool {
        quota_fits(self.period, self.burst_size)
    }

    /// `RateLimiter::check_key` on the buckets behind the handle: takes a token from
    /// the key's bucket if one is there. Of a token taken it says by
    /// `StateSnapshot::quota` and `StateSnapshot::remaining_burst_capacity` what the
    /// burst is and what is left of it; of a token missed it says by
    /// `NotUntil::wait_time_from` the present time how long to wait, and by
    /// `NotUntil::quota` what the burst is. Which of the two it is depends on the time
    /// and on the requests made before. Either way `governor` gives the burst size
    /// back from the quota that the buckets were made for, which is the quota on
    /// record here: a handle is made by `keyed` and by `clone` alone. After a token
    /// was taken the bucket is short of that token, so less than a burst is left.
    #[verifier::external_body]
    fn take_token(&self, key: &K) -> (outcome: CheckOutcome)
        ensures
            outcome.of_burst(self.burst()),
    {
        match self.shared.limiter.check_key(key) {
            Ok(state) => CheckOutcome::Allowed {
                burst_size: state.quota().burst_size().get(),
                remaining_burst_capacity: state.remaining_burst_capacity(),
            },
            Err(not_until) => CheckOutcome::Denied {
                wait: not_until.wait_time_from(DefaultClock::default().now()),
                burst_size: not_until.quota().burst_size().get(),
            },
        }
    }

    /// The buckets behind the handle.
    pub closed spec fn buckets(self) -> Buckets<K> {
        *self.shared
    }

    /// The period of the quota that the buckets were made for, in nanoseconds.
    pub closed spec fn period_nanos(self) -> nat {
        nanos_of(self.period)
    }

    /// The burst size of the quota that the buckets were made for.
    pub closed spec fn burst(self) -> u32 {
        self.burst_size
    }

    /// A limiter for a quota, with no key in it: its buckets are made for one token
    /// in each period and `burst_size` tokens at once.
    pub(crate) fn keyed(period: Duration, burst_size: u32) -> (limiter: Self)
        requires
            quota_fits(period, burst_size),
        ensures
            limiter.period_nanos() == nanos_of(period),
            limiter.burst() == burst_size,
    {
        KeyedLimiter { shared: Arc::new(Buckets::keyed(period, burst_size)), period, burst_size }
    }

    /// The interval after which the buckets get one token back.
    pub fn period(&self) -> (period: Duration)
        ensures
            nanos_of(period) == self.period_nanos(),
    {
        self.period
    }

    /// The number of tokens that a full bucket holds.
    pub fn burst_size(&self) -> (burst_size: u32)
        ensures
            burst_size == self.burst(),
    {
        self.burst_size
    }

    /// Takes a token from the key's bucket if one is there, and says what the limiter
    /// answered. Whether a token is there depends on the time and on the requests
    /// made before; whatever the answer, it names the burst size of this limiter, and
    /// where a token was taken, less than a whole burst is left.
    pub fn check_key(&self, key: &K) -> (outcome: CheckOutcome)
        ensures
            outcome.of_burst(self.burst()),
    {
        self.take_token(key)
    }

    /// Retains all keys in the rate limiter that were used recently enough: a key
    /// whose bucket is full again is dropped, and its next request finds a fresh
    /// bucket. Run this now and then, or the limiter keeps every key it ever saw.
    pub fn retain_recent(&self) {
        self.shared.retain_recent();
    }

    /// The number of keys that the limiter keeps a bucket for. While requests are
    /// being checked the number may be out of date.
    pub fn len(&self) -> usize {
        self.shared.len()
    }
}

impl<K: Hash + Eq + Clone> Clone for KeyedLimiter<K> {
    /// Another handle on the same buckets, with the same quota.
    fn clone(&self) -> (r: Self)
        ensures
            r.buckets() == self.buckets(),
            r.period_nanos() == self.period_nanos(),
            r.burst() == self.burst(),
    {
        proof {
            use_type_invariant(self);
        }
        KeyedLimiter {
            shared: share(&self.shared),
            period: self.period,
            burst_size: self.burst_size,
        }
    }
}

} // verus!
