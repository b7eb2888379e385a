//! The executable token bucket and its verified state-update algorithm.

use vstd::prelude::*;
use vstd::arithmetic::mul::lemma_mul_upper_bound;
use crate::clock::now_millis;
use crate::model::BucketModel;
use crate::model::admits;
use crate::model::initial;
use crate::model::lemma_full_admits;
use crate::model::lemma_overdraft_rejection;
use crate::model::observed_rate;
use crate::model::step;
use crate::model::wf;

verus! {

/// The outcome of one acquisition attempt. `Ok` means the request was
/// admitted, `Err` that it was denied; both arms carry the same diagnostic:
/// the call pacing implied by the time gap since the bucket's previous
/// update, in millicalls per second (`u64::MAX` stands for an unmeasurably
/// small gap).
pub type TokenAcquisitionResult = Result<u64, u64>;

/// A construction-time configuration error: a bucket with no refill or no
/// room can never admit anything, so such a configuration is rejected
/// outright rather than allowed to produce a nonsensical limiter.
#[derive(Debug, PartialEq, Eq, Structural)]
pub enum ConfigError {
    /// The refill rate was zero.
    NonPositiveRate,
    /// The capacity was zero.
    NonPositiveCapacity,
}

/// A token-bucket rate limiter.
///
/// Token amounts in the public interface are fixed-point values in
/// millitokens: a `count` of `1500` asks for one and a half tokens. The
/// refill rate is likewise given in millitokens per second. Internally the
/// level is kept in microtokens so that each elapsed millisecond credits an
/// exact integer amount and nothing is lost to rounding.
///
/// The update policy is the standard one: every call commits the
/// replenishment earned since the last call and advances the timestamp,
/// whether or not the request is admitted; the cost is deducted only on
/// admission. A clock reading earlier than the previous one (a backwards
/// clock step) is treated as zero elapsed time rather than as a fault.
///
/// Exclusive access for the read-modify-write of an acquisition is enforced
/// by the `&mut self` receiver; a bucket shared across threads is wrapped in
/// a lock by its owner.
pub struct TokenBucket {
    /// Refill rate, in millitokens per second (equivalently, microtokens per
    /// millisecond).
    rate: u64,
    /// Capacity (burst size), in millitokens.
    capacity: u64,
    /// Current level, in microtokens; at most `capacity * 1000`.
    tokens: u128,
    /// Clock reading, in milliseconds, of the most recent update.
    last: u64,
}

impl View for TokenBucket {
    type V = BucketModel;

    closed spec fn view(&self) -> BucketModel {
        BucketModel {
            rate: self.rate as nat,
            capacity: (self.capacity as nat) * 1000,
            tokens: self.tokens as nat,
            last: self.last as nat,
        }
    }
}

impl TokenBucket {
    /// Builds a bucket that replenishes `rate` millitokens per second up to
    /// `capacity` millitokens, starts full, and takes `now_ms` as the
    /// construction time. Non-positive configurations are rejected.
    pub fn new_at(rate: u64, capacity: u64, now_ms: u64) -> (r: Result<TokenBucket, ConfigError>)
        ensures
            rate == 0 ==> r == Err::<TokenBucket, ConfigError>(ConfigError::NonPositiveRate),
            rate >= 1 && capacity == 0 ==> r == Err::<TokenBucket, ConfigError>(
                ConfigError::NonPositiveCapacity,
            ),
            rate >= 1 && capacity >= 1 ==> (r matches Ok(b) && b@ == initial(
                rate as nat,
                (capacity as nat) * 1000,
                now_ms as nat,
            ) && wf(b@)),
    {
        if rate == 0 {
            return Err(ConfigError::NonPositiveRate);
        }
        if capacity == 0 {
            return Err(ConfigError::NonPositiveCapacity);
        }
        let tokens: u128 = (capacity as u128) * 1000;
        Ok(TokenBucket { rate, capacity, tokens, last: now_ms })
    }

    /// Builds a bucket as [`TokenBucket::new_at`] does, taking the
    /// construction time from the wall clock.
    pub fn new(rate: u64, capacity: u64) -> (r: Result<TokenBucket, ConfigError>)
        ensures
            rate == 0 ==> r == Err::<TokenBucket, ConfigError>(ConfigError::NonPositiveRate),
            rate >= 1 && capacity == 0 ==> r == Err::<TokenBucket, ConfigError>(
                ConfigError::NonPositiveCapacity,
            ),
            rate >= 1 && capacity >= 1 ==> (r matches Ok(b) && wf(b@) && b@.rate == rate as nat
                && b@.capacity == (capacity as nat) * 1000 && b@.tokens == b@.capacity),
    {
        let now_ms: u64 = now_millis();
        TokenBucket::new_at(rate, capacity, now_ms)
    }

    /// Attempts to acquire `count` millitokens at clock reading `now_ms`.
    ///
    /// The whole transition is pinned to the model: the new state is exactly
    /// `step` of the old one, the request is admitted exactly when the
    /// replenished level covers it, and both arms of the result carry the
    /// observed call pacing.
    pub fn acquire_at(&mut self, count: u64, now_ms: u64) -> (r: TokenAcquisitionResult)
        requires
            wf(old(self)@),
        ensures
            wf(final(self)@),
            final(self)@ == step(old(self)@, now_ms as nat, (count as nat) * 1000),
            r is Ok <==> admits(old(self)@, now_ms as nat, (count as nat) * 1000),
            r matches Ok(v) ==> v as nat == observed_rate(old(self)@, now_ms as nat),
            r matches Err(v) ==> v as nat == observed_rate(old(self)@, now_ms as nat),
    {
        let elapsed: u64 = if now_ms >= self.last {
            now_ms - self.last
        } else {
            0
        };

        // Credit the refill earned since the last update, saturating at the
        // capacity. `rate * elapsed` is in microtokens and fits in a u128.
        proof {
            lemma_mul_upper_bound(
                self.rate as int,
                u64::MAX as int,
                elapsed as int,
                u64::MAX as int,
            );
        }
        let gained: u128 = (self.rate as u128) * (elapsed as u128);
        let cap_micro: u128 = (self.capacity as u128) * 1000;
        let room: u128 = cap_micro - self.tokens;
        if gained >= room {
            self.tokens = cap_micro;
        } else {
            self.tokens = self.tokens + gained;
        }

        // Admission test against the replenished level; deduct only on
        // admission, advance the timestamp (never backwards) either way.
        let count_micro: u128 = (count as u128) * 1000;
        let admitted: bool = self.tokens >= count_micro;
        if admitted {
            self.tokens = self.tokens - count_micro;
        }
        if now_ms >= self.last {
            self.last = now_ms;
        }

        let pacing: u64 = if elapsed == 0 {
            u64::MAX
        } else {
            1000000 / elapsed
        };
        if admitted {
            Ok(pacing)
        } else {
            Err(pacing)
        }
    }

    /// Attempts to acquire `count` millitokens, taking the current time from
    /// the wall clock.
    ///
    /// Whatever the clock returned, the transition is one `step` of the
    /// model at some reading; two consequences hold regardless of it: a
    /// request beyond the capacity is always denied, and a full bucket
    /// admits any request it can hold.
    pub fn acquire(&mut self, count: u64) -> (r: TokenAcquisitionResult)
        requires
            wf(old(self)@),
        ensures
            wf(final(self)@),
            final(self)@.rate == old(self)@.rate,
            final(self)@.capacity == old(self)@.capacity,
            exists|now: nat|
                (final(self)@ == #[trigger] step(old(self)@, now, (count as nat) * 1000) && (r
                    is Ok <==> admits(old(self)@, now, (count as nat) * 1000)) && (r matches Ok(v)
                    ==> v as nat == observed_rate(old(self)@, now)) && (r matches Err(v)
                    ==> v as nat == observed_rate(old(self)@, now))),
            (count as nat) * 1000 > old(self)@.capacity ==> r is Err,
            old(self)@.tokens == old(self)@.capacity && (count as nat) * 1000 <= old(
                self,
            )@.capacity ==> r is Ok,
    {
        let ghost pre: BucketModel = self@;
        let now_ms: u64 = now_millis();
        let r = self.acquire_at(count, now_ms);
        proof {
            if (count as nat) * 1000 > pre.capacity {
                lemma_overdraft_rejection(pre, now_ms as nat, (count as nat) * 1000);
            }
            if pre.tokens == pre.capacity && (count as nat) * 1000 <= pre.capacity {
                lemma_full_admits(pre, now_ms as nat, (count as nat) * 1000);
            }
        }
        r
    }
}

} // verus!
