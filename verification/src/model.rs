//! Mathematical model of the token bucket.
//!
//! All quantities are exact integers. Token amounts are measured in
//! microtokens (one thousandth of a millitoken), time in milliseconds, and
//! the refill rate in microtokens per millisecond, which is numerically the
//! same as millitokens per second. Measuring the stored level in microtokens
//! makes one millisecond of refill an exact integer, so no replenishment is
//! ever lost to rounding.

use vstd::prelude::*;
use vstd::arithmetic::mul::lemma_mul_is_distributive_add;

verus! {

/// The abstract state of a bucket: a refill rate (microtokens per
/// millisecond), a ceiling (microtokens), the level now available
/// (microtokens), and the clock reading of the most recent update
/// (milliseconds).
pub ghost struct BucketModel {
    pub rate: nat,
    pub capacity: nat,
    pub tokens: nat,
    pub last: nat,
}

/// A bucket is well formed when its rate and capacity are positive and its
/// level does not exceed its capacity. The level can never be negative:
/// it is a natural number.
pub open spec fn wf(s: BucketModel) -> bool {
    &&& s.rate >= 1
    &&& s.capacity >= 1
    &&& s.tokens <= s.capacity
}

/// The state of a bucket the moment it is created: full, with the creation
/// time as its last update.
pub open spec fn initial(rate: nat, capacity: nat, now: nat) -> BucketModel {
    BucketModel { rate, capacity, tokens: capacity, last: now }
}

/// Milliseconds elapsed since the last update. A clock reading earlier than
/// the last update (a backwards clock step) counts as no time at all.
pub open spec fn elapsed_ms(s: BucketModel, now: nat) -> nat {
    if now >= s.last {
        (now - s.last) as nat
    } else {
        0
    }
}

/// `tokens + gain`, saturated at `capacity`.
pub open spec fn clamped_add(capacity: nat, tokens: nat, gain: nat) -> nat {
    if tokens + gain >= capacity {
        capacity
    } else {
        tokens + gain
    }
}

/// The level after crediting the refill earned since the last update,
/// capped at the capacity.
pub open spec fn replenished(s: BucketModel, now: nat) -> nat {
    clamped_add(s.capacity, s.tokens, s.rate * elapsed_ms(s, now))
}

/// Whether a request for `count` microtokens at time `now` is admitted:
/// the replenished level must cover it.
pub open spec fn admits(s: BucketModel, now: nat, count: nat) -> bool {
    replenished(s, now) >= count
}

/// One acquisition, as a pure transition. The refill is always committed and
/// the timestamp always advances (never backwards); the request's cost is
/// deducted only when it is admitted.
pub open spec fn step(s: BucketModel, now: nat, count: nat) -> BucketModel {
    BucketModel {
        rate: s.rate,
        capacity: s.capacity,
        tokens: if admits(s, now, count) {
            (replenished(s, now) - count) as nat
        } else {
            replenished(s, now)
        },
        last: if now >= s.last { now } else { s.last },
    }
}

/// The diagnostic rate carried by every acquisition result: the call pacing
/// implied by the gap since the previous update, in millicalls per second.
/// Two calls in the same millisecond have no finite pacing, so that case is
/// pinned to the sentinel `u64::MAX`.
pub open spec fn observed_rate(s: BucketModel, now: nat) -> nat {
    if elapsed_ms(s, now) == 0 {
        u64::MAX as nat
    } else {
        1000000 as nat / elapsed_ms(s, now)
    }
}

/// The state after serving a whole sequence of requests, each a pair of a
/// clock reading and a cost in microtokens.
pub open spec fn run(s: BucketModel, reqs: Seq<(nat, nat)>) -> BucketModel
    decreases reqs.len(),
{
    if reqs.len() == 0 {
        s
    } else {
        run(step(s, reqs.first().0, reqs.first().1), reqs.drop_first())
    }
}

/// A full bucket admits any request that does not exceed its capacity,
/// however little time has passed and even if the clock stepped backwards.
pub proof fn lemma_full_admits(s: BucketModel, now: nat, count: nat)
    requires
        s.tokens == s.capacity,
        count <= s.capacity,
    ensures
        admits(s, now, count),
{
}

/// A freshly constructed bucket admits any request for at most its capacity,
/// at any later (or earlier) clock reading.
pub proof fn lemma_initial_fullness(rate: nat, capacity: nat, created: nat, now: nat, count: nat)
    requires
        rate >= 1,
        capacity >= 1,
        count <= capacity,
    ensures
        admits(initial(rate, capacity, created), now, count),
{
    lemma_full_admits(initial(rate, capacity, created), now, count);
}

/// A request larger than the capacity is never admitted, regardless of the
/// state of the bucket or of how much time has elapsed: replenishment is
/// capped at the capacity.
pub proof fn lemma_overdraft_rejection(s: BucketModel, now: nat, count: nat)
    requires
        wf(s),
        count > s.capacity,
    ensures
        !admits(s, now, count),
{
}

/// One acquisition preserves well-formedness: in particular the level stays
/// at or below the capacity, and the rate and capacity never change.
pub proof fn lemma_step_preserves_wf(s: BucketModel, now: nat, count: nat)
    requires
        wf(s),
    ensures
        wf(step(s, now, count)),
        step(s, now, count).rate == s.rate,
        step(s, now, count).capacity == s.capacity,
{
}

/// After any sequence of admitted or denied requests, with arbitrary waits
/// between them, the level still lies between zero and the capacity, which
/// itself never changes.
pub proof fn lemma_level_bounds(s: BucketModel, reqs: Seq<(nat, nat)>)
    requires
        wf(s),
    ensures
        wf(run(s, reqs)),
        run(s, reqs).capacity == s.capacity,
        run(s, reqs).rate == s.rate,
        0 <= run(s, reqs).tokens <= s.capacity,
    decreases reqs.len(),
{
    if reqs.len() > 0 {
        lemma_step_preserves_wf(s, reqs.first().0, reqs.first().1);
        lemma_level_bounds(step(s, reqs.first().0, reqs.first().1), reqs.drop_first());
    }
}

/// Waiting longer never yields fewer tokens, and the gain from the extra
/// wait is exactly `rate * (now2 - now1)`, clamped at the capacity: with no
/// withdrawal in between, replenishment is additive over time.
pub proof fn lemma_replenishment_monotonic(s: BucketModel, now1: nat, now2: nat)
    requires
        s.last <= now1 <= now2,
    ensures
        replenished(s, now2) == clamped_add(
            s.capacity,
            replenished(s, now1),
            s.rate * ((now2 - now1) as nat),
        ),
        replenished(s, now1) <= replenished(s, now2),
{
    let e1: nat = elapsed_ms(s, now1);
    let d: nat = (now2 - now1) as nat;
    assert(elapsed_ms(s, now2) == e1 + d);
    lemma_mul_is_distributive_add(s.rate as int, e1 as int, d as int);
    assert(s.rate * (e1 + d) == s.rate * e1 + s.rate * d);
}

/// When a request is admitted, the level drops by exactly the requested
/// count relative to the replenished level: tokens are conserved.
pub proof fn lemma_conservation_on_admission(s: BucketModel, now: nat, count: nat)
    requires
        admits(s, now, count),
    ensures
        step(s, now, count).tokens + count == replenished(s, now),
{
}

} // verus!
