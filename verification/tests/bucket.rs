//! Tests of the token bucket through its public interface.
//!
//! Amounts are fixed-point millitokens: `1000` is one token, and a rate of
//! `1000` is one token per second. Tests that depend on the passage of time
//! use the explicit-clock constructors and acquisitions (`new_at`,
//! `acquire_at`) with times in milliseconds, so no test ever sleeps.

use tokenbucket::ConfigError;
use tokenbucket::TokenBucket;

#[test]
fn test_initial_acquire() {
    let mut bucket = TokenBucket::new(1000, 1000).unwrap();
    let result = bucket.acquire(1000);
    assert!(result.is_ok());
}

#[test]
fn test_acquire_when_tokens_available() {
    let mut bucket = TokenBucket::new_at(1000, 1000, 0).unwrap();
    let result = bucket.acquire_at(1000, 0);
    assert!(result.is_ok());
    let result = bucket.acquire_at(1000, 1000);
    assert!(result.is_ok());
}

#[test]
fn test_acquire_when_tokens_not_available() {
    let mut bucket = TokenBucket::new(1000, 1000).unwrap();
    let result = bucket.acquire(2000);
    assert!(result.is_err());
}

#[test]
fn test_acquire_with_replenish() {
    let mut bucket = TokenBucket::new_at(1000, 2000, 0).unwrap();
    let result1 = bucket.acquire_at(1000, 0);
    assert!(result1.is_ok());
    let result2 = bucket.acquire_at(1000, 1000);
    assert!(result2.is_ok());
}

#[test]
fn test_rate_limited() {
    let mut bucket = TokenBucket::new_at(1000, 1000, 0).unwrap();
    let result1 = bucket.acquire_at(1000, 0);
    assert!(result1.is_ok());
    let result2 = bucket.acquire_at(1000, 500);
    assert!(result2.is_err());
}

#[test]
fn test_immediate_second_acquire_denied() {
    let mut bucket = TokenBucket::new_at(1000, 1000, 0).unwrap();
    assert!(bucket.acquire_at(1000, 0).is_ok());
    assert!(bucket.acquire_at(1000, 0).is_err());
}

#[test]
fn test_overdraft_never_admitted() {
    let mut bucket = TokenBucket::new_at(1000, 1000, 0).unwrap();
    // Not even an arbitrarily long wait can make room for more than the
    // capacity.
    assert!(bucket.acquire_at(2000, 0).is_err());
    assert!(bucket.acquire_at(2000, 1_000_000_000).is_err());
}

#[test]
fn test_capacity_ceiling_after_long_wait() {
    let mut bucket = TokenBucket::new_at(1000, 1000, 0).unwrap();
    assert!(bucket.acquire_at(1000, 0).is_ok());
    // A very long wait refills to the capacity, and no further: one full
    // request succeeds, an immediate second one fails.
    assert!(bucket.acquire_at(1000, 1_000_000).is_ok());
    assert!(bucket.acquire_at(1000, 1_000_000).is_err());
}

#[test]
fn test_denied_call_still_replenishes() {
    let mut bucket = TokenBucket::new_at(1000, 1000, 0).unwrap();
    assert!(bucket.acquire_at(1000, 0).is_ok());
    // Denied at 400 ms: only 0.4 tokens have accrued. The replenishment is
    // committed and the timestamp advances even on denial, so by 1000 ms the
    // remaining 0.6 tokens have accrued and the request is admitted.
    assert!(bucket.acquire_at(1000, 400).is_err());
    assert!(bucket.acquire_at(1000, 1000).is_ok());
}

#[test]
fn test_observed_rate_values() {
    let mut bucket = TokenBucket::new_at(1000, 1000, 0).unwrap();
    // No time gap since construction: the pacing diagnostic is the sentinel.
    assert_eq!(bucket.acquire_at(1000, 0), Ok(u64::MAX));
    // A 500 ms gap is 2 calls per second: 2000 millicalls per second.
    assert_eq!(bucket.acquire_at(1000, 500), Err(2000));
    // A 2000 ms gap is half a call per second: 500 millicalls per second.
    assert_eq!(bucket.acquire_at(500, 2500), Ok(500));
}

#[test]
fn test_backwards_clock_is_zero_elapsed() {
    let mut bucket = TokenBucket::new_at(1000, 1000, 1000).unwrap();
    // The clock stepped backwards: treated as no elapsed time, the full
    // bucket still admits, and the pacing diagnostic is the sentinel.
    assert_eq!(bucket.acquire_at(1000, 500), Ok(u64::MAX));
    // The timestamp never moved backwards, so at the original reading the
    // drained bucket has earned nothing yet.
    assert!(bucket.acquire_at(1000, 1000).is_err());
}

#[test]
fn test_zero_count_always_admitted() {
    let mut bucket = TokenBucket::new_at(1000, 1000, 0).unwrap();
    assert!(bucket.acquire_at(1000, 0).is_ok());
    // An empty bucket still covers a request for nothing.
    assert!(bucket.acquire_at(0, 0).is_ok());
}

#[test]
fn test_fractional_replenishment_is_exact() {
    // 1 token per second, capacity 2 tokens; drain, then take half a token
    // after exactly 500 ms, and the other half after 500 ms more.
    let mut bucket = TokenBucket::new_at(1000, 2000, 0).unwrap();
    assert!(bucket.acquire_at(2000, 0).is_ok());
    assert!(bucket.acquire_at(500, 500).is_ok());
    assert!(bucket.acquire_at(500, 1000).is_ok());
    // Nothing is left over at 1000 ms.
    assert!(bucket.acquire_at(1, 1000).is_err());
}

#[test]
fn test_config_rejects_zero_rate() {
    assert!(matches!(TokenBucket::new_at(0, 1000, 0), Err(ConfigError::NonPositiveRate)));
    assert!(matches!(TokenBucket::new(0, 1000), Err(ConfigError::NonPositiveRate)));
}

#[test]
fn test_config_rejects_zero_capacity() {
    assert!(matches!(TokenBucket::new_at(1000, 0, 0), Err(ConfigError::NonPositiveCapacity)));
    assert!(matches!(TokenBucket::new(1000, 0), Err(ConfigError::NonPositiveCapacity)));
}
