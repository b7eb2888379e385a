//! A token-bucket rate limiter with a verified state-update algorithm.
//!
//! A [`TokenBucket`] holds a continuously replenishing reservoir of tokens:
//! it fills at a fixed rate up to a fixed capacity, and each admitted
//! acquisition drains it by the requested amount. Callers invoke
//! [`TokenBucket::acquire`] before performing rate-limited work; a denial is
//! a normal control-flow outcome, not an error, and carries the same
//! diagnostic payload as an admission.
//!
//! All accounting is done in exact fixed-point arithmetic: token amounts are
//! given in millitokens (thousandths of a token) and time in milliseconds,
//! so every replenishment and deduction is an exact integer and the
//! invariants of the algorithm are proved, not approximated.

mod bucket;
mod clock;
pub mod model;

pub use bucket::ConfigError;
pub use bucket::TokenAcquisitionResult;
pub use bucket::TokenBucket;
