//! Emotional-state bookkeeping for creative sessions, verified.
//!
//! A creative session accumulates observations of emotional state (valence,
//! arousal, dominance and confidence, with a timestamp). From each
//! observation the library derives impact and creativity scores, keeps a
//! bounded history with a trend-based prediction and a complexity estimate,
//! and folds the sessions of a creator into a running reputation. Two further
//! modules keep emotional data with assets and guard their transfer.
//!
//! Numbers are exact. Every coordinate and score is a whole number of
//! millionths held in an `i32`, so `1_000_000` is 1.0; [`binary32`] reads such
//! numbers out of single-precision bit patterns and refuses infinities and
//! NaNs. Formulas are stated over mathematical integers, round down where
//! they divide or take a root, and are proved free of overflow.
//!
//! The library does no input or output and keeps no state of its own. Every
//! transition takes the records it works on and the current time, and either
//! applies all of its updates or rejects its input and changes nothing.
//!
//! - [`fixed`]: the unit, rounded-down division and square root.
//! - [`binary32`]: millionths out of single-precision bit patterns.
//! - [`vector`]: the emotional vector, its encoding and content hash.
//! - [`digest`]: the SHA-256 digest, which is trusted, not verified.
//! - [`scoring`]: impact, creativity boost, moving average, consistency.
//! - [`trajectory`]: the bounded history, prediction and complexity.
//! - [`session`]: the session and its transitions.
//! - [`reputation`]: a creator's reputation across sessions.
//! - [`biometric_nft`]: assets with emotional data and their transfer.
//! - [`emotional_metadata`]: metadata records, stability and patterns.

pub mod binary32;
pub mod biometric_nft;
pub mod digest;
pub mod emotional_metadata;
pub mod fixed;
pub mod reputation;
pub mod scoring;
pub mod session;
pub mod trajectory;
pub mod vector;
