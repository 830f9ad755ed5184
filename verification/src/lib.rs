//! A deterministic mutation engine for seeding fuzz tests.
//!
//! Given a 64-bit seed and an iteration count, the engine applies
//! randomized byte-level mutations to a seed corpus, growing the buffer
//! at fixed intervals.  The whole run is a pure function of the seed,
//! the iteration count and the initial buffer.

pub mod corpus;
pub mod engine;
pub mod prng;
