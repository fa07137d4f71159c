//! Tier 2 execution: Decode cache
//!
//! When an instruction is first decoded via tier 1, it can be cached so
//! that subsequent executions of the same instruction (at the same address)
//! skip decoding. This is particularly effective for loops.

pub mod cache;

pub use cache::{CacheEntry, DecodeCache};
