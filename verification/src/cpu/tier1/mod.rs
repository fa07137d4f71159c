//! Tier 1 execution (cold path): decode operands on the fly and dispatch
//! on the opcode, without caching.

pub mod decode;
pub mod dispatch;
