//! 8088 CPU emulation module
//!
//! - Tier 1: direct decode and dispatch (cold path)
//! - Tier 2: decode cache (warm path)

pub mod decode;
pub mod execute;
pub mod harness;
pub mod state;
pub mod tier1;
pub mod tier2;

pub use harness::CpuHarness;
pub use state::Cpu;
pub mod timing;
