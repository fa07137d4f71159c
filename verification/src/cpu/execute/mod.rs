//! Instruction execution handlers, organized by instruction category.

pub mod arithmetic;
pub mod control_flow;
pub mod data_transfer;
pub mod flags;
pub mod handlers;
pub mod io;
pub mod logic;
pub mod prefix;
pub mod shift;
pub mod stack;
pub mod string;

pub use handlers::{invalid_opcode, nop};
