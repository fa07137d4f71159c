//! Peripheral chips of the IBM PC.

pub mod dma;
pub mod fdc;
pub mod floppy;
pub mod keyboard;
pub mod mda;
pub mod pic;
pub mod pit;
pub mod ppi;
