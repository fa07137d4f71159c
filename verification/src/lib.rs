//! EZPC: the core of an IBM PC (Intel 8088) emulator.
//!
//! The crate holds the CPU (registers, flags, instruction decoding and
//! execution), the memory bus, and the peripheral chips of the original
//! IBM PC: the 8237 DMA controller, the 8259 interrupt controller, the
//! 8253 timer, the 8255 peripheral interface, the uPD765 floppy controller
//! and the monochrome display adapter.

pub mod components;
pub mod io;
pub mod memory;
pub mod scancode;
pub mod cpu;
pub mod debugger;
pub mod emulator;
