//! IO device support for peripherals
//!
//! The 8088 uses a separate IO address space (0x0000-0xFFFF) accessed via
//! IN/OUT instructions. Peripherals implement the IoDevice trait and register
//! with the MemoryBus.

use crate::components::pic::Pic;
use std::ops::RangeInclusive;
use vstd::prelude::*;

verus! {

/// The largest cycle count one tick may carry (a timer keeps up to three
/// leftover cycles in a 16-bit accumulator).
pub const MAX_TICK_CYCLES: u16 = 65532;

/// Trait for IO peripheral devices
pub trait IoDevice {
    /// The device's internal invariant.
    spec fn inv(&self) -> bool;

    /// Whether the device accepts a write of `value` to `port`.
    spec fn accepts_write(&self, port: u16, value: u8) -> bool;

    /// Tests whether the device accepts a write of `value` to `port`.
    fn write_accepted(&self, port: u16, value: u8) -> (r: bool)
        requires
            self.inv(),
        ensures
            r == self.accepts_write(port, value),
    ;

    /// Read a byte from a port within this device's range
    fn read_u8(&mut self, port: u16) -> (r: u8)
        requires
            old(self).inv(),
        ensures
            final(self).inv(),
    ;

    /// Write a byte to a port within this device's range
    fn write_u8(&mut self, port: u16, value: u8)
        requires
            old(self).inv(),
            old(self).accepts_write(port, value),
        ensures
            final(self).inv(),
    ;

    /// Get the port range this device handles (inclusive)
    fn port_range(&self) -> RangeInclusive<u16>;

    /// Advance the device by a number of CPU cycles; the device may drive
    /// its interrupt line through the interrupt controller.
    fn tick(&mut self, cycles: u16, pic: &mut Pic)
        requires
            old(self).inv(),
            cycles <= MAX_TICK_CYCLES,
        ensures
            final(self).inv(),
    ;
}

} // verus!
