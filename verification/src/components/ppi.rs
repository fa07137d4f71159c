//! Intel 8255 Programmable Peripheral Interface (PPI) Emulation
//!
//! The 8255 PPI handles:
//! - Port 0x60 (Port A): DIP switches or keyboard scancode
//! - Port 0x61 (Port B): System control (speaker, keyboard clock, etc.)
//! - Port 0x62 (Port C): System status bits

use crate::components::keyboard::Keyboard;
use crate::components::pic::{bit8, law_edge_triggered, Pic};
use crate::io::IoDevice;
use std::collections::VecDeque;
use std::ops::RangeInclusive;
use std::sync::{Arc, RwLock};
use vstd::prelude::*;

verus! {

/// Data port (DIP switches or keyboard)
pub const PPI_PORT_A: u16 = 0x60;
/// System control port B
pub const PPI_PORT_B: u16 = 0x61;
/// System control port C
pub const PPI_PORT_C: u16 = 0x62;

/// DIP switch configuration: 64K RAM, MDA display, no floppy, no 8087
/// Bits 7-6: Number of floppy drives (00 = 1)
/// Bits 5-4: Video mode (11 = MDA 80x25)
/// Bits 3-2: RAM size (11 = 64K)
/// Bit 1: 8087 installed (0 = no)
/// Bit 0: Floppy installed (1 = no)
pub const DIP_SWITCHES: u8 = 0b00111101;

/// Keyboard reset state machine
#[derive(Debug, Clone, Copy, PartialEq, Eq, Structural)]
pub enum KeyboardResetState {
    /// Normal operation (bit 6 = 0, clock enabled)
    Idle,
    /// Reset in progress (bit 6 = 1, clock disabled)
    ResetAsserted,
}

/// Intel 8255 PPI for IBM PC
///
/// Handles keyboard data, DIP switches, and system control ports.
/// Owns the Keyboard scancode buffer internally.
pub struct Ppi {
    /// Keyboard scancode buffer (owned by PPI)
    pub keyboard: Keyboard,
    /// Latched scancode ready to be read from Port A
    pub latched_scancode: Option<u8>,
    /// Internal interrupt state (determines IRQ1 level)
    pub interrupt_pending: bool,
    /// Current value of Port B (system control)
    pub port_b_state: u8,
    /// DIP switch configuration
    pub dip_switches: u8,
    /// Keyboard reset state machine
    pub reset_state: KeyboardResetState,
    /// Reset just completed: the keyboard is reset on the next tick
    pub reset_pending: bool,
}

impl Ppi {
    /// The state after a read of `port`, and the byte read.
    pub open spec fn spec_read(self, port: u16) -> (Ppi, u8) {
        if port == PPI_PORT_A {
            if self.port_b_state & 0x80 != 0 {
                (self, self.dip_switches)
            } else {
                (
                    Ppi { latched_scancode: None, interrupt_pending: false, ..self },
                    match self.latched_scancode {
                        Some(s) => s,
                        None => self.dip_switches,
                    },
                )
            }
        } else if port == PPI_PORT_B || port == PPI_PORT_C {
            (self, 0)
        } else {
            (self, 0xFF)
        }
    }

    /// The state after a write to port B (keyboard reset on bit 6 edges).
    pub open spec fn spec_write_port_b(self, value: u8) -> Ppi {
        let old_bit6 = self.port_b_state & 0x40 != 0;
        let new_bit6 = value & 0x40 != 0;
        let s = if !old_bit6 && new_bit6 {
            Ppi {
                reset_state: KeyboardResetState::ResetAsserted,
                latched_scancode: None,
                interrupt_pending: false,
                ..self
            }
        } else if old_bit6 && !new_bit6 && self.reset_state == KeyboardResetState::ResetAsserted {
            Ppi { reset_pending: true, reset_state: KeyboardResetState::Idle, ..self }
        } else {
            self
        };
        Ppi { port_b_state: value, ..s }
    }

    /// Create a new PPI with default DIP switch configuration
    pub fn new(scancode_queue: Arc<RwLock<VecDeque<u8>>>) -> (r: Self)
        ensures
            r.keyboard.scancode_queue == scancode_queue,
            r.latched_scancode.is_none(),
            !r.interrupt_pending,
            r.port_b_state == 0,
            r.dip_switches == DIP_SWITCHES,
            r.reset_state == KeyboardResetState::Idle,
            !r.reset_pending,
    {
        Self {
            keyboard: Keyboard::new(scancode_queue),
            latched_scancode: None,
            interrupt_pending: false,
            port_b_state: 0x00,
            dip_switches: DIP_SWITCHES,
            reset_state: KeyboardResetState::Idle,
            reset_pending: false,
        }
    }

    /// Create a new PPI with custom DIP switch configuration
    pub fn with_dip_switches(scancode_queue: Arc<RwLock<VecDeque<u8>>>, dip_switches: u8) -> (r: Self)
        ensures
            r.keyboard.scancode_queue == scancode_queue,
            r.latched_scancode.is_none(),
            !r.interrupt_pending,
            r.port_b_state == 0,
            r.dip_switches == dip_switches,
            r.reset_state == KeyboardResetState::Idle,
            !r.reset_pending,
    {
        Self {
            keyboard: Keyboard::new(scancode_queue),
            latched_scancode: None,
            interrupt_pending: false,
            port_b_state: 0x00,
            dip_switches,
            reset_state: KeyboardResetState::Idle,
            reset_pending: false,
        }
    }

    /// Get the keyboard scancode queue for GUI integration
    pub fn scancode_queue(&self) -> (r: Arc<RwLock<VecDeque<u8>>>)
        ensures
            r == self.keyboard.scancode_queue,
    {
        self.keyboard.scancode_queue()
    }

    /// Get the port range this device handles (inclusive)
    pub fn port_range(&self) -> (r: RangeInclusive<u16>)
        ensures
            r@.start == PPI_PORT_A,
            r@.end == PPI_PORT_C,
            !r@.exhausted,
    {
        RangeInclusive::new(PPI_PORT_A, PPI_PORT_C)
    }

    /// Read a PPI port.
    ///
    /// Port A returns the DIP switches when port B bit 7 is set; otherwise it
    /// returns the latched scancode (DIP switches when none), clears the latch
    /// and lowers the internal interrupt. Ports B and C read 0.
    pub fn read_u8(&mut self, port: u16) -> (r: u8)
        ensures
            port == PPI_PORT_A && old(self).port_b_state & 0x80 != 0 ==> r == old(self).dip_switches
                && *final(self) == *old(self),
            port == PPI_PORT_A && old(self).port_b_state & 0x80 == 0 ==> {
                &&& r == (match old(self).latched_scancode {
                    Some(s) => s,
                    None => old(self).dip_switches,
                })
                &&& *final(self) == (Ppi {
                    latched_scancode: None,
                    interrupt_pending: false,
                    ..*old(self)
                })
            },
            (port == PPI_PORT_B || port == PPI_PORT_C) ==> r == 0 && *final(self) == *old(self),
            port != PPI_PORT_A && port != PPI_PORT_B && port != PPI_PORT_C ==> r == 0xFF
                && *final(self) == *old(self),
            (*final(self), r) == old(self).spec_read(port),
    {
        if port == PPI_PORT_A {
            if self.port_b_state & 0x80 != 0 {
                self.dip_switches
            } else {
                let data = match self.latched_scancode {
                    Some(s) => s,
                    None => self.dip_switches,
                };
                self.latched_scancode = None;
                self.interrupt_pending = false;
                data
            }
        } else if port == PPI_PORT_B {
            0x00
        } else if port == PPI_PORT_C {
            0x00
        } else {
            0xFF
        }
    }

    /// Write a PPI port; writes to port B track keyboard reset on bit 6
    /// (rising edge asserts reset and drops the latch, falling edge schedules
    /// a keyboard reset for the next tick). Other ports ignore writes.
    pub fn write_u8(&mut self, port: u16, value: u8)
        ensures
            port == PPI_PORT_B ==> *final(self) == old(self).spec_write_port_b(value),
            port != PPI_PORT_B ==> *final(self) == *old(self),
    {
        if port == PPI_PORT_B {
            let old_bit6 = (self.port_b_state & 0x40) != 0;
            let new_bit6 = (value & 0x40) != 0;
            if !old_bit6 && new_bit6 {
                // Keyboard clock disabled (reset asserted)
                self.reset_state = KeyboardResetState::ResetAsserted;
                self.latched_scancode = None;
                self.interrupt_pending = false;
            } else if old_bit6 && !new_bit6 {
                // Keyboard clock re-enabled (reset released)
                if self.reset_state == KeyboardResetState::ResetAsserted {
                    self.reset_pending = true;
                    self.reset_state = KeyboardResetState::Idle;
                }
            }
            self.port_b_state = value;
        }
    }

    /// Latch a scancode that the keyboard handed over (if no scancode is
    /// latched yet): the internal interrupt goes up and IRQ1 is raised.
    pub fn latch_scancode(&mut self, popped: Option<u8>, pic: &mut Pic)
        requires
            old(self).latched_scancode.is_none(),
        ensures
            popped matches Some(s) ==> {
                &&& *final(self) == (Ppi {
                    latched_scancode: Some(s),
                    interrupt_pending: true,
                    ..*old(self)
                })
                &&& final(pic).irq_prev == old(pic).irq_prev | 2
                &&& final(pic).irr == (if old(pic).irq_prev & 2 == 0 {
                    old(pic).irr | 2
                } else {
                    old(pic).irr
                })
                &&& final(pic).imr == old(pic).imr
                &&& final(pic).isr == old(pic).isr
                &&& final(pic).same_config(*old(pic))
            },
            popped.is_none() ==> *final(self) == *old(self) && *final(pic) == *old(pic),
    {
        assert(1u8 << 1u8 == 2) by (bit_vector);
        if let Some(scancode) = popped {
            self.latched_scancode = Some(scancode);
            self.interrupt_pending = true;
            pic.set_irq_level(1, true);
        }
    }

    /// `new` and `npic` are the interface and the interrupt controller after
    /// a tick of `old`: IRQ1 follows the internal interrupt state, a
    /// scheduled keyboard reset is done, and when no scancode was latched
    /// the next one from the keyboard (if the shared queue had one, which is
    /// not determined here) is latched and raises IRQ1.
    pub open spec fn tick_effect(old: Ppi, new: Ppi, opic: Pic, npic: Pic, cycles: u16) -> bool {
        let p1 = opic.spec_set_irq_level(1, old.interrupt_pending);
        let kept = Ppi { reset_pending: false, ..old };
        if old.latched_scancode.is_some() {
            new == kept && npic == p1
        } else {
            match new.latched_scancode {
                None => new == kept && npic == p1,
                Some(s) => {
                    &&& new == (Ppi { latched_scancode: Some(s), interrupt_pending: true, ..kept })
                    &&& npic == p1.spec_set_irq_level(1, true)
                },
            }
        }
    }

    /// Drive IRQ1 from the internal interrupt state, perform a scheduled
    /// keyboard reset, then latch the next buffered scancode if none is latched.
    pub fn tick(&mut self, cycles: u16, pic: &mut Pic)
        ensures
            Ppi::tick_effect(*old(self), *final(self), *old(pic), *final(pic), cycles),
    {
        assert(1u8 << 1u8 == 2) by (bit_vector);
        // Step 1: Set PIC IRQ1 to match internal interrupt state
        if self.interrupt_pending {
            pic.set_irq_level(1, true);
        } else {
            pic.set_irq_level(1, false);
        }
        // Step 2: Handle keyboard reset if pending
        if self.reset_pending {
            self.keyboard.reset();
            self.reset_pending = false;
        }
        // Step 3: If no latched scancode, check keyboard for buffered scancodes
        if self.latched_scancode.is_none() {
            let popped = self.keyboard.pop_scancode();
            let ghost p = *pic;
            self.latch_scancode(popped, pic);
            proof {
                let x = p.irq_prev;
                assert((x | 2u8) & 2u8 != 0) by (bit_vector);
            }
        }
    }
}

impl IoDevice for Ppi {
    open spec fn inv(&self) -> bool {
        true
    }

    open spec fn accepts_write(&self, port: u16, value: u8) -> bool {
        true
    }

    fn write_accepted(&self, port: u16, value: u8) -> (r: bool) {
        true
    }

    fn read_u8(&mut self, port: u16) -> u8 {
        Ppi::read_u8(self, port)
    }

    fn write_u8(&mut self, port: u16, value: u8) {
        Ppi::write_u8(self, port, value)
    }

    fn port_range(&self) -> RangeInclusive<u16> {
        Ppi::port_range(self)
    }

    fn tick(&mut self, cycles: u16, pic: &mut Pic) {
        Ppi::tick(self, cycles, pic)
    }
}

/// A latched scancode is delivered once: in keyboard mode the first read
/// of port A returns it and the next read returns the DIP switches.
pub proof fn law_scancode_read_once(p: Ppi, scancode: u8)
    requires
        p.port_b_state & 0x80 == 0,
        p.latched_scancode == Some(scancode),
    ensures
        p.spec_read(PPI_PORT_A).1 == scancode,
        p.spec_read(PPI_PORT_A).0.spec_read(PPI_PORT_A).1 == p.dip_switches,
        !p.spec_read(PPI_PORT_A).0.interrupt_pending,
{
}

/// A tick that latches a key when none was waiting and the keyboard
/// interrupt was low raises IRQ1 with a new request; a tick that latches
/// nothing leaves IRQ1 low and posts no request.
pub proof fn law_tick_irq1(old: Ppi, new: Ppi, opic: Pic, npic: Pic, cycles: u16)
    requires
        Ppi::tick_effect(old, new, opic, npic, cycles),
        old.latched_scancode.is_none(),
        !old.interrupt_pending,
    ensures
        new.latched_scancode.is_some() ==> new.interrupt_pending && npic.irq_prev & bit8(1) != 0
            && npic.irr & bit8(1) != 0,
        new.latched_scancode.is_none() ==> !new.interrupt_pending && npic.irq_prev & bit8(1) == 0
            && npic.irr == opic.irr,
{
    let p1 = opic.spec_set_irq_level(1, false);
    law_edge_triggered(opic, 1);
    law_edge_triggered(p1, 1);
}

} // verus!
