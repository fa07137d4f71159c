//! Intel 8259 Programmable Interrupt Controller (PIC)
//!
//! The IBM PC uses a single 8259 PIC in edge-triggered mode to manage
//! hardware interrupts from peripherals.

use crate::io::IoDevice;
use std::ops::RangeInclusive;
use vstd::prelude::*;
use vstd::std_specs::bits::u8_trailing_zeros;

verus! {

/// PIC command port
pub const PIC_COMMAND_PORT: u16 = 0x20;

/// PIC data port
pub const PIC_DATA_PORT: u16 = 0x21;

/// EOI (End of Interrupt) command
pub const EOI_COMMAND: u8 = 0x20;

/// Initialization sequence state
#[derive(Debug, Clone, Copy, PartialEq, Eq, Structural)]
pub enum InitState {
    /// Normal operation mode - data port writes go to IMR
    Ready,
    /// Waiting for ICW2 (vector offset)
    WaitIcw2,
    /// Waiting for ICW3 (cascade mode only - not used in IBM PC)
    WaitIcw3,
    /// Waiting for ICW4 (if IC4 bit was set in ICW1)
    WaitIcw4,
}

/// Intel 8259 PIC state
///
/// The 8259 manages 8 IRQ lines (IRQ0-IRQ7) and converts them into
/// interrupt vectors for the CPU. The original IBM PC uses edge-triggered
/// mode where interrupts are triggered on the rising edge (low-to-high transition)
/// of the IRQ line.
pub struct Pic {
    /// Interrupt Mask Register (IMR) - bit set = IRQ masked
    pub imr: u8,
    /// Interrupt Request Register (IRR) - pending interrupt requests
    pub irr: u8,
    /// In-Service Register (ISR) - currently serviced interrupts
    pub isr: u8,
    /// Previous IRQ line states for edge detection
    pub irq_prev: u8,
    /// Base interrupt vector offset (configured via ICW2)
    pub vector_offset: u8,
    /// Initialization sequence state
    pub init_state: InitState,
    /// ICW1 flags stored during initialization
    pub icw1_flags: u8,
    /// Auto EOI mode (from ICW4 bit 1)
    pub auto_eoi: bool,
    /// Read register select (from OCW3): false = read IRR, true = read ISR
    pub read_isr: bool,
}

/// The byte with only bit `n` set.
pub open spec fn bit8(n: u8) -> u8 {
    (1u8 << n) as u8
}

/// Clears the lowest set bit of `v` (no change when `v` is zero).
pub open spec fn clear_lowest_bit(v: u8) -> u8 {
    if v == 0 {
        v
    } else {
        v & !bit8(u8_trailing_zeros(v) as u8)
    }
}

impl Pic {
    /// Interrupt requests that are pending and not masked.
    pub open spec fn pending(self) -> u8 {
        self.irr & !self.imr
    }

    /// The IRQ number that the next acknowledge cycle reports: the
    /// lowest-numbered pending unmasked request, or 7 (spurious) when none.
    pub open spec fn next_irq(self) -> u8 {
        if self.pending() == 0 {
            7
        } else {
            u8_trailing_zeros(self.pending()) as u8
        }
    }

    /// All fields but the ones named in a transition are unchanged.
    pub open spec fn same_config(self, other: Pic) -> bool {
        &&& self.vector_offset == other.vector_offset
        &&& self.init_state == other.init_state
        &&& self.icw1_flags == other.icw1_flags
        &&& self.auto_eoi == other.auto_eoi
        &&& self.read_isr == other.read_isr
    }

    /// Create a new 8259 PIC
    ///
    /// Initializes with all interrupts masked and no pending requests.
    /// The vector_offset should be set to 0x08 for the IBM PC.
    pub fn new(vector_offset: u8) -> (r: Self)
        ensures
            r.imr == 0xFF,
            r.irr == 0,
            r.isr == 0,
            r.irq_prev == 0,
            r.vector_offset == vector_offset,
            r.init_state == InitState::Ready,
            r.icw1_flags == 0,
            !r.auto_eoi,
            !r.read_isr,
    {
        Self {
            imr: 0xFF,
            irr: 0,
            isr: 0,
            irq_prev: 0,
            vector_offset,
            init_state: InitState::Ready,
            icw1_flags: 0,
            auto_eoi: false,
            read_isr: false,
        }
    }

    /// The controller after IRQ line `irq` is driven to `level`: a rising
    /// edge latches the request in the IRR.
    pub open spec fn spec_set_irq_level(self, irq: u8, level: bool) -> Pic {
        Pic {
            irq_prev: if level {
                self.irq_prev | bit8(irq)
            } else {
                self.irq_prev & !bit8(irq)
            },
            irr: if level && self.irq_prev & bit8(irq) == 0 {
                self.irr | bit8(irq)
            } else {
                self.irr
            },
            ..self
        }
    }

    /// Set an IRQ line level (edge-triggered mode)
    ///
    /// In edge-triggered mode, the PIC detects a rising edge (transition from
    /// low to high) and latches the interrupt request in the IRR.
    pub fn set_irq_level(&mut self, irq: u8, level: bool)
        requires
            irq < 8,
        ensures
            final(self).irq_prev == (if level {
                old(self).irq_prev | bit8(irq)
            } else {
                old(self).irq_prev & !bit8(irq)
            }),
            final(self).irr == (if level && old(self).irq_prev & bit8(irq) == 0 {
                old(self).irr | bit8(irq)
            } else {
                old(self).irr
            }),
            final(self).imr == old(self).imr,
            final(self).isr == old(self).isr,
            final(self).same_config(*old(self)),
            *final(self) == old(self).spec_set_irq_level(irq, level),
    {
        let bit: u8 = 1u8 << irq;
        let prev_level = (self.irq_prev & bit) != 0;
        if level {
            self.irq_prev = self.irq_prev | bit;
        } else {
            self.irq_prev = self.irq_prev & !bit;
        }
        // Edge-triggered: detect rising edge (low-to-high transition)
        if !prev_level && level {
            self.irr = self.irr | bit;
        }
    }

    /// Check if interrupt output line should be active
    ///
    /// Returns true if there are any unmasked pending interrupts.
    pub fn intr_out(&self) -> (r: bool)
        ensures
            r == (self.pending() != 0),
    {
        let pending = self.irr & !self.imr;
        pending != 0
    }

    /// Interrupt Acknowledge - return the interrupt vector
    ///
    /// Returns the vector of the highest priority (lowest-numbered) pending
    /// unmasked interrupt, moves it from the IRR to the ISR. With nothing
    /// pending the spurious vector (offset + 7) is returned and nothing changes.
    pub fn inta(&mut self) -> (r: u8)
        requires
            old(self).vector_offset + old(self).next_irq() <= 255,
        ensures
            r == old(self).vector_offset + old(self).next_irq(),
            old(self).pending() == 0 ==> *final(self) == *old(self),
            old(self).pending() != 0 ==> {
                &&& final(self).irr == old(self).irr & !bit8(old(self).next_irq())
                &&& final(self).isr == old(self).isr | bit8(old(self).next_irq())
                &&& final(self).imr == old(self).imr
                &&& final(self).irq_prev == old(self).irq_prev
                &&& final(self).same_config(*old(self))
            },
            old(self).pending() != 0 ==> {
                &&& old(self).next_irq() < 8
                &&& old(self).pending() & bit8(old(self).next_irq()) != 0
                &&& forall|j: u8| j < old(self).next_irq() ==> #[trigger] (old(self).pending() & bit8(j)) == 0
            },
    {
        let pending = self.irr & !self.imr;
        if pending == 0 {
            // No pending interrupts - return spurious interrupt vector
            return self.vector_offset + 7;
        }
        let tz = pending.trailing_zeros();
        proof {
            vstd::std_specs::bits::axiom_u8_trailing_zeros(pending);
            lemma_lowest_bit(pending, tz as u8);
        }
        let irq: u8 = tz as u8;
        let bit: u8 = 1u8 << irq;
        self.irr = self.irr & !bit;
        self.isr = self.isr | bit;
        self.vector_offset + irq
    }

    /// Get the IMR (Interrupt Mask Register)
    pub fn get_imr(&self) -> (r: u8)
        ensures
            r == self.imr,
    {
        self.imr
    }

    /// Set the IMR (Interrupt Mask Register)
    ///
    /// Bit set = interrupt masked (disabled)
    pub fn set_imr(&mut self, value: u8)
        ensures
            *final(self) == (Pic { imr: value, ..*old(self) }),
    {
        self.imr = value;
    }

    /// Get the IRR (Interrupt Request Register) - for debugging
    pub fn get_irr(&self) -> (r: u8)
        ensures
            r == self.irr,
    {
        self.irr
    }

    /// Get the ISR (In-Service Register) - for debugging
    pub fn get_isr(&self) -> (r: u8)
        ensures
            r == self.isr,
    {
        self.isr
    }

    /// End of Interrupt (EOI) command
    ///
    /// Clears the highest priority bit in the ISR, indicating the
    /// interrupt has been fully serviced.
    pub fn eoi(&mut self)
        ensures
            *final(self) == (Pic { isr: clear_lowest_bit(old(self).isr), ..*old(self) }),
    {
        if self.isr != 0 {
            let tz = self.isr.trailing_zeros();
            proof {
                vstd::std_specs::bits::axiom_u8_trailing_zeros(self.isr);
            }
            let irq: u8 = tz as u8;
            self.isr = self.isr & !(1u8 << irq);
        }
    }

    /// Get the port range this device handles (inclusive)
    pub fn port_range(&self) -> (r: RangeInclusive<u16>)
        ensures
            r@.start == PIC_COMMAND_PORT,
            r@.end == PIC_DATA_PORT,
            !r@.exhausted,
    {
        RangeInclusive::new(PIC_COMMAND_PORT, PIC_DATA_PORT)
    }

    /// The value a read of `port` returns.
    pub open spec fn spec_read(self, port: u16) -> u8 {
        if port == PIC_COMMAND_PORT {
            if self.read_isr { self.isr } else { self.irr }
        } else if port == PIC_DATA_PORT {
            self.imr
        } else {
            0xFF
        }
    }

    /// Read a byte from a PIC port: the command port gives the IRR or the
    /// ISR (as OCW3 selected), the data port gives the IMR.
    pub fn read_u8(&mut self, port: u16) -> (r: u8)
        ensures
            r == old(self).spec_read(port),
            *final(self) == *old(self),
    {
        if port == PIC_COMMAND_PORT {
            if self.read_isr {
                self.isr
            } else {
                self.irr
            }
        } else if port == PIC_DATA_PORT {
            self.imr
        } else {
            0xFF
        }
    }

    /// The state after a write of `value` to the command port.
    pub open spec fn spec_write_command(self, value: u8) -> Pic {
        if value & 0x10 != 0 {
            // ICW1: start initialization, clear ISR and IMR
            Pic {
                icw1_flags: value,
                init_state: InitState::WaitIcw2,
                isr: 0,
                imr: 0,
                read_isr: false,
                ..self
            }
        } else if value & 0x08 != 0 {
            // OCW3: register read select
            if value & 0x02 != 0 {
                Pic { read_isr: value & 0x01 != 0, ..self }
            } else {
                self
            }
        } else {
            // OCW2: EOI commands
            let eoi_type = (value >> 5u8) & 0x07;
            if eoi_type == 1 {
                Pic { isr: clear_lowest_bit(self.isr), ..self }
            } else if eoi_type == 3 {
                Pic { isr: self.isr & !bit8(value & 0x07), ..self }
            } else {
                self
            }
        }
    }

    /// The state after a write of `value` to the data port.
    pub open spec fn spec_write_data(self, value: u8) -> Pic {
        match self.init_state {
            InitState::WaitIcw2 => {
                let st = if self.icw1_flags & 0x02 == 0 {
                    InitState::WaitIcw3
                } else if self.icw1_flags & 0x01 != 0 {
                    InitState::WaitIcw4
                } else {
                    InitState::Ready
                };
                Pic { vector_offset: value & 0xF8, init_state: st, ..self }
            },
            InitState::WaitIcw3 => {
                let st = if self.icw1_flags & 0x01 != 0 {
                    InitState::WaitIcw4
                } else {
                    InitState::Ready
                };
                Pic { init_state: st, ..self }
            },
            InitState::WaitIcw4 => {
                Pic { auto_eoi: value & 0x02 != 0, init_state: InitState::Ready, ..self }
            },
            InitState::Ready => Pic { imr: value, ..self },
        }
    }

    /// Write a byte to a PIC port (ICW/OCW programming or the mask register).
    pub fn write_u8(&mut self, port: u16, value: u8)
        ensures
            *final(self) == (if port == PIC_COMMAND_PORT {
                old(self).spec_write_command(value)
            } else if port == PIC_DATA_PORT {
                old(self).spec_write_data(value)
            } else {
                *old(self)
            }),
    {
        if port == PIC_COMMAND_PORT {
            if (value & 0x10) != 0 {
                self.icw1_flags = value;
                self.init_state = InitState::WaitIcw2;
                self.isr = 0;
                self.imr = 0;
                self.read_isr = false;
            } else if (value & 0x08) != 0 {
                if (value & 0x02) != 0 {
                    self.read_isr = (value & 0x01) != 0;
                }
            } else {
                let eoi_type = (value >> 5u8) & 0x07;
                if eoi_type == 1 {
                    self.eoi();
                } else if eoi_type == 3 {
                    let irq = value & 0x07;
                    assert(value & 0x07 < 8) by (bit_vector);
                    self.isr = self.isr & !(1u8 << irq);
                }
            }
        } else if port == PIC_DATA_PORT {
            match self.init_state {
                InitState::WaitIcw2 => {
                    self.vector_offset = value & 0xF8;
                    if (self.icw1_flags & 0x02) == 0 {
                        self.init_state = InitState::WaitIcw3;
                    } else if (self.icw1_flags & 0x01) != 0 {
                        self.init_state = InitState::WaitIcw4;
                    } else {
                        self.init_state = InitState::Ready;
                    }
                },
                InitState::WaitIcw3 => {
                    if (self.icw1_flags & 0x01) != 0 {
                        self.init_state = InitState::WaitIcw4;
                    } else {
                        self.init_state = InitState::Ready;
                    }
                },
                InitState::WaitIcw4 => {
                    self.auto_eoi = (value & 0x02) != 0;
                    self.init_state = InitState::Ready;
                },
                InitState::Ready => {
                    self.imr = value;
                },
            }
        }
    }
}

/// The index found by `trailing_zeros` names the lowest set bit.
proof fn lemma_lowest_bit(v: u8, tz: u8)
    requires
        v != 0,
        tz == u8_trailing_zeros(v),
        tz < 8,
        (v >> tz) & 1u8 == 1u8,
        forall|j: u8| 0 <= j < tz ==> #[trigger] (v >> j) & 1u8 == 0u8,
    ensures
        v & bit8(tz) != 0,
        forall|j: u8| j < tz ==> #[trigger] (v & bit8(j)) == 0,
{
    assert(tz < 8 && (v >> tz) & 1u8 == 1u8 ==> v & ((1u8 << tz) as u8) != 0) by (bit_vector);
    assert forall|j: u8| j < tz implies #[trigger] (v & bit8(j)) == 0 by {
        assert((v >> j) & 1u8 == 0u8);
        assert(j < 8 && (v >> j) & 1u8 == 0u8 ==> v & ((1u8 << j) as u8) == 0) by (bit_vector);
    }
}

impl IoDevice for Pic {
    open spec fn inv(&self) -> bool {
        true
    }

    open spec fn accepts_write(&self, port: u16, value: u8) -> bool {
        true
    }

    fn write_accepted(&self, port: u16, value: u8) -> (r: bool) {
        true
    }

    fn read_u8(&mut self, port: u16) -> u8 {
        Pic::read_u8(self, port)
    }

    fn write_u8(&mut self, port: u16, value: u8) {
        Pic::write_u8(self, port, value)
    }

    fn port_range(&self) -> RangeInclusive<u16> {
        Pic::port_range(self)
    }

    fn tick(&mut self, cycles: u16, pic: &mut Pic) {
    }
}

/// A masked request bit never counts as pending.
proof fn lemma_masked_bit(irr: u8, imr: u8, irq: u8)
    by (bit_vector)
    requires
        irq < 8,
        imr & bit8(irq) != 0,
    ensures
        (irr & !imr) & bit8(irq) == 0,
{
}

/// Once initialized, a mask written to the data port reads back from it.
pub proof fn law_imr_read_after_write(p: Pic, value: u8)
    requires
        p.init_state == InitState::Ready,
    ensures
        p.spec_write_data(value).spec_read(PIC_DATA_PORT) == value,
{
}

/// A masked IRQ is never pending, so an acknowledge never reports it.
pub proof fn law_masked_irq_not_pending(p: Pic, irq: u8)
    requires
        irq < 8,
        p.imr & bit8(irq) != 0,
    ensures
        p.pending() & bit8(irq) == 0,
{
    lemma_masked_bit(p.irr, p.imr, irq);
}

/// Setting bit `irq` sets it, and clearing it clears it.
proof fn lemma_or_bit(x: u8, irq: u8)
    by (bit_vector)
    requires
        irq < 8,
    ensures
        (x | bit8(irq)) & bit8(irq) != 0,
        (x & !bit8(irq)) & bit8(irq) == 0,
{
}

/// Edge triggering: raising a line that was low requests its IRQ; holding
/// the line high requests nothing more, and lowering it requests nothing.
/// The line reads as the level it was set to.
pub proof fn law_edge_triggered(p: Pic, irq: u8)
    requires
        irq < 8,
    ensures
        p.spec_set_irq_level(irq, true).irq_prev & bit8(irq) != 0,
        p.spec_set_irq_level(irq, false).irq_prev & bit8(irq) == 0,
        p.irq_prev & bit8(irq) == 0 ==> p.spec_set_irq_level(irq, true).irr & bit8(irq) != 0,
        p.spec_set_irq_level(irq, true).spec_set_irq_level(irq, true).irr == p.spec_set_irq_level(
            irq,
            true,
        ).irr,
        p.spec_set_irq_level(irq, false).irr == p.irr,
{
    lemma_or_bit(p.irr, irq);
    lemma_or_bit(p.irq_prev, irq);
}

} // verus!
