//! Intel 8253/8254 Programmable Interval Timer (PIT)
//!
//! The PIT has 3 counters (channels):
//! - Counter 0 (port 0x40): System timer, connected to IRQ0
//! - Counter 1 (port 0x41): DRAM refresh timer
//! - Counter 2 (port 0x42): Speaker control (PC speaker tone generation)
//! - Control Word (port 0x43): Write-only configuration register
//!
//! Input clock: 1.193182 MHz (14.31818 MHz crystal / 12)

use crate::components::pic::Pic;
use crate::io::{IoDevice, MAX_TICK_CYCLES};
use std::ops::RangeInclusive;
use vstd::prelude::*;

verus! {

/// Counter 0 port
pub const PIT_COUNTER_0: u16 = 0x40;
/// Counter 1 port
pub const PIT_COUNTER_1: u16 = 0x41;
/// Counter 2 port
pub const PIT_COUNTER_2: u16 = 0x42;
/// Control word port
pub const PIT_CONTROL: u16 = 0x43;

/// How many CPU cycles (at 4.77 MHz) per PIT tick
/// 4.77 MHz / 1.193182 MHz = ~4 cycles per PIT tick
pub const CPU_CYCLES_PER_PIT_TICK: u16 = 4;

/// Counter access modes
#[derive(Debug, Clone, Copy, PartialEq, Eq, Structural)]
pub enum AccessMode {
    /// Command to latch current count
    LatchCount,
    /// Read/write low byte only
    LowByteOnly,
    /// Read/write high byte only
    HighByteOnly,
    /// Read/write low byte, then high byte
    LowThenHigh,
}

/// Counter operating modes (0-5)
#[derive(Debug, Clone, Copy, PartialEq, Eq, Structural)]
pub enum CounterMode {
    /// Interrupt on terminal count
    Mode0,
    /// Hardware retriggerable one-shot
    Mode1,
    /// Rate generator (most common for system timer)
    Mode2,
    /// Square wave generator
    Mode3,
    /// Software triggered strobe
    Mode4,
    /// Hardware triggered strobe
    Mode5,
}

/// State of a single PIT counter
#[derive(Debug, Clone, Copy)]
pub struct Counter {
    /// Current count value (decrements with each tick)
    pub count: u16,
    /// Reload value (loaded into count when it reaches 0; 0 stands for 65536)
    pub reload_value: u16,
    /// Latched count (for read operations)
    pub latch: Option<u16>,
    /// Access mode (how to read/write the counter)
    pub access_mode: AccessMode,
    /// Operating mode (0-5)
    pub mode: CounterMode,
    /// BCD mode flag (false = binary, true = BCD)
    pub bcd: bool,
    /// Byte toggle for LowThenHigh access mode: false = low byte next
    pub byte_toggle: bool,
    /// Output pin state (high/low)
    pub output: bool,
    /// Gate input state
    pub gate: bool,
    /// Null count flag (true if count hasn't been loaded yet)
    pub null_count: bool,
}

/// The 8-bit reload value written in a single-byte access mode (0 means 256).
pub open spec fn byte_count(value: u8) -> u16 {
    if value == 0 {
        0x100
    } else {
        value as u16
    }
}

impl Counter {
    /// The counter after one input clock, and whether it fired (reached zero).
    pub open spec fn spec_tick(self) -> (Counter, bool) {
        if self.null_count {
            (self, false)
        } else if self.count == 0 {
            (Counter { count: 0xFFFF, ..self }, false)
        } else if self.count == 1 {
            (Counter { count: self.reload_value, ..self }, true)
        } else {
            (Counter { count: (self.count - 1) as u16, ..self }, false)
        }
    }

    /// The counter after `n` input clocks.
    pub open spec fn spec_ticks(self, n: nat) -> Counter
        decreases n,
    {
        if n == 0 {
            self
        } else {
            self.spec_tick().0.spec_ticks((n - 1) as nat)
        }
    }

    /// Whether the counter fires during `n` input clocks.
    pub open spec fn spec_fires(self, n: nat) -> bool
        decreases n,
    {
        if n == 0 {
            false
        } else {
            self.spec_tick().1 || self.spec_tick().0.spec_fires((n - 1) as nat)
        }
    }

    /// The counter after a count byte is written.
    pub open spec fn spec_write_count(self, value: u8) -> Counter {
        match self.access_mode {
            AccessMode::LowByteOnly | AccessMode::HighByteOnly => Counter {
                reload_value: byte_count(value),
                count: byte_count(value),
                null_count: false,
                ..self
            },
            AccessMode::LowThenHigh => if !self.byte_toggle {
                Counter {
                    reload_value: (self.reload_value & 0xFF00) | (value as u16),
                    byte_toggle: true,
                    ..self
                }
            } else {
                let reload = (self.reload_value & 0x00FF) | ((value as u16) << 8u16);
                Counter { reload_value: reload, count: reload, byte_toggle: false, null_count: false, ..self }
            },
            AccessMode::LatchCount => self,
        }
    }

    /// The value of a count read and the counter after it.
    pub open spec fn spec_read_count(self) -> (Counter, u8) {
        let v = match self.latch {
            Some(l) => l,
            None => self.count,
        };
        match self.access_mode {
            AccessMode::LowByteOnly => (Counter { latch: None, ..self }, (v & 0xFF) as u8),
            AccessMode::HighByteOnly => (Counter { latch: None, ..self }, (v >> 8u16) as u8),
            AccessMode::LowThenHigh => if !self.byte_toggle {
                (Counter { byte_toggle: true, ..self }, (v & 0xFF) as u8)
            } else {
                (Counter { byte_toggle: false, latch: None, ..self }, (v >> 8u16) as u8)
            },
            AccessMode::LatchCount => (self, 0xFF),
        }
    }

    /// The state of a counter that has not been programmed: count and
    /// reload value 0, no latch, low-then-high access, mode 0, binary
    /// counting, gate high, waiting for a count.
    pub open spec fn is_unprogrammed(self) -> bool {
        &&& self.count == 0
        &&& self.reload_value == 0
        &&& self.latch.is_none()
        &&& self.access_mode == AccessMode::LowThenHigh
        &&& self.mode == CounterMode::Mode0
        &&& !self.bcd
        &&& !self.byte_toggle
        &&& !self.output
        &&& self.gate
        &&& self.null_count
    }

    /// A counter that has not been programmed.
    pub fn new() -> (r: Self)
        ensures
            r.is_unprogrammed(),
            r.count == 0,
            r.reload_value == 0,
            r.latch.is_none(),
            r.access_mode == AccessMode::LowThenHigh,
            r.mode == CounterMode::Mode0,
            !r.bcd,
            !r.byte_toggle,
            !r.output,
            r.gate,
            r.null_count,
    {
        Self {
            count: 0,
            reload_value: 0,
            latch: None,
            access_mode: AccessMode::LowThenHigh,
            mode: CounterMode::Mode0,
            bcd: false,
            byte_toggle: false,
            output: false,
            gate: true,  // Counter 0 and 1 gate always high
            null_count: true,
        }
    }

    /// Load a new count value (handles both byte modes)
    pub fn write_count(&mut self, value: u8)
        ensures
            *final(self) == old(self).spec_write_count(value),
    {
        match self.access_mode {
            AccessMode::LowByteOnly => {
                // For 8-bit modes, 0 means 256 (0x100)
                let count: u16 = if value == 0 {
                    0x100
                } else {
                    value as u16
                };
                self.reload_value = count;
                self.count = count;
                self.null_count = false;
            },
            AccessMode::HighByteOnly => {
                let count: u16 = if value == 0 {
                    0x100
                } else {
                    value as u16
                };
                self.reload_value = count;
                self.count = count;
                self.null_count = false;
            },
            AccessMode::LowThenHigh => {
                if !self.byte_toggle {
                    // Receiving low byte
                    self.reload_value = (self.reload_value & 0xFF00) | (value as u16);
                    self.byte_toggle = true;
                } else {
                    // Receiving high byte; a reload of 0 stands for 65536
                    self.reload_value = (self.reload_value & 0x00FF) | ((value as u16) << 8u16);
                    self.count = self.reload_value;
                    self.byte_toggle = false;
                    self.null_count = false;
                }
            },
            AccessMode::LatchCount => {},
        }
    }

    /// Read current count value (handles both byte modes and latching)
    pub fn read_count(&mut self) -> (r: u8)
        ensures
            (*final(self), r) == old(self).spec_read_count(),
    {
        let count_to_read = match self.latch {
            Some(l) => l,
            None => self.count,
        };
        match self.access_mode {
            AccessMode::LowByteOnly => {
                self.latch = None;
                (count_to_read & 0xFF) as u8
            },
            AccessMode::HighByteOnly => {
                self.latch = None;
                (count_to_read >> 8u16) as u8
            },
            AccessMode::LowThenHigh => {
                if !self.byte_toggle {
                    self.byte_toggle = true;
                    (count_to_read & 0xFF) as u8
                } else {
                    self.byte_toggle = false;
                    self.latch = None;
                    (count_to_read >> 8u16) as u8
                }
            },
            AccessMode::LatchCount => 0xFF,
        }
    }

    /// Decrement counter (returns true if it reached 0 and reloaded)
    pub fn tick(&mut self) -> (fired: bool)
        ensures
            (*final(self), fired) == old(self).spec_tick(),
    {
        if self.null_count {
            return false;  // Counter not initialized
        }
        // A count of 0 represents 65536: wrap to 0xFFFF
        if self.count == 0 {
            self.count = 0xFFFF;
            return false;
        }
        self.count = self.count - 1;
        if self.count == 0 {
            // Counter reached zero - reload (a reload of 0 restarts a 65536 count)
            self.count = self.reload_value;
            return true;
        }
        false
    }
}

/// Programmable Interval Timer
pub struct Pit {
    /// The three counters
    pub counters: [Counter; 3],
    /// Accumulated CPU cycles not yet converted into PIT clocks
    pub cycle_accumulator: u16,
    /// Track if counter 0 raised IRQ0
    pub irq0_pending: bool,
}

/// The access mode that the two access bits of a control word select.
pub open spec fn access_mode_of(bits: u8) -> AccessMode {
    if bits == 1 {
        AccessMode::LowByteOnly
    } else if bits == 2 {
        AccessMode::HighByteOnly
    } else {
        AccessMode::LowThenHigh
    }
}

/// The counter mode that the three mode bits of a control word select.
pub open spec fn counter_mode_of(bits: u8) -> CounterMode {
    if bits == 0 {
        CounterMode::Mode0
    } else if bits == 1 {
        CounterMode::Mode1
    } else if bits == 2 || bits == 6 {
        CounterMode::Mode2
    } else if bits == 3 || bits == 7 {
        CounterMode::Mode3
    } else if bits == 4 {
        CounterMode::Mode4
    } else if bits == 5 {
        CounterMode::Mode5
    } else {
        CounterMode::Mode0
    }
}

/// Whether a control word is supported: the read-back command and BCD
/// counting are not.
pub open spec fn control_supported(value: u8) -> bool {
    (value >> 6u8) & 0x03 != 3 && value & 0x01 == 0
}

impl Pit {
    /// Fewer than four cycles wait in the accumulator.
    pub open spec fn wf(self) -> bool {
        self.cycle_accumulator < CPU_CYCLES_PER_PIT_TICK
    }

    /// The counter after a supported control word addressed to it.
    pub open spec fn spec_control(c: Counter, value: u8) -> Counter {
        let access = (value >> 4u8) & 0x03;
        if access == 0 {
            if c.latch.is_none() {
                Counter { latch: Some(c.count), ..c }
            } else {
                c
            }
        } else {
            Counter {
                access_mode: access_mode_of(access),
                mode: counter_mode_of((value >> 1u8) & 0x07),
                bcd: false,
                byte_toggle: false,
                null_count: true,
                ..c
            }
        }
    }

    /// A timer with three unprogrammed counters.
    pub fn new() -> (r: Self)
        ensures
            r.wf(),
            r.cycle_accumulator == 0,
            !r.irq0_pending,
            forall|i: int| 0 <= i < 3 ==> #[trigger] r.counters@[i].null_count,
            forall|i: int|
                0 <= i < 3 ==> #[trigger] r.counters@[i].access_mode == AccessMode::LowThenHigh,
            forall|i: int| 0 <= i < 3 ==> #[trigger] r.counters@[i].is_unprogrammed(),
    {
        Self {
            counters: [Counter::new(), Counter::new(), Counter::new()],
            cycle_accumulator: 0,
            irq0_pending: false,
        }
    }

    /// Parse and execute a control word
    pub fn write_control(&mut self, value: u8)
        requires
            control_supported(value),
        ensures
            final(self).counters@ == old(self).counters@.update(
                ((value >> 6u8) & 0x03) as int,
                Pit::spec_control(old(self).counters@[((value >> 6u8) & 0x03) as int], value),
            ),
            final(self).cycle_accumulator == old(self).cycle_accumulator,
            final(self).irq0_pending == old(self).irq0_pending,
    {
        let counter_select = (value >> 6u8) & 0x03;
        let access_mode_bits = (value >> 4u8) & 0x03;
        let mode_bits = (value >> 1u8) & 0x07;
        let bcd = (value & 0x01) != 0;
        let i = counter_select as usize;
        assert(value >> 6u8 & 0x03 < 4) by (bit_vector);
        if access_mode_bits == 0 {
            // Latch current count
            if self.counters[i].latch.is_none() {
                let c = self.counters[i].count;
                self.counters[i].latch = Some(c);
            }
            return;
        }
        let access_mode = if access_mode_bits == 1 {
            AccessMode::LowByteOnly
        } else if access_mode_bits == 2 {
            AccessMode::HighByteOnly
        } else {
            AccessMode::LowThenHigh
        };
        let mode = if mode_bits == 0 {
            CounterMode::Mode0
        } else if mode_bits == 1 {
            CounterMode::Mode1
        } else if mode_bits == 2 || mode_bits == 6 {
            CounterMode::Mode2
        } else if mode_bits == 3 || mode_bits == 7 {
            CounterMode::Mode3
        } else if mode_bits == 4 {
            CounterMode::Mode4
        } else if mode_bits == 5 {
            CounterMode::Mode5
        } else {
            CounterMode::Mode0
        };
        self.counters[i].access_mode = access_mode;
        self.counters[i].mode = mode;
        self.counters[i].bcd = bcd;
        self.counters[i].byte_toggle = false;  // Reset toggle on new control word
        self.counters[i].null_count = true;  // Wait for count to be loaded
    }

    /// Convert CPU cycles into PIT clocks (four CPU cycles each) and clock all
    /// three counters; returns true if counter 0 fired.
    pub fn tick_internal(&mut self, cpu_cycles: u16) -> (fired: bool)
        requires
            old(self).wf(),
            cpu_cycles <= MAX_TICK_CYCLES,
        ensures
            final(self).wf(),
            final(self).cycle_accumulator == (old(self).cycle_accumulator + cpu_cycles) % 4,
            forall|k: int|
                0 <= k < 3 ==> #[trigger] final(self).counters@[k] == old(self).counters@[k].spec_ticks(
                    ((old(self).cycle_accumulator + cpu_cycles) / 4) as nat,
                ),
            fired == old(self).counters@[0].spec_fires(
                ((old(self).cycle_accumulator + cpu_cycles) / 4) as nat,
            ),
            final(self).irq0_pending == old(self).irq0_pending,
    {
        self.cycle_accumulator = self.cycle_accumulator + cpu_cycles;
        let ghost total = self.cycle_accumulator as int;
        let mut irq0_triggered = false;
        let ghost mut done: nat = 0;
        while self.cycle_accumulator >= CPU_CYCLES_PER_PIT_TICK
            invariant
                self.cycle_accumulator + 4 * done == total,
                total == old(self).cycle_accumulator + cpu_cycles,
                forall|k: int|
                    0 <= k < 3 ==> #[trigger] self.counters@[k] == old(self).counters@[k].spec_ticks(done),
                irq0_triggered == old(self).counters@[0].spec_fires(done),
                self.irq0_pending == old(self).irq0_pending,
            decreases self.cycle_accumulator,
        {
            self.cycle_accumulator = self.cycle_accumulator - CPU_CYCLES_PER_PIT_TICK;
            proof {
                lemma_ticks_step(old(self).counters@[0], done);
                lemma_ticks_step(old(self).counters@[1], done);
                lemma_ticks_step(old(self).counters@[2], done);
            }
            if self.counters[0].tick() {
                irq0_triggered = true;
            }
            self.counters[1].tick();
            self.counters[2].tick();
            proof {
                done = done + 1;
            }
        }
        irq0_triggered
    }

    /// `new` and `r` are the timer and the byte after a read of `port` from `old`.
    pub open spec fn read_effect(old: Pit, new: Pit, port: u16, r: u8) -> bool {
        &&& PIT_COUNTER_0 <= port <= PIT_COUNTER_2 ==> {
            &&& (new.counters@[port - PIT_COUNTER_0], r) == old.counters@[port
                - PIT_COUNTER_0].spec_read_count()
            &&& new.counters@ == old.counters@.update(
                port - PIT_COUNTER_0,
                new.counters@[port - PIT_COUNTER_0],
            )
        }
        &&& !(PIT_COUNTER_0 <= port <= PIT_COUNTER_2) ==> r == 0xFF && new.counters@
            == old.counters@
        &&& new.cycle_accumulator == old.cycle_accumulator
        &&& new.irq0_pending == old.irq0_pending
    }

    /// Read a counter (through its latch, in its access mode); the control
    /// port and other ports read 0xFF.
    pub fn read_u8(&mut self, port: u16) -> (r: u8)
        ensures
            Pit::read_effect(*old(self), *final(self), port, r),
    {
        if port == PIT_COUNTER_0 {
            self.counters[0].read_count()
        } else if port == PIT_COUNTER_1 {
            self.counters[1].read_count()
        } else if port == PIT_COUNTER_2 {
            self.counters[2].read_count()
        } else {
            0xFF
        }
    }

    /// `new` is the timer after `value` is written to `port` of `old`.
    pub open spec fn write_effect(old: Pit, new: Pit, port: u16, value: u8) -> bool {
        &&& PIT_COUNTER_0 <= port <= PIT_COUNTER_2 ==> new.counters@ == old.counters@.update(
            port - PIT_COUNTER_0,
            old.counters@[port - PIT_COUNTER_0].spec_write_count(value),
        )
        &&& port == PIT_CONTROL ==> new.counters@ == old.counters@.update(
            ((value >> 6u8) & 0x03) as int,
            Pit::spec_control(old.counters@[((value >> 6u8) & 0x03) as int], value),
        )
        &&& port < PIT_COUNTER_0 || port > PIT_CONTROL ==> new.counters@ == old.counters@
        &&& new.cycle_accumulator == old.cycle_accumulator
        &&& new.irq0_pending == old.irq0_pending
    }

    /// Write a counter's count byte, or a control word to port 0x43.
    pub fn write_u8(&mut self, port: u16, value: u8)
        requires
            port == PIT_CONTROL ==> control_supported(value),
        ensures
            Pit::write_effect(*old(self), *final(self), port, value),
    {
        if port == PIT_COUNTER_0 {
            self.counters[0].write_count(value);
        } else if port == PIT_COUNTER_1 {
            self.counters[1].write_count(value);
        } else if port == PIT_COUNTER_2 {
            self.counters[2].write_count(value);
        } else if port == PIT_CONTROL {
            self.write_control(value);
        }
    }

    /// Get the port range this device handles (inclusive)
    pub fn port_range(&self) -> (r: RangeInclusive<u16>)
        ensures
            r@.start == PIT_COUNTER_0,
            r@.end == PIT_CONTROL,
            !r@.exhausted,
    {
        RangeInclusive::new(PIT_COUNTER_0, PIT_CONTROL)
    }

    /// `new` and `npic` are the timer and the interrupt controller after `old` is advanced by `cycles` CPU cycles.
    pub open spec fn tick_effect(old: Pit, new: Pit, opic: Pic, npic: Pic, cycles: u16) -> bool {
        &&& new.wf()
        &&& new.cycle_accumulator == (old.cycle_accumulator + cycles) % 4
        &&& forall|k: int|
            0 <= k < 3 ==> #[trigger] new.counters@[k] == old.counters@[k].spec_ticks(
                ((old.cycle_accumulator + cycles) / 4) as nat,
            )
        &&& ({
            let fired = old.counters@[0].spec_fires(
                ((old.cycle_accumulator + cycles) / 4) as nat,
            );
            &&& fired ==> new.irq0_pending && npic.irq_prev == opic.irq_prev
                | 1 && npic.irr == (if opic.irq_prev & 1 == 0 {
                opic.irr | 1
            } else {
                opic.irr
            })
            &&& !fired && old.irq0_pending ==> !new.irq0_pending
                && npic.irq_prev == opic.irq_prev & !1u8 && npic.irr == opic.irr
            &&& !fired && !old.irq0_pending ==> !new.irq0_pending && npic
                == opic
        })
        &&& npic.imr == opic.imr
        &&& npic.isr == opic.isr
        &&& npic.same_config(opic)
    }

    /// Advance the timer; when counter 0 fires, IRQ0 is raised, and on the
    /// following tick without a firing it is lowered again.
    pub fn tick(&mut self, cycles: u16, pic: &mut Pic)
        requires
            old(self).wf(),
            cycles <= MAX_TICK_CYCLES,
        ensures
            Pit::tick_effect(*old(self), *final(self), *old(pic), *final(pic), cycles),
    {
        assert(1u8 << 0u8 == 1) by (bit_vector);
        if self.tick_internal(cycles) {
            pic.set_irq_level(0, true);
            self.irq0_pending = true;
        } else if self.irq0_pending {
            // Edge-triggered mode: lower IRQ0 after it has been raised
            pic.set_irq_level(0, false);
            self.irq0_pending = false;
        }
    }
}

/// One more clock extends the clocked sequence by one step.
proof fn lemma_ticks_step(c: Counter, n: nat)
    ensures
        c.spec_ticks(n + 1) == c.spec_ticks(n).spec_tick().0,
        c.spec_fires(n + 1) == (c.spec_fires(n) || c.spec_ticks(n).spec_tick().1),
    decreases n,
{
    reveal_with_fuel(Counter::spec_ticks, 2);
    reveal_with_fuel(Counter::spec_fires, 2);
    if n > 0 {
        let d = c.spec_tick().0;
        lemma_ticks_step(d, (n - 1) as nat);
        assert(c.spec_ticks(n + 1) == d.spec_ticks(n));
        assert(c.spec_ticks(n) == d.spec_ticks((n - 1) as nat));
        assert(c.spec_fires(n + 1) == (c.spec_tick().1 || d.spec_fires(n)));
        assert(c.spec_fires(n) == (c.spec_tick().1 || d.spec_fires((n - 1) as nat)));
    }
}

impl IoDevice for Pit {
    open spec fn inv(&self) -> bool {
        self.wf()
    }

    open spec fn accepts_write(&self, port: u16, value: u8) -> bool {
        port == PIT_CONTROL ==> control_supported(value)
    }

    fn write_accepted(&self, port: u16, value: u8) -> (r: bool) {
        port != PIT_CONTROL || ((value >> 6u8) & 0x03 != 3 && value & 0x01 == 0)
    }

    fn read_u8(&mut self, port: u16) -> u8 {
        Pit::read_u8(self, port)
    }

    fn write_u8(&mut self, port: u16, value: u8) {
        Pit::write_u8(self, port, value)
    }

    fn port_range(&self) -> RangeInclusive<u16> {
        Pit::port_range(self)
    }

    fn tick(&mut self, cycles: u16, pic: &mut Pic) {
        Pit::tick(self, cycles, pic)
    }
}

/// Splitting a word into its bytes and joining them gives the word back.
proof fn lemma_join_bytes(reload: u16, lo: u8, hi: u8)
    by (bit_vector)
    ensures
        ((((reload & 0xFF00) | (lo as u16)) & 0x00FF) | ((hi as u16) << 8u16)) == ((hi as u16)
            << 8u16) | (lo as u16),
        ((((hi as u16) << 8u16) | (lo as u16)) & 0xFF) as u8 == lo,
        ((((hi as u16) << 8u16) | (lo as u16)) >> 8u16) as u8 == hi,
{
}

/// In low-then-high access mode, a count written as two bytes loads the
/// counter, and two reads (with no latch pending) give the same two bytes
/// back and leave the counter as the writes left it.
pub proof fn law_count_read_after_write(c: Counter, lo: u8, hi: u8)
    requires
        c.access_mode == AccessMode::LowThenHigh,
        !c.byte_toggle,
        c.latch is None,
    ensures
        ({
            let w = c.spec_write_count(lo).spec_write_count(hi);
            let value = ((hi as u16) << 8u16) | (lo as u16);
            let (r1, b1) = w.spec_read_count();
            let (r2, b2) = r1.spec_read_count();
            &&& w.reload_value == value
            &&& w.count == value
            &&& !w.null_count
            &&& b1 == lo
            &&& b2 == hi
            &&& r2 == w
        }),
{
    lemma_join_bytes(c.reload_value, lo, hi);
}

/// A loaded counter holding `count` (at least 1) does not fire during its
/// first `n < count` input clocks, and then holds `count - n`.
proof fn lemma_counting_down(c: Counter, n: nat)
    requires
        !c.null_count,
        1 <= c.count,
        n < c.count,
    ensures
        !c.spec_fires(n),
        c.spec_ticks(n).count == c.count - n,
        !c.spec_ticks(n).null_count,
    decreases n,
{
    if n > 0 {
        let next = c.spec_tick().0;
        lemma_counting_down(next, (n - 1) as nat);
    }
}

/// A loaded counter holding `count` (at least 1) fires at the `count`-th
/// input clock.
proof fn lemma_fires_at_count(c: Counter)
    requires
        !c.null_count,
        1 <= c.count,
    ensures
        c.spec_fires(c.count as nat),
    decreases c.count,
{
    if c.count > 1 {
        lemma_fires_at_count(c.spec_tick().0);
    }
}

/// A count of 0 stands for 65536: a counter loaded with 0 fires first at
/// the 65536th input clock.
pub proof fn law_zero_count_is_65536(c: Counter)
    requires
        !c.null_count,
        c.count == 0,
    ensures
        !c.spec_fires(65535),
        c.spec_fires(65536),
{
    let next = c.spec_tick().0;
    assert(next.count == 0xFFFF);
    lemma_counting_down(next, 65534);
    lemma_fires_at_count(next);
}

} // verus!
