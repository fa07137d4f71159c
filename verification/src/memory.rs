//! Memory bus emulation
//!
//! The IBM PC memory layout:
//! - 0x00000-0x9FFFF: RAM (up to 640KB, we start with 64KB)
//! - 0xA0000-0xBFFFF: Video memory (the MDA's 4KB at 0xB0000-0xB0FFF)
//! - 0xC0000-0xFFFFF: ROM and BIOS (the last 64KB are backed)
//!
//! Every other address is unmapped: it reads as 0xFF and ignores writes.

use crate::components::dma::{Dma, DmaCapable, DmaChannel, DmaDirection};
use crate::components::fdc::Fdc;
use crate::components::mda::Mda;
use crate::components::pic::Pic;
use crate::components::pit::{control_supported, Pit, PIT_CONTROL};
use crate::components::ppi::{Ppi, PPI_PORT_B};
use crate::io::{IoDevice, MAX_TICK_CYCLES};
use vstd::prelude::*;

verus! {

/// Size of the RAM and of the ROM area in bytes
pub const BANK_SIZE: usize = 0x10000;

/// DMA I/O ports (hardwired for performance)
pub const DMA_CTRL_BASE: u16 = 0x00;
pub const DMA_CTRL_END: u16 = 0x0F;
pub const DMA_PAGE_CH2: u16 = 0x81;
pub const DMA_PAGE_CH3: u16 = 0x82;
pub const DMA_PAGE_CH1: u16 = 0x83;
pub const DMA_PAGE_CH0: u16 = 0x87;

/// PIC I/O ports (hardwired for performance)
pub const PIC_PORT_BASE: u16 = 0x20;
pub const PIC_PORT_END: u16 = 0x21;

/// MDA memory range (hardwired for performance)
pub const MDA_VRAM_BASE: u32 = 0xB0000;
pub const MDA_VRAM_END: u32 = 0xB0FFF;

/// MDA I/O ports (hardwired for performance)
pub const MDA_PORT_BASE: u16 = 0x3B0;
pub const MDA_PORT_END: u16 = 0x3BF;

/// FDC I/O ports (hardwired for DMA coordination)
pub const FDC_PORT_BASE: u16 = 0x3F0;
pub const FDC_PORT_END: u16 = 0x3F7;

/// Start of the ROM area
pub const ROM_BASE: u32 = 0xF0000;

/// Last address of the 1MB address space
pub const ADDRESS_LIMIT: u32 = 0xFFFFF;

/// Whether `addr` is RAM
pub open spec fn is_ram(addr: u32) -> bool {
    addr < 0x10000
}

/// Whether `addr` is MDA video RAM
pub open spec fn is_vram(addr: u32) -> bool {
    MDA_VRAM_BASE <= addr <= MDA_VRAM_END
}

/// Whether `addr` is ROM
pub open spec fn is_rom(addr: u32) -> bool {
    ROM_BASE <= addr <= ADDRESS_LIMIT
}

/// Whether a write to `addr` takes effect (RAM and video RAM)
pub open spec fn is_writable(addr: u32) -> bool {
    is_ram(addr) || is_vram(addr)
}

/// Whether `port` belongs to the DMA controller
pub open spec fn is_dma_port(port: u16) -> bool {
    port <= DMA_CTRL_END || port == DMA_PAGE_CH0 || port == DMA_PAGE_CH1 || port == DMA_PAGE_CH2
        || port == DMA_PAGE_CH3
}

/// Whether `port` belongs to the PIC
pub open spec fn is_pic_port(port: u16) -> bool {
    PIC_PORT_BASE <= port <= PIC_PORT_END
}

/// Whether `port` belongs to the MDA
pub open spec fn is_mda_port(port: u16) -> bool {
    MDA_PORT_BASE <= port <= MDA_PORT_END
}

/// Whether `port` belongs to the FDC
pub open spec fn is_fdc_port(port: u16) -> bool {
    FDC_PORT_BASE <= port <= FDC_PORT_END
}

/// A peripheral that can be registered on the bus for IN/OUT instructions
pub enum IoPeripheral {
    /// 8253 programmable interval timer
    Pit(Pit),
    /// 8255 programmable peripheral interface
    Ppi(Ppi),
}

impl IoPeripheral {
    /// The device's invariant.
    pub open spec fn inv(self) -> bool {
        match self {
            IoPeripheral::Pit(p) => p.wf(),
            IoPeripheral::Ppi(_) => true,
        }
    }

    /// The ports the device answers.
    pub open spec fn handles(self, port: u16) -> bool {
        match self {
            IoPeripheral::Pit(_) => 0x40 <= port <= 0x43,
            IoPeripheral::Ppi(_) => 0x60 <= port <= 0x62,
        }
    }

    /// `new` and `r` are the device and the byte after a read of `port`
    /// from `old`.
    pub open spec fn read_effect(old: IoPeripheral, new: IoPeripheral, port: u16, r: u8) -> bool {
        match old {
            IoPeripheral::Pit(o) => new matches IoPeripheral::Pit(n) && Pit::read_effect(o, n, port, r),
            IoPeripheral::Ppi(o) => new matches IoPeripheral::Ppi(n) && (n, r) == o.spec_read(port),
        }
    }

    /// `new` is the device after `value` is written to `port` of `old`; the
    /// timer ignores a control word that it does not support.
    pub open spec fn write_effect(old: IoPeripheral, new: IoPeripheral, port: u16, value: u8) -> bool {
        match old {
            IoPeripheral::Pit(o) => new matches IoPeripheral::Pit(n) && if port == PIT_CONTROL
                && !control_supported(value) {
                n == o
            } else {
                Pit::write_effect(o, n, port, value)
            },
            IoPeripheral::Ppi(o) => new matches IoPeripheral::Ppi(n) && n == (if port == PPI_PORT_B {
                o.spec_write_port_b(value)
            } else {
                o
            }),
        }
    }

    /// `new` and `npic` are the device and the interrupt controller after
    /// `old` is advanced by `cycles` CPU cycles.
    pub open spec fn tick_effect(
        old: IoPeripheral,
        new: IoPeripheral,
        opic: Pic,
        npic: Pic,
        cycles: u16,
    ) -> bool {
        match old {
            IoPeripheral::Pit(o) => new matches IoPeripheral::Pit(n) && Pit::tick_effect(
                o,
                n,
                opic,
                npic,
                cycles,
            ),
            IoPeripheral::Ppi(o) => new matches IoPeripheral::Ppi(n) && Ppi::tick_effect(
                o,
                n,
                opic,
                npic,
                cycles,
            ),
        }
    }

    /// Whether the device's port range holds `port`.
    pub fn handles_port(&self, port: u16) -> (r: bool)
        ensures
            r == self.handles(port),
    {
        match self {
            IoPeripheral::Pit(p) => p.port_range().contains(&port),
            IoPeripheral::Ppi(p) => p.port_range().contains(&port),
        }
    }

    /// Read a byte from one of the device's ports.
    pub fn read_u8(&mut self, port: u16) -> (r: u8)
        requires
            old(self).inv(),
        ensures
            final(self).inv(),
            IoPeripheral::read_effect(*old(self), *final(self), port, r),
    {
        match self {
            IoPeripheral::Pit(p) => p.read_u8(port),
            IoPeripheral::Ppi(p) => p.read_u8(port),
        }
    }

    /// Write a byte to one of the device's ports; a control word that the
    /// timer does not support is ignored.
    pub fn write_u8(&mut self, port: u16, value: u8)
        requires
            old(self).inv(),
        ensures
            final(self).inv(),
            IoPeripheral::write_effect(*old(self), *final(self), port, value),
    {
        match self {
            IoPeripheral::Pit(p) => {
                if p.write_accepted(port, value) {
                    p.write_u8(port, value);
                }
            },
            IoPeripheral::Ppi(p) => p.write_u8(port, value),
        }
    }

    /// Advance the device by a number of CPU cycles.
    pub fn tick(&mut self, cycles: u16, pic: &mut Pic)
        requires
            old(self).inv(),
            cycles <= MAX_TICK_CYCLES,
        ensures
            final(self).inv(),
            IoPeripheral::tick_effect(*old(self), *final(self), *old(pic), *final(pic), cycles),
    {
        match self {
            IoPeripheral::Pit(p) => p.tick(cycles, pic),
            IoPeripheral::Ppi(p) => p.tick(cycles, pic),
        }
    }
}

/// Memory bus for the IBM PC
pub struct MemoryBus {
    /// RAM - starting with 64KB
    pub ram: Vec<u8>,
    /// ROM - BIOS and extension ROMs (64KB space)
    pub rom: Vec<u8>,
    /// 8237 DMA Controller, hardwired at ports 0x00-0x0F and 0x81-0x83, 0x87
    pub dma: Dma,
    /// 8259 PIC, hardwired at ports 0x20-0x21
    pub pic: Pic,
    /// MDA, hardwired at 0xB0000-0xB0FFF (video RAM) and 0x3B0-0x3BF (ports)
    pub mda: Mda,
    /// FDC, hardwired at 0x3F0-0x3F7 for DMA coordination
    pub fdc: Fdc,
    /// Registered IO devices for IN/OUT instructions
    pub io_devices: Vec<IoPeripheral>,
}

impl MemoryBus {
    /// Well-formedness: RAM and ROM are 64KB, the MDA is well-formed and
    /// every registered device keeps its invariant.
    pub open spec fn wf(&self) -> bool {
        &&& self.ram@.len() == BANK_SIZE
        &&& self.rom@.len() == BANK_SIZE
        &&& self.mda.wf()
        &&& forall|i: int| 0 <= i < self.io_devices@.len() ==> #[trigger] self.io_devices@[i].inv()
    }

    /// The byte that the CPU sees at physical address `addr`.
    pub open spec fn byte(&self, addr: u32) -> u8 {
        if is_ram(addr) {
            self.ram@[addr as int]
        } else if is_vram(addr) {
            self.mda.vram@[(addr - MDA_VRAM_BASE) as int]
        } else if is_rom(addr) {
            self.rom@[(addr - ROM_BASE) as int]
        } else {
            0xFF
        }
    }

    /// The little-endian word at `addr`.
    pub open spec fn word(&self, addr: u32) -> u16 {
        (self.byte(addr) as u16 | ((self.byte((addr + 1) as u32) as u16) << 8u16)) as u16
    }

    /// Everything but the memory contents (and the MDA's dirty flag) is the same.
    pub open spec fn same_devices(self, other: MemoryBus) -> bool {
        &&& other.rom@ == self.rom@
        &&& other.dma == self.dma
        &&& other.pic == self.pic
        &&& other.fdc == self.fdc
        &&& other.io_devices@ == self.io_devices@
        &&& other.mda.font_rom@ == self.mda.font_rom@
        &&& other.mda.cycle_count == self.mda.cycle_count
        &&& other.mda.update_threshold == self.mda.update_threshold
    }

    /// `new` is `old` with `value` written at `addr` (when writable).
    pub open spec fn written(old: MemoryBus, new: MemoryBus, addr: u32, value: u8) -> bool {
        &&& new.wf()
        &&& old.same_devices(new)
        &&& forall|a: u32| #[trigger]
            new.byte(a) == (if a == addr && is_writable(addr) {
                value
            } else {
                old.byte(a)
            })
    }

    /// `new` is `old` with the little-endian `value` written at `addr` and `addr + 1`.
    pub open spec fn word_written(old: MemoryBus, new: MemoryBus, addr: u32, value: u16) -> bool {
        &&& new.wf()
        &&& old.same_devices(new)
        &&& forall|a: u32| #[trigger]
            new.byte(a) == (if a == addr + 1 && is_writable(a) {
                (value >> 8u16) as u8
            } else if a == addr && is_writable(a) {
                value as u8
            } else {
                old.byte(a)
            })
    }

    /// Create a new memory bus with zeroed RAM and ROM, the PIC mapping
    /// IRQ0-7 to INT 0x08-0x0F, and no registered devices.
    pub fn new() -> (r: Self)
        ensures
            r.wf(),
            forall|a: u32| is_ram(a) || is_rom(a) ==> #[trigger] r.byte(a) == 0,
            r.pic.vector_offset == 0x08,
            r.io_devices@.len() == 0,
    {
        MemoryBus {
            ram: vec![0u8; BANK_SIZE],
            rom: vec![0u8; BANK_SIZE],
            dma: Dma::new(),
            pic: Pic::new(0x08),
            mda: Mda::new(),
            fdc: Fdc::new(),
            io_devices: Vec::new(),
        }
    }

    /// Load ROM data at the end of ROM space
    ///
    /// The ROM is loaded at the end of the 64KB ROM area (0xF0000-0xFFFFF),
    /// ensuring the reset vector at 0xFFFF0 contains the ROM's code. An
    /// empty image leaves the ROM unchanged.
    pub fn load_rom(&mut self, rom_data: &[u8])
        requires
            old(self).wf(),
            rom_data@.len() <= BANK_SIZE,
        ensures
            final(self).wf(),
            final(self).ram@ == old(self).ram@,
            final(self).mda == old(self).mda,
            final(self).rom@ == old(self).rom@.subrange(0, BANK_SIZE - rom_data@.len()) + rom_data@,
            final(self).io_devices@ == old(self).io_devices@,
            final(self).dma == old(self).dma,
            final(self).pic == old(self).pic,
            final(self).fdc == old(self).fdc,
    {
        if rom_data.len() == 0 {
            assert(rom_data@ =~= Seq::<u8>::empty());
            assert(old(self).rom@.subrange(0, BANK_SIZE as int) =~= old(self).rom@);
            assert(old(self).rom@.subrange(0, BANK_SIZE as int) + rom_data@ =~= old(self).rom@);
            return;
        }
        let offset: usize = BANK_SIZE - rom_data.len();
        let mut i: usize = 0;
        while i < rom_data.len()
            invariant
                0 <= i <= rom_data@.len(),
                offset + rom_data@.len() == BANK_SIZE,
                self.rom@.len() == BANK_SIZE,
                self.ram@ == old(self).ram@,
                self.mda == old(self).mda,
                self.io_devices@ == old(self).io_devices@,
                self.dma == old(self).dma,
                self.pic == old(self).pic,
                self.fdc == old(self).fdc,
                old(self).wf(),
                forall|j: int| 0 <= j < offset ==> #[trigger] self.rom@[j] == old(self).rom@[j],
                forall|j: int| offset <= j < offset + i ==> #[trigger] self.rom@[j] == rom_data@[j - offset],
                forall|j: int|
                    offset + i <= j < BANK_SIZE ==> #[trigger] self.rom@[j] == old(self).rom@[j],
            decreases rom_data@.len() - i,
        {
            self.rom[offset + i] = rom_data[i];
            i = i + 1;
        }
        assert(self.rom@ =~= old(self).rom@.subrange(0, offset as int) + rom_data@);
    }

    /// Read a byte from memory
    pub fn read_u8(&self, addr: u32) -> (r: u8)
        requires
            self.wf(),
        ensures
            r == self.byte(addr),
    {
        if addr < 0x10000 {
            self.ram[addr as usize]
        } else if addr >= MDA_VRAM_BASE && addr <= MDA_VRAM_END {
            let offset = (addr - MDA_VRAM_BASE) as u16;
            assert(offset & 0xFFF == offset) by (bit_vector)
                requires
                    offset < 0x1000,
            ;
            self.mda.read_vram(offset)
        } else if addr >= ROM_BASE && addr <= ADDRESS_LIMIT {
            self.rom[(addr - ROM_BASE) as usize]
        } else {
            0xFF
        }
    }

    /// Write a byte to memory; writes to ROM and unmapped space are ignored.
    pub fn write_u8(&mut self, addr: u32, value: u8)
        requires
            old(self).wf(),
        ensures
            Self::written(*old(self), *final(self), addr, value),
    {
        if addr < 0x10000 {
            self.ram[addr as usize] = value;
        } else if addr >= MDA_VRAM_BASE && addr <= MDA_VRAM_END {
            let offset = (addr - MDA_VRAM_BASE) as u16;
            assert(offset & 0xFFF == offset) by (bit_vector)
                requires
                    offset < 0x1000,
            ;
            self.mda.write_vram(offset, value);
        }
    }

    /// Read a word (little-endian) from memory
    pub fn read_u16(&self, addr: u32) -> (r: u16)
        requires
            self.wf(),
            addr < u32::MAX,
        ensures
            r == self.word(addr),
    {
        let lo = self.read_u8(addr) as u16;
        let hi = self.read_u8(addr + 1) as u16;
        lo | (hi << 8)
    }

    /// Write a word (little-endian) to memory
    pub fn write_u16(&mut self, addr: u32, value: u16)
        requires
            old(self).wf(),
            addr < u32::MAX,
        ensures
            Self::word_written(*old(self), *final(self), addr, value),
    {
        let ghost mid: MemoryBus;
        self.write_u8(addr, value as u8);
        proof {
            mid = *self;
        }
        self.write_u8(addr + 1, (value >> 8) as u8);
        assert forall|a: u32| #[trigger]
            self.byte(a) == (if a == addr + 1 && is_writable(a) {
                (value >> 8u16) as u8
            } else if a == addr && is_writable(a) {
                value as u8
            } else {
                old(self).byte(a)
            }) by {
            assert(self.byte(a) == (if a == addr + 1 && is_writable((addr + 1) as u32) {
                (value >> 8u16) as u8
            } else {
                mid.byte(a)
            }));
            assert(mid.byte(a) == (if a == addr && is_writable(addr) {
                value as u8
            } else {
                old(self).byte(a)
            }));
        }
    }

    /// Load data into RAM at the given offset; what does not fit in RAM is dropped.
    pub fn load(&mut self, data: &[u8], offset: usize)
        requires
            old(self).wf(),
            offset <= BANK_SIZE,
        ensures
            final(self).wf(),
            final(self).ram@.len() == BANK_SIZE,
            forall|i: int|
                0 <= i < BANK_SIZE ==> #[trigger] final(self).ram@[i] == (if offset <= i < offset
                    + data@.len() {
                    data@[i - offset]
                } else {
                    old(self).ram@[i]
                }),
            final(self).rom@ == old(self).rom@,
            final(self).mda == old(self).mda,
            final(self).io_devices@ == old(self).io_devices@,
            final(self).dma == old(self).dma,
            final(self).pic == old(self).pic,
            final(self).fdc == old(self).fdc,
    {
        let room: usize = BANK_SIZE - offset;
        let n: usize = if data.len() < room {
            data.len()
        } else {
            room
        };
        let mut i: usize = 0;
        while i < n
            invariant
                0 <= i <= n,
                n <= data@.len(),
                offset + n <= BANK_SIZE,
                n == data@.len() || offset + n == BANK_SIZE,
                self.ram@.len() == BANK_SIZE,
                self.rom@ == old(self).rom@,
                self.mda == old(self).mda,
                self.io_devices@ == old(self).io_devices@,
                self.dma == old(self).dma,
                self.pic == old(self).pic,
                self.fdc == old(self).fdc,
                old(self).wf(),
                forall|j: int|
                    0 <= j < BANK_SIZE ==> #[trigger] self.ram@[j] == (if offset <= j < offset + i {
                        data@[j - offset]
                    } else {
                        old(self).ram@[j]
                    }),
            decreases n - i,
        {
            self.ram[offset + i] = data[i];
            i = i + 1;
        }
    }

    /// Register an IO peripheral device
    pub fn register_io_device(&mut self, device: IoPeripheral)
        requires
            old(self).wf(),
            device.inv(),
        ensures
            final(self).wf(),
            final(self).io_devices@ == old(self).io_devices@.push(device),
            final(self).ram@ == old(self).ram@,
            final(self).rom@ == old(self).rom@,
            final(self).mda == old(self).mda,
            final(self).dma == old(self).dma,
            final(self).pic == old(self).pic,
            final(self).fdc == old(self).fdc,
    {
        self.io_devices.push(device);
        assert forall|i: int| 0 <= i < self.io_devices@.len() implies #[trigger] self.io_devices@[
            i].inv() by {
            if i < old(self).io_devices@.len() {
                assert(self.io_devices@[i] == old(self).io_devices@[i]);
            }
        }
    }

    /// Replacing one registered device by one that keeps its invariant keeps
    /// the bus well-formed.
    pub proof fn lemma_devices_wf(before: MemoryBus, after: MemoryBus, i: int)
        requires
            before.wf(),
            0 <= i < before.io_devices@.len(),
            after.io_devices@ == before.io_devices@.update(i, after.io_devices@[i]),
            after.io_devices@[i].inv(),
            after.ram@ == before.ram@,
            after.rom@ == before.rom@,
            after.mda == before.mda,
        ensures
            after.wf(),
    {
        assert forall|j: int| 0 <= j < after.io_devices@.len() implies #[trigger] after.io_devices@[
            j].inv() by {
            if j != i {
                assert(after.io_devices@[j] == before.io_devices@[j]);
            }
        }
    }

    /// The index of the first registered device at or after `from` that
    /// answers `port`.
    pub open spec fn first_handler(devices: Seq<IoPeripheral>, port: u16, from: int) -> Option<int>
        decreases devices.len() - from,
    {
        if from < 0 || from >= devices.len() {
            None
        } else if devices[from].handles(port) {
            Some(from)
        } else {
            Self::first_handler(devices, port, from + 1)
        }
    }

    /// `new` is `old` after `value` is written to IO port `port`: the
    /// hardwired DMA controller, PIC, MDA or FDC takes the write, or else the
    /// first registered device that answers the port; a write to an
    /// unmapped port changes nothing.
    pub open spec fn io_written(old: MemoryBus, new: MemoryBus, port: u16, value: u8) -> bool {
        if is_dma_port(port) {
            new == MemoryBus { dma: new.dma, ..old } && Dma::write_effect(old.dma, new.dma, port, value)
        } else if is_pic_port(port) {
            new == MemoryBus {
                pic: (if port == 0x20 {
                    old.pic.spec_write_command(value)
                } else {
                    old.pic.spec_write_data(value)
                }),
                ..old
            }
        } else if is_mda_port(port) {
            new == old
        } else if is_fdc_port(port) {
            new == MemoryBus { fdc: new.fdc, ..old } && Fdc::write_effect(old.fdc, new.fdc, port, value)
        } else {
            match Self::first_handler(old.io_devices@, port, 0) {
                None => new == old,
                Some(i) => {
                    &&& new == MemoryBus { io_devices: new.io_devices, ..old }
                    &&& new.io_devices@ == old.io_devices@.update(i, new.io_devices@[i])
                    &&& IoPeripheral::write_effect(old.io_devices@[i], new.io_devices@[i], port, value)
                },
            }
        }
    }

    /// `new` is `old` after the little-endian `value` is written to IO port
    /// `port` (the low byte) and `port + 1` (the high byte), in that order.
    pub open spec fn io_word_written(old: MemoryBus, new: MemoryBus, port: u16, value: u16) -> bool {
        exists|mid: MemoryBus|
            #[trigger] Self::io_written(old, mid, port, value as u8) && Self::io_written(
                mid,
                new,
                (port + 1) as u16,
                (value >> 8u16) as u8,
            )
    }

    /// Only the registered devices may have changed.
    pub open spec fn only_devices_changed(old: MemoryBus, new: MemoryBus) -> bool {
        &&& new.ram@ == old.ram@
        &&& new.rom@ == old.rom@
        &&& new.mda == old.mda
        &&& new.dma == old.dma
        &&& new.pic == old.pic
        &&& new.fdc == old.fdc
        &&& new.io_devices@.len() == old.io_devices@.len()
    }

    /// Read a byte from an IO port.
    ///
    /// The DMA controller, PIC, MDA and FDC are hardwired to their ports;
    /// other ports go to the first registered device whose range holds the
    /// port. An unmapped port reads as 0xFF.
    pub fn io_read_u8(&mut self, port: u16) -> (r: u8)
        requires
            old(self).wf(),
        ensures
            final(self).wf(),
            is_dma_port(port) ==> {
                &&& Dma::read_effect(old(self).dma, final(self).dma, port, r)
                &&& final(self).ram@ == old(self).ram@ && final(self).rom@ == old(self).rom@
                &&& final(self).pic == old(self).pic && final(self).mda == old(self).mda
                &&& final(self).fdc == old(self).fdc
                &&& final(self).io_devices@ == old(self).io_devices@
            },
            is_pic_port(port) ==> r == old(self).pic.spec_read(port) && *final(self) == *old(self),
            is_mda_port(port) ==> r == (if port == 0x3BA {
                old(self).mda.spec_status()
            } else {
                0xFF
            }) && *final(self) == *old(self),
            is_fdc_port(port) ==> {
                &&& Fdc::read_effect(old(self).fdc, final(self).fdc, port, r)
                &&& final(self).ram@ == old(self).ram@ && final(self).rom@ == old(self).rom@
                &&& final(self).pic == old(self).pic && final(self).mda == old(self).mda
                &&& final(self).dma == old(self).dma
                &&& final(self).io_devices@ == old(self).io_devices@
            },
            !is_dma_port(port) && !is_pic_port(port) && !is_mda_port(port) && !is_fdc_port(port)
                ==> Self::only_devices_changed(*old(self), *final(self)),
    {
        if port <= DMA_CTRL_END || port == DMA_PAGE_CH0 || port == DMA_PAGE_CH1 || port
            == DMA_PAGE_CH2 || port == DMA_PAGE_CH3 {
            return self.dma.read_u8(port);
        }
        if port >= PIC_PORT_BASE && port <= PIC_PORT_END {
            return self.pic.read_u8(port);
        }
        if port >= MDA_PORT_BASE && port <= MDA_PORT_END {
            return self.mda.read_u8(port);
        }
        if port >= FDC_PORT_BASE && port <= FDC_PORT_END {
            return self.fdc.read_u8(port);
        }
        let n = self.io_devices.len();
        let mut i: usize = 0;
        while i < n
            invariant
                0 <= i <= n,
                n == self.io_devices@.len(),
                self.wf(),
                Self::only_devices_changed(*old(self), *self),
            decreases n - i,
        {
            if self.io_devices[i].handles_port(port) {
                let ghost before = *self;
                assert(self.io_devices@[i as int].inv());
                let r = self.io_devices[i].read_u8(port);
                proof {
                    Self::lemma_devices_wf(before, *self, i as int);
                }
                return r;
            }
            i = i + 1;
        }
        0xFF
    }

    /// Write a byte to an IO port.
    ///
    /// Routed as `io_read_u8` routes reads; writes to unmapped ports are
    /// ignored, and so is a value that the addressed device does not accept.
    pub fn io_write_u8(&mut self, port: u16, value: u8)
        requires
            old(self).wf(),
        ensures
            final(self).wf(),
            is_dma_port(port) ==> {
                &&& final(self).ram@ == old(self).ram@ && final(self).rom@ == old(self).rom@
                &&& final(self).pic == old(self).pic && final(self).mda == old(self).mda
                &&& final(self).fdc == old(self).fdc
                &&& final(self).io_devices@ == old(self).io_devices@
            },
            is_pic_port(port) ==> *final(self) == (MemoryBus {
                pic: (if port == 0x20 {
                    old(self).pic.spec_write_command(value)
                } else {
                    old(self).pic.spec_write_data(value)
                }),
                ..*old(self)
            }),
            is_mda_port(port) ==> *final(self) == *old(self),
            is_fdc_port(port) ==> {
                &&& final(self).ram@ == old(self).ram@ && final(self).rom@ == old(self).rom@
                &&& final(self).pic == old(self).pic && final(self).mda == old(self).mda
                &&& final(self).dma == old(self).dma
                &&& final(self).io_devices@ == old(self).io_devices@
            },
            !is_dma_port(port) && !is_pic_port(port) && !is_mda_port(port) && !is_fdc_port(port)
                ==> Self::only_devices_changed(*old(self), *final(self)),
            Self::io_written(*old(self), *final(self), port, value),
    {
        if port <= DMA_CTRL_END || port == DMA_PAGE_CH0 || port == DMA_PAGE_CH1 || port
            == DMA_PAGE_CH2 || port == DMA_PAGE_CH3 {
            self.dma.write_u8(port, value);
            return;
        }
        if port >= PIC_PORT_BASE && port <= PIC_PORT_END {
            self.pic.write_u8(port, value);
            return;
        }
        if port >= MDA_PORT_BASE && port <= MDA_PORT_END {
            self.mda.write_u8(port, value);
            return;
        }
        if port >= FDC_PORT_BASE && port <= FDC_PORT_END {
            self.fdc.write_u8(port, value);
            return;
        }
        let n = self.io_devices.len();
        let mut i: usize = 0;
        while i < n
            invariant
                0 <= i <= n,
                n == self.io_devices@.len(),
                self.wf(),
                *self == *old(self),
                !is_dma_port(port) && !is_pic_port(port) && !is_mda_port(port) && !is_fdc_port(port),
                Self::first_handler(old(self).io_devices@, port, 0) == Self::first_handler(
                    old(self).io_devices@,
                    port,
                    i as int,
                ),
            decreases n - i,
        {
            if self.io_devices[i].handles_port(port) {
                let ghost before = *self;
                assert(self.io_devices@[i as int].inv());
                self.io_devices[i].write_u8(port, value);
                proof {
                    Self::lemma_devices_wf(before, *self, i as int);
                }
                return;
            }
            i = i + 1;
        }
    }

    /// Read a word (little-endian) from an IO port: the low byte from `port`,
    /// then the high byte from `port + 1`.
    pub fn io_read_u16(&mut self, port: u16) -> (r: u16)
        requires
            old(self).wf(),
            port < u16::MAX,
        ensures
            final(self).wf(),
            is_pic_port(port) && is_pic_port((port + 1) as u16) ==> {
                &&& r == ((old(self).pic.spec_read(port) as u16) | ((old(self).pic.spec_read(
                    (port + 1) as u16,
                ) as u16) << 8u16))
                &&& *final(self) == *old(self)
            },
            final(self).ram@ == old(self).ram@,
            final(self).rom@ == old(self).rom@,
    {
        let lo = self.io_read_u8(port) as u16;
        let hi = self.io_read_u8(port + 1) as u16;
        lo | (hi << 8)
    }

    /// Write a word (little-endian) to an IO port: the low byte to `port`,
    /// then the high byte to `port + 1`.
    pub fn io_write_u16(&mut self, port: u16, value: u16)
        requires
            old(self).wf(),
            port < u16::MAX,
        ensures
            final(self).wf(),
            is_mda_port(port) && is_mda_port((port + 1) as u16) ==> *final(self) == *old(self),
            final(self).ram@ == old(self).ram@,
            final(self).rom@ == old(self).rom@,
            Self::io_word_written(*old(self), *final(self), port, value),
    {
        self.io_write_u8(port, value as u8);
        self.io_write_u8(port + 1, (value >> 8) as u8);
    }

    /// Update peripherals based on CPU cycles
    ///
    /// Called after each CPU instruction with the number of cycles consumed.
    /// Distributes the tick to the MDA, the FDC and all registered IO devices;
    /// the FDC and the devices can signal interrupts through the PIC.
    pub fn tick(&mut self, cycles: u16)
        requires
            old(self).wf(),
            cycles <= MAX_TICK_CYCLES,
            old(self).mda.cycle_count + cycles <= u64::MAX,
        ensures
            final(self).wf(),
            final(self).mda.cycle_count == old(self).mda.cycle_count + cycles,
            final(self).mda.vram@ == old(self).mda.vram@,
            final(self).ram@ == old(self).ram@,
            final(self).rom@ == old(self).rom@,
            final(self).dma == old(self).dma,
            final(self).fdc == old(self).fdc,
            final(self).io_devices@.len() == old(self).io_devices@.len(),
    {
        self.mda.tick(cycles);
        self.fdc.tick(cycles, &mut self.pic);
        let n = self.io_devices.len();
        let mut i: usize = 0;
        while i < n
            invariant
                0 <= i <= n,
                n == self.io_devices@.len(),
                cycles <= MAX_TICK_CYCLES,
                self.wf(),
                self.mda.cycle_count == old(self).mda.cycle_count + cycles,
                self.mda.vram@ == old(self).mda.vram@,
                self.ram@ == old(self).ram@,
                self.rom@ == old(self).rom@,
                self.dma == old(self).dma,
                self.fdc == old(self).fdc,
            decreases n - i,
        {
            let ghost before = *self;
            assert(self.io_devices@[i as int].inv());
            self.io_devices[i].tick(cycles, &mut self.pic);
            proof {
                Self::lemma_devices_wf(before, *self, i as int);
            }
            i = i + 1;
        }
    }

    /// Perform one byte of DMA transfer between RAM and `device` on `channel`.
    ///
    /// Returns `Some(true)` when the transfer reached terminal count,
    /// `Some(false)` when one byte moved, and `None` when the channel is not
    /// active, its direction is invalid, or the device had no byte to give.
    pub fn dma_transfer_byte<D: DmaCapable>(&mut self, channel: u8, device: &mut D) -> (r: Option<
        bool,
    >)
        requires
            old(self).wf(),
            channel < 4,
        ensures
            final(self).wf(),
            final(self).rom@ == old(self).rom@,
            final(self).mda == old(self).mda,
            final(self).pic == old(self).pic,
            final(self).fdc == old(self).fdc,
            final(self).io_devices@ == old(self).io_devices@,
            !old(self).dma.is_active_channel(channel) ==> r.is_none() && *final(self) == *old(self),
            old(self).dma.is_active_channel(channel)
                && old(self).dma.channels@[channel as int].spec_direction() == DmaDirection::Invalid
                ==> r.is_none() && *final(self) == *old(self),
            old(self).dma.is_active_channel(channel)
                && old(self).dma.channels@[channel as int].spec_direction() != DmaDirection::Invalid
                && r.is_some() ==> Self::dma_advanced(*old(self), *final(self), channel, r),
            old(self).dma.is_active_channel(channel) && (old(self).dma.channels@[
                channel as int].spec_direction() == DmaDirection::Read || old(self).dma.channels@[
                channel as int].spec_direction() == DmaDirection::Verify) ==> r.is_some()
                && final(self).ram@ == old(self).ram@,
            r.is_none() ==> *final(self) == *old(self),
            Self::device_served(*old(self), *final(self), channel, *old(device), *final(device), r),
    {
        if !self.dma.is_channel_active(channel) {
            return None;
        }
        let direction = self.dma.direction(channel);
        let addr = self.dma.current_address(channel);
        match direction {
            DmaDirection::Write => {
                let ghost od = *device;
                let got = device.dma_read_byte();
                let ghost d1 = *device;
                assert(D::dma_gave(od, d1, got));
                match got {
                    Some(byte) => {
                        if addr < 0x10000 {
                            self.ram[addr as usize] = byte;
                        }
                        let tc = self.dma.advance(channel);
                        if tc {
                            device.dma_terminal_count();
                        }
                        assert(Self::device_transfer_done(d1, *device, Some(tc)));
                        assert(addr < 0x10000 ==> self.ram@[addr as int] == byte);
                        Some(tc)
                    },
                    None => {
                        assert(*self == *old(self));
                        None
                    },
                }
            },
            DmaDirection::Read => {
                let byte = if addr < 0x10000 {
                    self.ram[addr as usize]
                } else {
                    0xFF
                };
                assert(byte == old(self).channel_source_byte(channel));
                let ghost od = *device;
                device.dma_write_byte(byte);
                let ghost d1 = *device;
                assert(D::dma_received(od, d1, old(self).channel_source_byte(channel)));
                let tc = self.dma.advance(channel);
                if tc {
                    device.dma_terminal_count();
                }
                assert(Self::device_transfer_done(d1, *device, Some(tc)));
                Some(tc)
            },
            DmaDirection::Verify => {
                let tc = self.dma.advance(channel);
                if tc {
                    device.dma_terminal_count();
                }
                Some(tc)
            },
            DmaDirection::Invalid => None,
        }
    }

    /// After the byte moved: on terminal count the device was told the
    /// transfer ended, otherwise it was left as it was.
    pub open spec fn device_transfer_done<D: DmaCapable>(mid: D, new: D, r: Option<bool>) -> bool {
        &&& r == Some(true) ==> D::dma_ended(mid, new)
        &&& r == Some(false) ==> new == mid
    }

    /// What a DMA byte transfer on `channel` does to the device: nothing
    /// when the channel is idle or its direction invalid; for a write to
    /// memory the device hands over a byte (which lands in RAM at the
    /// channel's address when that is RAM), for a read from memory it takes
    /// the RAM byte at the channel's address (0xFF beyond RAM), for a verify
    /// it gets no byte; and then it is told the transfer ended exactly on
    /// terminal count.
    pub open spec fn device_served<D: DmaCapable>(
        old: MemoryBus,
        new: MemoryBus,
        channel: u8,
        od: D,
        nd: D,
        r: Option<bool>,
    ) -> bool {
        let ch = old.dma.channels@[channel as int];
        let addr = ch.page as int * 0x10000 + ch.current_address as int;
        let dir = ch.spec_direction();
        if !old.dma.is_active_channel(channel) || dir == DmaDirection::Invalid {
            nd == od
        } else if dir == DmaDirection::Write {
            exists|d1: D, got: Option<u8>|
                #[trigger] D::dma_gave(od, d1, got) && match got {
                    None => r.is_none() && nd == d1,
                    Some(b) => {
                        &&& r.is_some()
                        &&& addr < 0x10000 ==> new.ram@[addr] == b
                        &&& MemoryBus::device_transfer_done(d1, nd, r)
                    },
                }
        } else if dir == DmaDirection::Read {
            exists|d1: D|
                #[trigger] D::dma_received(od, d1, old.channel_source_byte(channel))
                    && MemoryBus::device_transfer_done(d1, nd, r)
        } else {
            MemoryBus::device_transfer_done(od, nd, r)
        }
    }

    /// The RAM byte at the address of DMA channel `channel` (0xFF beyond
    /// the RAM)
    pub open spec fn channel_source_byte(self, channel: u8) -> u8 {
        let ch = self.dma.channels@[channel as int];
        let addr = ch.page as int * 0x10000 + ch.current_address as int;
        if addr < 0x10000 {
            self.ram@[addr]
        } else {
            0xFF
        }
    }

    /// The DMA channel moved one byte: it advanced, `r` tells whether it
    /// reached terminal count, and RAM changed at most at the channel's
    /// address.
    pub open spec fn dma_advanced(old: MemoryBus, new: MemoryBus, channel: u8, r: Option<bool>) -> bool {
        let ch = old.dma.channels@[channel as int];
        let addr = ch.page as int * 0x10000 + ch.current_address as int;
        &&& r == Some(ch.current_count == 0)
        &&& new.dma.channels@ == old.dma.channels@.update(channel as int, ch.spec_advance())
        &&& new.dma.command == old.dma.command
        &&& new.dma.flip_flop == old.dma.flip_flop
        &&& new.dma.temp == old.dma.temp
        &&& new.ram@.len() == old.ram@.len()
        &&& forall|a: int| 0 <= a < BANK_SIZE && a != addr ==> #[trigger] new.ram@[a] == old.ram@[a]
    }

    /// Process FDC DMA transfers on channel 2.
    ///
    /// Returns `Some(true)` if terminal count was reached, `Some(false)` if
    /// a byte was transferred, or `None` if no transfer occurred.
    pub fn fdc_dma_tick(&mut self) -> (r: Option<bool>)
        requires
            old(self).wf(),
        ensures
            final(self).wf(),
            final(self).rom@ == old(self).rom@,
            final(self).mda == old(self).mda,
            final(self).pic == old(self).pic,
            final(self).io_devices@ == old(self).io_devices@,
            !old(self).fdc.dma_pending || old(self).fdc.transfer_index
                >= old(self).fdc.transfer_buffer@.len() || !old(self).dma.is_active_channel(2) ==> r.is_none()
                && *final(self) == *old(self),
            old(self).fdc.dma_pending && old(self).fdc.transfer_index
                < old(self).fdc.transfer_buffer@.len() && old(self).dma.is_active_channel(2)
                && old(self).dma.channels@[2].spec_direction() == DmaDirection::Write ==> {
                let ch = old(self).dma.channels@[2];
                let addr = ch.page as int * 0x10000 + ch.current_address as int;
                let byte = old(self).fdc.transfer_buffer@[old(self).fdc.transfer_index as int];
                let sent = Fdc {
                    transfer_index: (old(self).fdc.transfer_index + 1) as usize,
                    ..old(self).fdc
                };
                &&& Self::dma_advanced(*old(self), *final(self), 2, r)
                &&& addr < 0x10000 ==> final(self).ram@[addr] == byte
                &&& addr >= 0x10000 ==> final(self).ram@ == old(self).ram@
                &&& r == Some(false) ==> final(self).fdc == sent
                &&& r == Some(true) ==> Fdc::transfer_ended(sent, final(self).fdc)
            },
            old(self).fdc.dma_pending && old(self).fdc.transfer_index
                < old(self).fdc.transfer_buffer@.len() && old(self).dma.is_active_channel(2)
                && old(self).dma.channels@[2].spec_direction() == DmaDirection::Read ==> {
                &&& Self::dma_advanced(*old(self), *final(self), 2, r)
                &&& final(self).ram@ == old(self).ram@
                &&& r == Some(false) ==> Fdc::byte_received(
                    old(self).fdc,
                    final(self).fdc,
                    old(self).channel_source_byte(2),
                )
                &&& r == Some(true) ==> exists|mid: Fdc|
                    #[trigger] Fdc::byte_received(old(self).fdc, mid, old(self).channel_source_byte(2))
                        && Fdc::transfer_ended(mid, final(self).fdc)
            },
            old(self).fdc.dma_pending && old(self).fdc.transfer_index
                < old(self).fdc.transfer_buffer@.len() && old(self).dma.is_active_channel(2)
                && old(self).dma.channels@[2].spec_direction() == DmaDirection::Verify ==> {
                &&& Self::dma_advanced(*old(self), *final(self), 2, r)
                &&& final(self).ram@ == old(self).ram@
                &&& r == Some(false) ==> final(self).fdc == old(self).fdc
                &&& r == Some(true) ==> Fdc::transfer_ended(old(self).fdc, final(self).fdc)
            },
            old(self).dma.channels@[2].spec_direction() == DmaDirection::Invalid ==> r.is_none()
                && *final(self) == *old(self),
    {
        if !self.fdc.dma_dreq() || !self.dma.is_channel_active(2) {
            return None;
        }
        let direction = self.dma.direction(2);
        let addr = self.dma.current_address(2);
        match direction {
            DmaDirection::Write => {
                match self.fdc.dma_read_byte() {
                    Some(byte) => {
                        if addr < 0x10000 {
                            self.ram[addr as usize] = byte;
                        }
                        let tc = self.dma.advance(2);
                        if tc {
                            self.fdc.dma_terminal_count();
                        }
                        Some(tc)
                    },
                    None => None,
                }
            },
            DmaDirection::Read => {
                let byte = if addr < 0x10000 {
                    self.ram[addr as usize]
                } else {
                    0xFF
                };
                self.fdc.dma_write_byte(byte);
                let ghost received = self.fdc;
                assert(byte == old(self).channel_source_byte(2));
                let tc = self.dma.advance(2);
                if tc {
                    self.fdc.dma_terminal_count();
                    assert(Fdc::byte_received(old(self).fdc, received, old(self).channel_source_byte(2)));
                }
                Some(tc)
            },
            DmaDirection::Verify => {
                let tc = self.dma.advance(2);
                if tc {
                    self.fdc.dma_terminal_count();
                }
                Some(tc)
            },
            DmaDirection::Invalid => None,
        }
    }

    /// Get a reference to the PIC (Programmable Interrupt Controller)
    pub fn pic(&self) -> (r: &Pic)
        ensures
            *r == self.pic,
    {
        &self.pic
    }

    /// Get a mutable reference to the PIC (Programmable Interrupt Controller)
    pub fn pic_mut(&mut self) -> (r: &mut Pic)
        ensures
            *r == old(self).pic,
            *final(self) == (MemoryBus { pic: *final(r), ..*old(self) }),
    {
        &mut self.pic
    }

    /// Get a reference to the MDA (Monochrome Display Adapter)
    pub fn mda(&self) -> (r: &Mda)
        ensures
            *r == self.mda,
    {
        &self.mda
    }

    /// Get a mutable reference to the MDA (Monochrome Display Adapter)
    pub fn mda_mut(&mut self) -> (r: &mut Mda)
        ensures
            *r == old(self).mda,
            *final(self) == (MemoryBus { mda: *final(r), ..*old(self) }),
    {
        &mut self.mda
    }

    /// Get a reference to the DMA controller
    pub fn dma(&self) -> (r: &Dma)
        ensures
            *r == self.dma,
    {
        &self.dma
    }

    /// Get a mutable reference to the DMA controller
    pub fn dma_mut(&mut self) -> (r: &mut Dma)
        ensures
            *r == old(self).dma,
            *final(self) == (MemoryBus { dma: *final(r), ..*old(self) }),
    {
        &mut self.dma
    }

    /// Get a reference to the FDC (Floppy Disk Controller)
    pub fn fdc(&self) -> (r: &Fdc)
        ensures
            *r == self.fdc,
    {
        &self.fdc
    }

    /// Get a mutable reference to the FDC (Floppy Disk Controller)
    pub fn fdc_mut(&mut self) -> (r: &mut Fdc)
        ensures
            *r == old(self).fdc,
            *final(self) == (MemoryBus { fdc: *final(r), ..*old(self) }),
    {
        &mut self.fdc
    }
}

/// The low and high bytes of a word put back together give the word.
pub proof fn lemma_word_bytes(v: u16)
    by (bit_vector)
    ensures
        ((v as u8) as u16 | (((v >> 8u16) as u8) as u16) << 8u16) == v,
{
}

/// A byte written to writable memory reads back; every other address
/// keeps its byte; writes to ROM and unmapped space change nothing.
pub proof fn law_byte_read_after_write(old: MemoryBus, new: MemoryBus, addr: u32, value: u8, other: u32)
    requires
        MemoryBus::written(old, new, addr, value),
    ensures
        is_writable(addr) ==> new.byte(addr) == value,
        !is_writable(addr) ==> new.byte(addr) == old.byte(addr),
        other != addr ==> new.byte(other) == old.byte(other),
{
    assert(new.byte(addr) == (if is_writable(addr) { value } else { old.byte(addr) }));
    assert(new.byte(other) == (if other == addr && is_writable(addr) { value } else { old.byte(other) }));
}

/// A word written to writable memory reads back as that word; the bytes
/// outside it are kept.
pub proof fn law_word_read_after_write(old: MemoryBus, new: MemoryBus, addr: u32, value: u16, other: u32)
    requires
        MemoryBus::word_written(old, new, addr, value),
        addr < u32::MAX,
    ensures
        is_writable(addr) && is_writable((addr + 1) as u32) ==> new.word(addr) == value,
        other != addr && other != addr + 1 ==> new.byte(other) == old.byte(other),
{
    assert(new.byte(addr) == (if addr == addr + 1 && is_writable(addr) {
        (value >> 8u16) as u8
    } else if is_writable(addr) {
        value as u8
    } else {
        old.byte(addr)
    }));
    let hi = (addr + 1) as u32;
    assert(new.byte(hi) == (if hi == addr + 1 && is_writable(hi) {
        (value >> 8u16) as u8
    } else if hi == addr && is_writable(hi) {
        value as u8
    } else {
        old.byte(hi)
    }));
    assert(new.byte(other) == (if other == addr + 1 && is_writable(other) {
        (value >> 8u16) as u8
    } else if other == addr && is_writable(other) {
        value as u8
    } else {
        old.byte(other)
    }));
    lemma_word_bytes(value);
}

} // verus!
