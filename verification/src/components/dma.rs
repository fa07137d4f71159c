//! Intel 8237A DMA Controller
//!
//! The IBM PC uses the 8237A DMA controller for direct memory access by peripherals.
//! This implementation supports all standard 8237A features:
//! - 4 independent DMA channels
//! - Single, block, demand, and cascade transfer modes
//! - Auto-initialization for continuous transfers
//! - Address increment/decrement
//!
//! ## IBM PC Channel Assignments
//! - Channel 0: Memory refresh (DRAM refresh)
//! - Channel 1: User / Sound cards
//! - Channel 2: Floppy disk controller
//! - Channel 3: Hard disk controller (XT)
//!
//! ## Port Map
//! - 0x00-0x07: Channel address/count registers
//! - 0x08-0x0F: Control registers
//! - 0x81, 0x82, 0x83, 0x87: Page registers (extend to 20-bit addressing)

use crate::components::pic::Pic;
use crate::io::IoDevice;
use std::ops::RangeInclusive;
use vstd::prelude::*;

verus! {

/// DMA page register port of channel 0
pub const DMA_PAGE_CH0: u16 = 0x87;

/// DMA page register port of channel 1
pub const DMA_PAGE_CH1: u16 = 0x83;

/// DMA page register port of channel 2
pub const DMA_PAGE_CH2: u16 = 0x81;

/// DMA page register port of channel 3
pub const DMA_PAGE_CH3: u16 = 0x82;

/// DMA transfer direction (from memory's perspective)
#[derive(Debug, Clone, Copy, PartialEq, Eq, Structural)]
pub enum DmaDirection {
    /// Pseudo-transfer: address counting without data movement (0b00)
    Verify,
    /// Device -> Memory, e.g. reading from floppy disk (0b01)
    Write,
    /// Memory -> Device, e.g. writing to floppy disk (0b10)
    Read,
    /// Invalid/illegal transfer type (0b11)
    Invalid,
}

/// The direction that the two low bits of `value` select.
pub open spec fn direction_of(value: u8) -> DmaDirection {
    let b = value & 0b11;
    if b == 0 {
        DmaDirection::Verify
    } else if b == 1 {
        DmaDirection::Write
    } else if b == 2 {
        DmaDirection::Read
    } else {
        DmaDirection::Invalid
    }
}

impl From<u8> for DmaDirection {
    fn from(value: u8) -> (r: Self) {
        let b = value & 0b11;
        if b == 0 {
            DmaDirection::Verify
        } else if b == 1 {
            DmaDirection::Write
        } else if b == 2 {
            DmaDirection::Read
        } else {
            DmaDirection::Invalid
        }
    }
}

impl vstd::std_specs::convert::FromSpecImpl<u8> for DmaDirection {
    open spec fn obeys_from_spec() -> bool {
        true
    }

    open spec fn from_spec(v: u8) -> DmaDirection {
        direction_of(v)
    }
}

/// DMA transfer mode
#[derive(Debug, Clone, Copy, PartialEq, Eq, Structural)]
pub enum DmaTransferMode {
    /// Transfer while DREQ is asserted (0b00)
    Demand,
    /// One byte per DREQ pulse, used by the FDC (0b01)
    Single,
    /// Continuous transfer until count exhausted (0b10)
    Block,
    /// For cascading another DMA controller (0b11)
    Cascade,
}

/// The transfer mode that the two low bits of `value` select.
pub open spec fn transfer_mode_of(value: u8) -> DmaTransferMode {
    let b = value & 0b11;
    if b == 0 {
        DmaTransferMode::Demand
    } else if b == 1 {
        DmaTransferMode::Single
    } else if b == 2 {
        DmaTransferMode::Block
    } else {
        DmaTransferMode::Cascade
    }
}

impl From<u8> for DmaTransferMode {
    fn from(value: u8) -> (r: Self) {
        let b = value & 0b11;
        if b == 0 {
            DmaTransferMode::Demand
        } else if b == 1 {
            DmaTransferMode::Single
        } else if b == 2 {
            DmaTransferMode::Block
        } else {
            DmaTransferMode::Cascade
        }
    }
}

impl vstd::std_specs::convert::FromSpecImpl<u8> for DmaTransferMode {
    open spec fn obeys_from_spec() -> bool {
        true
    }

    open spec fn from_spec(v: u8) -> DmaTransferMode {
        transfer_mode_of(v)
    }
}

/// Per-channel DMA state
#[derive(Debug, Clone, Copy)]
pub struct DmaChannel {
    /// Base address register (latched when programmed)
    pub base_address: u16,
    /// Base count register (latched when programmed)
    pub base_count: u16,
    /// Current address register (active during transfer)
    pub current_address: u16,
    /// Current count register (decrements during transfer)
    pub current_count: u16,
    /// Page register (extends address to 20-bit)
    pub page: u8,
    /// Mode register for this channel
    pub mode: u8,
    /// DREQ line state (set by device)
    pub dreq: bool,
    /// Channel is masked (disabled)
    pub masked: bool,
    /// Terminal count reached (latched until status read)
    pub terminal_count: bool,
}

/// Replaces the high (`high`) or the low byte of `word` with `value`.
pub open spec fn with_byte(word: u16, high: bool, value: u8) -> u16 {
    if high {
        (word & 0x00FF) | ((value as u16) << 8u16)
    } else {
        (word & 0xFF00) | (value as u16)
    }
}

/// The high (`high`) or the low byte of `word`.
pub open spec fn byte_of(word: u16, high: bool) -> u8 {
    if high {
        (word >> 8u16) as u8
    } else {
        word as u8
    }
}

impl DmaChannel {
    /// The transfer direction that the mode register selects.
    pub open spec fn spec_direction(self) -> DmaDirection {
        direction_of((self.mode >> 2u8) & 0b11)
    }

    /// Whether the address counts up.
    pub open spec fn spec_increment(self) -> bool {
        self.mode & 0b0010_0000 == 0
    }

    /// Whether auto-initialization is enabled.
    pub open spec fn spec_auto_init(self) -> bool {
        self.mode & 0b0001_0000 != 0
    }

    /// Whether the channel is ready for a transfer.
    pub open spec fn spec_active(self) -> bool {
        self.dreq && !self.masked && self.spec_direction() != DmaDirection::Invalid
    }

    /// The channel state after a one-byte advance.
    pub open spec fn spec_advance(self) -> DmaChannel {
        let addr = if self.spec_increment() {
            self.current_address.wrapping_add(1)
        } else {
            self.current_address.wrapping_sub(1)
        };
        if self.current_count == 0 {
            if self.spec_auto_init() {
                DmaChannel {
                    terminal_count: true,
                    current_address: self.base_address,
                    current_count: self.base_count,
                    ..self
                }
            } else {
                DmaChannel { terminal_count: true, current_address: addr, ..self }
            }
        } else {
            DmaChannel {
                current_address: addr,
                current_count: (self.current_count - 1) as u16,
                ..self
            }
        }
    }

    /// Create a new DMA channel in reset state
    pub fn new() -> (r: Self)
        ensures
            r == (DmaChannel {
                base_address: 0,
                base_count: 0,
                current_address: 0,
                current_count: 0,
                page: 0,
                mode: 0,
                dreq: false,
                masked: true,
                terminal_count: false,
            }),
    {
        Self {
            base_address: 0,
            base_count: 0,
            current_address: 0,
            current_count: 0,
            page: 0,
            mode: 0,
            dreq: false,
            masked: true,  // Channels start masked
            terminal_count: false,
        }
    }

    /// Reset channel to initial state (the page register is kept)
    pub fn reset(&mut self)
        ensures
            *final(self) == (DmaChannel { page: old(self).page, ..DmaChannel::spec_new() }),
    {
        self.base_address = 0;
        self.base_count = 0;
        self.current_address = 0;
        self.current_count = 0;
        // Page register is NOT reset by master clear
        self.mode = 0;
        self.dreq = false;
        self.masked = true;
        self.terminal_count = false;
    }

    /// A channel in reset state.
    pub open spec fn spec_new() -> DmaChannel {
        DmaChannel {
            base_address: 0,
            base_count: 0,
            current_address: 0,
            current_count: 0,
            page: 0,
            mode: 0,
            dreq: false,
            masked: true,
            terminal_count: false,
        }
    }

    /// Get the transfer direction for this channel
    pub fn direction(&self) -> (r: DmaDirection)
        ensures
            r == self.spec_direction(),
    {
        DmaDirection::from((self.mode >> 2u8) & 0b11)
    }

    /// Get the transfer mode for this channel
    pub fn transfer_mode(&self) -> (r: DmaTransferMode)
        ensures
            r == transfer_mode_of((self.mode >> 6u8) & 0b11),
    {
        DmaTransferMode::from((self.mode >> 6u8) & 0b11)
    }

    /// Returns true if address should increment, false if decrement
    pub fn address_increment(&self) -> (r: bool)
        ensures
            r == self.spec_increment(),
    {
        (self.mode & 0b0010_0000) == 0
    }

    /// Returns true if auto-init is enabled
    pub fn auto_init(&self) -> (r: bool)
        ensures
            r == self.spec_auto_init(),
    {
        (self.mode & 0b0001_0000) != 0
    }

    /// Get the 20-bit physical address for the current transfer
    pub fn physical_address(&self) -> (r: u32)
        ensures
            r == self.page as int * 0x10000 + self.current_address as int,
    {
        let p = self.page as u32;
        let a = self.current_address as u32;
        assert((p << 16u32) | a == p * 0x10000 + a) by (bit_vector)
            requires
                p < 0x100,
                a < 0x10000,
        ;
        (p << 16u32) | a
    }

    /// Check if this channel is ready for transfer
    pub fn is_active(&self) -> (r: bool)
        ensures
            r == self.spec_active(),
    {
        self.dreq && !self.masked && self.direction() != DmaDirection::Invalid
    }

    /// Advance the transfer by one byte
    /// Returns true if terminal count is reached
    pub fn advance(&mut self) -> (tc: bool)
        ensures
            tc == (old(self).current_count == 0),
            *final(self) == old(self).spec_advance(),
    {
        if self.address_increment() {
            self.current_address = self.current_address.wrapping_add(1);
        } else {
            self.current_address = self.current_address.wrapping_sub(1);
        }
        // Decrement count (TC occurs when count underflows from 0)
        if self.current_count == 0 {
            self.terminal_count = true;
            // Auto-init: reload base values
            if self.auto_init() {
                self.current_address = self.base_address;
                self.current_count = self.base_count;
            }
            return true;
        }
        self.current_count = self.current_count - 1;
        false
    }

    /// Set address register (called twice due to flip-flop)
    pub fn set_address_byte(&mut self, high: bool, value: u8)
        ensures
            *final(self) == (DmaChannel {
                base_address: with_byte(old(self).base_address, high, value),
                current_address: with_byte(old(self).current_address, high, value),
                ..*old(self)
            }),
    {
        if high {
            self.base_address = (self.base_address & 0x00FF) | ((value as u16) << 8u16);
            self.current_address = (self.current_address & 0x00FF) | ((value as u16) << 8u16);
        } else {
            self.base_address = (self.base_address & 0xFF00) | (value as u16);
            self.current_address = (self.current_address & 0xFF00) | (value as u16);
        }
    }

    /// Get address register byte (called twice due to flip-flop)
    pub fn get_address_byte(&self, high: bool) -> (r: u8)
        ensures
            r == byte_of(self.current_address, high),
    {
        if high {
            (self.current_address >> 8u16) as u8
        } else {
            self.current_address as u8
        }
    }

    /// Set count register (called twice due to flip-flop)
    pub fn set_count_byte(&mut self, high: bool, value: u8)
        ensures
            *final(self) == (DmaChannel {
                base_count: with_byte(old(self).base_count, high, value),
                current_count: with_byte(old(self).current_count, high, value),
                ..*old(self)
            }),
    {
        if high {
            self.base_count = (self.base_count & 0x00FF) | ((value as u16) << 8u16);
            self.current_count = (self.current_count & 0x00FF) | ((value as u16) << 8u16);
        } else {
            self.base_count = (self.base_count & 0xFF00) | (value as u16);
            self.current_count = (self.current_count & 0xFF00) | (value as u16);
        }
    }

    /// Get count register byte (called twice due to flip-flop)
    pub fn get_count_byte(&self, high: bool) -> (r: u8)
        ensures
            r == byte_of(self.current_count, high),
    {
        if high {
            (self.current_count >> 8u16) as u8
        } else {
            self.current_count as u8
        }
    }
}

impl Default for DmaChannel {
    fn default() -> (r: Self)
        ensures
            r == DmaChannel::spec_new(),
    {
        Self::new()
    }
}

/// Trait for devices that can perform DMA transfers
///
/// Devices like the FDC and sound cards implement this trait.
/// The MemoryBus uses this to coordinate transfers between
/// memory and the device.
pub trait DmaCapable: Sized {
    /// `new` is `old` after it handed `r` over for a write to memory
    spec fn dma_gave(old: Self, new: Self, r: Option<u8>) -> bool;

    /// `new` is `old` after it took `value` read from memory
    spec fn dma_received(old: Self, new: Self, value: u8) -> bool;

    /// `new` is `old` after its transfer reached terminal count
    spec fn dma_ended(old: Self, new: Self) -> bool;

    /// Check if device is requesting DMA transfer
    fn dma_dreq(&self) -> bool;

    /// Provide a byte for memory write (device -> memory)
    /// Returns None if no data available
    fn dma_read_byte(&mut self) -> (r: Option<u8>)
        ensures
            Self::dma_gave(*old(self), *final(self), r),
    ;

    /// Receive a byte from memory read (memory -> device)
    fn dma_write_byte(&mut self, value: u8)
        ensures
            Self::dma_received(*old(self), *final(self), value),
    ;

    /// Called when terminal count is reached
    fn dma_terminal_count(&mut self)
        ensures
            Self::dma_ended(*old(self), *final(self)),
    ;
}

/// Intel 8237A DMA Controller
#[derive(Debug, Clone)]
pub struct Dma {
    /// Four DMA channels
    pub channels: [DmaChannel; 4],
    /// Command register (port 0x08 write); bit 2 disables the controller
    pub command: u8,
    /// Flip-flop for 16-bit register access: false = low byte next
    pub flip_flop: bool,
    /// Temporary register (for memory-to-memory transfers)
    pub temp: u8,
}

/// Bits 0..n of the status byte: terminal count of channels 0..n.
pub open spec fn tc_bits(chs: Seq<DmaChannel>, n: int) -> u8
    decreases n,
{
    if n <= 0 {
        0
    } else {
        if chs[n - 1].terminal_count {
            tc_bits(chs, n - 1) | ((1u8 << ((n - 1) as u8)) as u8)
        } else {
            tc_bits(chs, n - 1)
        }
    }
}

/// Bits 4..4+n of the status byte: DREQ lines of channels 0..n.
pub open spec fn dreq_bits(chs: Seq<DmaChannel>, n: int) -> u8
    decreases n,
{
    if n <= 0 {
        0
    } else {
        if chs[n - 1].dreq {
            dreq_bits(chs, n - 1) | ((1u8 << ((n + 3) as u8)) as u8)
        } else {
            dreq_bits(chs, n - 1)
        }
    }
}

/// Bits 0..n of the mask byte: mask of channels 0..n.
pub open spec fn mask_bits(chs: Seq<DmaChannel>, n: int) -> u8
    decreases n,
{
    if n <= 0 {
        0
    } else {
        if chs[n - 1].masked {
            mask_bits(chs, n - 1) | ((1u8 << ((n - 1) as u8)) as u8)
        } else {
            mask_bits(chs, n - 1)
        }
    }
}

/// Whether `port` is one of the four page registers.
pub open spec fn is_page_port(port: u16) -> bool {
    port == DMA_PAGE_CH0 || port == DMA_PAGE_CH1 || port == DMA_PAGE_CH2 || port == DMA_PAGE_CH3
}

/// The channel whose page register sits at `port`.
pub open spec fn page_channel(port: u16) -> int {
    if port == DMA_PAGE_CH0 {
        0
    } else if port == DMA_PAGE_CH1 {
        1
    } else if port == DMA_PAGE_CH2 {
        2
    } else {
        3
    }
}

impl Dma {
    /// A controller in reset state.
    pub open spec fn spec_new_channels_ok(chs: Seq<DmaChannel>) -> bool {
        &&& chs.len() == 4
        &&& forall|i: int| 0 <= i < 4 ==> chs[i] == DmaChannel::spec_new()
    }

    /// Create a new DMA controller in reset state
    pub fn new() -> (r: Self)
        ensures
            Dma::spec_new_channels_ok(r.channels@),
            r.command == 0,
            !r.flip_flop,
            r.temp == 0,
    {
        Self {
            channels: [DmaChannel::new(), DmaChannel::new(), DmaChannel::new(), DmaChannel::new()],
            command: 0,
            flip_flop: false,
            temp: 0,
        }
    }

    /// Master reset - resets controller to initial state (page registers kept)
    pub fn master_reset(&mut self)
        ensures
            forall|i: int|
                0 <= i < 4 ==> #[trigger] final(self).channels@[i] == (DmaChannel {
                    page: old(self).channels@[i].page,
                    ..DmaChannel::spec_new()
                }),
            final(self).command == 0,
            !final(self).flip_flop,
            final(self).temp == 0,
    {
        let mut i: usize = 0;
        while i < 4
            invariant
                0 <= i <= 4,
                forall|j: int|
                    0 <= j < i ==> #[trigger] self.channels@[j] == (DmaChannel {
                        page: old(self).channels@[j].page,
                        ..DmaChannel::spec_new()
                    }),
                forall|j: int| i <= j < 4 ==> #[trigger] self.channels@[j] == old(self).channels@[j],
            decreases 4 - i,
        {
            self.channels[i].reset();
            i = i + 1;
        }
        self.command = 0;
        self.flip_flop = false;
        self.temp = 0;
    }

    /// Check if the controller is disabled
    pub fn is_disabled(&self) -> (r: bool)
        ensures
            r == (self.command & 0b0000_0100 != 0),
    {
        (self.command & 0b0000_0100) != 0
    }

    /// Whether the controller is enabled and `channel` is active.
    pub open spec fn is_active_channel(self, channel: u8) -> bool {
        self.command & 0b0000_0100 == 0 && self.channels@[channel as int].spec_active()
    }

    /// Check if a channel is active and ready for transfer
    pub fn is_channel_active(&self, channel: u8) -> (r: bool)
        requires
            channel < 4,
        ensures
            r == self.is_active_channel(channel),
    {
        if self.is_disabled() {
            return false;
        }
        self.channels[channel as usize].is_active()
    }

    /// Set DREQ line state for a channel
    pub fn set_dreq(&mut self, channel: u8, active: bool)
        requires
            channel < 4,
        ensures
            final(self).channels@ == old(self).channels@.update(
                channel as int,
                DmaChannel { dreq: active, ..old(self).channels@[channel as int] },
            ),
            final(self).command == old(self).command,
            final(self).flip_flop == old(self).flip_flop,
            final(self).temp == old(self).temp,
    {
        self.channels[channel as usize].dreq = active;
    }

    /// Get DREQ line state for a channel
    pub fn get_dreq(&self, channel: u8) -> (r: bool)
        requires
            channel < 4,
        ensures
            r == self.channels@[channel as int].dreq,
    {
        self.channels[channel as usize].dreq
    }

    /// Check if terminal count was reached for a channel
    pub fn terminal_count(&self, channel: u8) -> (r: bool)
        requires
            channel < 4,
        ensures
            r == self.channels@[channel as int].terminal_count,
    {
        self.channels[channel as usize].terminal_count
    }

    /// Clear terminal count flag for a channel
    pub fn clear_terminal_count(&mut self, channel: u8)
        requires
            channel < 4,
        ensures
            final(self).channels@ == old(self).channels@.update(
                channel as int,
                DmaChannel { terminal_count: false, ..old(self).channels@[channel as int] },
            ),
            final(self).command == old(self).command,
            final(self).flip_flop == old(self).flip_flop,
            final(self).temp == old(self).temp,
    {
        self.channels[channel as usize].terminal_count = false;
    }

    /// Get the current physical address for a channel
    pub fn current_address(&self, channel: u8) -> (r: u32)
        requires
            channel < 4,
        ensures
            r == self.channels@[channel as int].page as int * 0x10000
                + self.channels@[channel as int].current_address as int,
    {
        self.channels[channel as usize].physical_address()
    }

    /// Get the current count for a channel
    pub fn current_count(&self, channel: u8) -> (r: u16)
        requires
            channel < 4,
        ensures
            r == self.channels@[channel as int].current_count,
    {
        self.channels[channel as usize].current_count
    }

    /// Get the transfer direction for a channel
    pub fn direction(&self, channel: u8) -> (r: DmaDirection)
        requires
            channel < 4,
        ensures
            r == self.channels@[channel as int].spec_direction(),
    {
        self.channels[channel as usize].direction()
    }

    /// Get the transfer mode for a channel
    pub fn transfer_mode(&self, channel: u8) -> (r: DmaTransferMode)
        requires
            channel < 4,
        ensures
            r == transfer_mode_of((self.channels@[channel as int].mode >> 6u8) & 0b11),
    {
        self.channels[channel as usize].transfer_mode()
    }

    /// Advance transfer for a channel by one byte
    /// Returns true if terminal count was reached
    pub fn advance(&mut self, channel: u8) -> (tc: bool)
        requires
            channel < 4,
        ensures
            tc == (old(self).channels@[channel as int].current_count == 0),
            final(self).channels@ == old(self).channels@.update(
                channel as int,
                old(self).channels@[channel as int].spec_advance(),
            ),
            final(self).command == old(self).command,
            final(self).flip_flop == old(self).flip_flop,
            final(self).temp == old(self).temp,
    {
        self.channels[channel as usize].advance()
    }

    /// The status register: terminal counts in bits 0-3, DREQ lines in bits 4-7.
    pub open spec fn spec_status(self) -> u8 {
        tc_bits(self.channels@, 4) | dreq_bits(self.channels@, 4)
    }

    /// The mask register: bit i set when channel i is masked.
    pub open spec fn spec_mask(self) -> u8 {
        mask_bits(self.channels@, 4)
    }

    /// Build status register value
    pub fn build_status(&self) -> (r: u8)
        ensures
            r == self.spec_status(),
    {
        let mut tc: u8 = 0;
        let mut i: usize = 0;
        while i < 4
            invariant
                0 <= i <= 4,
                tc == tc_bits(self.channels@, i as int),
            decreases 4 - i,
        {
            if self.channels[i].terminal_count {
                tc = tc | (1u8 << (i as u8));
            }
            i = i + 1;
        }
        let mut dr: u8 = 0;
        let mut j: usize = 0;
        while j < 4
            invariant
                0 <= j <= 4,
                dr == dreq_bits(self.channels@, j as int),
            decreases 4 - j,
        {
            if self.channels[j].dreq {
                dr = dr | (1u8 << ((j + 4) as u8));
            }
            j = j + 1;
        }
        tc | dr
    }

    /// Build the mask register value (bit set = channel masked)
    pub fn build_mask(&self) -> (r: u8)
        ensures
            r == self.spec_mask(),
    {
        let mut mask: u8 = 0;
        let mut i: usize = 0;
        while i < 4
            invariant
                0 <= i <= 4,
                mask == mask_bits(self.channels@, i as int),
            decreases 4 - i,
        {
            if self.channels[i].masked {
                mask = mask | (1u8 << (i as u8));
            }
            i = i + 1;
        }
        mask
    }

    /// Handle write to mode register (port 0x0B): the low two bits select the channel
    pub fn write_mode(&mut self, value: u8)
        ensures
            final(self).channels@ == old(self).channels@.update(
                (value & 0b11) as int,
                DmaChannel { mode: value, ..old(self).channels@[(value & 0b11) as int] },
            ),
            final(self).command == old(self).command,
            final(self).flip_flop == old(self).flip_flop,
            final(self).temp == old(self).temp,
    {
        let channel = (value & 0b11) as usize;
        assert(value & 0b11 < 4) by (bit_vector);
        self.channels[channel].mode = value;
    }

    /// Handle write to single mask register (port 0x0A)
    pub fn write_single_mask(&mut self, value: u8)
        ensures
            final(self).channels@ == old(self).channels@.update(
                (value & 0b11) as int,
                DmaChannel { masked: value & 0b100 != 0, ..old(self).channels@[(value & 0b11) as int] },
            ),
            final(self).command == old(self).command,
            final(self).flip_flop == old(self).flip_flop,
            final(self).temp == old(self).temp,
    {
        let channel = (value & 0b11) as usize;
        assert(value & 0b11 < 4) by (bit_vector);
        let set_mask = (value & 0b100) != 0;
        self.channels[channel].masked = set_mask;
    }

    /// Handle write to request register (port 0x09): software DMA request
    pub fn write_request(&mut self, value: u8)
        ensures
            final(self).channels@ == old(self).channels@.update(
                (value & 0b11) as int,
                DmaChannel { dreq: value & 0b100 != 0, ..old(self).channels@[(value & 0b11) as int] },
            ),
            final(self).command == old(self).command,
            final(self).flip_flop == old(self).flip_flop,
            final(self).temp == old(self).temp,
    {
        let channel = (value & 0b11) as usize;
        assert(value & 0b11 < 4) by (bit_vector);
        let set_request = (value & 0b100) != 0;
        self.channels[channel].dreq = set_request;
    }

    /// Read one byte of a channel address or count register (ports 0x00-0x07)
    pub fn channel_register_read(&mut self, port: u16) -> (r: u8)
        requires
            port < 8,
        ensures
            r == (if port & 1 != 0 {
                byte_of(old(self).channels@[(port / 2) as int].current_count, old(self).flip_flop)
            } else {
                byte_of(old(self).channels@[(port / 2) as int].current_address, old(self).flip_flop)
            }),
            final(self).flip_flop == !old(self).flip_flop,
            final(self).channels == old(self).channels,
            final(self).command == old(self).command,
            final(self).temp == old(self).temp,
    {
        assert(port >> 1u16 == port / 2) by (bit_vector);
        let channel = (port >> 1u16) as usize;
        let is_count = (port & 1) != 0;
        let high = self.flip_flop;
        self.flip_flop = !self.flip_flop;
        if is_count {
            self.channels[channel].get_count_byte(high)
        } else {
            self.channels[channel].get_address_byte(high)
        }
    }

    /// Write one byte of a channel address or count register (ports 0x00-0x07)
    pub fn channel_register_write(&mut self, port: u16, value: u8)
        requires
            port < 8,
        ensures
            final(self).channels@ == old(self).channels@.update(
                (port / 2) as int,
                if port & 1 != 0 {
                    DmaChannel {
                        base_count: with_byte(old(self).channels@[(port / 2) as int].base_count, old(self).flip_flop, value),
                        current_count: with_byte(old(self).channels@[(port / 2) as int].current_count, old(self).flip_flop, value),
                        ..old(self).channels@[(port / 2) as int]
                    }
                } else {
                    DmaChannel {
                        base_address: with_byte(old(self).channels@[(port / 2) as int].base_address, old(self).flip_flop, value),
                        current_address: with_byte(old(self).channels@[(port / 2) as int].current_address, old(self).flip_flop, value),
                        ..old(self).channels@[(port / 2) as int]
                    }
                },
            ),
            final(self).flip_flop == !old(self).flip_flop,
            final(self).command == old(self).command,
            final(self).temp == old(self).temp,
    {
        assert(port >> 1u16 == port / 2) by (bit_vector);
        let channel = (port >> 1u16) as usize;
        let is_count = (port & 1) != 0;
        let high = self.flip_flop;
        self.flip_flop = !self.flip_flop;
        if is_count {
            self.channels[channel].set_count_byte(high, value);
        } else {
            self.channels[channel].set_address_byte(high, value);
        }
    }

    /// `n` is `o` after `r` is read from `port`.
    pub open spec fn read_effect(o: Dma, n: Dma, port: u16, r: u8) -> bool {
        &&& port < 8 ==> {
            &&& r == (if port & 1 != 0 {
                byte_of(o.channels@[(port / 2) as int].current_count, o.flip_flop)
            } else {
                byte_of(o.channels@[(port / 2) as int].current_address, o.flip_flop)
            })
            &&& n.flip_flop == !o.flip_flop
            &&& n.channels == o.channels
        }
        &&& port == 0x08 ==> {
            &&& r == o.spec_status()
            &&& forall|i: int|
                0 <= i < 4 ==> #[trigger] n.channels@[i] == (DmaChannel {
                    terminal_count: false,
                    ..o.channels@[i]
                })
            &&& n.flip_flop == o.flip_flop
        }
        &&& port == 0x0A ==> r == o.spec_mask() && n == o
        &&& port == 0x0D ==> r == o.temp && n == o
        &&& is_page_port(port) ==> r == o.channels@[page_channel(port)].page && n == o
        &&& (port == 0x09 || port == 0x0B || port == 0x0C || port == 0x0E || port == 0x0F || (port
            > 0x0F && !is_page_port(port))) ==> r == 0xFF && n == o
        &&& n.command == o.command
        &&& n.temp == o.temp
    }

    /// Read a byte from a DMA port.
    ///
    /// Ports 0x00-0x07 read address/count bytes through the flip-flop; port
    /// 0x08 returns the status register and clears all terminal-count flags;
    /// port 0x0A returns the mask bits; port 0x0D the temporary register; the
    /// page registers return their value; every other port returns 0xFF.
    pub fn read_u8(&mut self, port: u16) -> (r: u8)
        ensures
            Dma::read_effect(*old(self), *final(self), port, r),
    {
        if port < 8 {
            self.channel_register_read(port)
        } else if port == 0x08 {
            let status = self.build_status();
            // Reading status clears TC flags
            let mut i: usize = 0;
            while i < 4
                invariant
                    0 <= i <= 4,
                    self.command == old(self).command,
                    self.temp == old(self).temp,
                    self.flip_flop == old(self).flip_flop,
                    forall|j: int|
                        0 <= j < i ==> #[trigger] self.channels@[j] == (DmaChannel {
                            terminal_count: false,
                            ..old(self).channels@[j]
                        }),
                    forall|j: int| i <= j < 4 ==> #[trigger] self.channels@[j] == old(self).channels@[j],
                decreases 4 - i,
            {
                self.channels[i].terminal_count = false;
                i = i + 1;
            }
            status
        } else if port == 0x0A {
            self.build_mask()
        } else if port == 0x0D {
            self.temp
        } else if port == DMA_PAGE_CH0 {
            self.channels[0].page
        } else if port == DMA_PAGE_CH1 {
            self.channels[1].page
        } else if port == DMA_PAGE_CH2 {
            self.channels[2].page
        } else if port == DMA_PAGE_CH3 {
            self.channels[3].page
        } else {
            0xFF
        }
    }

    /// `new` is the controller after `value` is written to `port` of `old`.
    pub open spec fn write_effect(old: Dma, new: Dma, port: u16, value: u8) -> bool {
        &&& port < 8 ==> new.flip_flop == !old.flip_flop
        &&& port == 0x08 ==> new == (Dma { command: value, ..old })
        &&& port == 0x09 ==> new.channels@ == old.channels@.update(
            (value & 0b11) as int,
            DmaChannel { dreq: value & 0b100 != 0, ..old.channels@[(value & 0b11) as int] },
        )
        &&& port == 0x0A ==> new.channels@ == old.channels@.update(
            (value & 0b11) as int,
            DmaChannel { masked: value & 0b100 != 0, ..old.channels@[(value & 0b11) as int] },
        )
        &&& port == 0x0B ==> new.channels@ == old.channels@.update(
            (value & 0b11) as int,
            DmaChannel { mode: value, ..old.channels@[(value & 0b11) as int] },
        )
        &&& port == 0x0C ==> new == (Dma { flip_flop: false, ..old })
        &&& port == 0x0D ==> {
            &&& new.command == 0
            &&& !new.flip_flop
            &&& new.temp == 0
            &&& forall|i: int|
                0 <= i < 4 ==> #[trigger] new.channels@[i] == (DmaChannel {
                    page: old.channels@[i].page,
                    ..DmaChannel::spec_new()
                })
        }
        &&& port == 0x0E ==> forall|i: int|
            0 <= i < 4 ==> #[trigger] new.channels@[i] == (DmaChannel {
                masked: false,
                ..old.channels@[i]
            })
        &&& port == 0x0F ==> forall|i: int|
            0 <= i < 4 ==> #[trigger] new.channels@[i] == (DmaChannel {
                masked: value & ((1u8 << (i as u8)) as u8) != 0,
                ..old.channels@[i]
            })
        &&& is_page_port(port) ==> new.channels@ == old.channels@.update(
            page_channel(port),
            DmaChannel { page: value, ..old.channels@[page_channel(port)] },
        )
        &&& port > 0x0F && !is_page_port(port) ==> new == old
        &&& port != 0x08 && port != 0x0D ==> new.command == old.command
        &&& port != 0x0D ==> new.temp == old.temp
        &&& 8 <= port && port != 0x0C && port != 0x0D ==> new.flip_flop == old.flip_flop
        &&& port < 8 ==> new.channels@ == old.channels@.update(
            (port / 2) as int,
            if port & 1 != 0 {
                DmaChannel {
                    base_count: with_byte(old.channels@[(port / 2) as int].base_count, old.flip_flop, value),
                    current_count: with_byte(old.channels@[(port / 2) as int].current_count, old.flip_flop, value),
                    ..old.channels@[(port / 2) as int]
                }
            } else {
                DmaChannel {
                    base_address: with_byte(old.channels@[(port / 2) as int].base_address, old.flip_flop, value),
                    current_address: with_byte(old.channels@[(port / 2) as int].current_address, old.flip_flop, value),
                    ..old.channels@[(port / 2) as int]
                }
            },
        )
    }

    /// Write a byte to a DMA port.
    ///
    /// Ports 0x00-0x07 program address/count bytes; 0x08 the command register;
    /// 0x09 the request register; 0x0A the single mask; 0x0B the mode; 0x0C
    /// clears the flip-flop; 0x0D performs a master clear; 0x0E unmasks all
    /// channels; 0x0F writes all mask bits; the page ports set the page registers.
    pub fn write_u8(&mut self, port: u16, value: u8)
        ensures
            Dma::write_effect(*old(self), *final(self), port, value),
    {
        if port < 8 {
            self.channel_register_write(port, value);
        } else if port == 0x08 {
            self.command = value;
        } else if port == 0x09 {
            self.write_request(value);
        } else if port == 0x0A {
            self.write_single_mask(value);
        } else if port == 0x0B {
            self.write_mode(value);
        } else if port == 0x0C {
            self.flip_flop = false;
        } else if port == 0x0D {
            self.master_reset();
        } else if port == 0x0E {
            let mut i: usize = 0;
            while i < 4
                invariant
                    0 <= i <= 4,
                    self.command == old(self).command,
                    self.temp == old(self).temp,
                    self.flip_flop == old(self).flip_flop,
                    forall|j: int|
                        0 <= j < i ==> #[trigger] self.channels@[j] == (DmaChannel {
                            masked: false,
                            ..old(self).channels@[j]
                        }),
                    forall|j: int| i <= j < 4 ==> #[trigger] self.channels@[j] == old(self).channels@[j],
                decreases 4 - i,
            {
                self.channels[i].masked = false;
                i = i + 1;
            }
        } else if port == 0x0F {
            let mut i: usize = 0;
            while i < 4
                invariant
                    0 <= i <= 4,
                    self.command == old(self).command,
                    self.temp == old(self).temp,
                    self.flip_flop == old(self).flip_flop,
                    forall|j: int|
                        0 <= j < i ==> #[trigger] self.channels@[j] == (DmaChannel {
                            masked: value & ((1u8 << (j as u8)) as u8) != 0,
                            ..old(self).channels@[j]
                        }),
                    forall|j: int| i <= j < 4 ==> #[trigger] self.channels@[j] == old(self).channels@[j],
                decreases 4 - i,
            {
                self.channels[i].masked = (value & (1u8 << (i as u8))) != 0;
                i = i + 1;
            }
        } else if port == DMA_PAGE_CH0 {
            self.channels[0].page = value;
        } else if port == DMA_PAGE_CH1 {
            self.channels[1].page = value;
        } else if port == DMA_PAGE_CH2 {
            self.channels[2].page = value;
        } else if port == DMA_PAGE_CH3 {
            self.channels[3].page = value;
        }
    }

    /// The DMA controller is hardwired in the memory bus; its routed range is empty.
    pub fn port_range(&self) -> (r: RangeInclusive<u16>)
        ensures
            r@.start == 0,
            r@.end == 0,
            !r@.exhausted,
    {
        RangeInclusive::new(0, 0)
    }
}

impl Default for Dma {
    fn default() -> (r: Self)
        ensures
            Dma::spec_new_channels_ok(r.channels@),
            r.command == 0,
            !r.flip_flop,
            r.temp == 0,
    {
        Self::new()
    }
}

impl IoDevice for Dma {
    open spec fn inv(&self) -> bool {
        true
    }

    open spec fn accepts_write(&self, port: u16, value: u8) -> bool {
        true
    }

    fn write_accepted(&self, port: u16, value: u8) -> (r: bool) {
        true
    }

    fn read_u8(&mut self, port: u16) -> u8 {
        Dma::read_u8(self, port)
    }

    fn write_u8(&mut self, port: u16, value: u8) {
        Dma::write_u8(self, port, value)
    }

    fn port_range(&self) -> RangeInclusive<u16> {
        Dma::port_range(self)
    }

    fn tick(&mut self, cycles: u16, pic: &mut Pic) {
    }
}

/// Writing the low byte and then the high byte of an address or count
/// register (the order the byte flip-flop takes) sets the whole word, and
/// the two bytes read back in the same order.
pub proof fn law_register_bytes_round_trip(word: u16, lo: u8, hi: u8)
    by (bit_vector)
    ensures
        with_byte(with_byte(word, false, lo), true, hi) == ((hi as u16) << 8u16) | (lo as u16),
        byte_of(with_byte(with_byte(word, false, lo), true, hi), false) == lo,
        byte_of(with_byte(with_byte(word, false, lo), true, hi), true) == hi,
{
}

} // verus!
