//! NEC uPD765A / Intel 8272A Floppy Disk Controller
//!
//! The FDC handles floppy disk operations in the IBM PC.
//! It uses DMA channel 2 for data transfers and IRQ6 for interrupts.
//!
//! ## I/O Ports
//! - 0x3F2: Digital Output Register (DOR) - motor/drive select/reset
//! - 0x3F4: Main Status Register (MSR) - controller status (read-only)
//! - 0x3F5: Data Register - command/result/data FIFO
//! - 0x3F7: Digital Input Register (DIR, read) / Config Control (CCR, write)

use crate::components::dma::DmaCapable;
use crate::components::pic::Pic;
use crate::io::IoDevice;
use std::collections::VecDeque;
use std::ops::RangeInclusive;
use vstd::prelude::*;

verus! {

/// The low two bits of a byte select one of four drives.
proof fn lemma_low_two_bits(x: u8)
    by (bit_vector)
    ensures
        x & 0x03 < 4,
{
}


/// FDC I/O port base
pub const FDC_PORT_BASE: u16 = 0x3F0;
/// FDC I/O port end
pub const FDC_PORT_END: u16 = 0x3F7;
/// Digital Output Register
pub const FDC_DOR: u16 = 0x3F2;
/// Main Status Register
pub const FDC_MSR: u16 = 0x3F4;
/// Data Register (FIFO)
pub const FDC_DATA: u16 = 0x3F5;
/// Digital Input Register / Configuration Control Register
pub const FDC_DIR: u16 = 0x3F7;

/// MSR: Request for Master - ready for transfer
pub const MSR_RQM: u8 = 0x80;
/// MSR: Data direction: 0=CPU->FDC, 1=FDC->CPU
pub const MSR_DIO: u8 = 0x40;
/// MSR: Non-DMA mode
pub const MSR_NDM: u8 = 0x20;
/// MSR: Controller Busy
pub const MSR_CB: u8 = 0x10;

/// DOR: drive select bits 0-1
pub const DOR_DRIVE_SEL_MASK: u8 = 0x03;
/// DOR: ~RESET: 0=reset, 1=normal
pub const DOR_RESET: u8 = 0x04;
/// DOR: DMA/IRQ enable
pub const DOR_DMA_ENABLE: u8 = 0x08;
/// DOR: Motor A enable
pub const DOR_MOTOR_A: u8 = 0x10;
/// DOR: Motor B enable
pub const DOR_MOTOR_B: u8 = 0x20;
/// DOR: Motor C enable
pub const DOR_MOTOR_C: u8 = 0x40;
/// DOR: Motor D enable
pub const DOR_MOTOR_D: u8 = 0x80;

/// Command opcode: Specify
pub const CMD_SPECIFY: u8 = 0x03;
/// Command opcode: Sense Drive Status
pub const CMD_SENSE_DRIVE_STATUS: u8 = 0x04;
/// Command opcode: Write Data
pub const CMD_WRITE_DATA: u8 = 0x05;
/// Command opcode: Read Data
pub const CMD_READ_DATA: u8 = 0x06;
/// Command opcode: Recalibrate
pub const CMD_RECALIBRATE: u8 = 0x07;
/// Command opcode: Sense Interrupt Status
pub const CMD_SENSE_INTERRUPT: u8 = 0x08;
/// Command opcode: Read ID
pub const CMD_READ_ID: u8 = 0x0A;
/// Command opcode: Format Track
pub const CMD_FORMAT_TRACK: u8 = 0x0D;
/// Command opcode: Seek
pub const CMD_SEEK: u8 = 0x0F;

/// ST0: interrupt code mask
pub const ST0_IC_MASK: u8 = 0xC0;
/// ST0: normal termination
pub const ST0_IC_NORMAL: u8 = 0x00;
/// ST0: abnormal termination
pub const ST0_IC_ABNORMAL: u8 = 0x40;
/// ST0: invalid command
pub const ST0_IC_INVALID: u8 = 0x80;
/// ST0: ready signal changed
pub const ST0_IC_READY_CHANGE: u8 = 0xC0;
/// ST0: seek end
pub const ST0_SE: u8 = 0x20;
/// ST0: equipment check
pub const ST0_EC: u8 = 0x10;
/// ST0: not ready
pub const ST0_NR: u8 = 0x08;
/// ST0: head address
pub const ST0_HD: u8 = 0x04;
/// ST0: drive select mask
pub const ST0_DS_MASK: u8 = 0x03;

/// ST1: end of cylinder
pub const ST1_EN: u8 = 0x80;
/// ST1: data error (CRC)
pub const ST1_DE: u8 = 0x20;
/// ST1: overrun
pub const ST1_OR: u8 = 0x10;
/// ST1: no data (sector not found)
pub const ST1_ND: u8 = 0x04;
/// ST1: not writable
pub const ST1_NW: u8 = 0x02;
/// ST1: missing address mark
pub const ST1_MA: u8 = 0x01;

/// FDC state machine phase
#[derive(Debug, Clone, Copy, PartialEq, Eq, Structural)]
pub enum FdcPhase {
    /// Idle, waiting for command
    Idle,
    /// Receiving command bytes
    Command,
    /// Executing operation (seek, read, write, etc.)
    Execution,
    /// Sending result bytes
    Result,
}

/// FDC command being executed
#[derive(Debug, Clone, Copy, PartialEq, Eq, Structural)]
pub enum FdcCommand {
    Idle,
    Specify,
    SenseDriveStatus,
    Recalibrate,
    SenseInterrupt,
    Seek,
    ReadData,
    WriteData,
    ReadId,
    FormatTrack,
    Invalid,
}

/// Per-drive state
#[derive(Debug, Clone, Copy)]
pub struct DriveState {
    /// Current cylinder (head position)
    pub cylinder: u8,
    /// Motor is running
    pub motor_on: bool,
    /// Disk change flag (set when disk is changed/ejected)
    pub disk_changed: bool,
}

impl DriveState {
    /// A drive with no disk, head at cylinder 0, motor off.
    pub fn new() -> (r: Self)
        ensures
            r.cylinder == 0,
            !r.motor_on,
            r.disk_changed,
    {
        Self { cylinder: 0, motor_on: false, disk_changed: true }
    }

    /// Controller reset moves the head to cylinder 0; motor and disk-change
    /// state are kept.
    pub fn reset(&mut self)
        ensures
            *final(self) == (DriveState { cylinder: 0, ..*old(self) }),
    {
        self.cylinder = 0;
    }
}

impl Default for DriveState {
    fn default() -> (r: Self)
        ensures
            r.cylinder == 0,
            !r.motor_on,
            r.disk_changed,
    {
        Self::new()
    }
}

/// The `i`-th byte of `s`, or `d` when `s` is shorter.
pub open spec fn byte_or(s: Seq<u8>, i: int, d: u8) -> u8 {
    if 0 <= i < s.len() {
        s[i]
    } else {
        d
    }
}

/// Number of command bytes (opcode included) of a command opcode.
pub open spec fn spec_command_length(opcode: u8) -> usize {
    let base = opcode & 0x1F;
    if base == CMD_SPECIFY {
        3
    } else if base == CMD_SENSE_DRIVE_STATUS {
        2
    } else if base == CMD_RECALIBRATE {
        2
    } else if base == CMD_SENSE_INTERRUPT {
        1
    } else if base == CMD_SEEK {
        3
    } else if base == CMD_READ_DATA || base == CMD_WRITE_DATA {
        9
    } else if base == CMD_READ_ID {
        2
    } else if base == CMD_FORMAT_TRACK {
        6
    } else {
        1
    }
}

/// NEC uPD765A Floppy Disk Controller
#[derive(Debug)]
pub struct Fdc {
    /// State machine phase
    pub phase: FdcPhase,
    /// Command being executed
    pub current_command: FdcCommand,
    /// Command bytes received so far
    pub command_buffer: Vec<u8>,
    /// Number of command bytes of the command being received
    pub command_bytes_expected: usize,
    /// Result bytes of the last command
    pub result_buffer: Vec<u8>,
    /// Next result byte to hand out
    pub result_index: usize,
    /// Digital Output Register
    pub dor: u8,
    /// Configuration Control Register
    pub ccr: u8,
    /// Drive state (4 drives max)
    pub drives: [DriveState; 4],
    /// Current operation: head
    pub head: u8,
    /// Current operation: sector
    pub sector: u8,
    /// Current operation: sector size code
    pub sector_size: u8,
    /// End of track (last sector number)
    pub eot: u8,
    /// DMA transfer pending
    pub dma_pending: bool,
    /// Data of the DMA transfer
    pub transfer_buffer: Vec<u8>,
    /// Next byte of the DMA transfer
    pub transfer_index: usize,
    /// Interrupt pending
    pub irq_pending: bool,
    /// Sense Interrupt queue: (ST0, cylinder) pairs
    pub pending_interrupts: VecDeque<(u8, u8)>,
    /// Specify: step rate time
    pub step_rate_time: u8,
    /// Specify: head unload time
    pub head_unload_time: u8,
    /// Specify: head load time
    pub head_load_time: u8,
    /// Specify: non-DMA mode
    pub non_dma_mode: bool,
    /// Reset state tracking
    pub reset_pending: bool,
}

impl Fdc {
    /// The fields no command execution touches.
    pub open spec fn same_io(self, n: Fdc) -> bool {
        &&& n.dor == self.dor
        &&& n.ccr == self.ccr
        &&& n.dma_pending == self.dma_pending
        &&& n.transfer_buffer@ == self.transfer_buffer@
        &&& n.transfer_index == self.transfer_index
        &&& n.reset_pending == self.reset_pending
    }

    /// `new` is `old` with `value` appended to the transfer buffer when a
    /// DMA transfer is pending; nothing else changes.
    pub open spec fn byte_received(old: Fdc, new: Fdc, value: u8) -> bool {
        &&& new.transfer_buffer@ == (if old.dma_pending {
            old.transfer_buffer@.push(value)
        } else {
            old.transfer_buffer@
        })
        &&& new.phase == old.phase
        &&& new.current_command == old.current_command
        &&& new.command_buffer@ == old.command_buffer@
        &&& new.command_bytes_expected == old.command_bytes_expected
        &&& new.result_buffer@ == old.result_buffer@
        &&& new.result_index == old.result_index
        &&& new.dor == old.dor
        &&& new.ccr == old.ccr
        &&& new.drives == old.drives
        &&& new.dma_pending == old.dma_pending
        &&& new.transfer_index == old.transfer_index
        &&& new.irq_pending == old.irq_pending
        &&& new.pending_interrupts@ == old.pending_interrupts@
        &&& new.reset_pending == old.reset_pending
        &&& old.same_params(new)
        &&& old.same_timing(new)
    }

    /// `new` is `old` after terminal count: the transfer is over, the
    /// result phase holds the Read/Write result for the selected drive, and
    /// the interrupt is raised; nothing else changes.
    pub open spec fn transfer_ended(old: Fdc, new: Fdc) -> bool {
        &&& !new.dma_pending
        &&& new.phase == FdcPhase::Result
        &&& new.irq_pending
        &&& new.result_index == 0
        &&& new.result_buffer@ == Fdc::rw_result(
            old,
            old.dor & DOR_DRIVE_SEL_MASK,
            old.head,
            old.sector,
            old.sector_size,
            0,
            0,
        )
        &&& new.current_command == old.current_command
        &&& new.command_buffer@ == old.command_buffer@
        &&& new.command_bytes_expected == old.command_bytes_expected
        &&& new.dor == old.dor
        &&& new.ccr == old.ccr
        &&& new.drives == old.drives
        &&& new.transfer_buffer@ == old.transfer_buffer@
        &&& new.transfer_index == old.transfer_index
        &&& new.pending_interrupts@ == old.pending_interrupts@
        &&& new.reset_pending == old.reset_pending
        &&& old.same_params(new)
        &&& old.same_timing(new)
    }

    /// The operation parameters (head/sector/size/eot) are unchanged.
    pub open spec fn same_params(self, n: Fdc) -> bool {
        &&& n.head == self.head
        &&& n.sector == self.sector
        &&& n.sector_size == self.sector_size
        &&& n.eot == self.eot
    }

    /// The Specify timing parameters are unchanged.
    pub open spec fn same_timing(self, n: Fdc) -> bool {
        &&& n.step_rate_time == self.step_rate_time
        &&& n.head_unload_time == self.head_unload_time
        &&& n.head_load_time == self.head_load_time
        &&& n.non_dma_mode == self.non_dma_mode
    }

    /// Byte `i` of the command in `n`'s command buffer.
    pub open spec fn arg(n: Fdc, i: int, d: u8) -> u8 {
        byte_or(n.command_buffer@, i, d)
    }

    /// Effect of Specify: timing parameters from bytes 1 and 2; back to idle.
    pub open spec fn done_specify(o: Fdc, n: Fdc) -> bool {
        let b1 = Fdc::arg(n, 1, 0);
        let b2 = Fdc::arg(n, 2, 0);
        &&& n.step_rate_time == (b1 >> 4u8) & 0x0F
        &&& n.head_unload_time == b1 & 0x0F
        &&& n.head_load_time == (b2 >> 1u8) & 0x7F
        &&& n.non_dma_mode == (b2 & 0x01 != 0)
        &&& n.phase == FdcPhase::Idle
        &&& n.current_command == FdcCommand::Idle
        &&& o.same_io(n)
        &&& o.same_params(n)
        &&& n.drives == o.drives
        &&& n.result_buffer@ == o.result_buffer@
        &&& n.result_index == o.result_index
        &&& n.pending_interrupts@ == o.pending_interrupts@
        &&& n.irq_pending == o.irq_pending
    }

    /// Status register 3 reported for the drive/head byte `b1`.
    pub open spec fn spec_st3(o: Fdc, b1: u8) -> u8 {
        let drive = b1 & 0x03;
        let head = (b1 >> 2u8) & 0x01;
        let base = drive | (head << 2u8);
        if o.drives@[drive as int].cylinder == 0 {
            base | 0x10 | 0x08 | 0x20
        } else {
            base | 0x08 | 0x20
        }
    }

    /// Effect of Sense Drive Status: one result byte, ST3.
    pub open spec fn done_sense_drive_status(o: Fdc, n: Fdc) -> bool {
        &&& n.result_buffer@ == seq![Fdc::spec_st3(o, Fdc::arg(n, 1, 0))]
        &&& n.result_index == 0
        &&& n.phase == FdcPhase::Result
        &&& n.current_command == FdcCommand::SenseDriveStatus
        &&& o.same_io(n)
        &&& o.same_params(n)
        &&& o.same_timing(n)
        &&& n.drives == o.drives
        &&& n.pending_interrupts@ == o.pending_interrupts@
        &&& n.irq_pending == o.irq_pending
    }

    /// Effect of a head move (Recalibrate: to 0; Seek: to byte 2): the head
    /// moves, a seek-end interrupt is queued, back to idle.
    pub open spec fn done_move(o: Fdc, n: Fdc, target: u8) -> bool {
        let drive = Fdc::arg(n, 1, 0) & 0x03;
        &&& n.drives@ == o.drives@.update(
            drive as int,
            DriveState { cylinder: target, ..o.drives@[drive as int] },
        )
        &&& n.pending_interrupts@ == o.pending_interrupts@.push((ST0_IC_NORMAL | ST0_SE | drive, target))
        &&& n.irq_pending
        &&& n.phase == FdcPhase::Idle
        &&& n.current_command == FdcCommand::Idle
        &&& o.same_io(n)
        &&& o.same_params(n)
        &&& o.same_timing(n)
        &&& n.result_buffer@ == o.result_buffer@
        &&& n.result_index == o.result_index
    }

    /// Effect of Sense Interrupt Status: the oldest queued interrupt becomes
    /// the result (ST0, cylinder); with none queued the result is "invalid".
    pub open spec fn done_sense_interrupt(o: Fdc, n: Fdc) -> bool {
        &&& n.result_index == 0
        &&& n.phase == FdcPhase::Result
        &&& n.current_command == FdcCommand::SenseInterrupt
        &&& o.same_io(n)
        &&& o.same_params(n)
        &&& o.same_timing(n)
        &&& n.drives == o.drives
        &&& if o.pending_interrupts@.len() > 0 {
            let (st0, cyl) = o.pending_interrupts@[0];
            &&& n.result_buffer@ == seq![st0, cyl]
            &&& n.pending_interrupts@ == o.pending_interrupts@.drop_first()
            &&& n.irq_pending == (if o.pending_interrupts@.len() == 1 {
                false
            } else {
                o.irq_pending
            })
        } else {
            &&& n.result_buffer@ == seq![ST0_IC_INVALID]
            &&& n.pending_interrupts@ == o.pending_interrupts@
            &&& n.irq_pending == o.irq_pending
        }
    }

    /// The seven result bytes of a read/write-type command.
    pub open spec fn rw_result(o: Fdc, drive: u8, head: u8, sector: u8, size: u8, st1: u8, st2: u8) -> Seq<u8> {
        let st0 = if st1 != 0 || st2 != 0 {
            ST0_IC_ABNORMAL | (head << 2u8) | drive
        } else {
            ST0_IC_NORMAL | (head << 2u8) | drive
        };
        seq![st0, st1, st2, o.drives@[drive as int].cylinder, head, sector, size]
    }

    /// Effect of a read/write-type command that ends in its result phase.
    pub open spec fn done_rw(o: Fdc, n: Fdc, st1: u8) -> bool {
        let b1 = Fdc::arg(n, 1, 0);
        let drive = b1 & 0x03;
        &&& n.head == (b1 >> 2u8) & 0x01
        &&& n.result_buffer@ == Fdc::rw_result(o, drive, n.head, n.sector, n.sector_size, st1, 0)
        &&& n.result_index == 0
        &&& n.phase == FdcPhase::Result
        &&& n.irq_pending
        &&& n.current_command == o.current_command
        &&& o.same_io(n)
        &&& o.same_timing(n)
        &&& n.drives == o.drives
        &&& n.pending_interrupts@ == o.pending_interrupts@
    }

    /// Effect of Read Data / Write Data: the sector parameters are taken
    /// from bytes 4-6 and, with no disk image, the command fails with No Data.
    pub open spec fn done_transfer(o: Fdc, n: Fdc) -> bool {
        &&& n.sector == Fdc::arg(n, 4, 1)
        &&& n.sector_size == Fdc::arg(n, 5, 2)
        &&& n.eot == Fdc::arg(n, 6, 9)
        &&& Fdc::done_rw(o, n, ST1_ND)
    }

    /// Effect of Read ID (missing address mark) and Format Track (not writable).
    pub open spec fn done_no_media(o: Fdc, n: Fdc, st1: u8) -> bool {
        &&& n.sector == o.sector
        &&& n.sector_size == o.sector_size
        &&& n.eot == o.eot
        &&& Fdc::done_rw(o, n, st1)
    }

    /// Effect of an invalid command: one result byte, ST0 "invalid".
    pub open spec fn done_invalid(o: Fdc, n: Fdc) -> bool {
        &&& n.result_buffer@ == seq![ST0_IC_INVALID]
        &&& n.result_index == 0
        &&& n.phase == FdcPhase::Result
        &&& n.current_command == FdcCommand::Invalid
        &&& o.same_io(n)
        &&& o.same_params(n)
        &&& o.same_timing(n)
        &&& n.drives == o.drives
        &&& n.pending_interrupts@ == o.pending_interrupts@
        &&& n.irq_pending == o.irq_pending
    }

    /// Effect of executing the command held in `n`'s command buffer.
    pub open spec fn executed(o: Fdc, n: Fdc) -> bool {
        let base = Fdc::arg(n, 0, 0) & 0x1F;
        if base == CMD_SPECIFY {
            Fdc::done_specify(o, n)
        } else if base == CMD_SENSE_DRIVE_STATUS {
            Fdc::done_sense_drive_status(o, n)
        } else if base == CMD_RECALIBRATE {
            Fdc::done_move(o, n, 0)
        } else if base == CMD_SENSE_INTERRUPT {
            Fdc::done_sense_interrupt(o, n)
        } else if base == CMD_SEEK {
            Fdc::done_move(o, n, Fdc::arg(n, 2, 0))
        } else if base == CMD_READ_DATA || base == CMD_WRITE_DATA {
            Fdc::done_transfer(o, n)
        } else if base == CMD_READ_ID {
            Fdc::done_no_media(o, n, ST1_MA)
        } else if base == CMD_FORMAT_TRACK {
            Fdc::done_no_media(o, n, ST1_NW)
        } else {
            Fdc::done_invalid(o, n)
        }
    }

    /// Create a new FDC in reset state
    pub fn new() -> (r: Self)
        ensures
            r.phase == FdcPhase::Idle,
            r.current_command == FdcCommand::Idle,
            r.command_buffer@.len() == 0,
            r.command_bytes_expected == 0,
            r.result_buffer@.len() == 0,
            r.result_index == 0,
            r.dor == 0,
            r.ccr == 0,
            forall|i: int|
                0 <= i < 4 ==> #[trigger] r.drives@[i].cylinder == 0 && !r.drives@[i].motor_on
                    && r.drives@[i].disk_changed,
            r.head == 0,
            r.sector == 0,
            r.sector_size == 2,
            r.eot == 0,
            !r.dma_pending,
            r.transfer_buffer@.len() == 0,
            r.transfer_index == 0,
            !r.irq_pending,
            r.pending_interrupts@.len() == 0,
            r.step_rate_time == 0,
            r.head_unload_time == 0,
            r.head_load_time == 0,
            !r.non_dma_mode,
            !r.reset_pending,
    {
        Self {
            phase: FdcPhase::Idle,
            current_command: FdcCommand::Idle,
            command_buffer: Vec::new(),
            command_bytes_expected: 0,
            result_buffer: Vec::new(),
            result_index: 0,
            dor: 0,  // Controller starts in reset (bit 2 = 0)
            ccr: 0,
            drives: [DriveState::new(), DriveState::new(), DriveState::new(), DriveState::new()],
            head: 0,
            sector: 0,
            sector_size: 2,  // 512 bytes default
            eot: 0,
            dma_pending: false,
            transfer_buffer: Vec::new(),
            transfer_index: 0,
            irq_pending: false,
            pending_interrupts: VecDeque::new(),
            step_rate_time: 0,
            head_unload_time: 0,
            head_load_time: 0,
            non_dma_mode: false,
            reset_pending: false,
        }
    }

    /// Enter reset state (DOR bit 2 goes low): all command, result, transfer
    /// and interrupt state is cleared.
    pub fn enter_reset(&mut self)
        ensures
            final(self).phase == FdcPhase::Idle,
            final(self).current_command == FdcCommand::Idle,
            final(self).command_buffer@.len() == 0,
            final(self).command_bytes_expected == 0,
            final(self).result_buffer@.len() == 0,
            final(self).result_index == 0,
            !final(self).dma_pending,
            final(self).transfer_buffer@.len() == 0,
            final(self).transfer_index == 0,
            !final(self).irq_pending,
            final(self).pending_interrupts@.len() == 0,
            final(self).reset_pending,
            final(self).dor == old(self).dor,
            final(self).ccr == old(self).ccr,
            final(self).drives == old(self).drives,
            old(self).same_params(*final(self)),
            old(self).same_timing(*final(self)),
    {
        self.phase = FdcPhase::Idle;
        self.current_command = FdcCommand::Idle;
        self.command_buffer.clear();
        self.command_bytes_expected = 0;
        self.result_buffer.clear();
        self.result_index = 0;
        self.dma_pending = false;
        self.transfer_buffer.clear();
        self.transfer_index = 0;
        self.irq_pending = false;
        self.pending_interrupts.clear();
        self.reset_pending = true;
    }

    /// Complete reset sequence (DOR bit 2 goes high): heads go to cylinder 0
    /// and one "ready changed" interrupt per drive is queued.
    pub fn complete_reset(&mut self)
        ensures
            forall|i: int|
                0 <= i < 4 ==> #[trigger] final(self).drives@[i] == (DriveState {
                    cylinder: 0,
                    ..old(self).drives@[i]
                }),
            final(self).pending_interrupts@ == seq![
                (ST0_IC_READY_CHANGE | 0, 0u8),
                (ST0_IC_READY_CHANGE | 1, 0u8),
                (ST0_IC_READY_CHANGE | 2, 0u8),
                (ST0_IC_READY_CHANGE | 3, 0u8),
            ],
            final(self).irq_pending,
            !final(self).reset_pending,
            final(self).phase == old(self).phase,
            final(self).current_command == old(self).current_command,
            final(self).command_buffer@ == old(self).command_buffer@,
            final(self).command_bytes_expected == old(self).command_bytes_expected,
            final(self).result_buffer@ == old(self).result_buffer@,
            final(self).result_index == old(self).result_index,
            final(self).dor == old(self).dor,
            final(self).ccr == old(self).ccr,
            final(self).dma_pending == old(self).dma_pending,
            final(self).transfer_buffer@ == old(self).transfer_buffer@,
            final(self).transfer_index == old(self).transfer_index,
            old(self).same_params(*final(self)),
            old(self).same_timing(*final(self)),
    {
        let mut i: usize = 0;
        while i < 4
            invariant
                0 <= i <= 4,
                forall|j: int|
                    0 <= j < i ==> #[trigger] self.drives@[j] == (DriveState {
                        cylinder: 0,
                        ..old(self).drives@[j]
                    }),
                forall|j: int| i <= j < 4 ==> #[trigger] self.drives@[j] == old(self).drives@[j],
                self.phase == old(self).phase,
                self.current_command == old(self).current_command,
                self.command_buffer@ == old(self).command_buffer@,
                self.command_bytes_expected == old(self).command_bytes_expected,
                self.result_buffer@ == old(self).result_buffer@,
                self.result_index == old(self).result_index,
                self.dor == old(self).dor,
                self.ccr == old(self).ccr,
                self.dma_pending == old(self).dma_pending,
                self.transfer_buffer@ == old(self).transfer_buffer@,
                self.transfer_index == old(self).transfer_index,
                old(self).same_params(*self),
                old(self).same_timing(*self),
            decreases 4 - i,
        {
            self.drives[i].reset();
            i = i + 1;
        }
        self.pending_interrupts.clear();
        let mut d: u8 = 0;
        while d < 4
            invariant
                0 <= d <= 4,
                self.pending_interrupts@.len() == d,
                forall|j: int|
                    0 <= j < d ==> #[trigger] self.pending_interrupts@[j] == (
                    ST0_IC_READY_CHANGE | (j as u8),
                    0u8,
                ),
                forall|j: int|
                    0 <= j < 4 ==> #[trigger] self.drives@[j] == (DriveState {
                        cylinder: 0,
                        ..old(self).drives@[j]
                    }),
                self.phase == old(self).phase,
                self.current_command == old(self).current_command,
                self.command_buffer@ == old(self).command_buffer@,
                self.command_bytes_expected == old(self).command_bytes_expected,
                self.result_buffer@ == old(self).result_buffer@,
                self.result_index == old(self).result_index,
                self.dor == old(self).dor,
                self.ccr == old(self).ccr,
                self.dma_pending == old(self).dma_pending,
                self.transfer_buffer@ == old(self).transfer_buffer@,
                self.transfer_index == old(self).transfer_index,
                old(self).same_params(*self),
                old(self).same_timing(*self),
            decreases 4 - d,
        {
            let st0 = ST0_IC_READY_CHANGE | d;
            self.pending_interrupts.push_back((st0, 0));
            d = d + 1;
        }
        assert(self.pending_interrupts@ =~= seq![
            (ST0_IC_READY_CHANGE | 0, 0u8),
            (ST0_IC_READY_CHANGE | 1, 0u8),
            (ST0_IC_READY_CHANGE | 2, 0u8),
            (ST0_IC_READY_CHANGE | 3, 0u8),
        ]);
        self.irq_pending = true;
        self.reset_pending = false;
    }

    /// The Main Status Register value.
    pub open spec fn spec_msr(self) -> u8 {
        if self.dor & DOR_RESET == 0 {
            0
        } else {
            match self.phase {
                FdcPhase::Idle => MSR_RQM,
                FdcPhase::Command => MSR_RQM,
                FdcPhase::Execution => {
                    let m = if self.non_dma_mode && self.dma_pending {
                        if self.current_command == FdcCommand::ReadData {
                            MSR_CB | MSR_RQM | MSR_NDM | MSR_DIO
                        } else {
                            MSR_CB | MSR_RQM | MSR_NDM
                        }
                    } else {
                        MSR_CB
                    };
                    m | ((1u8 << (self.dor & DOR_DRIVE_SEL_MASK)) as u8)
                },
                FdcPhase::Result => MSR_RQM | MSR_DIO | MSR_CB,
            }
        }
    }

    /// Build the Main Status Register value
    pub fn build_msr(&self) -> (r: u8)
        ensures
            r == self.spec_msr(),
    {
        let mut msr: u8 = 0;
        if (self.dor & DOR_RESET) == 0 {
            return 0;  // Controller in reset, not ready
        }
        match self.phase {
            FdcPhase::Idle => {
                msr = msr | MSR_RQM;
            },
            FdcPhase::Command => {
                msr = msr | MSR_RQM;
            },
            FdcPhase::Execution => {
                msr = MSR_CB;
                if self.non_dma_mode && self.dma_pending {
                    if self.current_command == FdcCommand::ReadData {
                        msr = MSR_CB | MSR_RQM | MSR_NDM | MSR_DIO;
                    } else {
                        msr = MSR_CB | MSR_RQM | MSR_NDM;
                    }
                }
            },
            FdcPhase::Result => {
                msr = MSR_RQM | MSR_DIO | MSR_CB;
            },
        }
        if self.phase == FdcPhase::Execution {
            let drive = self.dor & DOR_DRIVE_SEL_MASK;
            let dor = self.dor;
            proof { lemma_low_two_bits(dor); }
            msr = msr | (1u8 << drive);
        }
        proof {
            assert(0u8 | MSR_RQM == MSR_RQM) by (bit_vector);
        }
        msr
    }

    /// Get the number of command bytes expected for a given opcode
    pub fn command_length(opcode: u8) -> (r: usize)
        ensures
            r == spec_command_length(opcode),
    {
        let base_cmd = opcode & 0x1F;
        if base_cmd == CMD_SPECIFY {
            3
        } else if base_cmd == CMD_SENSE_DRIVE_STATUS {
            2
        } else if base_cmd == CMD_RECALIBRATE {
            2
        } else if base_cmd == CMD_SENSE_INTERRUPT {
            1
        } else if base_cmd == CMD_SEEK {
            3
        } else if base_cmd == CMD_READ_DATA || base_cmd == CMD_WRITE_DATA {
            9
        } else if base_cmd == CMD_READ_ID {
            2
        } else if base_cmd == CMD_FORMAT_TRACK {
            6
        } else {
            1
        }
    }

    /// Byte `i` of the command buffer, or `default` when it is shorter.
    fn arg_byte(&self, i: usize, default: u8) -> (r: u8)
        ensures
            r == Fdc::arg(*self, i as int, default),
    {
        if i < self.command_buffer.len() {
            self.command_buffer[i]
        } else {
            default
        }
    }

    /// Handle a command byte written to the data register
    pub fn write_command_byte(&mut self, value: u8)
        ensures
            old(self).phase != FdcPhase::Idle && old(self).phase != FdcPhase::Command
                ==> *final(self) == *old(self),
            old(self).phase == FdcPhase::Idle ==> {
                &&& final(self).command_buffer@ == seq![value]
                &&& final(self).command_bytes_expected == spec_command_length(value)
                &&& if spec_command_length(value) == 1 {
                    Fdc::executed(*old(self), *final(self))
                } else {
                    &&& final(self).phase == FdcPhase::Command
                    &&& final(self).current_command == old(self).current_command
                    &&& final(self).result_buffer@ == old(self).result_buffer@
                    &&& final(self).result_index == old(self).result_index
                    &&& final(self).drives == old(self).drives
                    &&& final(self).pending_interrupts@ == old(self).pending_interrupts@
                    &&& final(self).irq_pending == old(self).irq_pending
                    &&& old(self).same_io(*final(self))
                    &&& old(self).same_params(*final(self))
                    &&& old(self).same_timing(*final(self))
                }
            },
            old(self).phase == FdcPhase::Command ==> {
                &&& final(self).command_buffer@ == old(self).command_buffer@.push(value)
                &&& final(self).command_bytes_expected == old(self).command_bytes_expected
                &&& if old(self).command_buffer@.len() + 1 >= old(self).command_bytes_expected {
                    Fdc::executed(*old(self), *final(self))
                } else {
                    &&& final(self).phase == FdcPhase::Command
                    &&& final(self).current_command == old(self).current_command
                    &&& final(self).result_buffer@ == old(self).result_buffer@
                    &&& final(self).result_index == old(self).result_index
                    &&& final(self).drives == old(self).drives
                    &&& final(self).pending_interrupts@ == old(self).pending_interrupts@
                    &&& final(self).irq_pending == old(self).irq_pending
                    &&& old(self).same_io(*final(self))
                    &&& old(self).same_params(*final(self))
                    &&& old(self).same_timing(*final(self))
                }
            },
    {
        if self.phase == FdcPhase::Idle {
            self.command_buffer.clear();
            self.command_buffer.push(value);
            assert(self.command_buffer@ =~= seq![value]);
            self.command_bytes_expected = Self::command_length(value);
            if self.command_bytes_expected == 1 {
                self.execute_command();
            } else {
                self.phase = FdcPhase::Command;
            }
        } else if self.phase == FdcPhase::Command {
            self.command_buffer.push(value);
            if self.command_buffer.len() >= self.command_bytes_expected {
                self.execute_command();
            }
        }
    }

    /// Execute the buffered command
    pub fn execute_command(&mut self)
        requires
            old(self).command_buffer@.len() > 0,
        ensures
            Fdc::executed(*old(self), *final(self)),
            final(self).command_buffer@ == old(self).command_buffer@,
            final(self).command_bytes_expected == old(self).command_bytes_expected,
    {
        let opcode = self.command_buffer[0];
        let base_cmd = opcode & 0x1F;
        if base_cmd == CMD_SPECIFY {
            self.cmd_specify();
        } else if base_cmd == CMD_SENSE_DRIVE_STATUS {
            self.cmd_sense_drive_status();
        } else if base_cmd == CMD_RECALIBRATE {
            self.cmd_recalibrate();
        } else if base_cmd == CMD_SENSE_INTERRUPT {
            self.cmd_sense_interrupt();
        } else if base_cmd == CMD_SEEK {
            self.cmd_seek();
        } else if base_cmd == CMD_READ_DATA {
            self.cmd_read_data();
        } else if base_cmd == CMD_WRITE_DATA {
            self.cmd_write_data();
        } else if base_cmd == CMD_READ_ID {
            self.cmd_read_id();
        } else if base_cmd == CMD_FORMAT_TRACK {
            self.cmd_format_track();
        } else {
            self.cmd_invalid();
        }
    }

    /// Specify command (0x03): Set timing parameters
    pub fn cmd_specify(&mut self)
        ensures
            Fdc::done_specify(*old(self), *final(self)),
            final(self).command_buffer@ == old(self).command_buffer@,
            final(self).command_bytes_expected == old(self).command_bytes_expected,
    {
        let byte1 = self.arg_byte(1, 0);
        let byte2 = self.arg_byte(2, 0);
        self.step_rate_time = (byte1 >> 4u8) & 0x0F;
        self.head_unload_time = byte1 & 0x0F;
        self.head_load_time = (byte2 >> 1u8) & 0x7F;
        self.non_dma_mode = (byte2 & 0x01) != 0;
        // No result phase for Specify
        self.phase = FdcPhase::Idle;
        self.current_command = FdcCommand::Idle;
    }

    /// Sense Drive Status command (0x04): Get drive status
    pub fn cmd_sense_drive_status(&mut self)
        ensures
            Fdc::done_sense_drive_status(*old(self), *final(self)),
            final(self).command_buffer@ == old(self).command_buffer@,
            final(self).command_bytes_expected == old(self).command_bytes_expected,
    {
        let byte1 = self.arg_byte(1, 0);
        let drive = byte1 & 0x03;
        let head = (byte1 >> 2u8) & 0x01;
        proof { lemma_low_two_bits(byte1); }
        // Build Status Register 3
        let mut st3 = drive | (head << 2u8);
        if self.drives[drive as usize].cylinder == 0 {
            st3 = st3 | 0x10;  // Track 0
        }
        st3 = st3 | 0x08;  // Two-sided drive
        st3 = st3 | 0x20;  // Ready
        self.result_buffer.clear();
        self.result_buffer.push(st3);
        assert(self.result_buffer@ =~= seq![st3]);
        self.result_index = 0;
        self.phase = FdcPhase::Result;
        self.current_command = FdcCommand::SenseDriveStatus;
    }

    /// Recalibrate command (0x07): Move head to track 0
    pub fn cmd_recalibrate(&mut self)
        ensures
            Fdc::done_move(*old(self), *final(self), 0),
            final(self).command_buffer@ == old(self).command_buffer@,
            final(self).command_bytes_expected == old(self).command_bytes_expected,
    {
        let byte1 = self.arg_byte(1, 0);
        let drive = byte1 & 0x03;
        proof { lemma_low_two_bits(byte1); }
        self.drives[drive as usize].cylinder = 0;
        let st0 = ST0_IC_NORMAL | ST0_SE | drive;
        self.pending_interrupts.push_back((st0, 0));
        self.irq_pending = true;
        // No result phase - must use Sense Interrupt Status
        self.phase = FdcPhase::Idle;
        self.current_command = FdcCommand::Idle;
    }

    /// Sense Interrupt Status command (0x08): Get interrupt status
    pub fn cmd_sense_interrupt(&mut self)
        ensures
            Fdc::done_sense_interrupt(*old(self), *final(self)),
            final(self).command_buffer@ == old(self).command_buffer@,
            final(self).command_bytes_expected == old(self).command_bytes_expected,
    {
        self.result_buffer.clear();
        match self.pending_interrupts.pop_front() {
            Some((st0, cylinder)) => {
                self.result_buffer.push(st0);
                self.result_buffer.push(cylinder);
                assert(self.result_buffer@ =~= seq![st0, cylinder]);
                self.result_index = 0;
                self.phase = FdcPhase::Result;
                // Clear IRQ if no more pending interrupts
                if self.pending_interrupts.len() == 0 {
                    self.irq_pending = false;
                }
            },
            None => {
                // No pending interrupt - invalid command
                self.result_buffer.push(ST0_IC_INVALID);
                assert(self.result_buffer@ =~= seq![ST0_IC_INVALID]);
                self.result_index = 0;
                self.phase = FdcPhase::Result;
            },
        }
        self.current_command = FdcCommand::SenseInterrupt;
    }

    /// Seek command (0x0F): Move head to specified track
    pub fn cmd_seek(&mut self)
        ensures
            Fdc::done_move(*old(self), *final(self), Fdc::arg(*old(self), 2, 0)),
            final(self).command_buffer@ == old(self).command_buffer@,
            final(self).command_bytes_expected == old(self).command_bytes_expected,
    {
        let byte1 = self.arg_byte(1, 0);
        let byte2 = self.arg_byte(2, 0);
        let drive = byte1 & 0x03;
        proof { lemma_low_two_bits(byte1); }
        let new_cylinder = byte2;
        self.drives[drive as usize].cylinder = new_cylinder;
        let st0 = ST0_IC_NORMAL | ST0_SE | drive;
        self.pending_interrupts.push_back((st0, new_cylinder));
        self.irq_pending = true;
        // No result phase - must use Sense Interrupt Status
        self.phase = FdcPhase::Idle;
        self.current_command = FdcCommand::Idle;
    }

    /// Read Data command: take the sector parameters; with no disk image the
    /// command ends with "No Data" (sector not found).
    pub fn cmd_read_data(&mut self)
        ensures
            Fdc::done_transfer(*old(self), *final(self)),
            final(self).command_buffer@ == old(self).command_buffer@,
            final(self).command_bytes_expected == old(self).command_bytes_expected,
    {
        let byte1 = self.arg_byte(1, 0);
        let drive = byte1 & 0x03;
        proof { lemma_low_two_bits(byte1); }
        self.head = (byte1 >> 2u8) & 0x01;
        self.sector = self.arg_byte(4, 1);
        self.sector_size = self.arg_byte(5, 2);
        self.eot = self.arg_byte(6, 9);
        self.setup_read_write_result(drive, ST1_ND, 0);
    }

    /// Write Data command: same parameters as Read Data; with no disk image
    /// the command ends with "No Data".
    pub fn cmd_write_data(&mut self)
        ensures
            Fdc::done_transfer(*old(self), *final(self)),
            final(self).command_buffer@ == old(self).command_buffer@,
            final(self).command_bytes_expected == old(self).command_bytes_expected,
    {
        let byte1 = self.arg_byte(1, 0);
        let drive = byte1 & 0x03;
        proof { lemma_low_two_bits(byte1); }
        self.head = (byte1 >> 2u8) & 0x01;
        self.sector = self.arg_byte(4, 1);
        self.sector_size = self.arg_byte(5, 2);
        self.eot = self.arg_byte(6, 9);
        self.setup_read_write_result(drive, ST1_ND, 0);
    }

    /// Read ID command: with no disk image it ends with "missing address mark".
    pub fn cmd_read_id(&mut self)
        ensures
            Fdc::done_no_media(*old(self), *final(self), ST1_MA),
            final(self).command_buffer@ == old(self).command_buffer@,
            final(self).command_bytes_expected == old(self).command_bytes_expected,
    {
        let byte1 = self.arg_byte(1, 0);
        let drive = byte1 & 0x03;
        proof { lemma_low_two_bits(byte1); }
        self.head = (byte1 >> 2u8) & 0x01;
        self.setup_read_write_result(drive, ST1_MA, 0);
    }

    /// Format Track command: with no disk image it ends with "not writable".
    pub fn cmd_format_track(&mut self)
        ensures
            Fdc::done_no_media(*old(self), *final(self), ST1_NW),
            final(self).command_buffer@ == old(self).command_buffer@,
            final(self).command_bytes_expected == old(self).command_bytes_expected,
    {
        let byte1 = self.arg_byte(1, 0);
        let drive = byte1 & 0x03;
        proof { lemma_low_two_bits(byte1); }
        self.head = (byte1 >> 2u8) & 0x01;
        self.setup_read_write_result(drive, ST1_NW, 0);
    }

    /// Handle invalid/unrecognized command
    pub fn cmd_invalid(&mut self)
        ensures
            Fdc::done_invalid(*old(self), *final(self)),
            final(self).command_buffer@ == old(self).command_buffer@,
            final(self).command_bytes_expected == old(self).command_bytes_expected,
    {
        self.result_buffer.clear();
        self.result_buffer.push(ST0_IC_INVALID);
        assert(self.result_buffer@ =~= seq![ST0_IC_INVALID]);
        self.result_index = 0;
        self.phase = FdcPhase::Result;
        self.current_command = FdcCommand::Invalid;
    }

    /// Set up result phase for read/write commands
    pub fn setup_read_write_result(&mut self, drive: u8, st1: u8, st2: u8)
        requires
            drive < 4,
        ensures
            final(self).result_buffer@ == Fdc::rw_result(
                *old(self),
                drive,
                old(self).head,
                old(self).sector,
                old(self).sector_size,
                st1,
                st2,
            ),
            final(self).result_index == 0,
            final(self).phase == FdcPhase::Result,
            final(self).irq_pending,
            final(self).current_command == old(self).current_command,
            final(self).command_buffer@ == old(self).command_buffer@,
            final(self).command_bytes_expected == old(self).command_bytes_expected,
            final(self).drives == old(self).drives,
            final(self).pending_interrupts@ == old(self).pending_interrupts@,
            old(self).same_io(*final(self)),
            old(self).same_params(*final(self)),
            old(self).same_timing(*final(self)),
    {
        let cylinder = self.drives[drive as usize].cylinder;
        let st0 = if st1 != 0 || st2 != 0 {
            ST0_IC_ABNORMAL | (self.head << 2u8) | drive
        } else {
            ST0_IC_NORMAL | (self.head << 2u8) | drive
        };
        self.result_buffer.clear();
        self.result_buffer.push(st0);
        self.result_buffer.push(st1);
        self.result_buffer.push(st2);
        self.result_buffer.push(cylinder);
        self.result_buffer.push(self.head);
        self.result_buffer.push(self.sector);
        self.result_buffer.push(self.sector_size);
        assert(self.result_buffer@ =~= seq![st0, st1, st2, cylinder, self.head, self.sector, self.sector_size]);
        self.result_index = 0;
        self.phase = FdcPhase::Result;
        self.irq_pending = true;
    }

    /// Read a result byte; after the last one the controller returns to idle.
    pub fn read_result_byte(&mut self) -> (r: u8)
        ensures
            old(self).result_index < old(self).result_buffer@.len() ==> {
                &&& r == old(self).result_buffer@[old(self).result_index as int]
                &&& final(self).result_index == old(self).result_index + 1
                &&& if old(self).result_index + 1 >= old(self).result_buffer@.len() {
                    final(self).phase == FdcPhase::Idle && final(self).current_command
                        == FdcCommand::Idle
                } else {
                    final(self).phase == old(self).phase && final(self).current_command
                        == old(self).current_command
                }
                &&& final(self).result_buffer@ == old(self).result_buffer@
                &&& final(self).command_buffer@ == old(self).command_buffer@
                &&& final(self).command_bytes_expected == old(self).command_bytes_expected
                &&& final(self).drives == old(self).drives
                &&& final(self).pending_interrupts@ == old(self).pending_interrupts@
                &&& final(self).irq_pending == old(self).irq_pending
                &&& old(self).same_io(*final(self))
                &&& old(self).same_params(*final(self))
                &&& old(self).same_timing(*final(self))
            },
            old(self).result_index >= old(self).result_buffer@.len() ==> r == 0xFF && *final(self)
                == *old(self),
    {
        if self.result_index < self.result_buffer.len() {
            let byte = self.result_buffer[self.result_index];
            self.result_index = self.result_index + 1;
            if self.result_index >= self.result_buffer.len() {
                // All result bytes read, return to idle
                self.phase = FdcPhase::Idle;
                self.current_command = FdcCommand::Idle;
            }
            byte
        } else {
            0xFF
        }
    }

    /// Complete a DMA transfer (called when terminal count is reached):
    /// the result phase reports normal termination on the selected drive.
    pub fn complete_transfer(&mut self)
        ensures
            !final(self).dma_pending,
            final(self).result_buffer@ == Fdc::rw_result(
                *old(self),
                old(self).dor & DOR_DRIVE_SEL_MASK,
                old(self).head,
                old(self).sector,
                old(self).sector_size,
                0,
                0,
            ),
            final(self).result_index == 0,
            final(self).phase == FdcPhase::Result,
            final(self).irq_pending,
            final(self).current_command == old(self).current_command,
            final(self).drives == old(self).drives,
            final(self).pending_interrupts@ == old(self).pending_interrupts@,
            final(self).dor == old(self).dor,
            final(self).transfer_buffer@ == old(self).transfer_buffer@,
            final(self).transfer_index == old(self).transfer_index,
            old(self).same_params(*final(self)),
            old(self).same_timing(*final(self)),
            Fdc::transfer_ended(*old(self), *final(self)),
    {
        self.dma_pending = false;
        let drive = self.dor & DOR_DRIVE_SEL_MASK;
        let dor = self.dor;
        proof { lemma_low_two_bits(dor); }
        self.setup_read_write_result(drive, 0, 0);
    }

    /// The value a read of `port` returns (reads of the data register in
    /// the result phase are described by `read_result_byte`).
    pub open spec fn spec_dir(self) -> u8 {
        if self.drives@[(self.dor & DOR_DRIVE_SEL_MASK) as int].disk_changed {
            0x80
        } else {
            0x00
        }
    }

    /// `n` is `o` after a read of a result byte `r` from the data register:
    /// the byte at the result index, the index moved on, and the controller
    /// idle again after the last byte.
    pub open spec fn result_read(o: Fdc, n: Fdc, r: u8) -> bool {
        &&& o.result_index < o.result_buffer@.len() ==> {
            &&& r == o.result_buffer@[o.result_index as int]
            &&& n.result_index == o.result_index + 1
            &&& n.phase == (if o.result_index + 1 >= o.result_buffer@.len() {
                FdcPhase::Idle
            } else {
                o.phase
            })
        }
        &&& o.result_index >= o.result_buffer@.len() ==> r == 0xFF && n == o
        &&& n.result_buffer@ == o.result_buffer@
        &&& n.pending_interrupts@ == o.pending_interrupts@
        &&& n.irq_pending == o.irq_pending
        &&& n.drives == o.drives
        &&& o.same_io(n)
        &&& o.same_timing(n)
    }

    /// `n` is `o` after `r` is read from `port`.
    pub open spec fn read_effect(o: Fdc, n: Fdc, port: u16, r: u8) -> bool {
        if port == FDC_MSR {
            r == o.spec_msr() && n == o
        } else if port == FDC_DATA {
            if o.phase == FdcPhase::Result {
                Fdc::result_read(o, n, r)
            } else {
                r == 0xFF && n == o
            }
        } else if port == FDC_DIR {
            r == o.spec_dir() && n == o
        } else {
            r == 0xFF && n == o
        }
    }

    /// Releasing the controller from reset (DOR bit 2 going high) puts every
    /// drive's head on cylinder 0, queues one "ready changed" interrupt per
    /// drive in drive order (ST0 0xC0 to 0xC3, cylinder 0) and raises the
    /// interrupt; the DOR takes the new value and the motors follow its top
    /// four bits.
    pub proof fn law_reset_release(old: Fdc, new: Fdc, value: u8)
        requires
            Fdc::write_effect(old, new, FDC_DOR, value),
            old.dor & DOR_RESET == 0,
            value & DOR_RESET != 0,
        ensures
            new.dor == value,
            new.pending_interrupts@ == seq![(0xC0u8, 0u8), (0xC1u8, 0u8), (0xC2u8, 0u8), (0xC3u8, 0u8)],
            new.irq_pending,
            forall|d: int| 0 <= d < 4 ==> #[trigger] new.drives@[d].cylinder == 0,
            new.drives@[0].motor_on == (value & 0x10 != 0),
            new.drives@[1].motor_on == (value & 0x20 != 0),
            new.drives@[2].motor_on == (value & 0x40 != 0),
            new.drives@[3].motor_on == (value & 0x80 != 0),
    {
        assert(0xC0u8 | 0u8 == 0xC0u8 && 0xC0u8 | 1u8 == 0xC1u8 && 0xC0u8 | 2u8 == 0xC2u8 && 0xC0u8 | 3u8
            == 0xC3u8) by (bit_vector);
    }

    /// Reading the data register once per result byte, from the start of
    /// the result phase, gives the result bytes in order and leaves the
    /// controller idle.
    pub proof fn law_result_read_back(states: Seq<Fdc>, bytes: Seq<u8>)
        requires
            bytes.len() >= 1,
            states.len() == bytes.len() + 1,
            states[0].phase == FdcPhase::Result,
            states[0].result_index == 0,
            states[0].result_buffer@.len() == bytes.len(),
            forall|k: int|
                0 <= k < bytes.len() ==> #[trigger] Fdc::read_effect(states[k], states[k + 1], FDC_DATA, bytes[k]),
        ensures
            bytes == states[0].result_buffer@,
            states[bytes.len() as int].phase == FdcPhase::Idle,
            states[bytes.len() as int].result_index == bytes.len(),
    {
        Fdc::lemma_result_reads(states, bytes, bytes.len() - 1);
        assert(bytes =~= states[0].result_buffer@);
    }

    /// After a transfer completes, reading the seven result bytes from the
    /// data register gives ST0 (normal termination with the head and the
    /// selected drive), ST1 = ST2 = 0, the drive's cylinder, the head, the
    /// sector and the sector size, and leaves the controller idle.
    pub proof fn law_transfer_result(o: Fdc, states: Seq<Fdc>, bytes: Seq<u8>)
        requires
            states.len() == 8,
            bytes.len() == 7,
            states[0].result_buffer@ == Fdc::rw_result(
                o,
                o.dor & DOR_DRIVE_SEL_MASK,
                o.head,
                o.sector,
                o.sector_size,
                0,
                0,
            ),
            states[0].result_index == 0,
            states[0].phase == FdcPhase::Result,
            forall|k: int|
                0 <= k < 7 ==> #[trigger] Fdc::read_effect(states[k], states[k + 1], FDC_DATA, bytes[k]),
        ensures
            bytes == Fdc::rw_result(o, o.dor & DOR_DRIVE_SEL_MASK, o.head, o.sector, o.sector_size, 0, 0),
            states[7].phase == FdcPhase::Idle,
    {
        Fdc::law_result_read_back(states, bytes);
    }

    /// Induction for `law_result_read_back`: before the read numbered `k`
    /// the controller is in the result phase at index `k`, and every byte
    /// read so far is the result byte at its index.
    proof fn lemma_result_reads(states: Seq<Fdc>, bytes: Seq<u8>, k: int)
        requires
            bytes.len() >= 1,
            states.len() == bytes.len() + 1,
            states[0].phase == FdcPhase::Result,
            states[0].result_index == 0,
            states[0].result_buffer@.len() == bytes.len(),
            forall|j: int|
                0 <= j < bytes.len() ==> #[trigger] Fdc::read_effect(states[j], states[j + 1], FDC_DATA, bytes[j]),
            0 <= k < bytes.len(),
        ensures
            states[k].phase == FdcPhase::Result,
            states[k].result_index == k,
            states[k].result_buffer@ == states[0].result_buffer@,
            forall|j: int| 0 <= j <= k ==> bytes[j] == states[0].result_buffer@[j],
            states[k + 1].result_buffer@ == states[0].result_buffer@,
            states[k + 1].result_index == k + 1,
            states[k + 1].phase == (if k + 1 == bytes.len() {
                FdcPhase::Idle
            } else {
                FdcPhase::Result
            }),
        decreases k,
    {
        if k > 0 {
            Fdc::lemma_result_reads(states, bytes, k - 1);
        }
        assert(Fdc::read_effect(states[k], states[k + 1], FDC_DATA, bytes[k]));
    }

    /// Read a byte from an FDC port: the MSR, a result byte from the data
    /// register, or the DIR disk-change bit; 0xFF elsewhere.
    pub fn read_u8(&mut self, port: u16) -> (r: u8)
        ensures
            Fdc::read_effect(*old(self), *final(self), port, r),
    {
        if port == FDC_MSR {
            self.build_msr()
        } else if port == FDC_DATA {
            if self.phase == FdcPhase::Result {
                self.read_result_byte()
            } else {
                0xFF
            }
        } else if port == FDC_DIR {
            let drive = (self.dor & DOR_DRIVE_SEL_MASK) as usize;
            let dor = self.dor;
        proof { lemma_low_two_bits(dor); }
            if self.drives[drive].disk_changed {
                0x80
            } else {
                0x00
            }
        } else {
            0xFF
        }
    }

    /// `new` is the controller after `value` is written to `port` of `old`.
    pub open spec fn write_effect(old: Fdc, new: Fdc, port: u16, value: u8) -> bool {
        &&& port == FDC_DOR ==> {
            &&& new.dor == value
            &&& new.drives@[0].motor_on == (value & DOR_MOTOR_A != 0)
            &&& new.drives@[1].motor_on == (value & DOR_MOTOR_B != 0)
            &&& new.drives@[2].motor_on == (value & DOR_MOTOR_C != 0)
            &&& new.drives@[3].motor_on == (value & DOR_MOTOR_D != 0)
            &&& (old.dor & DOR_RESET == 0 && value & DOR_RESET != 0) ==> {
                &&& new.pending_interrupts@ == seq![
                    (ST0_IC_READY_CHANGE | 0, 0u8),
                    (ST0_IC_READY_CHANGE | 1, 0u8),
                    (ST0_IC_READY_CHANGE | 2, 0u8),
                    (ST0_IC_READY_CHANGE | 3, 0u8),
                ]
                &&& new.irq_pending
                &&& !new.reset_pending
                &&& forall|i: int| 0 <= i < 4 ==> #[trigger] new.drives@[i].cylinder == 0
                &&& forall|i: int|
                    0 <= i < 4 ==> #[trigger] new.drives@[i].disk_changed
                        == old.drives@[i].disk_changed
                &&& new.phase == old.phase
                &&& new.result_buffer@ == old.result_buffer@
            }
            &&& (old.dor & DOR_RESET != 0 && value & DOR_RESET == 0) ==> {
                &&& new.phase == FdcPhase::Idle
                &&& new.pending_interrupts@.len() == 0
                &&& !new.irq_pending
                &&& new.reset_pending
                &&& forall|i: int|
                    0 <= i < 4 ==> #[trigger] new.drives@[i].cylinder
                        == old.drives@[i].cylinder
                &&& forall|i: int|
                    0 <= i < 4 ==> #[trigger] new.drives@[i].disk_changed
                        == old.drives@[i].disk_changed
            }
            &&& (old.dor & DOR_RESET == 0) == (value & DOR_RESET == 0) ==> {
                &&& new.phase == old.phase
                &&& new.pending_interrupts@ == old.pending_interrupts@
                &&& new.irq_pending == old.irq_pending
                &&& new.result_buffer@ == old.result_buffer@
                &&& new.result_index == old.result_index
                &&& new.reset_pending == old.reset_pending
                &&& forall|i: int|
                    0 <= i < 4 ==> #[trigger] new.drives@[i].cylinder
                        == old.drives@[i].cylinder
                &&& forall|i: int|
                    0 <= i < 4 ==> #[trigger] new.drives@[i].disk_changed
                        == old.drives@[i].disk_changed
            }
        }
        &&& port == FDC_DATA && (old.phase == FdcPhase::Idle || old.phase
            == FdcPhase::Command) ==> {
            &&& old.phase == FdcPhase::Idle ==> {
                &&& new.command_buffer@ == seq![value]
                &&& spec_command_length(value) == 1 ==> Fdc::executed(old, new)
                &&& spec_command_length(value) != 1 ==> new.phase == FdcPhase::Command
            }
            &&& old.phase == FdcPhase::Command ==> {
                &&& new.command_buffer@ == old.command_buffer@.push(value)
                &&& old.command_buffer@.len() + 1 >= old.command_bytes_expected
                    ==> Fdc::executed(old, new)
                &&& old.command_buffer@.len() + 1 < old.command_bytes_expected
                    ==> new.phase == FdcPhase::Command
            }
        }
        &&& port == FDC_DATA && old.phase != FdcPhase::Idle && old.phase
            != FdcPhase::Command ==> new == old
        &&& port == FDC_DIR ==> new.ccr == value & 0x03
        &&& port != FDC_DOR && port != FDC_DATA && port != FDC_DIR ==> new == old
    }

    /// Write a byte to an FDC port: the DOR (reset, drive select, motors),
    /// a command byte to the data register, or the CCR data rate.
    pub fn write_u8(&mut self, port: u16, value: u8)
        ensures
            Fdc::write_effect(*old(self), *final(self), port, value),
    {
        if port == FDC_DOR {
            let old_dor = self.dor;
            self.dor = value;
            if (old_dor & DOR_RESET) == 0 && (value & DOR_RESET) != 0 {
                // Exiting reset - complete reset sequence and generate interrupts
                self.complete_reset();
            } else if (old_dor & DOR_RESET) != 0 && (value & DOR_RESET) == 0 {
                // Entering reset - clear state
                self.enter_reset();
            }
            // Update motor states
            self.drives[0].motor_on = (value & DOR_MOTOR_A) != 0;
            self.drives[1].motor_on = (value & DOR_MOTOR_B) != 0;
            self.drives[2].motor_on = (value & DOR_MOTOR_C) != 0;
            self.drives[3].motor_on = (value & DOR_MOTOR_D) != 0;
        } else if port == FDC_DATA {
            if self.phase == FdcPhase::Idle || self.phase == FdcPhase::Command {
                self.write_command_byte(value);
            }
        } else if port == FDC_DIR {
            // Configuration Control Register (write): data rate select
            self.ccr = value & 0x03;
        }
    }

    /// Drive IRQ6 from the interrupt state when DMA/IRQ is enabled in the DOR
    pub fn tick(&mut self, cycles: u16, pic: &mut Pic)
        ensures
            *final(self) == *old(self),
            final(pic).irq_prev == (if old(self).irq_pending && old(self).dor & DOR_DMA_ENABLE != 0 {
                old(pic).irq_prev | 0x40
            } else {
                old(pic).irq_prev & !0x40u8
            }),
            final(pic).irr == (if old(self).irq_pending && old(self).dor & DOR_DMA_ENABLE != 0
                && old(pic).irq_prev & 0x40 == 0 {
                old(pic).irr | 0x40
            } else {
                old(pic).irr
            }),
            final(pic).imr == old(pic).imr,
            final(pic).isr == old(pic).isr,
            final(pic).same_config(*old(pic)),
    {
        assert((1u8 << 6u8) == 0x40) by (bit_vector);
        if self.irq_pending && (self.dor & DOR_DMA_ENABLE) != 0 {
            pic.set_irq_level(6, true);
        } else {
            pic.set_irq_level(6, false);
        }
    }

    /// Get the port range this device handles (inclusive)
    pub fn port_range(&self) -> (r: RangeInclusive<u16>)
        ensures
            r@.start == FDC_PORT_BASE,
            r@.end == FDC_PORT_END,
            !r@.exhausted,
    {
        RangeInclusive::new(FDC_PORT_BASE, FDC_PORT_END)
    }

    /// Check if the controller is requesting a DMA transfer
    pub fn dma_dreq(&self) -> (r: bool)
        ensures
            r == (self.dma_pending && self.transfer_index < self.transfer_buffer@.len()),
    {
        self.dma_pending && self.transfer_index < self.transfer_buffer.len()
    }

    /// `new` is `old` after it handed `r` to memory: the next byte of a
    /// pending transfer, with the transfer index moved on, or nothing when
    /// no transfer is pending or every byte was handed over.
    pub open spec fn byte_given(old: Fdc, new: Fdc, r: Option<u8>) -> bool {
        if old.dma_pending && old.transfer_index < old.transfer_buffer@.len() {
            &&& r == Some(old.transfer_buffer@[old.transfer_index as int])
            &&& new == (Fdc { transfer_index: (old.transfer_index + 1) as usize, ..old })
        } else {
            r.is_none() && new == old
        }
    }

    /// Provide the next byte of a Read Data transfer (disk -> memory)
    pub fn dma_read_byte(&mut self) -> (r: Option<u8>)
        ensures
            Fdc::byte_given(*old(self), *final(self), r),
    {
        if self.dma_pending && self.transfer_index < self.transfer_buffer.len() {
            let byte = self.transfer_buffer[self.transfer_index];
            self.transfer_index = self.transfer_index + 1;
            Some(byte)
        } else {
            None
        }
    }

    /// Receive a byte of a Write Data transfer (memory -> disk)
    pub fn dma_write_byte(&mut self, value: u8)
        ensures
            final(self).transfer_buffer@ == (if old(self).dma_pending {
                old(self).transfer_buffer@.push(value)
            } else {
                old(self).transfer_buffer@
            }),
            final(self).transfer_index == old(self).transfer_index,
            final(self).dma_pending == old(self).dma_pending,
            final(self).phase == old(self).phase,
            final(self).result_buffer@ == old(self).result_buffer@,
            final(self).irq_pending == old(self).irq_pending,
            Fdc::byte_received(*old(self), *final(self), value),
    {
        if self.dma_pending {
            self.transfer_buffer.push(value);
        }
    }

    /// Terminal count ends the transfer and enters the result phase
    pub fn dma_terminal_count(&mut self)
        ensures
            !final(self).dma_pending,
            final(self).phase == FdcPhase::Result,
            final(self).irq_pending,
            final(self).result_index == 0,
            final(self).result_buffer@ == Fdc::rw_result(
                *old(self),
                old(self).dor & DOR_DRIVE_SEL_MASK,
                old(self).head,
                old(self).sector,
                old(self).sector_size,
                0,
                0,
            ),
            Fdc::transfer_ended(*old(self), *final(self)),
    {
        self.complete_transfer();
    }
}

impl Default for Fdc {
    fn default() -> (r: Self)
        ensures
            r.phase == FdcPhase::Idle,
            r.dor == 0,
            !r.irq_pending,
            r.pending_interrupts@.len() == 0,
    {
        Self::new()
    }
}

impl IoDevice for Fdc {
    open spec fn inv(&self) -> bool {
        true
    }

    open spec fn accepts_write(&self, port: u16, value: u8) -> bool {
        true
    }

    fn write_accepted(&self, port: u16, value: u8) -> (r: bool) {
        true
    }

    fn read_u8(&mut self, port: u16) -> u8 {
        Fdc::read_u8(self, port)
    }

    fn write_u8(&mut self, port: u16, value: u8) {
        Fdc::write_u8(self, port, value)
    }

    fn port_range(&self) -> RangeInclusive<u16> {
        Fdc::port_range(self)
    }

    fn tick(&mut self, cycles: u16, pic: &mut Pic) {
        Fdc::tick(self, cycles, pic)
    }
}

impl DmaCapable for Fdc {
    open spec fn dma_gave(old: Fdc, new: Fdc, r: Option<u8>) -> bool {
        Fdc::byte_given(old, new, r)
    }

    open spec fn dma_received(old: Fdc, new: Fdc, value: u8) -> bool {
        Fdc::byte_received(old, new, value)
    }

    open spec fn dma_ended(old: Fdc, new: Fdc) -> bool {
        Fdc::transfer_ended(old, new)
    }

    fn dma_dreq(&self) -> bool {
        Fdc::dma_dreq(self)
    }

    fn dma_read_byte(&mut self) -> Option<u8> {
        Fdc::dma_read_byte(self)
    }

    fn dma_write_byte(&mut self, value: u8) {
        Fdc::dma_write_byte(self, value)
    }

    fn dma_terminal_count(&mut self) {
        Fdc::dma_terminal_count(self)
    }
}

} // verus!
