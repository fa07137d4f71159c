//! CPU state and register management
//!
//! The 8088 CPU state includes:
//! - General purpose registers (AX, CX, DX, BX, SP, BP, SI, DI)
//! - Segment registers (ES, CS, SS, DS)
//! - Instruction pointer (IP) and flags
//! - Cycle counters
//!
//! Flags are kept up to date after every operation: an arithmetic or logic
//! instruction sets exactly the flags that the 8088 defines for it and
//! leaves the others (including IF, DF and TF) as they were.

use crate::cpu::decode::modrm::{mode_disp, mode_of};
use crate::cpu::decode::{AddressingMode, ModRM, Operand, OperandType};
use crate::cpu::tier2::DecodeCache;
use crate::memory::{is_writable, law_byte_read_after_write, law_word_read_after_write, MemoryBus};
use vstd::prelude::*;

verus! {

/// Operation type whose result determines ZF, SF, PF (and CF for the
/// additive operations)
#[derive(Debug, Clone, Copy, PartialEq, Eq, Structural)]
pub enum FlagOp {
    NoOp,
    Add8,
    Add16,
    Adc8,
    Adc16,
    Sub8,
    Sub16,
    Sbb8,
    Sbb16,
    And8,
    And16,
    Or8,
    Or16,
    Xor8,
    Xor16,
    Inc8,
    Inc16,
    Dec8,
    Dec16,
}

/// Repeat prefix in effect for the next string instruction
#[derive(Debug, Clone, Copy, PartialEq, Eq, Structural)]
pub enum RepeatPrefix {
    /// No prefix
    NoRepeat,
    /// REP / REPE / REPZ
    Rep,
    /// REPNE / REPNZ
    RepNe,
}

/// 8088 CPU state
pub struct Cpu {
    /// General purpose registers: AX, CX, DX, BX, SP, BP, SI, DI (indices 0-7)
    pub regs: [u16; 8],
    /// Segment registers: ES, CS, SS, DS (indices 0-3)
    pub segments: [u16; 4],
    /// Instruction pointer
    pub ip: u16,
    /// Flags register
    pub flags: u16,
    /// Total CPU cycles executed
    pub total_cycles: u64,
    /// Cycles spent on current instruction
    pub current_instruction_cycles: u16,
    /// Set by HLT; the CPU waits for an interrupt
    pub halted: bool,
    /// Segment override prefix in effect for the next instruction
    pub segment_override: Option<u8>,
    /// Repeat prefix in effect for the next string instruction
    pub repeat_prefix: RepeatPrefix,
    /// Address of the repeat prefix, to loop back to
    pub repeat_ip: u16,
    /// Interrupts stay blocked for one instruction after STI
    pub interrupt_delay: bool,
    /// Tier 2 decode cache
    pub decode_cache: DecodeCache,
}

/// Whether `mask` is set in `flags`
pub open spec fn flag_bit(flags: u16, mask: u16) -> bool {
    flags & mask != 0
}

/// `flags` with `mask` set or cleared
pub open spec fn set_bit(flags: u16, mask: u16, value: bool) -> u16 {
    if value {
        flags | mask
    } else {
        flags & !mask
    }
}

/// Whether `b` has an even number of set bits
pub open spec fn parity_even(b: u8) -> bool {
    ((b & 1) as u32 + ((b >> 1u8) & 1) as u32 + ((b >> 2u8) & 1) as u32 + ((b >> 3u8) & 1) as u32
        + ((b >> 4u8) & 1) as u32 + ((b >> 5u8) & 1) as u32 + ((b >> 6u8) & 1) as u32 + ((b >> 7u8)
        & 1) as u32) % 2 == 0
}

/// Whether `op` works on bytes
pub open spec fn is_byte_flag_op(op: FlagOp) -> bool {
    op is Add8 || op is Adc8 || op is Sub8 || op is Sbb8 || op is And8 || op is Or8 || op is Xor8
        || op is Inc8 || op is Dec8
}

/// Whether `op` produces a carry (or borrow) out of its result
pub open spec fn is_carry_flag_op(op: FlagOp) -> bool {
    op is Add8 || op is Add16 || op is Adc8 || op is Adc16 || op is Sub8 || op is Sub16 || op is Sbb8
        || op is Sbb16
}

/// Whether `op` is a logic operation (AND, OR, XOR), which clears CF
pub open spec fn is_logic_flag_op(op: FlagOp) -> bool {
    op is And8 || op is And16 || op is Or8 || op is Or16 || op is Xor8 || op is Xor16
}

/// Flags after an operation of kind `op` produced `result`: ZF, SF and PF
/// from the result's size; CF from the carry-out bit for additive
/// operations, cleared for logic operations and kept for INC and DEC; every
/// other bit is kept.
pub open spec fn flags_after(flags: u16, result: u32, op: FlagOp) -> u16 {
    let sets_cf = is_carry_flag_op(op) || is_logic_flag_op(op);
    if op is NoOp {
        flags
    } else if is_byte_flag_op(op) {
        let r = result as u8;
        with_result_flags(
            flags,
            r == 0,
            r & 0x80 != 0,
            parity_even(r),
            sets_cf,
            is_carry_flag_op(op) && result & 0x100 != 0,
        )
    } else {
        let r = result as u16;
        with_result_flags(
            flags,
            r == 0,
            r & 0x8000 != 0,
            parity_even(r as u8),
            sets_cf,
            is_carry_flag_op(op) && result & 0x10000 != 0,
        )
    }
}

/// `flags` with ZF, SF and PF set as given and, for an operation with a
/// carry, CF as given; every other bit kept
pub open spec fn with_result_flags(flags: u16, zero: bool, sign: bool, parity: bool, carry_op: bool, carry: bool) -> u16 {
    let base = if carry_op {
        flags & !0x00C5u16
    } else {
        flags & !0x00C4u16
    };
    let f1 = if zero {
        base | 0x0040u16
    } else {
        base
    };
    let f2 = if sign {
        f1 | 0x0080u16
    } else {
        f1
    };
    let f3 = if parity {
        f2 | 0x0004u16
    } else {
        f2
    };
    if carry_op && carry {
        f3 | 0x0001u16
    } else {
        f3
    }
}

/// Each flag that `with_result_flags` sets reads back as given; CF is kept
/// when there is no carry, and the other bits are untouched.
pub proof fn lemma_result_flags(flags: u16, zero: bool, sign: bool, parity: bool, carry_op: bool, carry: bool)
    by (bit_vector)
    ensures
        (with_result_flags(flags, zero, sign, parity, carry_op, carry) & 0x0040u16 != 0) == zero,
        (with_result_flags(flags, zero, sign, parity, carry_op, carry) & 0x0080u16 != 0) == sign,
        (with_result_flags(flags, zero, sign, parity, carry_op, carry) & 0x0004u16 != 0) == parity,
        (with_result_flags(flags, zero, sign, parity, carry_op, carry) & 0x0001u16 != 0) == (if carry_op {
            carry
        } else {
            flags & 0x0001u16 != 0
        }),
        with_result_flags(flags, zero, sign, parity, carry_op, carry) & !0x00C5u16 == flags & !0x00C5u16,
{
}

/// The flags an operation leaves, one by one: ZF is set exactly when the
/// result, cut to the operation's size, is zero; SF when its top bit is
/// set; PF when its low byte has an even number of set bits; CF, for an
/// addition or subtraction, when there is a carry out of the top bit, it is
/// clear after AND, OR and XOR, and INC and DEC keep it; every other flag
/// keeps its value.
pub proof fn law_flags_after(flags: u16, result: u32, op: FlagOp)
    requires
        !(op is NoOp),
    ensures
        is_byte_flag_op(op) ==> {
            let f = flags_after(flags, result, op);
            &&& flag_bit(f, Cpu::ZF) == (result as u8 == 0)
            &&& flag_bit(f, Cpu::SF) == ((result as u8) & 0x80 != 0)
            &&& flag_bit(f, Cpu::PF) == parity_even(result as u8)
            &&& flag_bit(f, Cpu::CF) == (if is_carry_flag_op(op) {
                result & 0x100 != 0
            } else if is_logic_flag_op(op) {
                false
            } else {
                flag_bit(flags, Cpu::CF)
            })
        },
        !is_byte_flag_op(op) ==> {
            let f = flags_after(flags, result, op);
            &&& flag_bit(f, Cpu::ZF) == (result as u16 == 0)
            &&& flag_bit(f, Cpu::SF) == ((result as u16) & 0x8000 != 0)
            &&& flag_bit(f, Cpu::PF) == parity_even((result as u16) as u8)
            &&& flag_bit(f, Cpu::CF) == (if is_carry_flag_op(op) {
                result & 0x10000 != 0
            } else if is_logic_flag_op(op) {
                false
            } else {
                flag_bit(flags, Cpu::CF)
            })
        },
        flags_after(flags, result, op) & !0x00C5u16 == flags & !0x00C5u16,
{
    let co = is_carry_flag_op(op) || is_logic_flag_op(op);
    if is_byte_flag_op(op) {
        let r = result as u8;
        let c = is_carry_flag_op(op) && result & 0x100 != 0;
        lemma_result_flags(flags, r == 0, r & 0x80 != 0, parity_even(r), co, c);
    } else {
        let r = result as u16;
        let c = is_carry_flag_op(op) && result & 0x10000 != 0;
        lemma_result_flags(flags, r == 0, r & 0x8000 != 0, parity_even(r as u8), co, c);
    }
}

/// `flags` with OF and AF set as given
pub open spec fn with_of_af(flags: u16, of: bool, af: bool) -> u16 {
    set_bit(set_bit(flags, 0x0800, of), 0x0010, af)
}

/// Signed overflow of `a + b (+ carry) = r` at the sign bit `sign`
pub open spec fn add_overflow(a: u32, b: u32, r: u32, sign: u32) -> bool {
    (a ^ r) & (b ^ r) & sign != 0
}

/// Signed overflow of `a - b (- borrow) = r` at the sign bit `sign`
pub open spec fn sub_overflow(a: u32, b: u32, r: u32, sign: u32) -> bool {
    (a ^ b) & (a ^ r) & sign != 0
}

/// Carry (or borrow) out of bit 3 of `a ± b = r`
pub open spec fn aux_carry(a: u32, b: u32, r: u32) -> bool {
    (a ^ b ^ r) & 0x10 != 0
}

/// Physical address of `segment:offset`
pub open spec fn phys(segment: u16, offset: u16) -> u32 {
    (segment as int * 16 + offset as int) as u32
}

/// A 16-bit register word with one of its bytes replaced
pub open spec fn with_reg_byte(word: u16, high: bool, value: u8) -> u16 {
    if high {
        (word & 0x00FF) | ((value as u16) << 8u16)
    } else {
        (word & 0xFF00) | (value as u16)
    }
}

/// Whether `op` can be read without faulting
pub open spec fn operand_ok(op: Operand) -> bool {
    (op.op_type == OperandType::Mem8 || op.op_type == OperandType::Mem16) ==> (op.value as u8) < 8
        || (op.value as u8) == 0xFF
}

/// Whether `op` can be written without faulting
pub open spec fn operand_writable(op: Operand) -> bool {
    &&& operand_ok(op)
    &&& op.op_type != OperandType::Imm8
    &&& op.op_type != OperandType::Imm16
    &&& op.op_type != OperandType::Rel8
    &&& op.op_type != OperandType::Rel16
}

/// Whether `op` is a byte operand
pub open spec fn is_byte_operand(op: Operand) -> bool {
    op.op_type == OperandType::Reg8 || op.op_type == OperandType::Mem8
}

/// Shifting a segment left by 4 multiplies it by 16.
pub proof fn lemma_shl4(s: u16)
    by (bit_vector)
    ensures
        (s as u32) << 4u32 == (s as u32) * 16,
{
}

/// Replacing one byte of a register word keeps the other byte and reads
/// back the new one.
pub proof fn lemma_reg_byte(w: u16, v: u8)
    by (bit_vector)
    ensures
        ((w & 0xFF00) | (v as u16)) as u8 == v,
        ((w & 0xFF00) | (v as u16)) >> 8u16 == w >> 8u16,
        (((w & 0x00FF) | ((v as u16) << 8u16)) >> 8u16) as u8 == v,
        ((w & 0x00FF) | ((v as u16) << 8u16)) as u8 == w as u8,
{
}

/// A word written to a 16-bit register reads back; the other registers
/// keep their values.
pub proof fn law_reg16_read_after_write(old: Cpu, new: Cpu, reg: u8, value: u16, other: u8)
    requires
        new.regs@ == old.regs@.update((reg % 8) as int, value),
    ensures
        new.reg16(reg) == value,
        other % 8 != reg % 8 ==> new.reg16(other) == old.reg16(other),
{
}

/// A byte written to an 8-bit register reads back, and the other byte of
/// the same 16-bit register is kept (AL and AH, CL and CH, ...).
pub proof fn law_reg8_read_after_write(old: Cpu, new: Cpu, reg: u8, value: u8)
    requires
        reg < 8,
        new.regs@ == old.regs@.update(
            (reg % 4) as int,
            with_reg_byte(old.regs@[(reg % 4) as int], reg >= 4, value),
        ),
    ensures
        new.reg8(reg) == value,
        new.reg8(reg ^ 4) == old.reg8(reg ^ 4),
        forall|i: int| 0 <= i < 8 && i != reg % 4 ==> new.regs@[i] == old.regs@[i],
{
    lemma_reg_byte(old.regs@[(reg % 4) as int], value);
    assert((reg ^ 4) % 4 == reg % 4 && ((reg ^ 4) < 4) == (reg >= 4)) by (bit_vector)
        requires
            reg < 8,
    ;
}

/// A flag that was set reads as set, one that was cleared as clear, and
/// the other flags keep their values.
pub proof fn law_flag_read_after_write(flags: u16, mask: u16, value: bool, other: u16)
    by (bit_vector)
    requires
        mask & other == 0,
    ensures
        mask != 0 ==> flag_bit(set_bit(flags, mask, value), mask) == value,
        flag_bit(set_bit(flags, mask, value), other) == flag_bit(flags, other),
{
}

/// The carry flag is a different bit from the overflow and auxiliary carry
/// flags, and the trap flag from the interrupt flag.
pub proof fn lemma_flag_masks_disjoint()
    by (bit_vector)
    ensures
        Cpu::CF & Cpu::OF == 0,
        Cpu::OF & Cpu::CF == 0,
        Cpu::TF & Cpu::IF == 0,
        Cpu::IF & Cpu::TF == 0,
        Cpu::AF & Cpu::CF == 0,
{
}

/// Whether operand `op` is a register, or memory whose bytes are writable
/// (RAM or video RAM), as seen from `c`
pub open spec fn operand_stores(c: Cpu, op: Operand) -> bool {
    match op.op_type {
        OperandType::Reg8 | OperandType::Reg16 | OperandType::SegReg => true,
        OperandType::Mem8 => is_writable(c.operand_address(op)),
        OperandType::Mem16 | OperandType::Direct => is_writable(c.operand_address(op))
            && is_writable((c.operand_address(op) + 1) as u32),
        _ => false,
    }
}

/// A value written to a register or to writable memory reads back (a byte
/// operand keeps the low byte).
pub proof fn law_operand_read_after_write(oc: Cpu, om: MemoryBus, nc: Cpu, nm: MemoryBus, op: Operand, value: u16)
    requires
        Cpu::op_written(oc, om, nc, nm, op, value),
        operand_stores(oc, op),
    ensures
        nc.read_op(nm, op) == (if op.op_type == OperandType::Reg8 || op.op_type == OperandType::Mem8 {
            (value as u8) as u16
        } else {
            value
        }),
        operand_stores(nc, op),
{
    match op.op_type {
        OperandType::Reg8 => {
            let idx = ((op.value as u8) % 4) as int;
            lemma_reg_byte(oc.regs@[idx], value as u8);
        },
        OperandType::Mem8 => {
            let a = oc.operand_address(op);
            law_byte_read_after_write(om, nm, a, value as u8, a);
        },
        OperandType::Mem16 | OperandType::Direct => {
            let a = oc.operand_address(op);
            law_word_read_after_write(om, nm, a, value, a);
        },
        _ => {},
    }
}

/// Masking a register number keeps its remainder.
pub proof fn lemma_index_masks(x: u8)
    by (bit_vector)
    ensures
        x & 0b11 == x % 4,
        x & 0b111 == x % 8,
{
}

impl Cpu {
    /// Carry flag
    pub const CF: u16 = 0x0001;
    /// Parity flag
    pub const PF: u16 = 0x0004;
    /// Auxiliary carry flag
    pub const AF: u16 = 0x0010;
    /// Zero flag
    pub const ZF: u16 = 0x0040;
    /// Sign flag
    pub const SF: u16 = 0x0080;
    /// Trap flag
    pub const TF: u16 = 0x0100;
    /// Interrupt enable flag
    pub const IF: u16 = 0x0200;
    /// Direction flag
    pub const DF: u16 = 0x0400;
    /// Overflow flag
    pub const OF: u16 = 0x0800;

    /// Everything outside registers, segments, IP and flags is the same.
    pub open spec fn same_aux(self, other: Cpu) -> bool {
        &&& other.total_cycles == self.total_cycles
        &&& other.current_instruction_cycles == self.current_instruction_cycles
        &&& other.halted == self.halted
        &&& other.segment_override == self.segment_override
        &&& other.repeat_prefix == self.repeat_prefix
        &&& other.repeat_ip == self.repeat_ip
        &&& other.interrupt_delay == self.interrupt_delay
        &&& other.decode_cache == self.decode_cache
    }

    /// Everything but the general registers (and flags) is the same.
    pub open spec fn same_but_regs(self, other: Cpu) -> bool {
        &&& other.segments == self.segments
        &&& other.ip == self.ip
        &&& self.same_aux(other)
    }

    /// Everything but the flags is the same.
    pub open spec fn same_but_flags(self, other: Cpu) -> bool {
        &&& other.regs == self.regs
        &&& self.same_but_regs(other)
    }

    /// Whether flag `mask` is set
    pub open spec fn flag(self, mask: u16) -> bool {
        flag_bit(self.flags, mask)
    }

    /// 8-bit register (0=AL, 1=CL, 2=DL, 3=BL, 4=AH, 5=CH, 6=DH, 7=BH)
    pub open spec fn reg8(self, reg: u8) -> u8 {
        let w = self.regs@[(reg % 4) as int];
        if reg < 4 {
            w as u8
        } else {
            (w >> 8u16) as u8
        }
    }

    /// 16-bit register (0=AX, 1=CX, 2=DX, 3=BX, 4=SP, 5=BP, 6=SI, 7=DI)
    pub open spec fn reg16(self, reg: u8) -> u16 {
        self.regs@[(reg % 8) as int]
    }

    /// Segment register (0=ES, 1=CS, 2=SS, 3=DS)
    pub open spec fn seg(self, seg: u8) -> u16 {
        self.segments@[(seg % 4) as int]
    }

    /// Default segment index and offset of a base/index encoding with a
    /// displacement (any other encoding addresses `disp` in DS directly).
    pub open spec fn ea(self, base_index: u8, disp: u16) -> (u8, u16) {
        let bx = self.regs@[3];
        let bp = self.regs@[5];
        let si = self.regs@[6];
        let di = self.regs@[7];
        if base_index == 0 {
            (3u8, bx.wrapping_add(si).wrapping_add(disp))
        } else if base_index == 1 {
            (3u8, bx.wrapping_add(di).wrapping_add(disp))
        } else if base_index == 2 {
            (2u8, bp.wrapping_add(si).wrapping_add(disp))
        } else if base_index == 3 {
            (2u8, bp.wrapping_add(di).wrapping_add(disp))
        } else if base_index == 4 {
            (3u8, si.wrapping_add(disp))
        } else if base_index == 5 {
            (3u8, di.wrapping_add(disp))
        } else if base_index == 6 {
            (2u8, bp.wrapping_add(disp))
        } else if base_index == 7 {
            (3u8, bx.wrapping_add(disp))
        } else {
            (3u8, disp)
        }
    }

    /// Segment used by memory operand `op`: its override, else its default
    pub open spec fn operand_segment(self, op: Operand) -> u16 {
        if op.segment != 0xFF {
            self.seg(op.segment)
        } else {
            self.segments@[self.ea(op.value as u8, op.disp as u16).0 as int]
        }
    }

    /// Physical address of memory operand `op`
    pub open spec fn operand_address(self, op: Operand) -> u32 {
        if op.op_type == OperandType::Direct {
            phys(
                if op.segment != 0xFF {
                    self.seg(op.segment)
                } else {
                    self.segments@[3]
                },
                op.value,
            )
        } else {
            phys(self.operand_segment(op), self.ea(op.value as u8, op.disp as u16).1)
        }
    }

    /// Value of operand `op`
    pub open spec fn read_op(self, mem: MemoryBus, op: Operand) -> u16 {
        match op.op_type {
            OperandType::Absent => 0,
            OperandType::Reg8 => self.reg8(op.value as u8) as u16,
            OperandType::Reg16 => self.reg16(op.value as u8),
            OperandType::SegReg => self.seg(op.value as u8),
            OperandType::Imm8 => op.value,
            OperandType::Imm16 => op.value,
            OperandType::Mem8 => mem.byte(self.operand_address(op)) as u16,
            OperandType::Mem16 => mem.word(self.operand_address(op)),
            OperandType::Direct => mem.word(self.operand_address(op)),
            OperandType::Rel8 => op.value,
            OperandType::Rel16 => op.value,
        }
    }

    /// `nc`/`nm` is `oc`/`om` with `value` written to operand `op`; the
    /// flags are not constrained.
    pub open spec fn op_written(
        oc: Cpu,
        om: MemoryBus,
        nc: Cpu,
        nm: MemoryBus,
        op: Operand,
        value: u16,
    ) -> bool {
        match op.op_type {
            OperandType::Reg8 => {
                let reg = op.value as u8;
                let idx = (reg % 4) as int;
                &&& nc.regs@ == oc.regs@.update(idx, with_reg_byte(oc.regs@[idx], reg >= 4, value as u8))
                &&& oc.same_but_regs(nc)
                &&& nm == om
            },
            OperandType::Reg16 => {
                &&& nc.regs@ == oc.regs@.update(((op.value as u8) % 8) as int, value)
                &&& oc.same_but_regs(nc)
                &&& nm == om
            },
            OperandType::SegReg => {
                &&& nc.segments@ == oc.segments@.update(((op.value as u8) % 4) as int, value)
                &&& nc.regs == oc.regs
                &&& nc.ip == oc.ip
                &&& oc.same_aux(nc)
                &&& nm == om
            },
            OperandType::Mem8 => {
                &&& oc.same_but_flags(nc)
                &&& MemoryBus::written(om, nm, oc.operand_address(op), value as u8)
            },
            OperandType::Mem16 => {
                &&& oc.same_but_flags(nc)
                &&& MemoryBus::word_written(om, nm, oc.operand_address(op), value)
            },
            OperandType::Direct => {
                &&& oc.same_but_flags(nc)
                &&& MemoryBus::word_written(om, nm, oc.operand_address(op), value)
            },
            _ => {
                &&& oc.same_but_flags(nc)
                &&& nm == om
            },
        }
    }

    /// Flags after an operation (see `flags_after`)
    pub open spec fn spec_compute_flags(self, result: u32, op: FlagOp) -> u16 {
        flags_after(self.flags, result, op)
    }

    /// The power-on state: registers zero, CS:IP = F000:FFF0 (the reset
    /// vector), only the reserved flag bit set, nothing pending, and an
    /// empty decode cache.
    pub open spec fn is_initial(self) -> bool {
        &&& forall|i: int| 0 <= i < 8 ==> #[trigger] self.regs@[i] == 0
        &&& self.segments@ == seq![0u16, 0xF000u16, 0u16, 0u16]
        &&& self.ip == 0xFFF0
        &&& self.flags == 0x0002
        &&& self.total_cycles == 0
        &&& self.current_instruction_cycles == 0
        &&& !self.halted
        &&& self.segment_override.is_none()
        &&& self.repeat_prefix == RepeatPrefix::NoRepeat
        &&& self.repeat_ip == 0
        &&& !self.interrupt_delay
        &&& self.decode_cache.entries@.len() == 0
    }

    /// `self` is `old` after a hardware reset: registers zero, CS:IP =
    /// F000:FFF0, only the reserved flag bit set, nothing pending; the
    /// decode cache and the saved REP address are kept.
    pub open spec fn is_reset_of(self, old: Cpu) -> bool {
        &&& forall|i: int| 0 <= i < 8 ==> #[trigger] self.regs@[i] == 0
        &&& self.segments@ == seq![0u16, 0xF000u16, 0u16, 0u16]
        &&& self.ip == 0xFFF0
        &&& self.flags == 0x0002
        &&& self.total_cycles == 0
        &&& self.current_instruction_cycles == 0
        &&& !self.halted
        &&& self.segment_override.is_none()
        &&& self.repeat_prefix == RepeatPrefix::NoRepeat
        &&& self.repeat_ip == old.repeat_ip
        &&& !self.interrupt_delay
        &&& self.decode_cache == old.decode_cache
    }

    /// Create a new CPU in reset state (CS:IP = F000:FFF0, flags 0x0002)
    pub fn new() -> (r: Self)
        ensures
            r.is_initial(),
    {
        let r = Cpu {
            regs: [0, 0, 0, 0, 0, 0, 0, 0],
            segments: [0, 0xF000, 0, 0],
            ip: 0xFFF0,
            flags: 0x0002,
            total_cycles: 0,
            current_instruction_cycles: 0,
            halted: false,
            segment_override: None,
            repeat_prefix: RepeatPrefix::NoRepeat,
            repeat_ip: 0,
            interrupt_delay: false,
            decode_cache: DecodeCache::new(),
        };
        assert(r.segments@ =~= seq![0u16, 0xF000u16, 0u16, 0u16]);
        r
    }

    /// Reset CPU to power-on state: CS:IP = F000:FFF0 (the reset vector),
    /// flags 0x0002, everything else zero.
    pub fn reset(&mut self)
        ensures
            final(self).is_reset_of(*old(self)),
    {
        self.regs = [0, 0, 0, 0, 0, 0, 0, 0];
        self.segments = [0, 0, 0, 0];
        self.segments[1] = 0xF000;
        self.ip = 0xFFF0;
        self.flags = 0x0002;
        self.total_cycles = 0;
        self.current_instruction_cycles = 0;
        self.halted = false;
        self.segment_override = None;
        self.repeat_prefix = RepeatPrefix::NoRepeat;
        self.interrupt_delay = false;
        assert(self.segments@ =~= seq![0u16, 0xF000u16, 0u16, 0u16]);
    }

    // === Register Access Methods ===
    /// Read an 8-bit register
    pub fn read_reg8(&self, reg: u8) -> (r: u8)
        ensures
            r == self.reg8(reg),
    {
        let idx = (reg & 0b11) as usize;
        proof {
            lemma_index_masks(reg);
        }
        if reg < 4 {
            self.regs[idx] as u8
        } else {
            (self.regs[idx] >> 8) as u8
        }
    }

    /// Write an 8-bit register
    pub fn write_reg8(&mut self, reg: u8, value: u8)
        ensures
            final(self).regs@ == old(self).regs@.update(
                (reg % 4) as int,
                with_reg_byte(old(self).regs@[(reg % 4) as int], reg >= 4, value),
            ),
            old(self).same_but_regs(*final(self)),
            final(self).flags == old(self).flags,
    {
        let idx = (reg & 0b11) as usize;
        proof {
            lemma_index_masks(reg);
        }
        if reg < 4 {
            self.regs[idx] = (self.regs[idx] & 0xFF00) | (value as u16);
        } else {
            self.regs[idx] = (self.regs[idx] & 0x00FF) | ((value as u16) << 8);
        }
    }

    /// Read a 16-bit register
    pub fn read_reg16(&self, reg: u8) -> (r: u16)
        ensures
            r == self.reg16(reg),
    {
        proof {
            lemma_index_masks(reg);
        }
        self.regs[(reg & 0b111) as usize]
    }

    /// Write a 16-bit register
    pub fn write_reg16(&mut self, reg: u8, value: u16)
        ensures
            final(self).regs@ == old(self).regs@.update((reg % 8) as int, value),
            old(self).same_but_regs(*final(self)),
            final(self).flags == old(self).flags,
    {
        proof {
            lemma_index_masks(reg);
        }
        self.regs[(reg & 0b111) as usize] = value;
    }

    /// Read a segment register
    pub fn read_seg(&self, seg: u8) -> (r: u16)
        ensures
            r == self.seg(seg),
    {
        proof {
            lemma_index_masks(seg);
        }
        self.segments[(seg & 0b11) as usize]
    }

    /// Write a segment register
    pub fn write_seg(&mut self, seg: u8, value: u16)
        ensures
            final(self).segments@ == old(self).segments@.update((seg % 4) as int, value),
            final(self).regs == old(self).regs,
            final(self).ip == old(self).ip,
            final(self).flags == old(self).flags,
            old(self).same_aux(*final(self)),
    {
        proof {
            lemma_index_masks(seg);
        }
        self.segments[(seg & 0b11) as usize] = value;
    }

    // === Memory Access Methods ===
    /// Compute physical address from segment:offset: (segment << 4) + offset
    pub fn compute_address(segment: u16, offset: u16) -> (r: u32)
        ensures
            r == phys(segment, offset),
            r <= 0x10FFEF,
    {
        proof {
            lemma_shl4(segment);
        }
        ((segment as u32) << 4) + (offset as u32)
    }

    /// Read a byte from memory using segment:offset addressing
    pub fn read_mem8(&self, mem: &MemoryBus, segment: u16, offset: u16) -> (r: u8)
        requires
            mem.wf(),
        ensures
            r == mem.byte(phys(segment, offset)),
    {
        let addr = Self::compute_address(segment, offset);
        mem.read_u8(addr)
    }

    /// Write a byte to memory using segment:offset addressing
    pub fn write_mem8(&mut self, mem: &mut MemoryBus, segment: u16, offset: u16, value: u8)
        requires
            old(mem).wf(),
        ensures
            MemoryBus::written(*old(mem), *final(mem), phys(segment, offset), value),
            *final(self) == *old(self),
    {
        let addr = Self::compute_address(segment, offset);
        mem.write_u8(addr, value);
    }

    /// Read a word from memory using segment:offset addressing
    pub fn read_mem16(&self, mem: &MemoryBus, segment: u16, offset: u16) -> (r: u16)
        requires
            mem.wf(),
        ensures
            r == mem.word(phys(segment, offset)),
    {
        let addr = Self::compute_address(segment, offset);
        mem.read_u16(addr)
    }

    /// Write a word to memory using segment:offset addressing
    pub fn write_mem16(&mut self, mem: &mut MemoryBus, segment: u16, offset: u16, value: u16)
        requires
            old(mem).wf(),
        ensures
            MemoryBus::word_written(*old(mem), *final(mem), phys(segment, offset), value),
            *final(self) == *old(self),
    {
        let addr = Self::compute_address(segment, offset);
        mem.write_u16(addr, value);
    }

    // === Flags ===
    /// Compute the flags after an operation of kind `op` produced `result`
    /// (ZF, SF and PF from the result; CF from the carry-out bit for
    /// additive operations and cleared for logic operations).
    pub fn compute_flags(&self, result: u32, op: FlagOp) -> (r: u16)
        ensures
            r == self.spec_compute_flags(result, op),
    {
        let flags = self.flags;
        match op {
            FlagOp::NoOp => flags,
            FlagOp::Add8 | FlagOp::Adc8 | FlagOp::Sub8 | FlagOp::Sbb8 | FlagOp::And8 | FlagOp::Or8
            | FlagOp::Xor8 | FlagOp::Inc8 | FlagOp::Dec8 => {
                let carry_op = matches!(op, FlagOp::Add8 | FlagOp::Adc8 | FlagOp::Sub8 | FlagOp::Sbb8);
                let sets_cf = carry_op || matches!(op, FlagOp::And8 | FlagOp::Or8 | FlagOp::Xor8);
                let r = result as u8;
                let base = if sets_cf {
                    flags & !0x00C5u16
                } else {
                    flags & !0x00C4u16
                };
                let f1 = if r == 0 {
                    base | 0x0040u16
                } else {
                    base
                };
                let f2 = if r & 0x80 != 0 {
                    f1 | 0x0080u16
                } else {
                    f1
                };
                let f3 = if parity_even_byte(r) {
                    f2 | 0x0004u16
                } else {
                    f2
                };
                if carry_op && result & 0x100 != 0 {
                    f3 | 0x0001u16
                } else {
                    f3
                }
            },
            _ => {
                let carry_op = matches!(op, FlagOp::Add16 | FlagOp::Adc16 | FlagOp::Sub16 | FlagOp::Sbb16);
                let sets_cf = carry_op || matches!(op, FlagOp::And16 | FlagOp::Or16 | FlagOp::Xor16);
                let r = result as u16;
                let base = if sets_cf {
                    flags & !0x00C5u16
                } else {
                    flags & !0x00C4u16
                };
                let f1 = if r == 0 {
                    base | 0x0040u16
                } else {
                    base
                };
                let f2 = if r & 0x8000 != 0 {
                    f1 | 0x0080u16
                } else {
                    f1
                };
                let f3 = if parity_even_byte(r as u8) {
                    f2 | 0x0004u16
                } else {
                    f2
                };
                if carry_op && result & 0x10000 != 0 {
                    f3 | 0x0001u16
                } else {
                    f3
                }
            },
        }
    }

    /// Update ZF, SF, PF and CF (see `compute_flags`) from an
    /// operation's result
    pub fn set_lazy_flags(&mut self, result: u32, op: FlagOp)
        ensures
            final(self).flags == old(self).spec_compute_flags(result, op),
            old(self).same_but_flags(*final(self)),
    {
        self.flags = self.compute_flags(result, op);
    }

    /// Get the flags register
    pub fn get_flags(&mut self) -> (r: u16)
        ensures
            r == old(self).flags,
            *final(self) == *old(self),
    {
        self.flags
    }

    /// Set the flags register directly (bit 1 always reads as set)
    pub fn set_flags(&mut self, flags: u16)
        ensures
            final(self).flags == flags | 0x0002,
            old(self).same_but_flags(*final(self)),
    {
        self.flags = flags | 0b0010;
    }

    /// Check if a flag is set
    pub fn get_flag(&mut self, flag: u16) -> (r: bool)
        ensures
            r == old(self).flag(flag),
            *final(self) == *old(self),
    {
        self.flags & flag != 0
    }

    /// Set or clear a specific flag
    pub fn set_flag(&mut self, flag: u16, value: bool)
        ensures
            final(self).flags == set_bit(old(self).flags, flag, value),
            old(self).same_but_flags(*final(self)),
    {
        if value {
            self.flags = self.flags | flag;
        } else {
            self.flags = self.flags & !flag;
        }
    }

    /// Set OF and AF
    fn set_of_af(&mut self, of: bool, af: bool)
        ensures
            final(self).flags == with_of_af(old(self).flags, of, af),
            old(self).same_but_flags(*final(self)),
    {
        self.set_flag(Self::OF, of);
        self.set_flag(Self::AF, af);
    }

    /// Set OF and AF for an 8-bit addition `dst + src = result`
    pub fn set_add8_of_af(&mut self, dst: u8, src: u8, result: u32)
        ensures
            final(self).flags == with_of_af(
                old(self).flags,
                add_overflow(dst as u32, src as u32, result, 0x80),
                aux_carry(dst as u32, src as u32, result),
            ),
            old(self).same_but_flags(*final(self)),
    {
        let a = dst as u32;
        let b = src as u32;
        self.set_of_af((a ^ result) & (b ^ result) & 0x80 != 0, (a ^ b ^ result) & 0x10 != 0);
    }

    /// Set OF and AF for a 16-bit addition `dst + src = result`
    pub fn set_add16_of_af(&mut self, dst: u16, src: u16, result: u32)
        ensures
            final(self).flags == with_of_af(
                old(self).flags,
                add_overflow(dst as u32, src as u32, result, 0x8000),
                aux_carry(dst as u32, src as u32, result),
            ),
            old(self).same_but_flags(*final(self)),
    {
        let a = dst as u32;
        let b = src as u32;
        self.set_of_af((a ^ result) & (b ^ result) & 0x8000 != 0, (a ^ b ^ result) & 0x10 != 0);
    }

    /// Set OF and AF for an 8-bit subtraction `dst - src = result`
    pub fn set_sub8_of_af(&mut self, dst: u8, src: u8, result: u32)
        ensures
            final(self).flags == with_of_af(
                old(self).flags,
                sub_overflow(dst as u32, src as u32, result, 0x80),
                aux_carry(dst as u32, src as u32, result),
            ),
            old(self).same_but_flags(*final(self)),
    {
        let a = dst as u32;
        let b = src as u32;
        self.set_of_af((a ^ b) & (a ^ result) & 0x80 != 0, (a ^ b ^ result) & 0x10 != 0);
    }

    /// Set OF and AF for a 16-bit subtraction `dst - src = result`
    pub fn set_sub16_of_af(&mut self, dst: u16, src: u16, result: u32)
        ensures
            final(self).flags == with_of_af(
                old(self).flags,
                sub_overflow(dst as u32, src as u32, result, 0x8000),
                aux_carry(dst as u32, src as u32, result),
            ),
            old(self).same_but_flags(*final(self)),
    {
        let a = dst as u32;
        let b = src as u32;
        self.set_of_af((a ^ b) & (a ^ result) & 0x8000 != 0, (a ^ b ^ result) & 0x10 != 0);
    }

    /// Set OF and AF for an 8-bit increment `value + 1 = result`
    pub fn set_inc8_of_af(&mut self, value: u8, result: u8)
        ensures
            final(self).flags == with_of_af(old(self).flags, result == 0x80, value & 0x0F == 0x0F),
            old(self).same_but_flags(*final(self)),
    {
        self.set_of_af(result == 0x80, value & 0x0F == 0x0F);
    }

    /// Set OF and AF for a 16-bit increment `value + 1 = result`
    pub fn set_inc16_of_af(&mut self, value: u16, result: u16)
        ensures
            final(self).flags == with_of_af(old(self).flags, result == 0x8000, value & 0x0F == 0x0F),
            old(self).same_but_flags(*final(self)),
    {
        self.set_of_af(result == 0x8000, value & 0x0F == 0x0F);
    }

    /// Set OF and AF for an 8-bit decrement `value - 1 = result`
    pub fn set_dec8_of_af(&mut self, value: u8, result: u8)
        ensures
            final(self).flags == with_of_af(old(self).flags, result == 0x7F, value & 0x0F == 0),
            old(self).same_but_flags(*final(self)),
    {
        self.set_of_af(result == 0x7F, value & 0x0F == 0);
    }

    /// Set OF and AF for a 16-bit decrement `value - 1 = result`
    pub fn set_dec16_of_af(&mut self, value: u16, result: u16)
        ensures
            final(self).flags == with_of_af(old(self).flags, result == 0x7FFF, value & 0x0F == 0),
            old(self).same_but_flags(*final(self)),
    {
        self.set_of_af(result == 0x7FFF, value & 0x0F == 0);
    }

    /// Clear OF, CF and AF (logic instructions)
    pub fn clear_of_cf_af(&mut self)
        ensures
            final(self).flags == old(self).flags & !0x0811u16,
            old(self).same_but_flags(*final(self)),
    {
        self.flags = self.flags & !0x0811u16;
    }

    // === Instruction Decoding Methods ===
    /// Fetch a byte from CS:IP and advance IP
    pub fn fetch_u8(&mut self, mem: &MemoryBus) -> (r: u8)
        requires
            mem.wf(),
        ensures
            r == mem.byte(phys(old(self).segments@[1], old(self).ip)),
            final(self).ip == old(self).ip.wrapping_add(1),
            final(self).regs == old(self).regs,
            final(self).segments == old(self).segments,
            final(self).flags == old(self).flags,
            old(self).same_aux(*final(self)),
    {
        let byte = self.read_mem8(mem, self.segments[1], self.ip);
        self.ip = self.ip.wrapping_add(1);
        byte
    }

    /// The little-endian word at CS:IP
    pub open spec fn code_word(self, mem: MemoryBus) -> u16 {
        (((mem.byte(phys(self.segments@[1], self.ip.wrapping_add(1))) as u16) << 8u16) | (mem.byte(
            phys(self.segments@[1], self.ip),
        ) as u16)) as u16
    }

    /// Fetch a word from CS:IP and advance IP (little-endian)
    pub fn fetch_u16(&mut self, mem: &MemoryBus) -> (r: u16)
        requires
            mem.wf(),
        ensures
            r == old(self).code_word(*mem),
            final(self).ip == old(self).ip.wrapping_add(1).wrapping_add(1),
            final(self).regs == old(self).regs,
            final(self).segments == old(self).segments,
            final(self).flags == old(self).flags,
            old(self).same_aux(*final(self)),
    {
        let low = self.fetch_u8(mem) as u16;
        let high = self.fetch_u8(mem) as u16;
        (high << 8) | low
    }

    /// Fetch a signed byte from CS:IP and advance IP
    pub fn fetch_i8(&mut self, mem: &MemoryBus) -> (r: i8)
        requires
            mem.wf(),
        ensures
            r == mem.byte(phys(old(self).segments@[1], old(self).ip)) as i8,
            final(self).ip == old(self).ip.wrapping_add(1),
            final(self).regs == old(self).regs,
            final(self).segments == old(self).segments,
            final(self).flags == old(self).flags,
            old(self).same_aux(*final(self)),
    {
        self.fetch_u8(mem) as i8
    }

    /// Fetch a signed word from CS:IP and advance IP (little-endian)
    pub fn fetch_i16(&mut self, mem: &MemoryBus) -> (r: i16)
        requires
            mem.wf(),
        ensures
            r == old(self).code_word(*mem) as i16,
            final(self).ip == old(self).ip.wrapping_add(1).wrapping_add(1),
            final(self).regs == old(self).regs,
            final(self).segments == old(self).segments,
            final(self).flags == old(self).flags,
            old(self).same_aux(*final(self)),
    {
        self.fetch_u16(mem) as i16
    }

    /// Decode a ModR/M byte from CS:IP, then read the displacement or
    /// direct address that its mode calls for.
    pub fn decode_modrm(&mut self, mem: &MemoryBus) -> (r: ModRM)
        requires
            mem.wf(),
        ensures
            ({
                let b = mem.byte(phys(old(self).segments@[1], old(self).ip));
                let after = Cpu { ip: old(self).ip.wrapping_add(1), ..*old(self) };
                &&& r.raw == b
                &&& r.mod_bits == (b >> 6u8) & 0b11
                &&& r.reg == (b >> 3u8) & 0b111
                &&& r.rm == b & 0b111
                &&& r.mode == match mode_of(r.mod_bits, r.rm) {
                    AddressingMode::MemoryDisp8 { base_index, .. } => AddressingMode::MemoryDisp8 {
                        base_index,
                        disp: mem.byte(phys(after.segments@[1], after.ip)) as i8,
                    },
                    AddressingMode::MemoryDisp16 { base_index, .. } => AddressingMode::MemoryDisp16 {
                        base_index,
                        disp: after.code_word(*mem) as i16,
                    },
                    AddressingMode::DirectAddress { .. } => AddressingMode::DirectAddress {
                        addr: after.code_word(*mem),
                    },
                    m => m,
                }
                &&& final(self).ip == match mode_of(r.mod_bits, r.rm) {
                    AddressingMode::MemoryDisp8 { .. } => after.ip.wrapping_add(1),
                    AddressingMode::MemoryDisp16 { .. } => after.ip.wrapping_add(1).wrapping_add(1),
                    AddressingMode::DirectAddress { .. } => after.ip.wrapping_add(1).wrapping_add(1),
                    _ => after.ip,
                }
            }),
            final(self).regs == old(self).regs,
            final(self).segments == old(self).segments,
            final(self).flags == old(self).flags,
            old(self).same_aux(*final(self)),
    {
        let modrm_byte = self.fetch_u8(mem);
        let modrm = ModRM::decode(modrm_byte);
        match modrm.mode {
            AddressingMode::MemoryDisp8 { .. } => {
                let disp = self.fetch_i8(mem);
                modrm.with_disp8(disp)
            },
            AddressingMode::MemoryDisp16 { .. } => {
                let disp = self.fetch_i16(mem);
                modrm.with_disp16(disp)
            },
            AddressingMode::DirectAddress { .. } => {
                let addr = self.fetch_u16(mem);
                modrm.with_direct_addr(addr)
            },
            _ => modrm,
        }
    }

    /// Decode a register operand from a ModR/M reg field
    pub fn decode_reg_operand(reg: u8, is_byte: bool) -> (r: Operand)
        ensures
            r == (if is_byte {
                Operand { op_type: OperandType::Reg8, value: reg as u16, segment: 0xFF, disp: 0 }
            } else {
                Operand { op_type: OperandType::Reg16, value: reg as u16, segment: 0xFF, disp: 0 }
            }),
    {
        if is_byte {
            Operand::reg8(reg)
        } else {
            Operand::reg16(reg)
        }
    }

    /// The operand that a decoded r/m field designates
    pub open spec fn rm_operand(mode: AddressingMode, is_byte: bool) -> Operand {
        let t = if is_byte {
            OperandType::Mem8
        } else {
            OperandType::Mem16
        };
        match mode {
            AddressingMode::RegisterDirect { rm_reg } => Operand {
                op_type: if is_byte {
                    OperandType::Reg8
                } else {
                    OperandType::Reg16
                },
                value: rm_reg as u16,
                segment: 0xFF,
                disp: 0,
            },
            AddressingMode::MemoryIndirect { base_index } => Operand {
                op_type: t,
                value: base_index as u16,
                segment: 0xFF,
                disp: 0,
            },
            AddressingMode::MemoryDisp8 { base_index, disp } => Operand {
                op_type: t,
                value: base_index as u16,
                segment: 0xFF,
                disp: disp as i16,
            },
            AddressingMode::MemoryDisp16 { base_index, disp } => Operand {
                op_type: t,
                value: base_index as u16,
                segment: 0xFF,
                disp,
            },
            AddressingMode::DirectAddress { addr } => Operand {
                op_type: t,
                value: 0xFF,
                segment: 0xFF,
                disp: addr as i16,
            },
        }
    }

    /// Decode a register/memory operand from a ModR/M r/m field; a direct
    /// address becomes base/index 0xFF with the address as displacement.
    pub fn decode_rm_operand(modrm: &ModRM, is_byte: bool) -> (r: Operand)
        ensures
            r == Self::rm_operand(modrm.mode, is_byte),
    {
        match modrm.mode {
            AddressingMode::RegisterDirect { rm_reg } => {
                if is_byte {
                    Operand::reg8(rm_reg)
                } else {
                    Operand::reg16(rm_reg)
                }
            },
            AddressingMode::MemoryIndirect { base_index } => {
                if is_byte {
                    Operand::mem8(base_index)
                } else {
                    Operand::mem16(base_index)
                }
            },
            AddressingMode::MemoryDisp8 { base_index, disp } => {
                if is_byte {
                    Operand::mem8_disp(base_index, disp as i16)
                } else {
                    Operand::mem16_disp(base_index, disp as i16)
                }
            },
            AddressingMode::MemoryDisp16 { base_index, disp } => {
                if is_byte {
                    Operand::mem8_disp(base_index, disp)
                } else {
                    Operand::mem16_disp(base_index, disp)
                }
            },
            AddressingMode::DirectAddress { addr } => {
                if is_byte {
                    Operand::mem8_disp(0xFF, addr as i16)
                } else {
                    Operand::mem16_disp(0xFF, addr as i16)
                }
            },
        }
    }

    // === Operand Read/Write Methods ===
    /// Read the value of an operand
    pub fn read_operand(&self, mem: &MemoryBus, operand: &Operand) -> (r: u16)
        requires
            mem.wf(),
            operand_ok(*operand),
        ensures
            r == self.read_op(*mem, *operand),
    {
        match operand.op_type {
            OperandType::Absent => 0,
            OperandType::Reg8 => self.read_reg8(operand.value as u8) as u16,
            OperandType::Reg16 => self.read_reg16(operand.value as u8),
            OperandType::SegReg => self.read_seg(operand.value as u8),
            OperandType::Imm8 | OperandType::Imm16 => operand.value,
            OperandType::Mem8 | OperandType::Mem16 => {
                let base_index = operand.value as u8;
                let (seg_idx, offset) = self.calculate_ea_from_operand(operand, base_index);
                let segment = if operand.segment != 0xFF {
                    self.read_seg(operand.segment)
                } else {
                    self.segments[seg_idx as usize]
                };
                if operand.op_type == OperandType::Mem8 {
                    self.read_mem8(mem, segment, offset) as u16
                } else {
                    self.read_mem16(mem, segment, offset)
                }
            },
            OperandType::Direct => {
                let segment = if operand.segment != 0xFF {
                    self.read_seg(operand.segment)
                } else {
                    self.segments[3]
                };
                self.read_mem16(mem, segment, operand.value)
            },
            OperandType::Rel8 | OperandType::Rel16 => operand.value,
        }
    }

    /// Write a value to an operand (a byte operand takes the low byte). A
    /// direct memory address is given as base/index `DIRECT_BASE_INDEX`
    /// with the address in `disp`.
    pub fn write_operand(&mut self, mem: &mut MemoryBus, operand: &Operand, value: u16)
        requires
            old(mem).wf(),
            operand_writable(*operand),
        ensures
            Cpu::op_written(*old(self), *old(mem), *final(self), *final(mem), *operand, value),
            final(self).flags == old(self).flags,
            final(mem).wf(),
    {
        match operand.op_type {
            OperandType::Absent => {},
            OperandType::Reg8 => self.write_reg8(operand.value as u8, value as u8),
            OperandType::Reg16 => self.write_reg16(operand.value as u8, value),
            OperandType::SegReg => self.write_seg(operand.value as u8, value),
            OperandType::Mem8 | OperandType::Mem16 => {
                let base_index = operand.value as u8;
                let (seg_idx, offset) = self.calculate_ea_from_operand(operand, base_index);
                let segment = if operand.segment != 0xFF {
                    self.read_seg(operand.segment)
                } else {
                    self.segments[seg_idx as usize]
                };
                if operand.op_type == OperandType::Mem8 {
                    self.write_mem8(mem, segment, offset, value as u8);
                } else {
                    self.write_mem16(mem, segment, offset, value);
                }
            },
            OperandType::Direct => {
                let segment = if operand.segment != 0xFF {
                    self.read_seg(operand.segment)
                } else {
                    self.segments[3]
                };
                self.write_mem16(mem, segment, operand.value, value);
            },
            _ => {},
        }
    }

    /// Default segment index and offset of base/index encoding `base_index`
    /// with 16-bit displacement `disp`
    pub fn effective_address(&self, base_index: u8, disp: u16) -> (r: (u8, u16))
        ensures
            r == self.ea(base_index, disp),
            r.0 == 2 || r.0 == 3,
    {
        let bx = self.regs[3];
        let bp = self.regs[5];
        let si = self.regs[6];
        let di = self.regs[7];
        match base_index {
            0 => (3, bx.wrapping_add(si).wrapping_add(disp)),
            1 => (3, bx.wrapping_add(di).wrapping_add(disp)),
            2 => (2, bp.wrapping_add(si).wrapping_add(disp)),
            3 => (2, bp.wrapping_add(di).wrapping_add(disp)),
            4 => (3, si.wrapping_add(disp)),
            5 => (3, di.wrapping_add(disp)),
            6 => (2, bp.wrapping_add(disp)),
            7 => (3, bx.wrapping_add(disp)),
            _ => (3, disp),
        }
    }

    /// Calculate effective address from operand: (segment_index, offset).
    /// Base/index 0xFF addresses the displacement directly in DS.
    pub fn calculate_ea_from_operand(&self, operand: &Operand, base_index: u8) -> (r: (u8, u16))
        requires
            base_index < 8 || base_index == 0xFF,
        ensures
            r == self.ea(base_index, operand.disp as u16),
            r.0 == 2 || r.0 == 3,
    {
        self.effective_address(base_index, operand.disp as u16)
    }
}

/// Whether `b` has an even number of set bits
pub fn parity_even_byte(b: u8) -> (r: bool)
    ensures
        r == parity_even(b),
{
    let n: u32 = (b & 1) as u32 + ((b >> 1) & 1) as u32 + ((b >> 2) & 1) as u32 + ((b >> 3) & 1) as u32
        + ((b >> 4) & 1) as u32 + ((b >> 5) & 1) as u32 + ((b >> 6) & 1) as u32 + ((b >> 7) & 1) as u32;
    n % 2 == 0
}

} // verus!
