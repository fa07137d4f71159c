//! Arithmetic instruction handlers (ADD, SUB, INC, DEC, etc.)

use crate::cpu::decode::{DecodedInstruction, Operand, OperandType};
use crate::cpu::state::{
    add_overflow, aux_carry, flag_bit, flags_after, is_byte_operand, is_carry_flag_op,
    law_flag_read_after_write, law_flags_after, lemma_flag_masks_disjoint,
    law_operand_read_after_write, operand_ok, operand_stores, operand_writable, parity_even, phys,
    set_bit, sub_overflow, with_of_af, Cpu, FlagOp,
};
use crate::cpu::execute::control_flow::{enter_interrupt, interrupt_effect, law_interrupt_frame, word_writable};
use crate::memory::MemoryBus;
use vstd::prelude::*;

verus! {

/// The binary ALU operations
#[derive(Debug, Clone, Copy, PartialEq, Eq, Structural)]
pub enum AluOp {
    Add,
    Adc,
    Sub,
    Sbb,
    And,
    Or,
    Xor,
}

/// Whether a decoded instruction's operands can be used: the destination
/// can be written and the source read.
pub open spec fn instr_ok(instr: DecodedInstruction) -> bool {
    operand_writable(instr.dst) && operand_ok(instr.src)
}

/// Raw result of `a op b` (with carry-in `c` for ADC/SBB) on bytes or words:
/// sums keep their carry-out bit, differences wrap in 32 bits.
pub open spec fn alu_value(op: AluOp, a: u16, b: u16, c: bool, is_byte: bool) -> u32 {
    let cin: u32 = if c {
        1
    } else {
        0
    };
    if is_byte {
        let x = a as u8;
        let y = b as u8;
        match op {
            AluOp::Add => (x as u32 + y as u32) as u32,
            AluOp::Adc => (x as u32 + y as u32 + cin) as u32,
            AluOp::Sub => (x as u32).wrapping_sub(y as u32),
            AluOp::Sbb => (x as u32).wrapping_sub(y as u32).wrapping_sub(cin),
            AluOp::And => (x & y) as u32,
            AluOp::Or => (x | y) as u32,
            AluOp::Xor => (x ^ y) as u32,
        }
    } else {
        match op {
            AluOp::Add => (a as u32 + b as u32) as u32,
            AluOp::Adc => (a as u32 + b as u32 + cin) as u32,
            AluOp::Sub => (a as u32).wrapping_sub(b as u32),
            AluOp::Sbb => (a as u32).wrapping_sub(b as u32).wrapping_sub(cin),
            AluOp::And => (a & b) as u32,
            AluOp::Or => (a | b) as u32,
            AluOp::Xor => (a ^ b) as u32,
        }
    }
}

/// The flag operation of `op` on bytes or words
pub open spec fn alu_flag_op(op: AluOp, is_byte: bool) -> FlagOp {
    match op {
        AluOp::Add => if is_byte {
            FlagOp::Add8
        } else {
            FlagOp::Add16
        },
        AluOp::Adc => if is_byte {
            FlagOp::Adc8
        } else {
            FlagOp::Adc16
        },
        AluOp::Sub => if is_byte {
            FlagOp::Sub8
        } else {
            FlagOp::Sub16
        },
        AluOp::Sbb => if is_byte {
            FlagOp::Sbb8
        } else {
            FlagOp::Sbb16
        },
        AluOp::And => if is_byte {
            FlagOp::And8
        } else {
            FlagOp::And16
        },
        AluOp::Or => if is_byte {
            FlagOp::Or8
        } else {
            FlagOp::Or16
        },
        AluOp::Xor => if is_byte {
            FlagOp::Xor8
        } else {
            FlagOp::Xor16
        },
    }
}

/// The flags of `a op b` before the result flags are set: additive
/// operations set OF and AF from the operands, logic operations clear OF,
/// CF and AF.
pub open spec fn alu_flags_pre(op: AluOp, flags: u16, a: u16, b: u16, c: bool, is_byte: bool) -> u16 {
    let r = alu_value(op, a, b, c, is_byte);
    let x: u32 = if is_byte {
        (a as u8) as u32
    } else {
        a as u32
    };
    let y: u32 = if is_byte {
        (b as u8) as u32
    } else {
        b as u32
    };
    let sign: u32 = if is_byte {
        0x80
    } else {
        0x8000
    };
    match op {
        AluOp::Add => with_of_af(flags, add_overflow(x, y, r, sign), aux_carry(x, y, r)),
        AluOp::Adc => with_of_af(flags, add_overflow(x, y, r, sign), aux_carry(x, y, r)),
        AluOp::Sub => with_of_af(flags, sub_overflow(x, y, r, sign), aux_carry(x, y, r)),
        AluOp::Sbb => with_of_af(flags, sub_overflow(x, y, r, sign), aux_carry(x, y, r)),
        _ => flags & !0x0811u16,
    }
}

/// Flags after `a op b` (with carry-in `c`): additive operations set OF,
/// AF, CF, ZF, SF and PF; logic operations clear OF, CF and AF and set ZF,
/// SF and PF (see `alu_flags_pre` and `flags_after`).
pub open spec fn alu_flags(op: AluOp, flags: u16, a: u16, b: u16, c: bool, is_byte: bool) -> u16 {
    flags_after(alu_flags_pre(op, flags, a, b, c, is_byte), alu_value(op, a, b, c, is_byte), alu_flag_op(op, is_byte))
}

/// The value written back: the low byte or word of the raw result
pub open spec fn alu_write_value(r: u32, is_byte: bool) -> u16 {
    if is_byte {
        (r & 0xFF) as u16
    } else {
        (r & 0xFFFF) as u16
    }
}

/// Effect of `dst = dst op src` (or of a comparison when `!write`)
pub open spec fn alu_effect(
    oc: Cpu,
    om: MemoryBus,
    nc: Cpu,
    nm: MemoryBus,
    instr: DecodedInstruction,
    op: AluOp,
    is_byte: bool,
    write: bool,
) -> bool {
    let a = oc.read_op(om, instr.dst);
    let b = oc.read_op(om, instr.src);
    let c = oc.flag(Cpu::CF);
    &&& nc.flags == alu_flags(op, oc.flags, a, b, c, is_byte)
    &&& nm.wf()
    &&& if write {
        Cpu::op_written(oc, om, nc, nm, instr.dst, alu_write_value(alu_value(op, a, b, c, is_byte), is_byte))
    } else {
        oc.same_but_flags(nc) && nm == om
    }
}

/// `dst = dst op src` (or only the flags of it when `!write`)
pub fn alu(cpu: &mut Cpu, mem: &mut MemoryBus, instr: &DecodedInstruction, op: AluOp, is_byte: bool, write: bool)
    requires
        old(mem).wf(),
        instr_ok(*instr),
    ensures
        alu_effect(*old(cpu), *old(mem), *final(cpu), *final(mem), *instr, op, is_byte, write),
{
    let a = cpu.read_operand(mem, &instr.dst);
    let b = cpu.read_operand(mem, &instr.src);
    let c = cpu.get_flag(Cpu::CF);
    let cin: u32 = if c {
        1
    } else {
        0
    };
    let result: u32 = if is_byte {
        let x = a as u8;
        let y = b as u8;
        match op {
            AluOp::Add => x as u32 + y as u32,
            AluOp::Adc => x as u32 + y as u32 + cin,
            AluOp::Sub => (x as u32).wrapping_sub(y as u32),
            AluOp::Sbb => (x as u32).wrapping_sub(y as u32).wrapping_sub(cin),
            AluOp::And => (x & y) as u32,
            AluOp::Or => (x | y) as u32,
            AluOp::Xor => (x ^ y) as u32,
        }
    } else {
        match op {
            AluOp::Add => a as u32 + b as u32,
            AluOp::Adc => a as u32 + b as u32 + cin,
            AluOp::Sub => (a as u32).wrapping_sub(b as u32),
            AluOp::Sbb => (a as u32).wrapping_sub(b as u32).wrapping_sub(cin),
            AluOp::And => (a & b) as u32,
            AluOp::Or => (a | b) as u32,
            AluOp::Xor => (a ^ b) as u32,
        }
    };
    if write {
        let value: u16 = if is_byte {
            (result & 0xFF) as u16
        } else {
            (result & 0xFFFF) as u16
        };
        cpu.write_operand(mem, &instr.dst, value);
    }
    let x: u32 = if is_byte {
        (a as u8) as u32
    } else {
        a as u32
    };
    let y: u32 = if is_byte {
        (b as u8) as u32
    } else {
        b as u32
    };
    let sign: u32 = if is_byte {
        0x80
    } else {
        0x8000
    };
    match op {
        AluOp::Add | AluOp::Adc => {
            cpu.set_flag(Cpu::OF, (x ^ result) & (y ^ result) & sign != 0);
            cpu.set_flag(Cpu::AF, (x ^ y ^ result) & 0x10 != 0);
        },
        AluOp::Sub | AluOp::Sbb => {
            cpu.set_flag(Cpu::OF, (x ^ y) & (x ^ result) & sign != 0);
            cpu.set_flag(Cpu::AF, (x ^ y ^ result) & 0x10 != 0);
        },
        _ => cpu.clear_of_cf_af(),
    }
    assert(result == alu_value(op, a, b, c, is_byte));
    assert(cpu.flags == alu_flags_pre(op, old(cpu).flags, a, b, c, is_byte));
    let flag_op = match op {
        AluOp::Add => if is_byte {
            FlagOp::Add8
        } else {
            FlagOp::Add16
        },
        AluOp::Adc => if is_byte {
            FlagOp::Adc8
        } else {
            FlagOp::Adc16
        },
        AluOp::Sub => if is_byte {
            FlagOp::Sub8
        } else {
            FlagOp::Sub16
        },
        AluOp::Sbb => if is_byte {
            FlagOp::Sbb8
        } else {
            FlagOp::Sbb16
        },
        AluOp::And => if is_byte {
            FlagOp::And8
        } else {
            FlagOp::And16
        },
        AluOp::Or => if is_byte {
            FlagOp::Or8
        } else {
            FlagOp::Or16
        },
        AluOp::Xor => if is_byte {
            FlagOp::Xor8
        } else {
            FlagOp::Xor16
        },
    };
    cpu.set_lazy_flags(result, flag_op);
}

/// ADD r/m, r - byte and word variants
///
/// Flags affected: CF, PF, AF, ZF, SF, OF
pub fn add_rm_r(cpu: &mut Cpu, mem: &mut MemoryBus, instr: &DecodedInstruction)
    requires
        old(mem).wf(),
        instr_ok(*instr),
    ensures
        alu_effect(*old(cpu), *old(mem), *final(cpu), *final(mem), *instr, AluOp::Add, is_byte_operand(instr.dst), true),
{
    let is_byte = instr.dst.op_type == OperandType::Reg8 || instr.dst.op_type == OperandType::Mem8;
    alu(cpu, mem, instr, AluOp::Add, is_byte, true);
}

/// ADD r, r/m - byte and word variants
///
/// Flags affected: CF, PF, AF, ZF, SF, OF
pub fn add_r_rm(cpu: &mut Cpu, mem: &mut MemoryBus, instr: &DecodedInstruction)
    requires
        old(mem).wf(),
        instr_ok(*instr),
    ensures
        alu_effect(*old(cpu), *old(mem), *final(cpu), *final(mem), *instr, AluOp::Add, instr.dst.op_type == OperandType::Reg8, true),
{
    let is_byte = instr.dst.op_type == OperandType::Reg8;
    alu(cpu, mem, instr, AluOp::Add, is_byte, true);
}

/// ADD AL/AX, imm - byte and word variants
///
/// Flags affected: CF, PF, AF, ZF, SF, OF
pub fn add_acc_imm(cpu: &mut Cpu, mem: &mut MemoryBus, instr: &DecodedInstruction)
    requires
        old(mem).wf(),
        instr_ok(*instr),
    ensures
        alu_effect(*old(cpu), *old(mem), *final(cpu), *final(mem), *instr, AluOp::Add, instr.dst.op_type == OperandType::Reg8, true),
{
    let is_byte = instr.dst.op_type == OperandType::Reg8;
    alu(cpu, mem, instr, AluOp::Add, is_byte, true);
}

/// ADD r/m, imm - group 0x80-0x83 variants
///
/// Flags affected: CF, PF, AF, ZF, SF, OF
pub fn add_rm_imm(cpu: &mut Cpu, mem: &mut MemoryBus, instr: &DecodedInstruction)
    requires
        old(mem).wf(),
        instr_ok(*instr),
    ensures
        alu_effect(*old(cpu), *old(mem), *final(cpu), *final(mem), *instr, AluOp::Add, is_byte_operand(instr.dst), true),
{
    let is_byte = instr.dst.op_type == OperandType::Reg8 || instr.dst.op_type == OperandType::Mem8;
    alu(cpu, mem, instr, AluOp::Add, is_byte, true);
}

/// SUB r/m, r - byte and word variants
///
/// Flags affected: CF, PF, AF, ZF, SF, OF
pub fn sub_rm_r(cpu: &mut Cpu, mem: &mut MemoryBus, instr: &DecodedInstruction)
    requires
        old(mem).wf(),
        instr_ok(*instr),
    ensures
        alu_effect(*old(cpu), *old(mem), *final(cpu), *final(mem), *instr, AluOp::Sub, is_byte_operand(instr.dst), true),
{
    let is_byte = instr.dst.op_type == OperandType::Reg8 || instr.dst.op_type == OperandType::Mem8;
    alu(cpu, mem, instr, AluOp::Sub, is_byte, true);
}

/// SUB r, r/m - byte and word variants
///
/// Flags affected: CF, PF, AF, ZF, SF, OF
pub fn sub_r_rm(cpu: &mut Cpu, mem: &mut MemoryBus, instr: &DecodedInstruction)
    requires
        old(mem).wf(),
        instr_ok(*instr),
    ensures
        alu_effect(*old(cpu), *old(mem), *final(cpu), *final(mem), *instr, AluOp::Sub, instr.dst.op_type == OperandType::Reg8, true),
{
    let is_byte = instr.dst.op_type == OperandType::Reg8;
    alu(cpu, mem, instr, AluOp::Sub, is_byte, true);
}

/// SUB AL/AX, imm - byte and word variants
///
/// Flags affected: CF, PF, AF, ZF, SF, OF
pub fn sub_acc_imm(cpu: &mut Cpu, mem: &mut MemoryBus, instr: &DecodedInstruction)
    requires
        old(mem).wf(),
        instr_ok(*instr),
    ensures
        alu_effect(*old(cpu), *old(mem), *final(cpu), *final(mem), *instr, AluOp::Sub, instr.dst.op_type == OperandType::Reg8, true),
{
    let is_byte = instr.dst.op_type == OperandType::Reg8;
    alu(cpu, mem, instr, AluOp::Sub, is_byte, true);
}

/// SUB r/m, imm - group 0x80-0x83 variants
///
/// Flags affected: CF, PF, AF, ZF, SF, OF
pub fn sub_rm_imm(cpu: &mut Cpu, mem: &mut MemoryBus, instr: &DecodedInstruction)
    requires
        old(mem).wf(),
        instr_ok(*instr),
    ensures
        alu_effect(*old(cpu), *old(mem), *final(cpu), *final(mem), *instr, AluOp::Sub, is_byte_operand(instr.dst), true),
{
    let is_byte = instr.dst.op_type == OperandType::Reg8 || instr.dst.op_type == OperandType::Mem8;
    alu(cpu, mem, instr, AluOp::Sub, is_byte, true);
}

/// ADC (add with carry) r/m, r - byte and word variants
///
/// Flags affected: CF, PF, AF, ZF, SF, OF
pub fn adc_rm_r(cpu: &mut Cpu, mem: &mut MemoryBus, instr: &DecodedInstruction)
    requires
        old(mem).wf(),
        instr_ok(*instr),
    ensures
        alu_effect(*old(cpu), *old(mem), *final(cpu), *final(mem), *instr, AluOp::Adc, is_byte_operand(instr.dst), true),
{
    let is_byte = instr.dst.op_type == OperandType::Reg8 || instr.dst.op_type == OperandType::Mem8;
    alu(cpu, mem, instr, AluOp::Adc, is_byte, true);
}

/// ADC (add with carry) r, r/m - byte and word variants
///
/// Flags affected: CF, PF, AF, ZF, SF, OF
pub fn adc_r_rm(cpu: &mut Cpu, mem: &mut MemoryBus, instr: &DecodedInstruction)
    requires
        old(mem).wf(),
        instr_ok(*instr),
    ensures
        alu_effect(*old(cpu), *old(mem), *final(cpu), *final(mem), *instr, AluOp::Adc, instr.dst.op_type == OperandType::Reg8, true),
{
    let is_byte = instr.dst.op_type == OperandType::Reg8;
    alu(cpu, mem, instr, AluOp::Adc, is_byte, true);
}

/// ADC (add with carry) AL/AX, imm - byte and word variants
///
/// Flags affected: CF, PF, AF, ZF, SF, OF
pub fn adc_acc_imm(cpu: &mut Cpu, mem: &mut MemoryBus, instr: &DecodedInstruction)
    requires
        old(mem).wf(),
        instr_ok(*instr),
    ensures
        alu_effect(*old(cpu), *old(mem), *final(cpu), *final(mem), *instr, AluOp::Adc, instr.dst.op_type == OperandType::Reg8, true),
{
    let is_byte = instr.dst.op_type == OperandType::Reg8;
    alu(cpu, mem, instr, AluOp::Adc, is_byte, true);
}

/// ADC (add with carry) r/m, imm - group 0x80-0x83 variants
///
/// Flags affected: CF, PF, AF, ZF, SF, OF
pub fn adc_rm_imm(cpu: &mut Cpu, mem: &mut MemoryBus, instr: &DecodedInstruction)
    requires
        old(mem).wf(),
        instr_ok(*instr),
    ensures
        alu_effect(*old(cpu), *old(mem), *final(cpu), *final(mem), *instr, AluOp::Adc, is_byte_operand(instr.dst), true),
{
    let is_byte = instr.dst.op_type == OperandType::Reg8 || instr.dst.op_type == OperandType::Mem8;
    alu(cpu, mem, instr, AluOp::Adc, is_byte, true);
}

/// SBB (subtract with borrow) r/m, r - byte and word variants
///
/// Flags affected: CF, PF, AF, ZF, SF, OF
pub fn sbb_rm_r(cpu: &mut Cpu, mem: &mut MemoryBus, instr: &DecodedInstruction)
    requires
        old(mem).wf(),
        instr_ok(*instr),
    ensures
        alu_effect(*old(cpu), *old(mem), *final(cpu), *final(mem), *instr, AluOp::Sbb, is_byte_operand(instr.dst), true),
{
    let is_byte = instr.dst.op_type == OperandType::Reg8 || instr.dst.op_type == OperandType::Mem8;
    alu(cpu, mem, instr, AluOp::Sbb, is_byte, true);
}

/// SBB (subtract with borrow) r, r/m - byte and word variants
///
/// Flags affected: CF, PF, AF, ZF, SF, OF
pub fn sbb_r_rm(cpu: &mut Cpu, mem: &mut MemoryBus, instr: &DecodedInstruction)
    requires
        old(mem).wf(),
        instr_ok(*instr),
    ensures
        alu_effect(*old(cpu), *old(mem), *final(cpu), *final(mem), *instr, AluOp::Sbb, instr.dst.op_type == OperandType::Reg8, true),
{
    let is_byte = instr.dst.op_type == OperandType::Reg8;
    alu(cpu, mem, instr, AluOp::Sbb, is_byte, true);
}

/// SBB (subtract with borrow) AL/AX, imm - byte and word variants
///
/// Flags affected: CF, PF, AF, ZF, SF, OF
pub fn sbb_acc_imm(cpu: &mut Cpu, mem: &mut MemoryBus, instr: &DecodedInstruction)
    requires
        old(mem).wf(),
        instr_ok(*instr),
    ensures
        alu_effect(*old(cpu), *old(mem), *final(cpu), *final(mem), *instr, AluOp::Sbb, instr.dst.op_type == OperandType::Reg8, true),
{
    let is_byte = instr.dst.op_type == OperandType::Reg8;
    alu(cpu, mem, instr, AluOp::Sbb, is_byte, true);
}

/// SBB (subtract with borrow) r/m, imm - group 0x80-0x83 variants
///
/// Flags affected: CF, PF, AF, ZF, SF, OF
pub fn sbb_rm_imm(cpu: &mut Cpu, mem: &mut MemoryBus, instr: &DecodedInstruction)
    requires
        old(mem).wf(),
        instr_ok(*instr),
    ensures
        alu_effect(*old(cpu), *old(mem), *final(cpu), *final(mem), *instr, AluOp::Sbb, is_byte_operand(instr.dst), true),
{
    let is_byte = instr.dst.op_type == OperandType::Reg8 || instr.dst.op_type == OperandType::Mem8;
    alu(cpu, mem, instr, AluOp::Sbb, is_byte, true);
}

/// CMP (subtract, keeping only the flags) r/m, r - byte and word variants
///
/// Flags affected: CF, PF, AF, ZF, SF, OF
pub fn cmp_rm_r(cpu: &mut Cpu, mem: &mut MemoryBus, instr: &DecodedInstruction)
    requires
        old(mem).wf(),
        instr_ok(*instr),
    ensures
        alu_effect(*old(cpu), *old(mem), *final(cpu), *final(mem), *instr, AluOp::Sub, is_byte_operand(instr.dst), false),
{
    let is_byte = instr.dst.op_type == OperandType::Reg8 || instr.dst.op_type == OperandType::Mem8;
    alu(cpu, mem, instr, AluOp::Sub, is_byte, false);
}

/// CMP (subtract, keeping only the flags) r, r/m - byte and word variants
///
/// Flags affected: CF, PF, AF, ZF, SF, OF
pub fn cmp_r_rm(cpu: &mut Cpu, mem: &mut MemoryBus, instr: &DecodedInstruction)
    requires
        old(mem).wf(),
        instr_ok(*instr),
    ensures
        alu_effect(*old(cpu), *old(mem), *final(cpu), *final(mem), *instr, AluOp::Sub, instr.dst.op_type == OperandType::Reg8, false),
{
    let is_byte = instr.dst.op_type == OperandType::Reg8;
    alu(cpu, mem, instr, AluOp::Sub, is_byte, false);
}

/// CMP (subtract, keeping only the flags) AL/AX, imm - byte and word variants
///
/// Flags affected: CF, PF, AF, ZF, SF, OF
pub fn cmp_acc_imm(cpu: &mut Cpu, mem: &mut MemoryBus, instr: &DecodedInstruction)
    requires
        old(mem).wf(),
        instr_ok(*instr),
    ensures
        alu_effect(*old(cpu), *old(mem), *final(cpu), *final(mem), *instr, AluOp::Sub, instr.dst.op_type == OperandType::Reg8, false),
{
    let is_byte = instr.dst.op_type == OperandType::Reg8;
    alu(cpu, mem, instr, AluOp::Sub, is_byte, false);
}

/// CMP (subtract, keeping only the flags) r/m, imm - group 0x80-0x83 variants
///
/// Flags affected: CF, PF, AF, ZF, SF, OF
pub fn cmp_rm_imm(cpu: &mut Cpu, mem: &mut MemoryBus, instr: &DecodedInstruction)
    requires
        old(mem).wf(),
        instr_ok(*instr),
    ensures
        alu_effect(*old(cpu), *old(mem), *final(cpu), *final(mem), *instr, AluOp::Sub, is_byte_operand(instr.dst), false),
{
    let is_byte = instr.dst.op_type == OperandType::Reg8 || instr.dst.op_type == OperandType::Mem8;
    alu(cpu, mem, instr, AluOp::Sub, is_byte, false);
}


/// Effect of INC (`inc`) or DEC on the destination, bytes or words:
/// CF is not affected.
pub open spec fn incdec_effect(
    oc: Cpu,
    om: MemoryBus,
    nc: Cpu,
    nm: MemoryBus,
    instr: DecodedInstruction,
    inc: bool,
    is_byte: bool,
) -> bool {
    let v = oc.read_op(om, instr.dst);
    &&& nm.wf()
    &&& if is_byte {
        let v8 = v as u8;
        let r = if inc {
            v8.wrapping_add(1)
        } else {
            v8.wrapping_sub(1)
        };
        &&& nc.flags == flags_after(
            with_of_af(
                oc.flags,
                if inc {
                    r == 0x80
                } else {
                    r == 0x7F
                },
                if inc {
                    v8 & 0x0F == 0x0F
                } else {
                    v8 & 0x0F == 0
                },
            ),
            r as u32,
            if inc {
                FlagOp::Inc8
            } else {
                FlagOp::Dec8
            },
        )
        &&& Cpu::op_written(oc, om, nc, nm, instr.dst, r as u16)
    } else {
        let r = if inc {
            v.wrapping_add(1)
        } else {
            v.wrapping_sub(1)
        };
        &&& nc.flags == flags_after(
            with_of_af(
                oc.flags,
                if inc {
                    r == 0x8000
                } else {
                    r == 0x7FFF
                },
                if inc {
                    v & 0x0F == 0x0F
                } else {
                    v & 0x0F == 0
                },
            ),
            r as u32,
            if inc {
                FlagOp::Inc16
            } else {
                FlagOp::Dec16
            },
        )
        &&& Cpu::op_written(oc, om, nc, nm, instr.dst, r)
    }
}

/// Increment (`inc`) or decrement the destination
fn incdec(cpu: &mut Cpu, mem: &mut MemoryBus, instr: &DecodedInstruction, inc: bool, is_byte: bool)
    requires
        old(mem).wf(),
        instr_ok(*instr),
    ensures
        incdec_effect(*old(cpu), *old(mem), *final(cpu), *final(mem), *instr, inc, is_byte),
{
    let value = cpu.read_operand(mem, &instr.dst);
    if is_byte {
        let val8 = value as u8;
        if inc {
            let result = val8.wrapping_add(1);
            cpu.write_operand(mem, &instr.dst, result as u16);
            cpu.set_inc8_of_af(val8, result);
            cpu.set_lazy_flags(result as u32, FlagOp::Inc8);
        } else {
            let result = val8.wrapping_sub(1);
            cpu.write_operand(mem, &instr.dst, result as u16);
            cpu.set_dec8_of_af(val8, result);
            cpu.set_lazy_flags(result as u32, FlagOp::Dec8);
        }
    } else {
        if inc {
            let result = value.wrapping_add(1);
            cpu.write_operand(mem, &instr.dst, result);
            cpu.set_inc16_of_af(value, result);
            cpu.set_lazy_flags(result as u32, FlagOp::Inc16);
        } else {
            let result = value.wrapping_sub(1);
            cpu.write_operand(mem, &instr.dst, result);
            cpu.set_dec16_of_af(value, result);
            cpu.set_lazy_flags(result as u32, FlagOp::Dec16);
        }
    }
}

/// INC r16 - Increment 16-bit register (opcodes 0x40-0x47)
///
/// Flags affected: PF, AF, ZF, SF, OF (CF is NOT affected)
pub fn inc_r16(cpu: &mut Cpu, mem: &mut MemoryBus, instr: &DecodedInstruction)
    requires
        old(mem).wf(),
        instr_ok(*instr),
    ensures
        incdec_effect(*old(cpu), *old(mem), *final(cpu), *final(mem), *instr, true, false),
{
    incdec(cpu, mem, instr, true, false);
}

/// INC r/m - Increment register/memory (0xFE /0 and 0xFF /0)
///
/// Flags affected: PF, AF, ZF, SF, OF (CF is NOT affected)
pub fn inc_rm(cpu: &mut Cpu, mem: &mut MemoryBus, instr: &DecodedInstruction)
    requires
        old(mem).wf(),
        instr_ok(*instr),
    ensures
        incdec_effect(*old(cpu), *old(mem), *final(cpu), *final(mem), *instr, true, is_byte_operand(instr.dst)),
{
    let is_byte = instr.dst.op_type == OperandType::Reg8 || instr.dst.op_type == OperandType::Mem8;
    incdec(cpu, mem, instr, true, is_byte);
}

/// DEC r16 - Decrement 16-bit register (opcodes 0x48-0x4F)
///
/// Flags affected: PF, AF, ZF, SF, OF (CF is NOT affected)
pub fn dec_r16(cpu: &mut Cpu, mem: &mut MemoryBus, instr: &DecodedInstruction)
    requires
        old(mem).wf(),
        instr_ok(*instr),
    ensures
        incdec_effect(*old(cpu), *old(mem), *final(cpu), *final(mem), *instr, false, false),
{
    incdec(cpu, mem, instr, false, false);
}

/// DEC r/m - Decrement register/memory (0xFE /1 and 0xFF /1)
///
/// Flags affected: PF, AF, ZF, SF, OF (CF is NOT affected)
pub fn dec_rm(cpu: &mut Cpu, mem: &mut MemoryBus, instr: &DecodedInstruction)
    requires
        old(mem).wf(),
        instr_ok(*instr),
    ensures
        incdec_effect(*old(cpu), *old(mem), *final(cpu), *final(mem), *instr, false, is_byte_operand(instr.dst)),
{
    let is_byte = instr.dst.op_type == OperandType::Reg8 || instr.dst.op_type == OperandType::Mem8;
    incdec(cpu, mem, instr, false, is_byte);
}

/// The ModR/M reg field that group opcodes keep in the destination's high byte
pub open spec fn group_reg(instr: DecodedInstruction) -> u16 {
    instr.dst.value >> 8u16
}

/// Effect of a 0x80-0x83 group instruction: the reg field selects
/// ADD, OR, ADC, SBB, AND, SUB, XOR or CMP with the immediate.
pub open spec fn alu_group_effect(oc: Cpu, om: MemoryBus, nc: Cpu, nm: MemoryBus, instr: DecodedInstruction) -> bool {
    let b = is_byte_operand(instr.dst);
    let reg = group_reg(instr);
    if reg == 0 {
        alu_effect(oc, om, nc, nm, instr, AluOp::Add, b, true)
    } else if reg == 1 {
        alu_effect(oc, om, nc, nm, instr, AluOp::Or, b, true)
    } else if reg == 2 {
        alu_effect(oc, om, nc, nm, instr, AluOp::Adc, b, true)
    } else if reg == 3 {
        alu_effect(oc, om, nc, nm, instr, AluOp::Sbb, b, true)
    } else if reg == 4 {
        alu_effect(oc, om, nc, nm, instr, AluOp::And, b, true)
    } else if reg == 5 {
        alu_effect(oc, om, nc, nm, instr, AluOp::Sub, b, true)
    } else if reg == 6 {
        alu_effect(oc, om, nc, nm, instr, AluOp::Xor, b, true)
    } else {
        alu_effect(oc, om, nc, nm, instr, AluOp::Sub, b, false)
    }
}

/// Dispatch a 0x80-0x83 group instruction on its reg field
fn alu_group(cpu: &mut Cpu, mem: &mut MemoryBus, instr: &DecodedInstruction)
    requires
        old(mem).wf(),
        instr_ok(*instr),
        group_reg(*instr) < 8,
    ensures
        alu_group_effect(*old(cpu), *old(mem), *final(cpu), *final(mem), *instr),
{
    let reg = instr.dst.value >> 8;
    match reg {
        0 => add_rm_imm(cpu, mem, instr),
        1 => crate::cpu::execute::logic::or_rm_imm(cpu, mem, instr),
        2 => adc_rm_imm(cpu, mem, instr),
        3 => sbb_rm_imm(cpu, mem, instr),
        4 => crate::cpu::execute::logic::and_rm_imm(cpu, mem, instr),
        5 => sub_rm_imm(cpu, mem, instr),
        6 => crate::cpu::execute::logic::xor_rm_imm(cpu, mem, instr),
        _ => cmp_rm_imm(cpu, mem, instr),
    }
}

/// Group 0x80/0x82: arithmetic r/m8, imm8
pub fn group_80(cpu: &mut Cpu, mem: &mut MemoryBus, instr: &DecodedInstruction)
    requires
        old(mem).wf(),
        instr_ok(*instr),
        group_reg(*instr) < 8,
    ensures
        alu_group_effect(*old(cpu), *old(mem), *final(cpu), *final(mem), *instr),
{
    alu_group(cpu, mem, instr);
}

/// Group 0x81: arithmetic r/m16, imm16
pub fn group_81(cpu: &mut Cpu, mem: &mut MemoryBus, instr: &DecodedInstruction)
    requires
        old(mem).wf(),
        instr_ok(*instr),
        group_reg(*instr) < 8,
    ensures
        alu_group_effect(*old(cpu), *old(mem), *final(cpu), *final(mem), *instr),
{
    alu_group(cpu, mem, instr);
}

/// Group 0x83: arithmetic r/m16, imm8 (sign-extended by the decoder)
pub fn group_83(cpu: &mut Cpu, mem: &mut MemoryBus, instr: &DecodedInstruction)
    requires
        old(mem).wf(),
        instr_ok(*instr),
        group_reg(*instr) < 8,
    ensures
        alu_group_effect(*old(cpu), *old(mem), *final(cpu), *final(mem), *instr),
{
    alu_group(cpu, mem, instr);
}

/// Flags after a decimal adjustment that produced `al` with carry `cf` and
/// auxiliary carry `af` (bit 1 always set)
pub open spec fn decimal_adjust_flags(flags: u16, al: u8, cf: bool, af: bool) -> u16 {
    let base = flags & !0x00D5u16;
    let f1 = if al & 0x80 != 0 {
        base | 0x0080u16
    } else {
        base
    };
    let f2 = if al == 0 {
        f1 | 0x0040u16
    } else {
        f1
    };
    let f3 = if parity_even(al) {
        f2 | 0x0004u16
    } else {
        f2
    };
    let f4 = if cf {
        f3 | 0x0001u16
    } else {
        f3
    };
    let f5 = if af {
        f4 | 0x0010u16
    } else {
        f4
    };
    f5 | 0x0002u16
}

/// AL after DAA (`add`) or DAS, with the new CF and AF
pub open spec fn decimal_adjust(al: u8, cf: bool, af: bool, add: bool) -> (u8, bool, bool) {
    let new_af = (al & 0x0F) > 9 || af;
    let al1 = if new_af {
        if add {
            al.wrapping_add(6)
        } else {
            al.wrapping_sub(6)
        }
    } else {
        al
    };
    let new_cf = al > 0x99 || cf;
    let al2 = if new_cf {
        if add {
            al1.wrapping_add(0x60)
        } else {
            al1.wrapping_sub(0x60)
        }
    } else {
        al1
    };
    (al2, new_cf, new_af)
}

/// Effect of DAA (`add`) or DAS on AL and the flags
pub open spec fn decimal_adjust_effect(oc: Cpu, nc: Cpu, add: bool) -> bool {
    let (al, cf, af) = decimal_adjust(oc.reg8(0), oc.flag(Cpu::CF), oc.flag(Cpu::AF), add);
    &&& nc.regs@ == oc.regs@.update(0, ((oc.regs@[0] & 0xFF00) | (al as u16)) as u16)
    &&& oc.same_but_regs(nc)
    &&& nc.flags == decimal_adjust_flags(oc.flags, al, cf, af)
}

/// DAA (`add`) or DAS
fn decimal_adjust_al(cpu: &mut Cpu, add: bool)
    ensures
        decimal_adjust_effect(*old(cpu), *final(cpu), add),
{
    let mut al = cpu.read_reg8(0);
    let old_al = al;
    let old_cf = cpu.get_flag(Cpu::CF);
    let old_af = cpu.get_flag(Cpu::AF);
    let new_af = if (al & 0x0F) > 9 || old_af {
        al = if add {
            al.wrapping_add(6)
        } else {
            al.wrapping_sub(6)
        };
        true
    } else {
        false
    };
    let new_cf = if old_al > 0x99 || old_cf {
        al = if add {
            al.wrapping_add(0x60)
        } else {
            al.wrapping_sub(0x60)
        };
        true
    } else {
        false
    };
    cpu.write_reg8(0, al);
    let flags = cpu.get_flags();
    let base = flags & !0x00D5u16;
    let f1 = if al & 0x80 != 0 {
        base | 0x0080u16
    } else {
        base
    };
    let f2 = if al == 0 {
        f1 | 0x0040u16
    } else {
        f1
    };
    let f3 = if crate::cpu::state::parity_even_byte(al) {
        f2 | 0x0004u16
    } else {
        f2
    };
    let f4 = if new_cf {
        f3 | 0x0001u16
    } else {
        f3
    };
    let f5 = if new_af {
        f4 | 0x0010u16
    } else {
        f4
    };
    cpu.set_flags(f5);
}

/// DAA - Decimal Adjust AL after Addition (0x27)
///
/// Flags affected: SF, ZF, PF, CF, AF (OF undefined, left unchanged)
pub fn daa(cpu: &mut Cpu, _mem: &mut MemoryBus, _instr: &DecodedInstruction)
    ensures
        decimal_adjust_effect(*old(cpu), *final(cpu), true),
        *final(_mem) == *old(_mem),
{
    decimal_adjust_al(cpu, true);
}

/// DAS - Decimal Adjust AL after Subtraction (0x2F)
///
/// Flags affected: SF, ZF, PF, CF, AF (OF undefined, left unchanged)
pub fn das(cpu: &mut Cpu, _mem: &mut MemoryBus, _instr: &DecodedInstruction)
    ensures
        decimal_adjust_effect(*old(cpu), *final(cpu), false),
        *final(_mem) == *old(_mem),
{
    decimal_adjust_al(cpu, false);
}

/// Effect of AAA (`add`) or AAS on AX and the flags: when the low nibble of
/// AL exceeds 9 or AF is set, AL is adjusted by 6 and AH by 1, and AF = CF
/// = 1; otherwise AF = CF = 0. AL keeps its low nibble.
pub open spec fn ascii_adjust_effect(oc: Cpu, nc: Cpu, add: bool) -> bool {
    let al = oc.reg8(0);
    let ah = oc.reg8(4);
    let adjust = (al & 0x0F) > 9 || oc.flag(Cpu::AF);
    let al1 = if adjust {
        if add {
            al.wrapping_add(6)
        } else {
            al.wrapping_sub(6)
        }
    } else {
        al
    };
    let ah1 = if adjust {
        if add {
            ah.wrapping_add(1)
        } else {
            ah.wrapping_sub(1)
        }
    } else {
        ah
    };
    &&& nc.regs@ == oc.regs@.update(0, (((ah1 as u16) << 8u16) | ((al1 & 0x0F) as u16)) as u16)
    &&& oc.same_but_regs(nc)
    &&& nc.flags == set_bit(set_bit(oc.flags, 0x0010, adjust), 0x0001, adjust)
}

/// AAA (`add`) or AAS
fn ascii_adjust(cpu: &mut Cpu, add: bool)
    ensures
        ascii_adjust_effect(*old(cpu), *final(cpu), add),
{
    let mut al = cpu.read_reg8(0);
    let mut ah = cpu.read_reg8(4);
    let old_af = cpu.get_flag(Cpu::AF);
    if (al & 0x0F) > 9 || old_af {
        if add {
            al = al.wrapping_add(6);
            ah = ah.wrapping_add(1);
        } else {
            al = al.wrapping_sub(6);
            ah = ah.wrapping_sub(1);
        }
        cpu.set_flag(Cpu::AF, true);
        cpu.set_flag(Cpu::CF, true);
    } else {
        cpu.set_flag(Cpu::AF, false);
        cpu.set_flag(Cpu::CF, false);
    }
    let ghost unmasked = al;
    al = al & 0x0F;
    cpu.write_reg8(0, al);
    cpu.write_reg8(4, ah);
    proof {
        let w = old(cpu).regs@[0];
        assert(((((w & 0xFF00) | (al as u16)) & 0x00FF) | ((ah as u16) << 8u16)) == (((ah as u16)
            << 8u16) | ((unmasked & 0x0F) as u16))) by (bit_vector)
            requires
                al == unmasked & 0x0F,
        ;
        assert(cpu.regs@[0] == (((ah as u16) << 8u16) | ((unmasked & 0x0F) as u16)));
        assert(cpu.regs@ =~= old(cpu).regs@.update(0, (((ah as u16) << 8u16) | ((unmasked & 0x0F) as u16))));
    }
}

/// AAA - ASCII Adjust After Addition (0x37)
pub fn aaa(cpu: &mut Cpu, _mem: &mut MemoryBus, _instr: &DecodedInstruction)
    ensures
        ascii_adjust_effect(*old(cpu), *final(cpu), true),
        *final(_mem) == *old(_mem),
{
    ascii_adjust(cpu, true);
}

/// AAS - ASCII Adjust After Subtraction (0x3F)
pub fn aas(cpu: &mut Cpu, _mem: &mut MemoryBus, _instr: &DecodedInstruction)
    ensures
        ascii_adjust_effect(*old(cpu), *final(cpu), false),
        *final(_mem) == *old(_mem),
{
    ascii_adjust(cpu, false);
}

/// AAM - ASCII Adjust AX After Multiply (0xD4 ib): AH = AL / base,
/// AL = AL % base; ZF, SF and PF from AX.
pub fn aam(cpu: &mut Cpu, mem: &mut MemoryBus, instr: &DecodedInstruction)
    requires
        old(mem).wf(),
        operand_ok(instr.src),
        old(cpu).read_op(*old(mem), instr.src) as u8 != 0,
    ensures
        ({
            let base = old(cpu).read_op(*old(mem), instr.src) as u8;
            let al = old(cpu).reg8(0);
            let ax = (((al / base) as u16) << 8u16 | ((al % base) as u16)) as u16;
            &&& final(cpu).regs@ == old(cpu).regs@.update(0, ax)
            &&& old(cpu).same_but_regs(*final(cpu))
            &&& final(cpu).flags == flags_after(old(cpu).flags, ax as u32, FlagOp::And16)
        }),
        *final(mem) == *old(mem),
{
    let base = cpu.read_operand(mem, &instr.src) as u8;
    let al = cpu.read_reg8(0);
    let ah = al / base;
    let al_new = al % base;
    cpu.write_reg8(4, ah);
    cpu.write_reg8(0, al_new);
    let ax = cpu.regs[0];
    proof {
        let w = old(cpu).regs@[0];
        assert(((((w & 0x00FF) | ((ah as u16) << 8u16)) & 0xFF00) | (al_new as u16)) == (((
        ah as u16) << 8u16) | (al_new as u16))) by (bit_vector);
    }
    cpu.set_lazy_flags(ax as u32, FlagOp::And16);
}

/// AAD - ASCII Adjust AX Before Division (0xD5 ib): AL = AH * base + AL
/// (wrapping), AH = 0; ZF, SF and PF from AL.
pub fn aad(cpu: &mut Cpu, mem: &mut MemoryBus, instr: &DecodedInstruction)
    requires
        old(mem).wf(),
        operand_ok(instr.src),
    ensures
        ({
            let base = old(cpu).read_op(*old(mem), instr.src) as u8;
            let al_new = old(cpu).reg8(4).wrapping_mul(base).wrapping_add(old(cpu).reg8(0));
            &&& final(cpu).regs@ == old(cpu).regs@.update(0, al_new as u16)
            &&& old(cpu).same_but_regs(*final(cpu))
            &&& final(cpu).flags == flags_after(old(cpu).flags, al_new as u32, FlagOp::And8)
        }),
        *final(mem) == *old(mem),
{
    let base = cpu.read_operand(mem, &instr.src) as u8;
    let al = cpu.read_reg8(0);
    let ah = cpu.read_reg8(4);
    let al_new = (ah.wrapping_mul(base)).wrapping_add(al);
    cpu.write_reg8(0, al_new);
    cpu.write_reg8(4, 0);
    proof {
        let w = old(cpu).regs@[0];
        assert(((((w & 0xFF00) | (al_new as u16)) & 0x00FF) | ((0u8 as u16) << 8u16)) == (al_new as u16))
            by (bit_vector);
    }
    cpu.set_lazy_flags(al_new as u32, FlagOp::And8);
}

/// Group 0xFE: INC/DEC r/m8
pub fn group_fe(cpu: &mut Cpu, mem: &mut MemoryBus, instr: &DecodedInstruction)
    requires
        old(mem).wf(),
        instr_ok(*instr),
        group_reg(*instr) < 2,
    ensures
        incdec_effect(*old(cpu), *old(mem), *final(cpu), *final(mem), *instr, group_reg(*instr) == 0, is_byte_operand(instr.dst)),
{
    let reg = (instr.dst.value >> 8) as u8;
    if reg == 0 {
        inc_rm(cpu, mem, instr);
    } else {
        dec_rm(cpu, mem, instr);
    }
}

/// Products of values bounded by `m` are bounded by `m * m`.
proof fn lemma_mul_bound(a: int, b: int, m: int)
    by (nonlinear_arith)
    requires
        0 <= a <= m,
        0 <= b <= m,
    ensures
        0 <= a * b <= m * m,
{
}

/// Signed products of values within `[-m, m]` stay within `[-m*m, m*m]`.
proof fn lemma_signed_mul_bound(a: int, b: int, m: int)
    by (nonlinear_arith)
    requires
        -m <= a <= m,
        -m <= b <= m,
        m >= 0,
    ensures
        -(m * m) <= a * b <= m * m,
{
}

/// Quotient of `a / b` rounded toward zero
pub open spec fn trunc_div(a: int, b: int) -> int {
    let ua = if a < 0 {
        -a
    } else {
        a
    };
    let ub = if b < 0 {
        -b
    } else {
        b
    };
    if (a < 0) != (b < 0) {
        -(ua / ub)
    } else {
        ua / ub
    }
}

/// Remainder of `a / b` rounded toward zero (it has the sign of `a`)
pub open spec fn trunc_rem(a: int, b: int) -> int {
    let ua = if a < 0 {
        -a
    } else {
        a
    };
    let ub = if b < 0 {
        -b
    } else {
        b
    };
    if a < 0 {
        -(ua % ub)
    } else {
        ua % ub
    }
}

/// Effect of MUL: AX = AL * r/m8, or DX:AX = AX * r/m16; CF = OF = whether
/// the upper half of the product is nonzero.
pub open spec fn mul_effect(oc: Cpu, om: MemoryBus, nc: Cpu, nm: MemoryBus, instr: DecodedInstruction) -> bool {
    let v = oc.read_op(om, instr.dst);
    &&& nm == om
    &&& oc.same_but_regs(nc)
    &&& if is_byte_operand(instr.dst) {
        let p = (oc.reg8(0) as int * (v as u8) as int) as u16;
        let hi = p & 0xFF00 != 0;
        &&& nc.regs@ == oc.regs@.update(0, p)
        &&& nc.flags == set_bit(set_bit(oc.flags, 0x0001, hi), 0x0800, hi)
    } else {
        let p = (oc.regs@[0] as int * v as int) as u32;
        let hi = p & 0xFFFF0000 != 0;
        &&& nc.regs@ == oc.regs@.update(0, (p & 0xFFFF) as u16).update(2, (p >> 16u32) as u16)
        &&& nc.flags == set_bit(set_bit(oc.flags, 0x0001, hi), 0x0800, hi)
    }
}

/// MUL - Unsigned multiply (0xF6 /4, 0xF7 /4)
pub fn mul(cpu: &mut Cpu, mem: &mut MemoryBus, instr: &DecodedInstruction)
    requires
        old(mem).wf(),
        operand_ok(instr.dst),
    ensures
        mul_effect(*old(cpu), *old(mem), *final(cpu), *final(mem), *instr),
{
    let operand_value = cpu.read_operand(mem, &instr.dst);
    let is_byte = instr.dst.op_type == OperandType::Reg8 || instr.dst.op_type == OperandType::Mem8;
    if is_byte {
        let al = cpu.read_reg8(0);
        let x = operand_value as u8;
        proof {
            lemma_mul_bound(al as int, x as int, 255);
        }
        let result = (al as u16) * (x as u16);
        cpu.regs[0] = result;
        let upper_half_nonzero = (result & 0xFF00) != 0;
        cpu.set_flag(Cpu::CF, upper_half_nonzero);
        cpu.set_flag(Cpu::OF, upper_half_nonzero);
    } else {
        let ax = cpu.regs[0];
        proof {
            lemma_mul_bound(ax as int, operand_value as int, 65535);
        }
        let result = (ax as u32) * (operand_value as u32);
        cpu.regs[0] = (result & 0xFFFF) as u16;
        cpu.regs[2] = (result >> 16) as u16;
        let upper_half_nonzero = (result & 0xFFFF0000) != 0;
        cpu.set_flag(Cpu::CF, upper_half_nonzero);
        cpu.set_flag(Cpu::OF, upper_half_nonzero);
    }
}

/// The 32-bit dividend DX:AX
pub open spec fn dx_ax(c: Cpu) -> int {
    c.regs@[2] as int * 65536 + c.regs@[0] as int
}

/// The signed 32-bit dividend DX:AX
pub open spec fn signed_dx_ax(c: Cpu) -> int {
    c.regs@[2] as i16 as int * 65536 + c.regs@[0] as int
}

/// Whether DIV by the destination neither divides by zero nor overflows
pub open spec fn div_ok(oc: Cpu, om: MemoryBus, instr: DecodedInstruction) -> bool {
    let v = oc.read_op(om, instr.dst);
    if is_byte_operand(instr.dst) {
        (v as u8) != 0 && oc.regs@[0] as int / (v as u8) as int <= 0xFF
    } else {
        v != 0 && dx_ax(oc) / v as int <= 0xFFFF
    }
}

/// Effect of DIV: AL = AX / r/m8 and AH = AX % r/m8, or AX = DX:AX / r/m16
/// and DX = DX:AX % r/m16; the flags are unchanged.
pub open spec fn div_effect(oc: Cpu, om: MemoryBus, nc: Cpu, nm: MemoryBus, instr: DecodedInstruction) -> bool {
    let v = oc.read_op(om, instr.dst);
    &&& nm == om
    &&& nc.flags == oc.flags
    &&& oc.same_but_regs(nc)
    &&& if is_byte_operand(instr.dst) {
        let d = (v as u8) as int;
        let ax = oc.regs@[0] as int;
        nc.regs@ == oc.regs@.update(0, ((ax % d) * 256 + ax / d) as u16)
    } else {
        nc.regs@ == oc.regs@.update(0, (dx_ax(oc) / v as int) as u16).update(2, (dx_ax(oc) % v as int) as u16)
    }
}

/// Outcome of DIV: the division when it is defined, otherwise interrupt 0
/// (divide error) is taken and the registers keep their values
pub open spec fn div_outcome(oc: Cpu, om: MemoryBus, nc: Cpu, nm: MemoryBus, instr: DecodedInstruction) -> bool {
    if div_ok(oc, om, instr) {
        div_effect(oc, om, nc, nm, instr)
    } else {
        interrupt_effect(oc, om, nc, nm, 0)
    }
}

/// DIV - Unsigned divide (0xF6 /6, 0xF7 /6); a zero divisor or a quotient
/// that does not fit raises interrupt 0
pub fn div(cpu: &mut Cpu, mem: &mut MemoryBus, instr: &DecodedInstruction)
    requires
        old(mem).wf(),
        operand_ok(instr.dst),
    ensures
        div_outcome(*old(cpu), *old(mem), *final(cpu), *final(mem), *instr),
        final(mem).wf(),
{
    let divisor = cpu.read_operand(mem, &instr.dst);
    let is_byte = instr.dst.op_type == OperandType::Reg8 || instr.dst.op_type == OperandType::Mem8;
    if is_byte {
        let divisor = divisor as u8;
        let ax = cpu.regs[0];
        // Division by zero, or a quotient too large for AL: interrupt 0
        if divisor == 0 || ax / (divisor as u16) > 0xFF {
            enter_interrupt(cpu, mem, 0);
            return;
        }
        let quotient = ax / (divisor as u16);
        let remainder = ax % (divisor as u16);
        let al = quotient as u8;
        let ah = remainder as u8;
        cpu.regs[0] = (ah as u16) * 256 + (al as u16);
    } else {
        let ax = cpu.regs[0];
        let dx = cpu.regs[2];
        let dividend = (dx as u32) * 65536 + (ax as u32);
        // Division by zero, or a quotient too large for AX: interrupt 0
        if divisor == 0 || dividend / (divisor as u32) > 0xFFFF {
            enter_interrupt(cpu, mem, 0);
            return;
        }
        let quotient = dividend / (divisor as u32);
        let remainder = dividend % (divisor as u32);
        cpu.regs[0] = quotient as u16;
        cpu.regs[2] = remainder as u16;
    }
}

/// Effect of NEG: the destination becomes 0 - value, with the flags of
/// that subtraction and CF = (value != 0).
pub open spec fn neg_effect(oc: Cpu, om: MemoryBus, nc: Cpu, nm: MemoryBus, instr: DecodedInstruction) -> bool {
    let v = oc.read_op(om, instr.dst);
    &&& nm.wf()
    &&& if is_byte_operand(instr.dst) {
        let x = v as u8;
        let r = (0u32).wrapping_sub(x as u32);
        &&& Cpu::op_written(oc, om, nc, nm, instr.dst, (r & 0xFF) as u16)
        &&& nc.flags == set_bit(
            flags_after(
                with_of_af(oc.flags, sub_overflow(0, x as u32, r, 0x80), aux_carry(0, x as u32, r)),
                r,
                FlagOp::Sub8,
            ),
            0x0001,
            x != 0,
        )
    } else {
        let r = (0u32).wrapping_sub(v as u32);
        &&& Cpu::op_written(oc, om, nc, nm, instr.dst, (r & 0xFFFF) as u16)
        &&& nc.flags == set_bit(
            flags_after(
                with_of_af(oc.flags, sub_overflow(0, v as u32, r, 0x8000), aux_carry(0, v as u32, r)),
                r,
                FlagOp::Sub16,
            ),
            0x0001,
            v != 0,
        )
    }
}

/// NEG - Two's complement negation (0xF6 /3, 0xF7 /3)
pub fn neg(cpu: &mut Cpu, mem: &mut MemoryBus, instr: &DecodedInstruction)
    requires
        old(mem).wf(),
        operand_writable(instr.dst),
    ensures
        neg_effect(*old(cpu), *old(mem), *final(cpu), *final(mem), *instr),
{
    let operand_value = cpu.read_operand(mem, &instr.dst);
    let is_byte = instr.dst.op_type == OperandType::Reg8 || instr.dst.op_type == OperandType::Mem8;
    if is_byte {
        let value = operand_value as u8;
        let result = (0u32).wrapping_sub(value as u32);
        cpu.write_operand(mem, &instr.dst, (result & 0xFF) as u16);
        cpu.set_sub8_of_af(0, value, result);
        cpu.set_lazy_flags(result, FlagOp::Sub8);
        cpu.set_flag(Cpu::CF, value != 0);
    } else {
        let value = operand_value;
        let result = (0u32).wrapping_sub(value as u32);
        cpu.write_operand(mem, &instr.dst, (result & 0xFFFF) as u16);
        cpu.set_sub16_of_af(0, value, result);
        cpu.set_lazy_flags(result, FlagOp::Sub16);
        cpu.set_flag(Cpu::CF, value != 0);
    }
}

/// Effect of IMUL: AX = AL * r/m8 or DX:AX = AX * r/m16 as signed values;
/// CF = OF = whether the product does not fit in the lower half.
pub open spec fn imul_effect(oc: Cpu, om: MemoryBus, nc: Cpu, nm: MemoryBus, instr: DecodedInstruction) -> bool {
    let v = oc.read_op(om, instr.dst);
    &&& nm == om
    &&& oc.same_but_regs(nc)
    &&& if is_byte_operand(instr.dst) {
        let p = (oc.reg8(0) as i8 as int * v as u8 as i8 as int) as i16;
        let overflow = p != (p as u16 & 0xFF) as i8 as i16;
        &&& nc.regs@ == oc.regs@.update(0, p as u16)
        &&& nc.flags == set_bit(set_bit(oc.flags, 0x0001, overflow), 0x0800, overflow)
    } else {
        let p = (oc.regs@[0] as i16 as int * v as i16 as int) as i32;
        let overflow = p != (p as u32 & 0xFFFF) as i16 as i32;
        &&& nc.regs@ == oc.regs@.update(0, (p & 0xFFFF) as u16).update(2, ((p >> 16i32) & 0xFFFF) as u16)
        &&& nc.flags == set_bit(set_bit(oc.flags, 0x0001, overflow), 0x0800, overflow)
    }
}

/// IMUL - Signed multiply (0xF6 /5, 0xF7 /5)
pub fn imul(cpu: &mut Cpu, mem: &mut MemoryBus, instr: &DecodedInstruction)
    requires
        old(mem).wf(),
        operand_ok(instr.dst),
    ensures
        imul_effect(*old(cpu), *old(mem), *final(cpu), *final(mem), *instr),
{
    let operand_value = cpu.read_operand(mem, &instr.dst);
    let is_byte = instr.dst.op_type == OperandType::Reg8 || instr.dst.op_type == OperandType::Mem8;
    if is_byte {
        let al = cpu.read_reg8(0) as i8;
        let operand = operand_value as u8 as i8;
        proof {
            lemma_signed_mul_bound(al as int, operand as int, 128);
        }
        let result = (al as i16) * (operand as i16);
        cpu.regs[0] = result as u16;
        let al_sign_extended = (result as u16 & 0xFF) as i8 as i16;
        let overflow = result != al_sign_extended;
        cpu.set_flag(Cpu::CF, overflow);
        cpu.set_flag(Cpu::OF, overflow);
    } else {
        let ax = cpu.regs[0] as i16;
        let operand = operand_value as i16;
        proof {
            lemma_signed_mul_bound(ax as int, operand as int, 32768);
        }
        let result = (ax as i32) * (operand as i32);
        cpu.regs[0] = (result & 0xFFFF) as u16;
        cpu.regs[2] = ((result >> 16) & 0xFFFF) as u16;
        let ax_sign_extended = (result as u32 & 0xFFFF) as i16 as i32;
        let overflow = result != ax_sign_extended;
        cpu.set_flag(Cpu::CF, overflow);
        cpu.set_flag(Cpu::OF, overflow);
    }
}

/// Whether IDIV by the destination neither divides by zero nor overflows
pub open spec fn idiv_ok(oc: Cpu, om: MemoryBus, instr: DecodedInstruction) -> bool {
    let v = oc.read_op(om, instr.dst);
    if is_byte_operand(instr.dst) {
        let d = v as u8 as i8 as int;
        d != 0 && -128 <= trunc_div(oc.regs@[0] as i16 as int, d) <= 127
    } else {
        let d = v as i16 as int;
        d != 0 && -32768 <= trunc_div(signed_dx_ax(oc), d) <= 32767
    }
}

/// Effect of IDIV: signed division rounding toward zero; AL/AH (or AX/DX)
/// receive the quotient and the remainder; the flags are unchanged.
pub open spec fn idiv_effect(oc: Cpu, om: MemoryBus, nc: Cpu, nm: MemoryBus, instr: DecodedInstruction) -> bool {
    let v = oc.read_op(om, instr.dst);
    &&& nm == om
    &&& nc.flags == oc.flags
    &&& oc.same_but_regs(nc)
    &&& if is_byte_operand(instr.dst) {
        let d = v as u8 as i8 as int;
        let a = oc.regs@[0] as i16 as int;
        let q = trunc_div(a, d) as i8 as u8;
        let r = trunc_rem(a, d) as i8 as u8;
        nc.regs@ == oc.regs@.update(0, (r as int * 256 + q as int) as u16)
    } else {
        let d = v as i16 as int;
        let a = signed_dx_ax(oc);
        nc.regs@ == oc.regs@.update(0, trunc_div(a, d) as i16 as u16).update(2, trunc_rem(a, d) as i16 as u16)
    }
}

/// Truncating signed division of `a` by `b`: (quotient, remainder)
fn signed_divide(a: i64, b: i64) -> (r: (i64, i64))
    requires
        b != 0,
        -0x8000_0000 <= a <= 0x7FFF_FFFF,
        -0x8000 <= b <= 0x7FFF,
    ensures
        r.0 == trunc_div(a as int, b as int),
        r.1 == trunc_rem(a as int, b as int),
{
    let ua: u64 = if a < 0 {
        (-a) as u64
    } else {
        a as u64
    };
    let ub: u64 = if b < 0 {
        (-b) as u64
    } else {
        b as u64
    };
    let uq = ua / ub;
    let ur = ua % ub;
    assert(uq <= ua) by (nonlinear_arith)
        requires
            uq == ua / ub,
            ub >= 1,
    ;
    assert(ur < ub) by (nonlinear_arith)
        requires
            ur == ua % ub,
            ub >= 1,
    ;
    let q: i64 = if (a < 0) != (b < 0) {
        -(uq as i64)
    } else {
        uq as i64
    };
    let r: i64 = if a < 0 {
        -(ur as i64)
    } else {
        ur as i64
    };
    (q, r)
}

/// Outcome of IDIV: the division when it is defined, otherwise interrupt 0
/// (divide error) is taken and the registers keep their values
pub open spec fn idiv_outcome(oc: Cpu, om: MemoryBus, nc: Cpu, nm: MemoryBus, instr: DecodedInstruction) -> bool {
    if idiv_ok(oc, om, instr) {
        idiv_effect(oc, om, nc, nm, instr)
    } else {
        interrupt_effect(oc, om, nc, nm, 0)
    }
}

/// IDIV - Signed divide (0xF6 /7, 0xF7 /7); a zero divisor or a quotient
/// that does not fit raises interrupt 0
pub fn idiv(cpu: &mut Cpu, mem: &mut MemoryBus, instr: &DecodedInstruction)
    requires
        old(mem).wf(),
        operand_ok(instr.dst),
    ensures
        idiv_outcome(*old(cpu), *old(mem), *final(cpu), *final(mem), *instr),
        final(mem).wf(),
{
    let divisor = cpu.read_operand(mem, &instr.dst);
    let is_byte = instr.dst.op_type == OperandType::Reg8 || instr.dst.op_type == OperandType::Mem8;
    if is_byte {
        let d = divisor as u8 as i8;
        let ax = cpu.regs[0] as i16;
        if d == 0 {
            enter_interrupt(cpu, mem, 0);
            return;
        }
        let (quotient, remainder) = signed_divide(ax as i64, d as i64);
        // A quotient outside -128..=127 raises interrupt 0
        if quotient < -128 || quotient > 127 {
            enter_interrupt(cpu, mem, 0);
            return;
        }
        let al = quotient as i8 as u8;
        let ah = remainder as i8 as u8;
        cpu.regs[0] = (ah as u16) * 256 + (al as u16);
    } else {
        let d = divisor as i16;
        let ax = cpu.regs[0];
        let dx = cpu.regs[2] as i16;
        let dividend: i32 = (dx as i32) * 65536 + (ax as i32);
        if d == 0 {
            enter_interrupt(cpu, mem, 0);
            return;
        }
        let (quotient, remainder) = signed_divide(dividend as i64, d as i64);
        // A quotient outside -32768..=32767 raises interrupt 0
        if quotient < -32768 || quotient > 32767 {
            enter_interrupt(cpu, mem, 0);
            return;
        }
        cpu.regs[0] = quotient as i16 as u16;
        cpu.regs[2] = remainder as i16 as u16;
    }
}

/// Effect of NOT: the destination's bits are inverted; flags unchanged.
pub open spec fn not_effect(oc: Cpu, om: MemoryBus, nc: Cpu, nm: MemoryBus, instr: DecodedInstruction) -> bool {
    let v = oc.read_op(om, instr.dst);
    &&& nm.wf()
    &&& nc.flags == oc.flags
    &&& Cpu::op_written(oc, om, nc, nm, instr.dst, if is_byte_operand(instr.dst) {
        (!v) as u8 as u16
    } else {
        !v
    })
}

/// NOT - One's complement (0xF6 /2, 0xF7 /2)
pub fn not(cpu: &mut Cpu, mem: &mut MemoryBus, instr: &DecodedInstruction)
    requires
        old(mem).wf(),
        operand_writable(instr.dst),
    ensures
        not_effect(*old(cpu), *old(mem), *final(cpu), *final(mem), *instr),
{
    let operand_value = cpu.read_operand(mem, &instr.dst);
    let is_byte = instr.dst.op_type == OperandType::Reg8 || instr.dst.op_type == OperandType::Mem8;
    if is_byte {
        let result = (!operand_value) as u8;
        cpu.write_operand(mem, &instr.dst, result as u16);
    } else {
        let result = !operand_value;
        cpu.write_operand(mem, &instr.dst, result);
    }
}

/// Whether a 0xF6/0xF7 group instruction can run: valid reg field, and a
/// division that neither divides by zero nor overflows
pub open spec fn unary_group_ok(oc: Cpu, om: MemoryBus, instr: DecodedInstruction) -> bool {
    let reg = group_reg(instr);
    &&& reg < 8
}

/// Effect of a 0xF6/0xF7 group instruction: TEST, NOT, NEG, MUL, IMUL, DIV
/// or IDIV selected by the reg field.
pub open spec fn unary_group_effect(oc: Cpu, om: MemoryBus, nc: Cpu, nm: MemoryBus, instr: DecodedInstruction) -> bool {
    let reg = group_reg(instr);
    if reg == 0 || reg == 1 {
        alu_effect(oc, om, nc, nm, instr, AluOp::And, is_byte_operand(instr.dst), false)
    } else if reg == 2 {
        not_effect(oc, om, nc, nm, instr)
    } else if reg == 3 {
        neg_effect(oc, om, nc, nm, instr)
    } else if reg == 4 {
        mul_effect(oc, om, nc, nm, instr)
    } else if reg == 5 {
        imul_effect(oc, om, nc, nm, instr)
    } else if reg == 6 {
        div_outcome(oc, om, nc, nm, instr)
    } else {
        idiv_outcome(oc, om, nc, nm, instr)
    }
}

/// Dispatch a 0xF6/0xF7 group instruction on its reg field
fn unary_group(cpu: &mut Cpu, mem: &mut MemoryBus, instr: &DecodedInstruction)
    requires
        old(mem).wf(),
        instr_ok(*instr),
        unary_group_ok(*old(cpu), *old(mem), *instr),
    ensures
        unary_group_effect(*old(cpu), *old(mem), *final(cpu), *final(mem), *instr),
{
    let reg = (instr.dst.value >> 8) as u8;
    match reg {
        0 | 1 => test_rm_imm(cpu, mem, instr),
        2 => not(cpu, mem, instr),
        3 => neg(cpu, mem, instr),
        4 => self::mul(cpu, mem, instr),
        5 => imul(cpu, mem, instr),
        6 => div(cpu, mem, instr),
        _ => idiv(cpu, mem, instr),
    }
}

/// Group 0xF6: TEST/NOT/NEG/MUL/IMUL/DIV/IDIV r/m8
pub fn group_f6(cpu: &mut Cpu, mem: &mut MemoryBus, instr: &DecodedInstruction)
    requires
        old(mem).wf(),
        instr_ok(*instr),
        unary_group_ok(*old(cpu), *old(mem), *instr),
    ensures
        unary_group_effect(*old(cpu), *old(mem), *final(cpu), *final(mem), *instr),
{
    unary_group(cpu, mem, instr);
}

/// Group 0xF7: TEST/NOT/NEG/MUL/IMUL/DIV/IDIV r/m16
pub fn group_f7(cpu: &mut Cpu, mem: &mut MemoryBus, instr: &DecodedInstruction)
    requires
        old(mem).wf(),
        instr_ok(*instr),
        unary_group_ok(*old(cpu), *old(mem), *instr),
    ensures
        unary_group_effect(*old(cpu), *old(mem), *final(cpu), *final(mem), *instr),
{
    unary_group(cpu, mem, instr);
}

/// TEST r/m, imm - AND keeping only the flags
fn test_rm_imm(cpu: &mut Cpu, mem: &mut MemoryBus, instr: &DecodedInstruction)
    requires
        old(mem).wf(),
        instr_ok(*instr),
    ensures
        alu_effect(*old(cpu), *old(mem), *final(cpu), *final(mem), *instr, AluOp::And, is_byte_operand(instr.dst), false),
{
    let is_byte = instr.dst.op_type == OperandType::Reg8 || instr.dst.op_type == OperandType::Mem8;
    alu(cpu, mem, instr, AluOp::And, is_byte, false);
}

/// A DIV or IDIV that divides by zero or whose quotient does not fit takes
/// interrupt 0 as INT 0 would, provided the six stack bytes below SS:SP are
/// writable: AX and DX are unchanged, SP is six lower with IP, CS and FLAGS
/// pushed, and CS:IP comes from the vector table entry at address 0.
pub proof fn law_divide_error(oc: Cpu, om: MemoryBus, nc: Cpu, nm: MemoryBus, instr: DecodedInstruction, signed: bool)
    requires
        if signed {
            idiv_outcome(oc, om, nc, nm, instr) && !idiv_ok(oc, om, instr)
        } else {
            div_outcome(oc, om, nc, nm, instr) && !div_ok(oc, om, instr)
        },
        word_writable(phys(oc.segments@[2], oc.regs@[4].wrapping_sub(2))),
        word_writable(phys(oc.segments@[2], oc.regs@[4].wrapping_sub(4))),
        word_writable(phys(oc.segments@[2], oc.regs@[4].wrapping_sub(6))),
    ensures
        nc.regs@[0] == oc.regs@[0],
        nc.regs@[2] == oc.regs@[2],
        nc.regs@[4] == oc.regs@[4].wrapping_sub(6),
        nm.word(phys(oc.segments@[2], oc.regs@[4].wrapping_sub(6))) == oc.ip,
        nm.word(phys(oc.segments@[2], oc.regs@[4].wrapping_sub(4))) == oc.segments@[1],
        nm.word(phys(oc.segments@[2], oc.regs@[4].wrapping_sub(2))) == oc.flags,
        nc.ip == nm.word(0),
        nc.segments@[1] == nm.word(2),
{
    law_interrupt_frame(oc, om, nc, nm, 0);
}

/// The low bits of a 32-bit result, and its carry bit (bit 8 for bytes,
/// bit 16 for words): a sum below twice the carry bit carries exactly when
/// it reaches it, and a difference that went below zero (wrapped to the
/// top of the 32-bit range) always borrows.
proof fn lemma_result_bits(r: u32)
    by (bit_vector)
    ensures
        r & 0xFF == r % 256,
        r & 0xFFFF == r % 65536,
        r < 0x200 ==> ((r & 0x100 != 0) == (r >= 0x100)),
        r < 0x20000 ==> ((r & 0x10000 != 0) == (r >= 0x10000)),
        r >= 0xFFFF_FF00 ==> r & 0x100 != 0,
        r >= 0xFFFF_0000 ==> r & 0x10000 != 0,
{
}

/// The raw result of an ALU operation as a number: the sum (with the
/// carry for ADC), the difference (less the carry for SBB) wrapped into 32
/// bits, or the bitwise result.
proof fn lemma_alu_value_number(op: AluOp, a: u16, b: u16, c: bool, is_byte: bool)
    ensures
        ({
            let x: int = if is_byte {
                (a as u8) as int
            } else {
                a as int
            };
            let y: int = if is_byte {
                (b as u8) as int
            } else {
                b as int
            };
            let k: int = if c && (op == AluOp::Adc || op == AluOp::Sbb) {
                1
            } else {
                0
            };
            let r = alu_value(op, a, b, c, is_byte) as int;
            &&& (op == AluOp::Add || op == AluOp::Adc) ==> r == x + y + k
            &&& (op == AluOp::Sub || op == AluOp::Sbb) ==> r == (if x - y - k < 0 {
                x - y - k + 0x1_0000_0000
            } else {
                x - y - k
            })
            &&& op == AluOp::And ==> r == (if is_byte {
                ((a as u8) & (b as u8)) as int
            } else {
                (a & b) as int
            })
            &&& op == AluOp::Or ==> r == (if is_byte {
                ((a as u8) | (b as u8)) as int
            } else {
                (a | b) as int
            })
            &&& op == AluOp::Xor ==> r == (if is_byte {
                ((a as u8) ^ (b as u8)) as int
            } else {
                (a ^ b) as int
            })
        }),
{
}

/// What an ALU operation gives as numbers, on plain operands: the value
/// kept (the low byte or word of the raw result) and the carry flag.
proof fn lemma_alu_numbers(op: AluOp, flags: u16, a: u16, b: u16, c: bool, is_byte: bool)
    ensures
        ({
            let x: int = if is_byte {
                (a as u8) as int
            } else {
                a as int
            };
            let y: int = if is_byte {
                (b as u8) as int
            } else {
                b as int
            };
            let m: int = if is_byte {
                256
            } else {
                65536
            };
            let cin: int = if c {
                1
            } else {
                0
            };
            let v = alu_write_value(alu_value(op, a, b, c, is_byte), is_byte) as int;
            let cf = flag_bit(alu_flags(op, flags, a, b, c, is_byte), Cpu::CF);
            &&& op == AluOp::Add ==> cf == (x + y >= m) && v == (x + y) % m
            &&& op == AluOp::Adc ==> cf == (x + y + cin >= m) && v == (x + y + cin) % m
            &&& op == AluOp::Sub ==> cf == (x < y) && v == (x - y) % m
            &&& op == AluOp::Sbb ==> cf == (x < y + cin) && v == (x - y - cin) % m
            &&& (op == AluOp::And || op == AluOp::Or || op == AluOp::Xor) ==> !cf
            &&& op == AluOp::And ==> v == (if is_byte {
                ((a as u8) & (b as u8)) as int
            } else {
                (a & b) as int
            })
            &&& op == AluOp::Or ==> v == (if is_byte {
                ((a as u8) | (b as u8)) as int
            } else {
                (a | b) as int
            })
            &&& op == AluOp::Xor ==> v == (if is_byte {
                ((a as u8) ^ (b as u8)) as int
            } else {
                (a ^ b) as int
            })
        }),
{
    let r = alu_value(op, a, b, c, is_byte);
    let fop = alu_flag_op(op, is_byte);
    let f = alu_flags(op, flags, a, b, c, is_byte);
    lemma_result_bits(r);
    lemma_alu_value_number(op, a, b, c, is_byte);
    assert(flag_bit(f, Cpu::CF) == (if is_carry_flag_op(fop) {
        if is_byte {
            r & 0x100 != 0
        } else {
            r & 0x10000 != 0
        }
    } else {
        false
    })) by {
        law_flags_after(alu_flags_pre(op, flags, a, b, c, is_byte), r, fop);
    }
    assert(alu_write_value(r, is_byte) as int == (if is_byte {
        r as int % 256
    } else {
        r as int % 65536
    }));
    lemma_wrapped_difference(op, a, b, c, is_byte);
}

/// A difference wrapped into 32 bits has the low byte and word of the
/// difference itself.
proof fn lemma_wrapped_difference(op: AluOp, a: u16, b: u16, c: bool, is_byte: bool)
    ensures
        ({
            let x: int = if is_byte {
                (a as u8) as int
            } else {
                a as int
            };
            let y: int = if is_byte {
                (b as u8) as int
            } else {
                b as int
            };
            let k: int = if c && op == AluOp::Sbb {
                1
            } else {
                0
            };
            let w: int = if x - y - k < 0 {
                x - y - k + 0x1_0000_0000
            } else {
                x - y - k
            };
            &&& w % 256 == (x - y - k) % 256
            &&& w % 65536 == (x - y - k) % 65536
        }),
{
}

/// ADD, ADC, SUB, SBB, CMP, AND, OR and XOR as arithmetic on their
/// operands: with `x` and `y` the destination and source (their low bytes
/// for a byte operation), `m` = 256 or 65536 and `cin` the old carry, the
/// destination (a register or writable memory) receives the sum or
/// difference modulo `m`, or the bitwise result, and CF is the carry or
/// borrow out of the operation (clear after AND, OR and XOR).
pub proof fn law_alu_arithmetic(
    oc: Cpu,
    om: MemoryBus,
    nc: Cpu,
    nm: MemoryBus,
    instr: DecodedInstruction,
    op: AluOp,
    is_byte: bool,
    write: bool,
)
    requires
        alu_effect(oc, om, nc, nm, instr, op, is_byte, write),
        operand_stores(oc, instr.dst),
        is_byte == is_byte_operand(instr.dst),
    ensures
        ({
            let a = oc.read_op(om, instr.dst);
            let b = oc.read_op(om, instr.src);
            let x: int = if is_byte {
                (a as u8) as int
            } else {
                a as int
            };
            let y: int = if is_byte {
                (b as u8) as int
            } else {
                b as int
            };
            let m: int = if is_byte {
                256
            } else {
                65536
            };
            let cin: int = if oc.flag(Cpu::CF) {
                1
            } else {
                0
            };
            let v = nc.read_op(nm, instr.dst) as int;
            &&& op == AluOp::Add ==> nc.flag(Cpu::CF) == (x + y >= m) && (write ==> v == (x + y) % m)
            &&& op == AluOp::Adc ==> nc.flag(Cpu::CF) == (x + y + cin >= m) && (write ==> v == (x + y
                + cin) % m)
            &&& op == AluOp::Sub ==> nc.flag(Cpu::CF) == (x < y) && (write ==> v == (x - y) % m)
            &&& op == AluOp::Sbb ==> nc.flag(Cpu::CF) == (x < y + cin) && (write ==> v == (x - y - cin)
                % m)
            &&& (op == AluOp::And || op == AluOp::Or || op == AluOp::Xor) ==> !nc.flag(Cpu::CF)
            &&& op == AluOp::And && write ==> v == (if is_byte {
                ((a as u8) & (b as u8)) as int
            } else {
                (a & b) as int
            })
            &&& op == AluOp::Or && write ==> v == (if is_byte {
                ((a as u8) | (b as u8)) as int
            } else {
                (a | b) as int
            })
            &&& op == AluOp::Xor && write ==> v == (if is_byte {
                ((a as u8) ^ (b as u8)) as int
            } else {
                (a ^ b) as int
            })
        }),
{
    let a = oc.read_op(om, instr.dst);
    let b = oc.read_op(om, instr.src);
    let c = oc.flag(Cpu::CF);
    lemma_alu_numbers(op, oc.flags, a, b, c, is_byte);
    if write {
        law_operand_read_after_write(oc, om, nc, nm, instr.dst, alu_write_value(alu_value(op, a, b, c, is_byte), is_byte));
    }
}

/// Products and their halves: a byte product reaches the high byte
/// exactly when it is 256 or more, a word product reaches the high word
/// exactly when it is 65536 or more, and the halves of a 32-bit product are
/// its quotient and remainder by 65536.
proof fn lemma_product_bits(p16: u16, p32: u32, hi: u8, lo: u8)
    by (bit_vector)
    ensures
        (p16 & 0xFF00 != 0) == (p16 >= 0x100),
        (p32 & 0xFFFF_0000 != 0) == (p32 >= 0x10000),
        p32 & 0xFFFF == p32 % 65536,
        p32 >> 16u32 == p32 / 65536,
        (((hi as u16) << 8u16) | (lo as u16)) as int == hi as int * 256 + lo as int,
        (((hi as u16) << 8u16) | (lo as u16)) as u8 == lo,
        ((((hi as u16) << 8u16) | (lo as u16)) >> 8u16) as u8 == hi,
{
}

/// INC and DEC as arithmetic: the destination (a register or writable
/// memory) becomes its old value plus or minus one, modulo 256 for a byte
/// and 65536 for a word, and the carry flag keeps its value.
pub proof fn law_incdec_arithmetic(
    oc: Cpu,
    om: MemoryBus,
    nc: Cpu,
    nm: MemoryBus,
    instr: DecodedInstruction,
    inc: bool,
    is_byte: bool,
)
    requires
        incdec_effect(oc, om, nc, nm, instr, inc, is_byte),
        operand_stores(oc, instr.dst),
        is_byte == is_byte_operand(instr.dst),
    ensures
        ({
            let a = oc.read_op(om, instr.dst);
            let x: int = if is_byte {
                (a as u8) as int
            } else {
                a as int
            };
            let m: int = if is_byte {
                256
            } else {
                65536
            };
            &&& nc.read_op(nm, instr.dst) as int == (if inc {
                x + 1
            } else {
                x - 1
            }) % m
            &&& nc.flag(Cpu::CF) == oc.flag(Cpu::CF)
        }),
{
    let v = oc.read_op(om, instr.dst);
    lemma_flag_masks_disjoint();
    if is_byte {
        let v8 = v as u8;
        let r = if inc {
            v8.wrapping_add(1)
        } else {
            v8.wrapping_sub(1)
        };
        let of = if inc {
            r == 0x80
        } else {
            r == 0x7F
        };
        let af = if inc {
            v8 & 0x0F == 0x0F
        } else {
            v8 & 0x0F == 0
        };
        let fop = if inc {
            FlagOp::Inc8
        } else {
            FlagOp::Dec8
        };
        law_flags_after(with_of_af(oc.flags, of, af), r as u32, fop);
        law_flag_read_after_write(oc.flags, 0x0800, of, Cpu::CF);
        law_flag_read_after_write(set_bit(oc.flags, 0x0800, of), 0x0010, af, Cpu::CF);
        law_operand_read_after_write(oc, om, nc, nm, instr.dst, r as u16);
    } else {
        let r = if inc {
            v.wrapping_add(1)
        } else {
            v.wrapping_sub(1)
        };
        let of = if inc {
            r == 0x8000
        } else {
            r == 0x7FFF
        };
        let af = if inc {
            v & 0x0F == 0x0F
        } else {
            v & 0x0F == 0
        };
        let fop = if inc {
            FlagOp::Inc16
        } else {
            FlagOp::Dec16
        };
        law_flags_after(with_of_af(oc.flags, of, af), r as u32, fop);
        law_flag_read_after_write(oc.flags, 0x0800, of, Cpu::CF);
        law_flag_read_after_write(set_bit(oc.flags, 0x0800, of), 0x0010, af, Cpu::CF);
        law_operand_read_after_write(oc, om, nc, nm, instr.dst, r);
    }
}

/// NEG as arithmetic: the destination (a register or writable memory)
/// becomes zero minus its old value, modulo 256 for a byte and 65536 for a
/// word, and CF is set exactly when the old value was not zero.
pub proof fn law_neg_arithmetic(oc: Cpu, om: MemoryBus, nc: Cpu, nm: MemoryBus, instr: DecodedInstruction)
    requires
        neg_effect(oc, om, nc, nm, instr),
        operand_stores(oc, instr.dst),
    ensures
        ({
            let a = oc.read_op(om, instr.dst);
            let b = is_byte_operand(instr.dst);
            let x: int = if b {
                (a as u8) as int
            } else {
                a as int
            };
            let m: int = if b {
                256
            } else {
                65536
            };
            &&& nc.read_op(nm, instr.dst) as int == (0 - x) % m
            &&& nc.flag(Cpu::CF) == (x != 0)
        }),
{
    let v = oc.read_op(om, instr.dst);
    lemma_flag_masks_disjoint();
    if is_byte_operand(instr.dst) {
        let x = v as u8;
        let r = (0u32).wrapping_sub(x as u32);
        lemma_result_bits(r);
        assert((0x1_0000_0000 - x as int) % 256 == (0 - x as int) % 256);
        law_operand_read_after_write(oc, om, nc, nm, instr.dst, (r & 0xFF) as u16);
        let f = flags_after(with_of_af(oc.flags, sub_overflow(0, x as u32, r, 0x80), aux_carry(0, x as u32, r)), r, FlagOp::Sub8);
        law_flag_read_after_write(f, 0x0001, x != 0, Cpu::OF);
    } else {
        let r = (0u32).wrapping_sub(v as u32);
        lemma_result_bits(r);
        assert((0x1_0000_0000 - v as int) % 65536 == (0 - v as int) % 65536);
        law_operand_read_after_write(oc, om, nc, nm, instr.dst, (r & 0xFFFF) as u16);
        let f = flags_after(with_of_af(oc.flags, sub_overflow(0, v as u32, r, 0x8000), aux_carry(0, v as u32, r)), r, FlagOp::Sub16);
        law_flag_read_after_write(f, 0x0001, v != 0, Cpu::OF);
    }
}

/// MUL as arithmetic: AX holds AL times the byte source, or DX:AX holds AX
/// times the word source; CF is set exactly when the product does not fit
/// in the low half.
pub proof fn law_mul_arithmetic(oc: Cpu, om: MemoryBus, nc: Cpu, nm: MemoryBus, instr: DecodedInstruction)
    requires
        mul_effect(oc, om, nc, nm, instr),
    ensures
        ({
            let v = oc.read_op(om, instr.dst);
            if is_byte_operand(instr.dst) {
                let product = oc.reg8(0) as int * (v as u8) as int;
                &&& nc.regs@[0] as int == product
                &&& nc.flag(Cpu::CF) == (product >= 256)
            } else {
                let product = oc.regs@[0] as int * v as int;
                &&& nc.regs@[2] as int * 65536 + nc.regs@[0] as int == product
                &&& nc.flag(Cpu::CF) == (product >= 65536)
            }
        }),
{
    let v = oc.read_op(om, instr.dst);
    lemma_flag_masks_disjoint();
    if is_byte_operand(instr.dst) {
        let product = oc.reg8(0) as int * (v as u8) as int;
        lemma_mul_bound(oc.reg8(0) as int, (v as u8) as int, 255);
        let p = product as u16;
        lemma_product_bits(p, 0, 0, 0);
        let hi = p & 0xFF00 != 0;
        assert(p as int == product);
        law_flag_read_after_write(oc.flags, 0x0001, hi, Cpu::OF);
        law_flag_read_after_write(set_bit(oc.flags, 0x0001, hi), 0x0800, hi, Cpu::CF);
    } else {
        let product = oc.regs@[0] as int * v as int;
        lemma_mul_bound(oc.regs@[0] as int, v as int, 65535);
        let p = product as u32;
        lemma_product_bits(0, p, 0, 0);
        let hi = p & 0xFFFF0000 != 0;
        assert(p as int == product);
        assert(((p & 0xFFFF) as u16) as int == p as int % 65536);
        assert(((p >> 16u32) as u16) as int == p as int / 65536);
        assert(nc.regs@[0] == (p & 0xFFFF) as u16 && nc.regs@[2] == (p >> 16u32) as u16);
        law_flag_read_after_write(oc.flags, 0x0001, hi, Cpu::OF);
        law_flag_read_after_write(set_bit(oc.flags, 0x0001, hi), 0x0800, hi, Cpu::CF);
    }
}

/// DIV as arithmetic, when it does not fault: for a byte divisor `d`, AL
/// (the low byte of AX) is the quotient and AH the remainder of the old AX
/// by `d`, that is AL * d + AH equals the old AX with AH below `d`; for a
/// word divisor AX and DX are quotient and remainder of DX:AX.
pub proof fn law_div_arithmetic(oc: Cpu, om: MemoryBus, nc: Cpu, nm: MemoryBus, instr: DecodedInstruction)
    requires
        div_outcome(oc, om, nc, nm, instr),
        div_ok(oc, om, instr),
    ensures
        ({
            let v = oc.read_op(om, instr.dst);
            if is_byte_operand(instr.dst) {
                let d = (v as u8) as int;
                let al = nc.regs@[0] as int % 256;
                let ah = nc.regs@[0] as int / 256;
                &&& al * d + ah == oc.regs@[0] as int
                &&& 0 <= ah < d
            } else {
                &&& nc.regs@[0] as int * v as int + nc.regs@[2] as int == dx_ax(oc)
                &&& 0 <= nc.regs@[2] < v
            }
        }),
{
    let v = oc.read_op(om, instr.dst);
    if is_byte_operand(instr.dst) {
        let d = (v as u8) as int;
        let ax = oc.regs@[0] as int;
        vstd::arithmetic::div_mod::lemma_fundamental_div_mod(ax, d);
        let q = ax / d;
        let r = ax % d;
        assert(0 <= r < d);
        assert(0 <= q <= 255);
        let w = r * 256 + q;
        assert(0 <= w < 65536);
        assert(nc.regs@[0] as int == w);
        assert(w % 256 == q && w / 256 == r) by {
            vstd::arithmetic::div_mod::lemma_fundamental_div_mod_converse(w, 256, r, q);
        }
        assert(q * d == d * q) by (nonlinear_arith);
    } else {
        let n = dx_ax(oc);
        vstd::arithmetic::div_mod::lemma_fundamental_div_mod(n, v as int);
        assert((n / v as int) * v as int == v as int * (n / v as int)) by (nonlinear_arith);
    }
}

/// Signed products and their halves: a product fits a signed byte (word)
/// exactly when sign-extending its low byte (word) gives it back, and the
/// signed high word and the low word of a 32-bit product put it back
/// together.
proof fn lemma_signed_product_bits(p16: i16, p32: i32)
    by (bit_vector)
    ensures
        (((p16 as u16) & 0xFF) as i8 as i16 == p16) == (-128 <= p16 && p16 < 128),
        (((p32 as u32) & 0xFFFF) as i16 as i32 == p32) == (-32768 <= p32 && p32 < 32768),
        ((((p32 >> 16i32) & 0xFFFF) as u16) as i16 as int) * 65536 + ((p32 & 0xFFFF) as u16) as int
            == p32 as int,
        (p16 as u16) as i16 == p16,
{
}

/// IMUL as arithmetic on signed values: AX is the signed product of AL and
/// the byte source, or DX:AX (DX signed) that of AX and the word source;
/// CF is set exactly when the product does not fit in the low half as a
/// signed value.
pub proof fn law_imul_arithmetic(oc: Cpu, om: MemoryBus, nc: Cpu, nm: MemoryBus, instr: DecodedInstruction)
    requires
        imul_effect(oc, om, nc, nm, instr),
    ensures
        ({
            let v = oc.read_op(om, instr.dst);
            if is_byte_operand(instr.dst) {
                let product = oc.reg8(0) as i8 as int * v as u8 as i8 as int;
                &&& nc.regs@[0] as i16 as int == product
                &&& nc.flag(Cpu::CF) == !(-128 <= product < 128)
            } else {
                let product = oc.regs@[0] as i16 as int * v as i16 as int;
                &&& nc.regs@[2] as i16 as int * 65536 + nc.regs@[0] as int == product
                &&& nc.flag(Cpu::CF) == !(-32768 <= product < 32768)
            }
        }),
{
    let v = oc.read_op(om, instr.dst);
    lemma_flag_masks_disjoint();
    if is_byte_operand(instr.dst) {
        let product = oc.reg8(0) as i8 as int * v as u8 as i8 as int;
        lemma_signed_mul_bound(oc.reg8(0) as i8 as int, v as u8 as i8 as int, 128);
        let p = product as i16;
        assert(p as int == product);
        lemma_signed_product_bits(p, 0);
        let overflow = p != (p as u16 & 0xFF) as i8 as i16;
        law_flag_read_after_write(oc.flags, 0x0001, overflow, Cpu::OF);
        law_flag_read_after_write(set_bit(oc.flags, 0x0001, overflow), 0x0800, overflow, Cpu::CF);
    } else {
        let product = oc.regs@[0] as i16 as int * v as i16 as int;
        lemma_signed_mul_bound(oc.regs@[0] as i16 as int, v as i16 as int, 32768);
        let p = product as i32;
        assert(p as int == product);
        lemma_signed_product_bits(0, p);
        let overflow = p != (p as u32 & 0xFFFF) as i16 as i32;
        law_flag_read_after_write(oc.flags, 0x0001, overflow, Cpu::OF);
        law_flag_read_after_write(set_bit(oc.flags, 0x0001, overflow), 0x0800, overflow, Cpu::CF);
    }
}

/// Truncating division: quotient times divisor plus remainder gives the
/// dividend back, the remainder is smaller than the divisor in size, and
/// a nonzero remainder has the sign of the dividend.
pub proof fn law_trunc_division(a: int, d: int)
    requires
        d != 0,
    ensures
        trunc_div(a, d) * d + trunc_rem(a, d) == a,
        0 <= (if trunc_rem(a, d) < 0 {
            -trunc_rem(a, d)
        } else {
            trunc_rem(a, d)
        }) < (if d < 0 {
            -d
        } else {
            d
        }),
        trunc_rem(a, d) == 0 || ((trunc_rem(a, d) < 0) == (a < 0)),
{
    let ua = if a < 0 {
        -a
    } else {
        a
    };
    let ub = if d < 0 {
        -d
    } else {
        d
    };
    vstd::arithmetic::div_mod::lemma_fundamental_div_mod(ua, ub);
    let q = ua / ub;
    let r = ua % ub;
    assert(0 <= r < ub);
    assert(ua == ub * q + r);
    if a < 0 && d < 0 {
        assert(q * d == ub * q * -1) by (nonlinear_arith)
            requires
                d == -ub,
        ;
    } else if a < 0 {
        assert(-q * d == -(ub * q)) by (nonlinear_arith)
            requires
                d == ub,
        ;
    } else if d < 0 {
        assert(-q * d == ub * q) by (nonlinear_arith)
            requires
                d == -ub,
        ;
    } else {
        assert(q * d == ub * q) by (nonlinear_arith)
            requires
                d == ub,
        ;
    }
}

/// IDIV as arithmetic, when it does not fault: with the dividend AX (or
/// DX:AX) and the divisor taken as signed, the signed quotient in AL (or
/// AX) and the signed remainder in AH (or DX) satisfy quotient * divisor +
/// remainder = dividend, the remainder is smaller than the divisor in size
/// and has the dividend's sign when it is not zero.
pub proof fn law_idiv_arithmetic(oc: Cpu, om: MemoryBus, nc: Cpu, nm: MemoryBus, instr: DecodedInstruction)
    requires
        idiv_outcome(oc, om, nc, nm, instr),
        idiv_ok(oc, om, instr),
    ensures
        ({
            let v = oc.read_op(om, instr.dst);
            let (a, d, q, r): (int, int, int, int) = if is_byte_operand(instr.dst) {
                (
                    oc.regs@[0] as i16 as int,
                    v as u8 as i8 as int,
                    nc.reg8(0) as i8 as int,
                    nc.reg8(4) as i8 as int,
                )
            } else {
                (signed_dx_ax(oc), v as i16 as int, nc.regs@[0] as i16 as int, nc.regs@[2] as i16 as int)
            };
            &&& q * d + r == a
            &&& (if r < 0 {
                -r
            } else {
                r
            }) < (if d < 0 {
                -d
            } else {
                d
            })
            &&& r == 0 || ((r < 0) == (a < 0))
        }),
{
    let v = oc.read_op(om, instr.dst);
    if is_byte_operand(instr.dst) {
        let d = v as u8 as i8 as int;
        let a = oc.regs@[0] as i16 as int;
        law_trunc_division(a, d);
        let qi = trunc_div(a, d) as i8;
        let ri = trunc_rem(a, d) as i8;
        assert(qi as int == trunc_div(a, d));
        assert(ri as int == trunc_rem(a, d));
        crate::cpu::tier1::decode::lemma_code_fields(0, 0, 0, qi, 0);
        let qu = qi as u8;
        crate::cpu::tier1::decode::lemma_code_fields(0, 0, 0, ri, 0);
        let ru = ri as u8;
        let w = (ru as int * 256 + qu as int) as u16;
        assert(w as int == ru as int * 256 + qu as int);
        assert(nc.regs@[0] == w);
        lemma_product_bits(0, 0, ru, qu);
        assert(w == (((ru as u16) << 8u16) | (qu as u16)));
    } else {
        let d = v as i16 as int;
        let a = signed_dx_ax(oc);
        law_trunc_division(a, d);
        let qi = trunc_div(a, d) as i16;
        let ri = trunc_rem(a, d) as i16;
        assert(qi as int == trunc_div(a, d));
        assert(ri as int == trunc_rem(a, d));
        crate::cpu::tier1::decode::lemma_code_fields(0, 0, 0, 0, qi);
        crate::cpu::tier1::decode::lemma_code_fields(0, 0, 0, 0, ri);
    }
}

} // verus!
