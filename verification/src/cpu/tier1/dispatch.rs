//! Opcode dispatch for tier 1 execution
//!
//! Maps all 256 opcodes to their handlers; opcodes without a handler are
//! reported as invalid.

use crate::cpu::decode::{DecodedInstruction, Operand, OperandType};
use crate::cpu::execute::arithmetic::{
    alu_effect, alu_group_effect, decimal_adjust_effect, group_reg, incdec_effect, instr_ok, AluOp,
};
use crate::cpu::execute::control_flow::{
    call_effect, far_call_effect, far_jumped, group_ff_effect, group_ff_ok, interrupt_effect,
    iret_effect, jump_effect, jump_target, loop_effect, ret_far_effect, ret_near_effect,
};
use crate::cpu::execute::data_transfer::{lea_offset, lea_ok, mov_effect, xchg_ax_effect, xchg_effect};
use crate::cpu::execute::flags::{flag_set_effect, lahf_effect, popf_effect, sahf_effect, sti_effect};
use crate::cpu::execute::handlers::{invalid_opcode, ExecError};
use crate::cpu::execute::prefix::{override_effect, repeat_effect};
use crate::cpu::execute::stack::{pop_operand_effect, push_operand_effect, pushed};
use crate::cpu::execute::{
    arithmetic, control_flow, data_transfer, flags, handlers, io, logic, prefix, stack, string,
};
use crate::cpu::state::{is_byte_operand, operand_ok, operand_writable, phys, Cpu, RepeatPrefix};
use crate::cpu::tier1::decode::ip_plus;
use crate::cpu::timing::{instruction_cycles, spec_instruction_cycles};
use crate::memory::MemoryBus;
use vstd::prelude::*;

verus! {

/// Whether the dispatch table maps `op` to a handler
pub open spec fn is_valid_opcode(op: u8) -> bool {
    !(op == 0x0F || op == 0x37 || op == 0x3F || (0x60 <= op <= 0x6F) || op == 0x8F || op == 0x98
        || op == 0x99 || op == 0x9B || (0xA0 <= op <= 0xA3) || op == 0xC0 || op == 0xC1 || op == 0xC4
        || op == 0xC5 || op == 0xC8 || op == 0xC9 || op == 0xCE || (0xD0 <= op <= 0xDF) || op == 0xF0
        || op == 0xF1 || op == 0xF5 || op == 0xF6 || op == 0xF7 || op == 0xFE)
}

/// Whether `op` takes a writable destination and a readable source
pub open spec fn needs_instr_ok(op: u8) -> bool {
    (op < 0x40 && op % 8 < 6) || (0x40 <= op <= 0x4F) || op == 0x84 || op == 0x85 || (0x88 <= op
        <= 0x8C) || op == 0x8E || op == 0xA8 || op == 0xA9 || (0xB0 <= op <= 0xBF) || op == 0xC6 || op
        == 0xC7
}

/// Whether the instruction's operands suit the handler of its opcode
pub open spec fn operands_fit(c: Cpu, instr: DecodedInstruction) -> bool {
    let op = instr.opcode;
    if needs_instr_ok(op) {
        instr_ok(instr)
    } else if op == 0x06 || op == 0x0E || op == 0x16 || op == 0x1E || (0x50 <= op <= 0x57) {
        operand_ok(instr.src)
    } else if op == 0x07 || op == 0x17 || op == 0x1F || (0x58 <= op <= 0x5F) || (0x91 <= op <= 0x97) {
        operand_writable(instr.dst)
    } else if 0x80 <= op <= 0x83 {
        instr_ok(instr) && group_reg(instr) < 8
    } else if op == 0x86 || op == 0x87 {
        operand_writable(instr.dst) && operand_writable(instr.src)
    } else if op == 0x8D {
        instr_ok(instr) && lea_ok(instr)
    } else if op == 0xFF {
        instr_ok(instr) && group_ff_ok(instr)
    } else if op == 0xE5 {
        instr.src.value < u16::MAX
    } else if op == 0xE7 {
        instr.dst.value < u16::MAX
    } else if op == 0xED || op == 0xEF {
        c.regs@[2] < u16::MAX
    } else {
        true
    }
}

/// Whether an operand can be read (`operand_ok`)
pub fn operand_is_ok(op: &Operand) -> (r: bool)
    ensures
        r == operand_ok(*op),
{
    if op.op_type == OperandType::Mem8 || op.op_type == OperandType::Mem16 {
        let base = op.value & 0xFF;
        proof {
            crate::cpu::tier1::dispatch::lemma_low_byte(op.value);
        }
        base < 8 || base == 0xFF
    } else {
        true
    }
}

/// Whether an operand can be written (`operand_writable`)
pub fn operand_is_writable(op: &Operand) -> (r: bool)
    ensures
        r == operand_writable(*op),
{
    operand_is_ok(op) && op.op_type != OperandType::Imm8 && op.op_type != OperandType::Imm16
        && op.op_type != OperandType::Rel8 && op.op_type != OperandType::Rel16
}

/// The low byte of a word
pub proof fn lemma_low_byte(v: u16)
    by (bit_vector)
    ensures
        (v & 0xFF) == (v as u8) as u16,
{
}

/// Whether the instruction's operands suit its handler (`operands_fit`)
pub fn operands_fit_check(cpu: &Cpu, instr: &DecodedInstruction) -> (r: bool)
    ensures
        r == operands_fit(*cpu, *instr),
{
    let op = instr.opcode;
    let both = operand_is_writable(&instr.dst) && operand_is_ok(&instr.src);
    if (op < 0x40 && op % 8 < 6) || (0x40 <= op && op <= 0x4F) || op == 0x84 || op == 0x85 || (0x88
        <= op && op <= 0x8C) || op == 0x8E || op == 0xA8 || op == 0xA9 || (0xB0 <= op && op <= 0xBF)
        || op == 0xC6 || op == 0xC7 {
        both
    } else if op == 0x06 || op == 0x0E || op == 0x16 || op == 0x1E || (0x50 <= op && op <= 0x57) {
        operand_is_ok(&instr.src)
    } else if op == 0x07 || op == 0x17 || op == 0x1F || (0x58 <= op && op <= 0x5F) || (0x91 <= op
        && op <= 0x97) {
        operand_is_writable(&instr.dst)
    } else if 0x80 <= op && op <= 0x83 {
        both && (instr.dst.value >> 8) < 8
    } else if op == 0x86 || op == 0x87 {
        operand_is_writable(&instr.dst) && operand_is_writable(&instr.src)
    } else if op == 0x8D {
        both && (instr.src.op_type == OperandType::Mem8 || instr.src.op_type == OperandType::Mem16
            || instr.src.op_type == OperandType::Direct)
    } else if op == 0xFF {
        let reg = instr.dst.value >> 8;
        both && reg < 7 && ((reg != 3 && reg != 5) || (instr.dst.op_type == OperandType::Mem16
            && operand_is_ok(&instr.dst)))
    } else if op == 0xE5 {
        instr.src.value < u16::MAX
    } else if op == 0xE7 {
        instr.dst.value < u16::MAX
    } else if op == 0xED || op == 0xEF {
        cpu.regs[2] < u16::MAX
    } else {
        true
    }
}

/// Whether the dispatch table maps `op` to a handler (`is_valid_opcode`)
pub fn opcode_is_valid(op: u8) -> (r: bool)
    ensures
        r == is_valid_opcode(op),
{
    !(op == 0x0F || op == 0x37 || op == 0x3F || (0x60 <= op && op <= 0x6F) || op == 0x8F || op
        == 0x98 || op == 0x99 || op == 0x9B || (0xA0 <= op && op <= 0xA3) || op == 0xC0 || op == 0xC1
        || op == 0xC4 || op == 0xC5 || op == 0xC8 || op == 0xC9 || op == 0xCE || (0xD0 <= op && op
        <= 0xDF) || op == 0xF0 || op == 0xF1 || op == 0xF5 || op == 0xF6 || op == 0xF7 || op == 0xFE)
}

/// Effect of executing an instruction with opcode 0x00-0x3F
pub open spec fn effect_low(oc: Cpu, om: MemoryBus, nc: Cpu, nm: MemoryBus, instr: DecodedInstruction) -> bool {
    let op = instr.opcode;
    if op == 0x00 {
        alu_effect(oc, om, nc, nm, instr, AluOp::Add, is_byte_operand(instr.dst), true)
    } else if op == 0x01 {
        alu_effect(oc, om, nc, nm, instr, AluOp::Add, is_byte_operand(instr.dst), true)
    } else if op == 0x02 {
        alu_effect(oc, om, nc, nm, instr, AluOp::Add, instr.dst.op_type == OperandType::Reg8, true)
    } else if op == 0x03 {
        alu_effect(oc, om, nc, nm, instr, AluOp::Add, instr.dst.op_type == OperandType::Reg8, true)
    } else if op == 0x04 {
        alu_effect(oc, om, nc, nm, instr, AluOp::Add, instr.dst.op_type == OperandType::Reg8, true)
    } else if op == 0x05 {
        alu_effect(oc, om, nc, nm, instr, AluOp::Add, instr.dst.op_type == OperandType::Reg8, true)
    } else if op == 0x06 {
        push_operand_effect(oc, om, nc, nm, instr)
    } else if op == 0x07 {
        pop_operand_effect(oc, om, nc, nm, instr)
    } else if op == 0x08 {
        alu_effect(oc, om, nc, nm, instr, AluOp::Or, is_byte_operand(instr.dst), true)
    } else if op == 0x09 {
        alu_effect(oc, om, nc, nm, instr, AluOp::Or, is_byte_operand(instr.dst), true)
    } else if op == 0x0A {
        alu_effect(oc, om, nc, nm, instr, AluOp::Or, instr.dst.op_type == OperandType::Reg8, true)
    } else if op == 0x0B {
        alu_effect(oc, om, nc, nm, instr, AluOp::Or, instr.dst.op_type == OperandType::Reg8, true)
    } else if op == 0x0C {
        alu_effect(oc, om, nc, nm, instr, AluOp::Or, instr.dst.op_type == OperandType::Reg8, true)
    } else if op == 0x0D {
        alu_effect(oc, om, nc, nm, instr, AluOp::Or, instr.dst.op_type == OperandType::Reg8, true)
    } else if op == 0x0E {
        push_operand_effect(oc, om, nc, nm, instr)
    } else if op == 0x10 {
        alu_effect(oc, om, nc, nm, instr, AluOp::Adc, is_byte_operand(instr.dst), true)
    } else if op == 0x11 {
        alu_effect(oc, om, nc, nm, instr, AluOp::Adc, is_byte_operand(instr.dst), true)
    } else if op == 0x12 {
        alu_effect(oc, om, nc, nm, instr, AluOp::Adc, instr.dst.op_type == OperandType::Reg8, true)
    } else if op == 0x13 {
        alu_effect(oc, om, nc, nm, instr, AluOp::Adc, instr.dst.op_type == OperandType::Reg8, true)
    } else if op == 0x14 {
        alu_effect(oc, om, nc, nm, instr, AluOp::Adc, instr.dst.op_type == OperandType::Reg8, true)
    } else if op == 0x15 {
        alu_effect(oc, om, nc, nm, instr, AluOp::Adc, instr.dst.op_type == OperandType::Reg8, true)
    } else if op == 0x16 {
        push_operand_effect(oc, om, nc, nm, instr)
    } else if op == 0x17 {
        pop_operand_effect(oc, om, nc, nm, instr)
    } else if op == 0x18 {
        alu_effect(oc, om, nc, nm, instr, AluOp::Sbb, is_byte_operand(instr.dst), true)
    } else if op == 0x19 {
        alu_effect(oc, om, nc, nm, instr, AluOp::Sbb, is_byte_operand(instr.dst), true)
    } else if op == 0x1A {
        alu_effect(oc, om, nc, nm, instr, AluOp::Sbb, instr.dst.op_type == OperandType::Reg8, true)
    } else if op == 0x1B {
        alu_effect(oc, om, nc, nm, instr, AluOp::Sbb, instr.dst.op_type == OperandType::Reg8, true)
    } else if op == 0x1C {
        alu_effect(oc, om, nc, nm, instr, AluOp::Sbb, instr.dst.op_type == OperandType::Reg8, true)
    } else if op == 0x1D {
        alu_effect(oc, om, nc, nm, instr, AluOp::Sbb, instr.dst.op_type == OperandType::Reg8, true)
    } else if op == 0x1E {
        push_operand_effect(oc, om, nc, nm, instr)
    } else if op == 0x1F {
        pop_operand_effect(oc, om, nc, nm, instr)
    } else if op == 0x20 {
        alu_effect(oc, om, nc, nm, instr, AluOp::And, is_byte_operand(instr.dst), true)
    } else if op == 0x21 {
        alu_effect(oc, om, nc, nm, instr, AluOp::And, is_byte_operand(instr.dst), true)
    } else if op == 0x22 {
        alu_effect(oc, om, nc, nm, instr, AluOp::And, instr.dst.op_type == OperandType::Reg8, true)
    } else if op == 0x23 {
        alu_effect(oc, om, nc, nm, instr, AluOp::And, instr.dst.op_type == OperandType::Reg8, true)
    } else if op == 0x24 {
        alu_effect(oc, om, nc, nm, instr, AluOp::And, instr.dst.op_type == OperandType::Reg8, true)
    } else if op == 0x25 {
        alu_effect(oc, om, nc, nm, instr, AluOp::And, instr.dst.op_type == OperandType::Reg8, true)
    } else if op == 0x26 {
        override_effect(oc, nc, 0) && nm == om
    } else if op == 0x27 {
        decimal_adjust_effect(oc, nc, true) && nm == om
    } else if op == 0x28 {
        alu_effect(oc, om, nc, nm, instr, AluOp::Sub, is_byte_operand(instr.dst), true)
    } else if op == 0x29 {
        alu_effect(oc, om, nc, nm, instr, AluOp::Sub, is_byte_operand(instr.dst), true)
    } else if op == 0x2A {
        alu_effect(oc, om, nc, nm, instr, AluOp::Sub, instr.dst.op_type == OperandType::Reg8, true)
    } else if op == 0x2B {
        alu_effect(oc, om, nc, nm, instr, AluOp::Sub, instr.dst.op_type == OperandType::Reg8, true)
    } else if op == 0x2C {
        alu_effect(oc, om, nc, nm, instr, AluOp::Sub, instr.dst.op_type == OperandType::Reg8, true)
    } else if op == 0x2D {
        alu_effect(oc, om, nc, nm, instr, AluOp::Sub, instr.dst.op_type == OperandType::Reg8, true)
    } else if op == 0x2E {
        override_effect(oc, nc, 1) && nm == om
    } else if op == 0x2F {
        decimal_adjust_effect(oc, nc, false) && nm == om
    } else if op == 0x30 {
        alu_effect(oc, om, nc, nm, instr, AluOp::Xor, is_byte_operand(instr.dst), true)
    } else if op == 0x31 {
        alu_effect(oc, om, nc, nm, instr, AluOp::Xor, is_byte_operand(instr.dst), true)
    } else if op == 0x32 {
        alu_effect(oc, om, nc, nm, instr, AluOp::Xor, instr.dst.op_type == OperandType::Reg8, true)
    } else if op == 0x33 {
        alu_effect(oc, om, nc, nm, instr, AluOp::Xor, instr.dst.op_type == OperandType::Reg8, true)
    } else if op == 0x34 {
        alu_effect(oc, om, nc, nm, instr, AluOp::Xor, instr.dst.op_type == OperandType::Reg8, true)
    } else if op == 0x35 {
        alu_effect(oc, om, nc, nm, instr, AluOp::Xor, instr.dst.op_type == OperandType::Reg8, true)
    } else if op == 0x36 {
        override_effect(oc, nc, 2) && nm == om
    } else if op == 0x38 {
        alu_effect(oc, om, nc, nm, instr, AluOp::Sub, is_byte_operand(instr.dst), false)
    } else if op == 0x39 {
        alu_effect(oc, om, nc, nm, instr, AluOp::Sub, is_byte_operand(instr.dst), false)
    } else if op == 0x3A {
        alu_effect(oc, om, nc, nm, instr, AluOp::Sub, instr.dst.op_type == OperandType::Reg8, false)
    } else if op == 0x3B {
        alu_effect(oc, om, nc, nm, instr, AluOp::Sub, instr.dst.op_type == OperandType::Reg8, false)
    } else if op == 0x3C {
        alu_effect(oc, om, nc, nm, instr, AluOp::Sub, instr.dst.op_type == OperandType::Reg8, false)
    } else if op == 0x3D {
        alu_effect(oc, om, nc, nm, instr, AluOp::Sub, instr.dst.op_type == OperandType::Reg8, false)
    } else if op == 0x3E {
        override_effect(oc, nc, 3) && nm == om
    } else {
        true
    }
}

/// Run the handler of an opcode in 0x00-0x3F
fn dispatch_low(cpu: &mut Cpu, mem: &mut MemoryBus, instr: &DecodedInstruction)
    requires
        old(mem).wf(),
        0 <= instr.opcode < 64,
        is_valid_opcode(instr.opcode),
        operands_fit(*old(cpu), *instr),
    ensures
        effect_low(*old(cpu), *old(mem), *final(cpu), *final(mem), *instr),
        final(mem).wf(),
{
    match instr.opcode {
        0x00 => arithmetic::add_rm_r(cpu, mem, instr),
        0x01 => arithmetic::add_rm_r(cpu, mem, instr),
        0x02 => arithmetic::add_r_rm(cpu, mem, instr),
        0x03 => arithmetic::add_r_rm(cpu, mem, instr),
        0x04 => arithmetic::add_acc_imm(cpu, mem, instr),
        0x05 => arithmetic::add_acc_imm(cpu, mem, instr),
        0x06 => stack::push_seg(cpu, mem, instr),
        0x07 => stack::pop_seg(cpu, mem, instr),
        0x08 => logic::or_rm_r(cpu, mem, instr),
        0x09 => logic::or_rm_r(cpu, mem, instr),
        0x0A => logic::or_r_rm(cpu, mem, instr),
        0x0B => logic::or_r_rm(cpu, mem, instr),
        0x0C => logic::or_acc_imm(cpu, mem, instr),
        0x0D => logic::or_acc_imm(cpu, mem, instr),
        0x0E => stack::push_seg(cpu, mem, instr),
        0x10 => arithmetic::adc_rm_r(cpu, mem, instr),
        0x11 => arithmetic::adc_rm_r(cpu, mem, instr),
        0x12 => arithmetic::adc_r_rm(cpu, mem, instr),
        0x13 => arithmetic::adc_r_rm(cpu, mem, instr),
        0x14 => arithmetic::adc_acc_imm(cpu, mem, instr),
        0x15 => arithmetic::adc_acc_imm(cpu, mem, instr),
        0x16 => stack::push_seg(cpu, mem, instr),
        0x17 => stack::pop_seg(cpu, mem, instr),
        0x18 => arithmetic::sbb_rm_r(cpu, mem, instr),
        0x19 => arithmetic::sbb_rm_r(cpu, mem, instr),
        0x1A => arithmetic::sbb_r_rm(cpu, mem, instr),
        0x1B => arithmetic::sbb_r_rm(cpu, mem, instr),
        0x1C => arithmetic::sbb_acc_imm(cpu, mem, instr),
        0x1D => arithmetic::sbb_acc_imm(cpu, mem, instr),
        0x1E => stack::push_seg(cpu, mem, instr),
        0x1F => stack::pop_seg(cpu, mem, instr),
        0x20 => logic::and_rm_r(cpu, mem, instr),
        0x21 => logic::and_rm_r(cpu, mem, instr),
        0x22 => logic::and_r_rm(cpu, mem, instr),
        0x23 => logic::and_r_rm(cpu, mem, instr),
        0x24 => logic::and_acc_imm(cpu, mem, instr),
        0x25 => logic::and_acc_imm(cpu, mem, instr),
        0x26 => prefix::seg_es(cpu, mem, instr),
        0x27 => arithmetic::daa(cpu, mem, instr),
        0x28 => arithmetic::sub_rm_r(cpu, mem, instr),
        0x29 => arithmetic::sub_rm_r(cpu, mem, instr),
        0x2A => arithmetic::sub_r_rm(cpu, mem, instr),
        0x2B => arithmetic::sub_r_rm(cpu, mem, instr),
        0x2C => arithmetic::sub_acc_imm(cpu, mem, instr),
        0x2D => arithmetic::sub_acc_imm(cpu, mem, instr),
        0x2E => prefix::seg_cs(cpu, mem, instr),
        0x2F => arithmetic::das(cpu, mem, instr),
        0x30 => logic::xor_rm_r(cpu, mem, instr),
        0x31 => logic::xor_rm_r(cpu, mem, instr),
        0x32 => logic::xor_r_rm(cpu, mem, instr),
        0x33 => logic::xor_r_rm(cpu, mem, instr),
        0x34 => logic::xor_acc_imm(cpu, mem, instr),
        0x35 => logic::xor_acc_imm(cpu, mem, instr),
        0x36 => prefix::seg_ss(cpu, mem, instr),
        0x38 => arithmetic::cmp_rm_r(cpu, mem, instr),
        0x39 => arithmetic::cmp_rm_r(cpu, mem, instr),
        0x3A => arithmetic::cmp_r_rm(cpu, mem, instr),
        0x3B => arithmetic::cmp_r_rm(cpu, mem, instr),
        0x3C => arithmetic::cmp_acc_imm(cpu, mem, instr),
        0x3D => arithmetic::cmp_acc_imm(cpu, mem, instr),
        0x3E => prefix::seg_ds(cpu, mem, instr),
        _ => {},
    }
}

/// Effect of executing an instruction with opcode 0x40-0x7F
pub open spec fn effect_mid(oc: Cpu, om: MemoryBus, nc: Cpu, nm: MemoryBus, instr: DecodedInstruction) -> bool {
    let op = instr.opcode;
    if op == 0x40 {
        incdec_effect(oc, om, nc, nm, instr, true, false)
    } else if op == 0x41 {
        incdec_effect(oc, om, nc, nm, instr, true, false)
    } else if op == 0x42 {
        incdec_effect(oc, om, nc, nm, instr, true, false)
    } else if op == 0x43 {
        incdec_effect(oc, om, nc, nm, instr, true, false)
    } else if op == 0x44 {
        incdec_effect(oc, om, nc, nm, instr, true, false)
    } else if op == 0x45 {
        incdec_effect(oc, om, nc, nm, instr, true, false)
    } else if op == 0x46 {
        incdec_effect(oc, om, nc, nm, instr, true, false)
    } else if op == 0x47 {
        incdec_effect(oc, om, nc, nm, instr, true, false)
    } else if op == 0x48 {
        incdec_effect(oc, om, nc, nm, instr, false, false)
    } else if op == 0x49 {
        incdec_effect(oc, om, nc, nm, instr, false, false)
    } else if op == 0x4A {
        incdec_effect(oc, om, nc, nm, instr, false, false)
    } else if op == 0x4B {
        incdec_effect(oc, om, nc, nm, instr, false, false)
    } else if op == 0x4C {
        incdec_effect(oc, om, nc, nm, instr, false, false)
    } else if op == 0x4D {
        incdec_effect(oc, om, nc, nm, instr, false, false)
    } else if op == 0x4E {
        incdec_effect(oc, om, nc, nm, instr, false, false)
    } else if op == 0x4F {
        incdec_effect(oc, om, nc, nm, instr, false, false)
    } else if op == 0x50 {
        push_operand_effect(oc, om, nc, nm, instr)
    } else if op == 0x51 {
        push_operand_effect(oc, om, nc, nm, instr)
    } else if op == 0x52 {
        push_operand_effect(oc, om, nc, nm, instr)
    } else if op == 0x53 {
        push_operand_effect(oc, om, nc, nm, instr)
    } else if op == 0x54 {
        push_operand_effect(oc, om, nc, nm, instr)
    } else if op == 0x55 {
        push_operand_effect(oc, om, nc, nm, instr)
    } else if op == 0x56 {
        push_operand_effect(oc, om, nc, nm, instr)
    } else if op == 0x57 {
        push_operand_effect(oc, om, nc, nm, instr)
    } else if op == 0x58 {
        pop_operand_effect(oc, om, nc, nm, instr)
    } else if op == 0x59 {
        pop_operand_effect(oc, om, nc, nm, instr)
    } else if op == 0x5A {
        pop_operand_effect(oc, om, nc, nm, instr)
    } else if op == 0x5B {
        pop_operand_effect(oc, om, nc, nm, instr)
    } else if op == 0x5C {
        pop_operand_effect(oc, om, nc, nm, instr)
    } else if op == 0x5D {
        pop_operand_effect(oc, om, nc, nm, instr)
    } else if op == 0x5E {
        pop_operand_effect(oc, om, nc, nm, instr)
    } else if op == 0x5F {
        pop_operand_effect(oc, om, nc, nm, instr)
    } else if op == 0x70 {
        jump_effect(oc, nc, instr, oc.flag(Cpu::OF)) && nm == om
    } else if op == 0x71 {
        jump_effect(oc, nc, instr, !oc.flag(Cpu::OF)) && nm == om
    } else if op == 0x72 {
        jump_effect(oc, nc, instr, oc.flag(Cpu::CF)) && nm == om
    } else if op == 0x73 {
        jump_effect(oc, nc, instr, !oc.flag(Cpu::CF)) && nm == om
    } else if op == 0x74 {
        jump_effect(oc, nc, instr, oc.flag(Cpu::ZF)) && nm == om
    } else if op == 0x75 {
        jump_effect(oc, nc, instr, !oc.flag(Cpu::ZF)) && nm == om
    } else if op == 0x76 {
        jump_effect(oc, nc, instr, oc.flag(Cpu::CF) || oc.flag(Cpu::ZF)) && nm == om
    } else if op == 0x77 {
        jump_effect(oc, nc, instr, !oc.flag(Cpu::CF) && !oc.flag(Cpu::ZF)) && nm == om
    } else if op == 0x78 {
        jump_effect(oc, nc, instr, oc.flag(Cpu::SF)) && nm == om
    } else if op == 0x79 {
        jump_effect(oc, nc, instr, !oc.flag(Cpu::SF)) && nm == om
    } else if op == 0x7A {
        jump_effect(oc, nc, instr, oc.flag(Cpu::PF)) && nm == om
    } else if op == 0x7B {
        jump_effect(oc, nc, instr, !oc.flag(Cpu::PF)) && nm == om
    } else if op == 0x7C {
        jump_effect(oc, nc, instr, oc.flag(Cpu::SF) != oc.flag(Cpu::OF)) && nm == om
    } else if op == 0x7D {
        jump_effect(oc, nc, instr, oc.flag(Cpu::SF) == oc.flag(Cpu::OF)) && nm == om
    } else if op == 0x7E {
        jump_effect(oc, nc, instr, oc.flag(Cpu::ZF) || (oc.flag(Cpu::SF) != oc.flag(Cpu::OF))) && nm == om
    } else if op == 0x7F {
        jump_effect(oc, nc, instr, !oc.flag(Cpu::ZF) && (oc.flag(Cpu::SF) == oc.flag(Cpu::OF))) && nm == om
    } else {
        true
    }
}

/// Run the handler of an opcode in 0x40-0x7F
fn dispatch_mid(cpu: &mut Cpu, mem: &mut MemoryBus, instr: &DecodedInstruction)
    requires
        old(mem).wf(),
        64 <= instr.opcode < 128,
        is_valid_opcode(instr.opcode),
        operands_fit(*old(cpu), *instr),
    ensures
        effect_mid(*old(cpu), *old(mem), *final(cpu), *final(mem), *instr),
        final(mem).wf(),
{
    match instr.opcode {
        0x40 => arithmetic::inc_r16(cpu, mem, instr),
        0x41 => arithmetic::inc_r16(cpu, mem, instr),
        0x42 => arithmetic::inc_r16(cpu, mem, instr),
        0x43 => arithmetic::inc_r16(cpu, mem, instr),
        0x44 => arithmetic::inc_r16(cpu, mem, instr),
        0x45 => arithmetic::inc_r16(cpu, mem, instr),
        0x46 => arithmetic::inc_r16(cpu, mem, instr),
        0x47 => arithmetic::inc_r16(cpu, mem, instr),
        0x48 => arithmetic::dec_r16(cpu, mem, instr),
        0x49 => arithmetic::dec_r16(cpu, mem, instr),
        0x4A => arithmetic::dec_r16(cpu, mem, instr),
        0x4B => arithmetic::dec_r16(cpu, mem, instr),
        0x4C => arithmetic::dec_r16(cpu, mem, instr),
        0x4D => arithmetic::dec_r16(cpu, mem, instr),
        0x4E => arithmetic::dec_r16(cpu, mem, instr),
        0x4F => arithmetic::dec_r16(cpu, mem, instr),
        0x50 => stack::push_r16(cpu, mem, instr),
        0x51 => stack::push_r16(cpu, mem, instr),
        0x52 => stack::push_r16(cpu, mem, instr),
        0x53 => stack::push_r16(cpu, mem, instr),
        0x54 => stack::push_r16(cpu, mem, instr),
        0x55 => stack::push_r16(cpu, mem, instr),
        0x56 => stack::push_r16(cpu, mem, instr),
        0x57 => stack::push_r16(cpu, mem, instr),
        0x58 => stack::pop_r16(cpu, mem, instr),
        0x59 => stack::pop_r16(cpu, mem, instr),
        0x5A => stack::pop_r16(cpu, mem, instr),
        0x5B => stack::pop_r16(cpu, mem, instr),
        0x5C => stack::pop_r16(cpu, mem, instr),
        0x5D => stack::pop_r16(cpu, mem, instr),
        0x5E => stack::pop_r16(cpu, mem, instr),
        0x5F => stack::pop_r16(cpu, mem, instr),
        0x70 => control_flow::jo(cpu, mem, instr),
        0x71 => control_flow::jno(cpu, mem, instr),
        0x72 => control_flow::jc(cpu, mem, instr),
        0x73 => control_flow::jnc(cpu, mem, instr),
        0x74 => control_flow::jz(cpu, mem, instr),
        0x75 => control_flow::jnz(cpu, mem, instr),
        0x76 => control_flow::jbe(cpu, mem, instr),
        0x77 => control_flow::ja(cpu, mem, instr),
        0x78 => control_flow::js(cpu, mem, instr),
        0x79 => control_flow::jns(cpu, mem, instr),
        0x7A => control_flow::jp(cpu, mem, instr),
        0x7B => control_flow::jnp(cpu, mem, instr),
        0x7C => control_flow::jl(cpu, mem, instr),
        0x7D => control_flow::jge(cpu, mem, instr),
        0x7E => control_flow::jle(cpu, mem, instr),
        0x7F => control_flow::jg(cpu, mem, instr),
        _ => {},
    }
}

/// Effect of executing an instruction with opcode 0x80-0xBF
pub open spec fn effect_high(oc: Cpu, om: MemoryBus, nc: Cpu, nm: MemoryBus, instr: DecodedInstruction) -> bool {
    let op = instr.opcode;
    if op == 0x80 {
        alu_group_effect(oc, om, nc, nm, instr)
    } else if op == 0x81 {
        alu_group_effect(oc, om, nc, nm, instr)
    } else if op == 0x82 {
        alu_group_effect(oc, om, nc, nm, instr)
    } else if op == 0x83 {
        alu_group_effect(oc, om, nc, nm, instr)
    } else if op == 0x84 {
        alu_effect(oc, om, nc, nm, instr, AluOp::And, is_byte_operand(instr.dst), false)
    } else if op == 0x85 {
        alu_effect(oc, om, nc, nm, instr, AluOp::And, is_byte_operand(instr.dst), false)
    } else if op == 0x86 {
        xchg_effect(oc, om, nc, nm, instr)
    } else if op == 0x87 {
        xchg_effect(oc, om, nc, nm, instr)
    } else if op == 0x88 {
        mov_effect(oc, om, nc, nm, instr)
    } else if op == 0x89 {
        mov_effect(oc, om, nc, nm, instr)
    } else if op == 0x8A {
        mov_effect(oc, om, nc, nm, instr)
    } else if op == 0x8B {
        mov_effect(oc, om, nc, nm, instr)
    } else if op == 0x8C {
        mov_effect(oc, om, nc, nm, instr)
    } else if op == 0x8D {
        Cpu::op_written(oc, om, nc, nm, instr.dst, lea_offset(oc, instr)) && nc.flags == oc.flags
    } else if op == 0x8E {
        mov_effect(oc, om, nc, nm, instr)
    } else if op == 0x90 {
        nc == oc && nm == om
    } else if op == 0x91 {
        xchg_ax_effect(oc, om, nc, nm, instr)
    } else if op == 0x92 {
        xchg_ax_effect(oc, om, nc, nm, instr)
    } else if op == 0x93 {
        xchg_ax_effect(oc, om, nc, nm, instr)
    } else if op == 0x94 {
        xchg_ax_effect(oc, om, nc, nm, instr)
    } else if op == 0x95 {
        xchg_ax_effect(oc, om, nc, nm, instr)
    } else if op == 0x96 {
        xchg_ax_effect(oc, om, nc, nm, instr)
    } else if op == 0x97 {
        xchg_ax_effect(oc, om, nc, nm, instr)
    } else if op == 0x9A {
        far_call_effect(oc, om, nc, nm, instr.dst.value, instr.src.value)
    } else if op == 0x9C {
        pushed(oc, om, nc, nm, oc.flags)
    } else if op == 0x9D {
        popf_effect(oc, om, nc, nm)
    } else if op == 0x9E {
        sahf_effect(oc, nc) && nm == om
    } else if op == 0x9F {
        lahf_effect(oc, nc) && nm == om
    } else if op == 0xA4 {
        string::movsb_effect(oc, om, nc, nm)
    } else if op == 0xA5 {
        string::movsw_effect(oc, om, nc, nm)
    } else if op == 0xA6 {
        string::cmpsb_effect(oc, om, nc, nm)
    } else if op == 0xA7 {
        string::cmpsw_effect(oc, om, nc, nm)
    } else if op == 0xA8 {
        alu_effect(oc, om, nc, nm, instr, AluOp::And, instr.dst.op_type == OperandType::Reg8, false)
    } else if op == 0xA9 {
        alu_effect(oc, om, nc, nm, instr, AluOp::And, instr.dst.op_type == OperandType::Reg8, false)
    } else if op == 0xAA {
        string::stosb_effect(oc, om, nc, nm)
    } else if op == 0xAB {
        string::stosw_effect(oc, om, nc, nm)
    } else if op == 0xAC {
        string::lodsb_effect(oc, om, nc, nm)
    } else if op == 0xAD {
        string::lodsw_effect(oc, om, nc, nm)
    } else if op == 0xAE {
        string::scasb_effect(oc, om, nc, nm)
    } else if op == 0xAF {
        string::scasw_effect(oc, om, nc, nm)
    } else if op == 0xB0 {
        mov_effect(oc, om, nc, nm, instr)
    } else if op == 0xB1 {
        mov_effect(oc, om, nc, nm, instr)
    } else if op == 0xB2 {
        mov_effect(oc, om, nc, nm, instr)
    } else if op == 0xB3 {
        mov_effect(oc, om, nc, nm, instr)
    } else if op == 0xB4 {
        mov_effect(oc, om, nc, nm, instr)
    } else if op == 0xB5 {
        mov_effect(oc, om, nc, nm, instr)
    } else if op == 0xB6 {
        mov_effect(oc, om, nc, nm, instr)
    } else if op == 0xB7 {
        mov_effect(oc, om, nc, nm, instr)
    } else if op == 0xB8 {
        mov_effect(oc, om, nc, nm, instr)
    } else if op == 0xB9 {
        mov_effect(oc, om, nc, nm, instr)
    } else if op == 0xBA {
        mov_effect(oc, om, nc, nm, instr)
    } else if op == 0xBB {
        mov_effect(oc, om, nc, nm, instr)
    } else if op == 0xBC {
        mov_effect(oc, om, nc, nm, instr)
    } else if op == 0xBD {
        mov_effect(oc, om, nc, nm, instr)
    } else if op == 0xBE {
        mov_effect(oc, om, nc, nm, instr)
    } else if op == 0xBF {
        mov_effect(oc, om, nc, nm, instr)
    } else {
        true
    }
}

/// Run the handler of an opcode in 0x80-0xBF
fn dispatch_high(cpu: &mut Cpu, mem: &mut MemoryBus, instr: &DecodedInstruction)
    requires
        old(mem).wf(),
        128 <= instr.opcode < 192,
        is_valid_opcode(instr.opcode),
        operands_fit(*old(cpu), *instr),
    ensures
        effect_high(*old(cpu), *old(mem), *final(cpu), *final(mem), *instr),
        final(mem).wf(),
{
    match instr.opcode {
        0x80 => arithmetic::group_80(cpu, mem, instr),
        0x81 => arithmetic::group_81(cpu, mem, instr),
        0x82 => arithmetic::group_80(cpu, mem, instr),
        0x83 => arithmetic::group_83(cpu, mem, instr),
        0x84 => logic::test_rm_r(cpu, mem, instr),
        0x85 => logic::test_rm_r(cpu, mem, instr),
        0x86 => data_transfer::xchg_rm_r(cpu, mem, instr),
        0x87 => data_transfer::xchg_rm_r(cpu, mem, instr),
        0x88 => data_transfer::mov_rm_r(cpu, mem, instr),
        0x89 => data_transfer::mov_rm_r(cpu, mem, instr),
        0x8A => data_transfer::mov_r_rm(cpu, mem, instr),
        0x8B => data_transfer::mov_r_rm(cpu, mem, instr),
        0x8C => data_transfer::mov_rm_sreg(cpu, mem, instr),
        0x8D => data_transfer::lea(cpu, mem, instr),
        0x8E => data_transfer::mov_sreg_rm(cpu, mem, instr),
        0x90 => handlers::nop(cpu, mem, instr),
        0x91 => data_transfer::xchg_ax_r16(cpu, mem, instr),
        0x92 => data_transfer::xchg_ax_r16(cpu, mem, instr),
        0x93 => data_transfer::xchg_ax_r16(cpu, mem, instr),
        0x94 => data_transfer::xchg_ax_r16(cpu, mem, instr),
        0x95 => data_transfer::xchg_ax_r16(cpu, mem, instr),
        0x96 => data_transfer::xchg_ax_r16(cpu, mem, instr),
        0x97 => data_transfer::xchg_ax_r16(cpu, mem, instr),
        0x9A => control_flow::call_far(cpu, mem, instr),
        0x9C => flags::pushf(cpu, mem, instr),
        0x9D => flags::popf(cpu, mem, instr),
        0x9E => flags::sahf(cpu, mem, instr),
        0x9F => flags::lahf(cpu, mem, instr),
        0xA4 => string::movsb(cpu, mem, instr),
        0xA5 => string::movsw(cpu, mem, instr),
        0xA6 => string::cmpsb(cpu, mem, instr),
        0xA7 => string::cmpsw(cpu, mem, instr),
        0xA8 => logic::test_acc_imm(cpu, mem, instr),
        0xA9 => logic::test_acc_imm(cpu, mem, instr),
        0xAA => string::stosb(cpu, mem, instr),
        0xAB => string::stosw(cpu, mem, instr),
        0xAC => string::lodsb(cpu, mem, instr),
        0xAD => string::lodsw(cpu, mem, instr),
        0xAE => string::scasb(cpu, mem, instr),
        0xAF => string::scasw(cpu, mem, instr),
        0xB0 => data_transfer::mov_r_imm(cpu, mem, instr),
        0xB1 => data_transfer::mov_r_imm(cpu, mem, instr),
        0xB2 => data_transfer::mov_r_imm(cpu, mem, instr),
        0xB3 => data_transfer::mov_r_imm(cpu, mem, instr),
        0xB4 => data_transfer::mov_r_imm(cpu, mem, instr),
        0xB5 => data_transfer::mov_r_imm(cpu, mem, instr),
        0xB6 => data_transfer::mov_r_imm(cpu, mem, instr),
        0xB7 => data_transfer::mov_r_imm(cpu, mem, instr),
        0xB8 => data_transfer::mov_r_imm(cpu, mem, instr),
        0xB9 => data_transfer::mov_r_imm(cpu, mem, instr),
        0xBA => data_transfer::mov_r_imm(cpu, mem, instr),
        0xBB => data_transfer::mov_r_imm(cpu, mem, instr),
        0xBC => data_transfer::mov_r_imm(cpu, mem, instr),
        0xBD => data_transfer::mov_r_imm(cpu, mem, instr),
        0xBE => data_transfer::mov_r_imm(cpu, mem, instr),
        0xBF => data_transfer::mov_r_imm(cpu, mem, instr),
        _ => {},
    }
}

/// Effect of executing an instruction with opcode 0xC0-0xFF
pub open spec fn effect_top(oc: Cpu, om: MemoryBus, nc: Cpu, nm: MemoryBus, instr: DecodedInstruction) -> bool {
    let op = instr.opcode;
    if op == 0xC2 {
        ret_near_effect(oc, om, nc, nm, instr.src.value)
    } else if op == 0xC3 {
        ret_near_effect(oc, om, nc, nm, 0)
    } else if op == 0xC6 {
        mov_effect(oc, om, nc, nm, instr)
    } else if op == 0xC7 {
        mov_effect(oc, om, nc, nm, instr)
    } else if op == 0xCA {
        ret_far_effect(oc, om, nc, nm, instr.src.value)
    } else if op == 0xCB {
        ret_far_effect(oc, om, nc, nm, 0)
    } else if op == 0xCC {
        interrupt_effect(oc, om, nc, nm, 3)
    } else if op == 0xCD {
        interrupt_effect(oc, om, nc, nm, instr.src.value as u8)
    } else if op == 0xCF {
        iret_effect(oc, om, nc, nm)
    } else if op == 0xE0 {
        loop_effect(oc, nc, instr, !oc.flag(Cpu::ZF)) && nm == om
    } else if op == 0xE1 {
        loop_effect(oc, nc, instr, oc.flag(Cpu::ZF)) && nm == om
    } else if op == 0xE2 {
        loop_effect(oc, nc, instr, true) && nm == om
    } else if op == 0xE3 {
        jump_effect(oc, nc, instr, oc.regs@[1] == 0) && nm == om
    } else if op == 0xE4 {
        io::in_al_imm8_effect(oc, om, nc, nm, instr)
    } else if op == 0xE5 {
        io::in_ax_imm8_effect(oc, om, nc, nm, instr)
    } else if op == 0xE6 {
        io::out_imm8_al_effect(oc, om, nc, nm, instr)
    } else if op == 0xE7 {
        io::out_imm8_ax_effect(oc, om, nc, nm, instr)
    } else if op == 0xE8 {
        call_effect(oc, om, nc, nm, oc.ip, jump_target(oc, instr))
    } else if op == 0xE9 {
        jump_effect(oc, nc, instr, true) && nm == om
    } else if op == 0xEA {
        far_jumped(oc, nc, instr.dst.value, instr.src.value) && nm == om
    } else if op == 0xEB {
        jump_effect(oc, nc, instr, true) && nm == om
    } else if op == 0xEC {
        io::in_al_dx_effect(oc, om, nc, nm, instr)
    } else if op == 0xED {
        io::in_ax_dx_effect(oc, om, nc, nm, instr)
    } else if op == 0xEE {
        io::out_dx_al_effect(oc, om, nc, nm, instr)
    } else if op == 0xEF {
        io::out_dx_ax_effect(oc, om, nc, nm, instr)
    } else if op == 0xF2 {
        repeat_effect(oc, nc, RepeatPrefix::RepNe) && nm == om
    } else if op == 0xF3 {
        repeat_effect(oc, nc, RepeatPrefix::Rep) && nm == om
    } else if op == 0xF4 {
        nc == (Cpu { halted: true, ..oc }) && nm == om
    } else if op == 0xF8 {
        flag_set_effect(oc, nc, Cpu::CF, false) && nm == om
    } else if op == 0xF9 {
        flag_set_effect(oc, nc, Cpu::CF, true) && nm == om
    } else if op == 0xFA {
        flag_set_effect(oc, nc, Cpu::IF, false) && nm == om
    } else if op == 0xFB {
        sti_effect(oc, nc) && nm == om
    } else if op == 0xFC {
        flag_set_effect(oc, nc, Cpu::DF, false) && nm == om
    } else if op == 0xFD {
        flag_set_effect(oc, nc, Cpu::DF, true) && nm == om
    } else if op == 0xFF {
        group_ff_effect(oc, om, nc, nm, instr)
    } else {
        true
    }
}

/// Run the handler of an opcode in 0xC0-0xFF
fn dispatch_top(cpu: &mut Cpu, mem: &mut MemoryBus, instr: &DecodedInstruction)
    requires
        old(mem).wf(),
        192 <= instr.opcode < 256,
        is_valid_opcode(instr.opcode),
        operands_fit(*old(cpu), *instr),
    ensures
        effect_top(*old(cpu), *old(mem), *final(cpu), *final(mem), *instr),
        final(mem).wf(),
{
    match instr.opcode {
        0xC2 => control_flow::ret_near_imm(cpu, mem, instr),
        0xC3 => control_flow::ret_near(cpu, mem, instr),
        0xC6 => data_transfer::mov_rm_imm(cpu, mem, instr),
        0xC7 => data_transfer::mov_rm_imm(cpu, mem, instr),
        0xCA => control_flow::ret_far_imm(cpu, mem, instr),
        0xCB => control_flow::ret_far(cpu, mem, instr),
        0xCC => control_flow::int3(cpu, mem, instr),
        0xCD => control_flow::int_n(cpu, mem, instr),
        0xCF => control_flow::iret(cpu, mem, instr),
        0xE0 => control_flow::loopne(cpu, mem, instr),
        0xE1 => control_flow::loope(cpu, mem, instr),
        0xE2 => control_flow::loop_rel8(cpu, mem, instr),
        0xE3 => control_flow::jcxz(cpu, mem, instr),
        0xE4 => io::in_al_imm8(cpu, mem, instr),
        0xE5 => io::in_ax_imm8(cpu, mem, instr),
        0xE6 => io::out_imm8_al(cpu, mem, instr),
        0xE7 => io::out_imm8_ax(cpu, mem, instr),
        0xE8 => control_flow::call_near(cpu, mem, instr),
        0xE9 => control_flow::jmp_near(cpu, mem, instr),
        0xEA => control_flow::jmp_far(cpu, mem, instr),
        0xEB => control_flow::jmp_short(cpu, mem, instr),
        0xEC => io::in_al_dx(cpu, mem, instr),
        0xED => io::in_ax_dx(cpu, mem, instr),
        0xEE => io::out_dx_al(cpu, mem, instr),
        0xEF => io::out_dx_ax(cpu, mem, instr),
        0xF2 => prefix::repne(cpu, mem, instr),
        0xF3 => prefix::rep(cpu, mem, instr),
        0xF4 => handlers::hlt(cpu, mem, instr),
        0xF8 => flags::clc(cpu, mem, instr),
        0xF9 => flags::stc(cpu, mem, instr),
        0xFA => flags::cli(cpu, mem, instr),
        0xFB => flags::sti(cpu, mem, instr),
        0xFC => flags::cld(cpu, mem, instr),
        0xFD => flags::std_(cpu, mem, instr),
        0xFF => control_flow::group_ff(cpu, mem, instr),
        _ => {},
    }
}

/// Effect of executing a valid instruction whose operands fit
pub open spec fn instruction_effect(oc: Cpu, om: MemoryBus, nc: Cpu, nm: MemoryBus, instr: DecodedInstruction) -> bool {
    if instr.opcode < 0x40 {
        effect_low(oc, om, nc, nm, instr)
    } else if instr.opcode < 0x80 {
        effect_mid(oc, om, nc, nm, instr)
    } else if instr.opcode < 0xC0 {
        effect_high(oc, om, nc, nm, instr)
    } else {
        effect_top(oc, om, nc, nm, instr)
    }
}

/// Outcome of executing a decoded instruction: an invalid opcode or
/// unsuitable operands are reported with CS and the opcode's IP and change
/// nothing; otherwise the handler's effect takes place.
pub open spec fn executed(oc: Cpu, om: MemoryBus, nc: Cpu, nm: MemoryBus, instr: DecodedInstruction, r: Result<(), ExecError>) -> bool {
    &&& nm.wf()
    &&& !is_valid_opcode(instr.opcode) ==> {
        &&& r == Err::<(), ExecError>(ExecError::InvalidOpcode { opcode: instr.opcode, cs: oc.segments@[1], ip: oc.ip.wrapping_sub(1) })
        &&& nc == oc
        &&& nm == om
    }
    &&& is_valid_opcode(instr.opcode) && !operands_fit(oc, instr) ==> {
        &&& r == Err::<(), ExecError>(ExecError::InvalidOperand { opcode: instr.opcode, cs: oc.segments@[1], ip: oc.ip.wrapping_sub(instr.length as u16) })
        &&& nc == oc
        &&& nm == om
    }
    &&& is_valid_opcode(instr.opcode) && operands_fit(oc, instr) ==> {
        &&& r == Ok::<(), ExecError>(())
        &&& instruction_effect(oc, om, nc, nm, instr)
    }
}

/// Execute a decoded instruction by its opcode's handler
pub fn execute_instruction(cpu: &mut Cpu, mem: &mut MemoryBus, instr: &DecodedInstruction) -> (r: Result<(), ExecError>)
    requires
        old(mem).wf(),
    ensures
        executed(*old(cpu), *old(mem), *final(cpu), *final(mem), *instr, r),
{
    if !opcode_is_valid(instr.opcode) {
        return Err(invalid_opcode(cpu, mem, instr));
    }
    if !operands_fit_check(cpu, instr) {
        return Err(ExecError::InvalidOperand { opcode: instr.opcode, cs: cpu.read_seg(1), ip: cpu.ip.wrapping_sub(instr.length as u16) });
    }
    if instr.opcode < 0x40 {
        dispatch_low(cpu, mem, instr);
    } else if instr.opcode < 0x80 {
        dispatch_mid(cpu, mem, instr);
    } else if instr.opcode < 0xC0 {
        dispatch_high(cpu, mem, instr);
    } else {
        dispatch_top(cpu, mem, instr);
    }
    Ok(())
}

/// The instruction at CS:IP as tier 1 decodes it
pub open spec fn fetched_instruction(c: Cpu, mem: MemoryBus) -> DecodedInstruction {
    let opcode = mem.byte(phys(c.segments@[1], c.ip));
    Cpu { ip: c.ip.wrapping_add(1), ..c }.t1_decode(mem, opcode)
}

/// The CPU once the instruction at CS:IP has been fetched and decoded
pub open spec fn decoded_cpu(c: Cpu, mem: MemoryBus) -> Cpu {
    Cpu { ip: ip_plus(c.ip.wrapping_add(1), fetched_instruction(c, mem).length - 1), ..c }
}

/// Outcome of one step: the instruction at CS:IP is fetched, decoded and
/// executed; on success the cycle counters record its cycles, which are
/// returned; on an error nothing changes.
pub open spec fn step_effect(oc: Cpu, om: MemoryBus, nc: Cpu, nm: MemoryBus, r: Result<u16, ExecError>) -> bool {
    let instr = fetched_instruction(oc, om);
    let dc = decoded_cpu(oc, om);
    &&& nm.wf()
    &&& match r {
        Ok(cycles) => {
            &&& is_valid_opcode(instr.opcode)
            &&& operands_fit(dc, instr)
            &&& cycles == spec_instruction_cycles(instr)
            &&& exists|ec: Cpu|
                #[trigger] instruction_effect(dc, om, ec, nm, instr) && nc == (Cpu {
                    current_instruction_cycles: cycles,
                    total_cycles: if ec.total_cycles + cycles > u64::MAX {
                        u64::MAX
                    } else {
                        (ec.total_cycles + cycles) as u64
                    },
                    ..ec
                })
        },
        Err(e) => {
            &&& nc == oc
            &&& nm == om
            &&& (!is_valid_opcode(instr.opcode) ==> e == ExecError::InvalidOpcode {
                opcode: instr.opcode,
                cs: dc.segments@[1],
                ip: dc.ip.wrapping_sub(1),
            })
            &&& (is_valid_opcode(instr.opcode) ==> !operands_fit(dc, instr) && e
                == ExecError::InvalidOperand {
                opcode: instr.opcode,
                cs: dc.segments@[1],
                ip: dc.ip.wrapping_sub(instr.length as u16),
            })
        },
    }
}

impl DecodedInstruction {
    /// Execute this instruction with the handler its opcode dispatches to
    pub fn execute(&self, cpu: &mut Cpu, mem: &mut MemoryBus) -> (r: Result<(), ExecError>)
        requires
            old(mem).wf(),
        ensures
            executed(*old(cpu), *old(mem), *final(cpu), *final(mem), *self, r),
    {
        execute_instruction(cpu, mem, self)
    }
}

impl Cpu {
    /// Execute one instruction (tier 1 execution)
    ///
    /// Fetches the opcode at CS:IP, decodes the instruction using tier 1
    /// decoding, and executes it. Returns the cycles it took, or the error
    /// that stopped it (with the CPU and memory left as they were).
    pub fn step(&mut self, mem: &mut MemoryBus) -> (r: Result<u16, ExecError>)
        requires
            old(mem).wf(),
        ensures
            step_effect(*old(self), *old(mem), *final(self), *final(mem), r),
    {
        let start_ip = self.ip;
        let cs = self.read_seg(1);
        let opcode = self.read_mem8(mem, cs, self.ip);
        self.ip = self.ip.wrapping_add(1);
        let instr = self.decode_instruction_t1(mem, opcode);
        let cycles = instruction_cycles(&instr);
        let ghost dc = *self;
        match execute_instruction(self, mem, &instr) {
            Ok(()) => {
                let ghost ec = *self;
                self.current_instruction_cycles = cycles;
                self.total_cycles = self.total_cycles.saturating_add(cycles as u64);
                assert(instruction_effect(dc, *old(mem), ec, *mem, instr));
                Ok(cycles)
            },
            Err(e) => {
                self.ip = start_ip;
                Err(e)
            },
        }
    }
}

} // verus!
