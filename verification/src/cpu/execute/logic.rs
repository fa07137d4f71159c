//! Logic instruction handlers (AND, OR, XOR, TEST)

use crate::cpu::decode::{DecodedInstruction, OperandType};
use crate::cpu::execute::arithmetic::{alu, alu_effect, instr_ok, AluOp};
use crate::cpu::state::{is_byte_operand, Cpu};
use crate::memory::MemoryBus;
use vstd::prelude::*;

verus! {

/// AND r/m, r - byte and word variants
///
/// Flags affected: OF and CF cleared; PF, ZF, SF set
pub fn and_rm_r(cpu: &mut Cpu, mem: &mut MemoryBus, instr: &DecodedInstruction)
    requires
        old(mem).wf(),
        instr_ok(*instr),
    ensures
        alu_effect(*old(cpu), *old(mem), *final(cpu), *final(mem), *instr, AluOp::And, is_byte_operand(instr.dst), true),
{
    let is_byte = instr.dst.op_type == OperandType::Reg8 || instr.dst.op_type == OperandType::Mem8;
    alu(cpu, mem, instr, AluOp::And, is_byte, true);
}

/// AND r, r/m - byte and word variants
///
/// Flags affected: OF and CF cleared; PF, ZF, SF set
pub fn and_r_rm(cpu: &mut Cpu, mem: &mut MemoryBus, instr: &DecodedInstruction)
    requires
        old(mem).wf(),
        instr_ok(*instr),
    ensures
        alu_effect(*old(cpu), *old(mem), *final(cpu), *final(mem), *instr, AluOp::And, instr.dst.op_type == OperandType::Reg8, true),
{
    let is_byte = instr.dst.op_type == OperandType::Reg8;
    alu(cpu, mem, instr, AluOp::And, is_byte, true);
}

/// AND AL/AX, imm - byte and word variants
///
/// Flags affected: OF and CF cleared; PF, ZF, SF set
pub fn and_acc_imm(cpu: &mut Cpu, mem: &mut MemoryBus, instr: &DecodedInstruction)
    requires
        old(mem).wf(),
        instr_ok(*instr),
    ensures
        alu_effect(*old(cpu), *old(mem), *final(cpu), *final(mem), *instr, AluOp::And, instr.dst.op_type == OperandType::Reg8, true),
{
    let is_byte = instr.dst.op_type == OperandType::Reg8;
    alu(cpu, mem, instr, AluOp::And, is_byte, true);
}

/// AND r/m, imm - group 0x80-0x83 variants
///
/// Flags affected: OF and CF cleared; PF, ZF, SF set
pub fn and_rm_imm(cpu: &mut Cpu, mem: &mut MemoryBus, instr: &DecodedInstruction)
    requires
        old(mem).wf(),
        instr_ok(*instr),
    ensures
        alu_effect(*old(cpu), *old(mem), *final(cpu), *final(mem), *instr, AluOp::And, is_byte_operand(instr.dst), true),
{
    let is_byte = instr.dst.op_type == OperandType::Reg8 || instr.dst.op_type == OperandType::Mem8;
    alu(cpu, mem, instr, AluOp::And, is_byte, true);
}

/// OR r/m, r - byte and word variants
///
/// Flags affected: OF and CF cleared; PF, ZF, SF set
pub fn or_rm_r(cpu: &mut Cpu, mem: &mut MemoryBus, instr: &DecodedInstruction)
    requires
        old(mem).wf(),
        instr_ok(*instr),
    ensures
        alu_effect(*old(cpu), *old(mem), *final(cpu), *final(mem), *instr, AluOp::Or, is_byte_operand(instr.dst), true),
{
    let is_byte = instr.dst.op_type == OperandType::Reg8 || instr.dst.op_type == OperandType::Mem8;
    alu(cpu, mem, instr, AluOp::Or, is_byte, true);
}

/// OR r, r/m - byte and word variants
///
/// Flags affected: OF and CF cleared; PF, ZF, SF set
pub fn or_r_rm(cpu: &mut Cpu, mem: &mut MemoryBus, instr: &DecodedInstruction)
    requires
        old(mem).wf(),
        instr_ok(*instr),
    ensures
        alu_effect(*old(cpu), *old(mem), *final(cpu), *final(mem), *instr, AluOp::Or, instr.dst.op_type == OperandType::Reg8, true),
{
    let is_byte = instr.dst.op_type == OperandType::Reg8;
    alu(cpu, mem, instr, AluOp::Or, is_byte, true);
}

/// OR AL/AX, imm - byte and word variants
///
/// Flags affected: OF and CF cleared; PF, ZF, SF set
pub fn or_acc_imm(cpu: &mut Cpu, mem: &mut MemoryBus, instr: &DecodedInstruction)
    requires
        old(mem).wf(),
        instr_ok(*instr),
    ensures
        alu_effect(*old(cpu), *old(mem), *final(cpu), *final(mem), *instr, AluOp::Or, instr.dst.op_type == OperandType::Reg8, true),
{
    let is_byte = instr.dst.op_type == OperandType::Reg8;
    alu(cpu, mem, instr, AluOp::Or, is_byte, true);
}

/// OR r/m, imm - group 0x80-0x83 variants
///
/// Flags affected: OF and CF cleared; PF, ZF, SF set
pub fn or_rm_imm(cpu: &mut Cpu, mem: &mut MemoryBus, instr: &DecodedInstruction)
    requires
        old(mem).wf(),
        instr_ok(*instr),
    ensures
        alu_effect(*old(cpu), *old(mem), *final(cpu), *final(mem), *instr, AluOp::Or, is_byte_operand(instr.dst), true),
{
    let is_byte = instr.dst.op_type == OperandType::Reg8 || instr.dst.op_type == OperandType::Mem8;
    alu(cpu, mem, instr, AluOp::Or, is_byte, true);
}

/// XOR r/m, r - byte and word variants
///
/// Flags affected: OF and CF cleared; PF, ZF, SF set
pub fn xor_rm_r(cpu: &mut Cpu, mem: &mut MemoryBus, instr: &DecodedInstruction)
    requires
        old(mem).wf(),
        instr_ok(*instr),
    ensures
        alu_effect(*old(cpu), *old(mem), *final(cpu), *final(mem), *instr, AluOp::Xor, is_byte_operand(instr.dst), true),
{
    let is_byte = instr.dst.op_type == OperandType::Reg8 || instr.dst.op_type == OperandType::Mem8;
    alu(cpu, mem, instr, AluOp::Xor, is_byte, true);
}

/// XOR r, r/m - byte and word variants
///
/// Flags affected: OF and CF cleared; PF, ZF, SF set
pub fn xor_r_rm(cpu: &mut Cpu, mem: &mut MemoryBus, instr: &DecodedInstruction)
    requires
        old(mem).wf(),
        instr_ok(*instr),
    ensures
        alu_effect(*old(cpu), *old(mem), *final(cpu), *final(mem), *instr, AluOp::Xor, instr.dst.op_type == OperandType::Reg8, true),
{
    let is_byte = instr.dst.op_type == OperandType::Reg8;
    alu(cpu, mem, instr, AluOp::Xor, is_byte, true);
}

/// XOR AL/AX, imm - byte and word variants
///
/// Flags affected: OF and CF cleared; PF, ZF, SF set
pub fn xor_acc_imm(cpu: &mut Cpu, mem: &mut MemoryBus, instr: &DecodedInstruction)
    requires
        old(mem).wf(),
        instr_ok(*instr),
    ensures
        alu_effect(*old(cpu), *old(mem), *final(cpu), *final(mem), *instr, AluOp::Xor, instr.dst.op_type == OperandType::Reg8, true),
{
    let is_byte = instr.dst.op_type == OperandType::Reg8;
    alu(cpu, mem, instr, AluOp::Xor, is_byte, true);
}

/// XOR r/m, imm - group 0x80-0x83 variants
///
/// Flags affected: OF and CF cleared; PF, ZF, SF set
pub fn xor_rm_imm(cpu: &mut Cpu, mem: &mut MemoryBus, instr: &DecodedInstruction)
    requires
        old(mem).wf(),
        instr_ok(*instr),
    ensures
        alu_effect(*old(cpu), *old(mem), *final(cpu), *final(mem), *instr, AluOp::Xor, is_byte_operand(instr.dst), true),
{
    let is_byte = instr.dst.op_type == OperandType::Reg8 || instr.dst.op_type == OperandType::Mem8;
    alu(cpu, mem, instr, AluOp::Xor, is_byte, true);
}

/// TEST r/m, r - AND keeping only the flags
pub fn test_rm_r(cpu: &mut Cpu, mem: &mut MemoryBus, instr: &DecodedInstruction)
    requires
        old(mem).wf(),
        instr_ok(*instr),
    ensures
        alu_effect(*old(cpu), *old(mem), *final(cpu), *final(mem), *instr, AluOp::And, is_byte_operand(instr.dst), false),
{
    let is_byte = instr.dst.op_type == OperandType::Reg8 || instr.dst.op_type == OperandType::Mem8;
    alu(cpu, mem, instr, AluOp::And, is_byte, false);
}

/// TEST AL/AX, imm - AND keeping only the flags
pub fn test_acc_imm(cpu: &mut Cpu, mem: &mut MemoryBus, instr: &DecodedInstruction)
    requires
        old(mem).wf(),
        instr_ok(*instr),
    ensures
        alu_effect(*old(cpu), *old(mem), *final(cpu), *final(mem), *instr, AluOp::And, instr.dst.op_type == OperandType::Reg8, false),
{
    let is_byte = instr.dst.op_type == OperandType::Reg8;
    alu(cpu, mem, instr, AluOp::And, is_byte, false);
}


} // verus!
