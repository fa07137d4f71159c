//! Data transfer instruction handlers (MOV, XCHG, LEA)

use crate::cpu::decode::{DecodedInstruction, OperandType};
use crate::cpu::execute::arithmetic::instr_ok;
use crate::cpu::state::{operand_ok, operand_writable, Cpu};
use crate::memory::MemoryBus;
use vstd::prelude::*;

verus! {

/// Effect of `dst = src`; flags unchanged
pub open spec fn mov_effect(oc: Cpu, om: MemoryBus, nc: Cpu, nm: MemoryBus, instr: DecodedInstruction) -> bool {
    &&& Cpu::op_written(oc, om, nc, nm, instr.dst, oc.read_op(om, instr.src))
    &&& nc.flags == oc.flags
    &&& nm.wf()
}

/// Copy the source operand to the destination
fn move_operand(cpu: &mut Cpu, mem: &mut MemoryBus, instr: &DecodedInstruction)
    requires
        old(mem).wf(),
        instr_ok(*instr),
    ensures
        mov_effect(*old(cpu), *old(mem), *final(cpu), *final(mem), *instr),
{
    let src_value = cpu.read_operand(mem, &instr.src);
    cpu.write_operand(mem, &instr.dst, src_value);
}

/// MOV r/m, r (0x88, 0x89)
pub fn mov_rm_r(cpu: &mut Cpu, mem: &mut MemoryBus, instr: &DecodedInstruction)
    requires
        old(mem).wf(),
        instr_ok(*instr),
    ensures
        mov_effect(*old(cpu), *old(mem), *final(cpu), *final(mem), *instr),
{
    move_operand(cpu, mem, instr);
}

/// MOV r, r/m (0x8A, 0x8B)
pub fn mov_r_rm(cpu: &mut Cpu, mem: &mut MemoryBus, instr: &DecodedInstruction)
    requires
        old(mem).wf(),
        instr_ok(*instr),
    ensures
        mov_effect(*old(cpu), *old(mem), *final(cpu), *final(mem), *instr),
{
    move_operand(cpu, mem, instr);
}

/// MOV r, imm (0xB0-0xBF)
pub fn mov_r_imm(cpu: &mut Cpu, mem: &mut MemoryBus, instr: &DecodedInstruction)
    requires
        old(mem).wf(),
        instr_ok(*instr),
    ensures
        mov_effect(*old(cpu), *old(mem), *final(cpu), *final(mem), *instr),
{
    move_operand(cpu, mem, instr);
}

/// MOV r/m, imm (0xC6, 0xC7)
pub fn mov_rm_imm(cpu: &mut Cpu, mem: &mut MemoryBus, instr: &DecodedInstruction)
    requires
        old(mem).wf(),
        instr_ok(*instr),
    ensures
        mov_effect(*old(cpu), *old(mem), *final(cpu), *final(mem), *instr),
{
    move_operand(cpu, mem, instr);
}

/// MOV r/m16, Sreg (0x8C)
pub fn mov_rm_sreg(cpu: &mut Cpu, mem: &mut MemoryBus, instr: &DecodedInstruction)
    requires
        old(mem).wf(),
        instr_ok(*instr),
    ensures
        mov_effect(*old(cpu), *old(mem), *final(cpu), *final(mem), *instr),
{
    move_operand(cpu, mem, instr);
}

/// MOV Sreg, r/m16 (0x8E)
pub fn mov_sreg_rm(cpu: &mut Cpu, mem: &mut MemoryBus, instr: &DecodedInstruction)
    requires
        old(mem).wf(),
        instr_ok(*instr),
    ensures
        mov_effect(*old(cpu), *old(mem), *final(cpu), *final(mem), *instr),
{
    move_operand(cpu, mem, instr);
}

/// Effect of XCHG r/m, r: the destination receives the source's value,
/// then the source (in the state after that write) receives the
/// destination's old value.
pub open spec fn xchg_effect(oc: Cpu, om: MemoryBus, nc: Cpu, nm: MemoryBus, instr: DecodedInstruction) -> bool {
    &&& nc.flags == oc.flags
    &&& nm.wf()
    &&& exists|mc: Cpu, mm: MemoryBus|
        #[trigger] Cpu::op_written(oc, om, mc, mm, instr.dst, oc.read_op(om, instr.src))
            && Cpu::op_written(mc, mm, nc, nm, instr.src, oc.read_op(om, instr.dst))
}

/// XCHG r/m, r (0x86, 0x87)
pub fn xchg_rm_r(cpu: &mut Cpu, mem: &mut MemoryBus, instr: &DecodedInstruction)
    requires
        old(mem).wf(),
        operand_writable(instr.dst),
        operand_writable(instr.src),
    ensures
        xchg_effect(*old(cpu), *old(mem), *final(cpu), *final(mem), *instr),
{
    let dst_value = cpu.read_operand(mem, &instr.dst);
    let src_value = cpu.read_operand(mem, &instr.src);
    cpu.write_operand(mem, &instr.dst, src_value);
    let ghost mc = *cpu;
    let ghost mm = *mem;
    cpu.write_operand(mem, &instr.src, dst_value);
    assert(Cpu::op_written(*old(cpu), *old(mem), mc, mm, instr.dst, src_value));
}

/// Effect of XCHG AX, r16: AX receives the register's value, then the
/// register receives AX's old value.
pub open spec fn xchg_ax_effect(oc: Cpu, om: MemoryBus, nc: Cpu, nm: MemoryBus, instr: DecodedInstruction) -> bool {
    &&& nc.flags == oc.flags
    &&& nm.wf()
    &&& exists|mc: Cpu|
        #[trigger] Cpu::op_written(oc, om, mc, om, crate::cpu::decode::Operand {
            op_type: OperandType::Reg16,
            value: 0,
            segment: 0xFF,
            disp: 0,
        }, oc.read_op(om, instr.dst)) && Cpu::op_written(mc, om, nc, nm, instr.dst, oc.regs@[0])
}

/// XCHG AX, r16 (0x91-0x97)
pub fn xchg_ax_r16(cpu: &mut Cpu, mem: &mut MemoryBus, instr: &DecodedInstruction)
    requires
        old(mem).wf(),
        operand_writable(instr.dst),
    ensures
        xchg_ax_effect(*old(cpu), *old(mem), *final(cpu), *final(mem), *instr),
{
    let ax_value = cpu.read_reg16(0);
    let r_value = cpu.read_operand(mem, &instr.dst);
    cpu.write_reg16(0, r_value);
    let ghost mc = *cpu;
    cpu.write_operand(mem, &instr.dst, ax_value);
    assert(Cpu::op_written(
        *old(cpu),
        *old(mem),
        mc,
        *old(mem),
        crate::cpu::decode::Operand { op_type: OperandType::Reg16, value: 0, segment: 0xFF, disp: 0 },
        r_value,
    ));
}

/// The offset that LEA loads for a memory operand
pub open spec fn lea_offset(oc: Cpu, instr: DecodedInstruction) -> u16 {
    if instr.src.op_type == OperandType::Direct {
        instr.src.value
    } else {
        oc.ea(instr.src.value as u8, instr.src.disp as u16).1
    }
}

/// Whether LEA's source is a memory operand
pub open spec fn lea_ok(instr: DecodedInstruction) -> bool {
    instr.src.op_type == OperandType::Mem8 || instr.src.op_type == OperandType::Mem16
        || instr.src.op_type == OperandType::Direct
}

/// LEA r16, m - Load Effective Address (0x8D)
pub fn lea(cpu: &mut Cpu, mem: &mut MemoryBus, instr: &DecodedInstruction)
    requires
        old(mem).wf(),
        instr_ok(*instr),
        lea_ok(*instr),
    ensures
        Cpu::op_written(*old(cpu), *old(mem), *final(cpu), *final(mem), instr.dst, lea_offset(*old(cpu), *instr)),
        final(cpu).flags == old(cpu).flags,
        final(mem).wf(),
{
    if instr.src.op_type == OperandType::Direct {
        cpu.write_operand(mem, &instr.dst, instr.src.value);
    } else {
        let base_index = instr.src.value as u8;
        let (_seg_idx, ea) = cpu.calculate_ea_from_operand(&instr.src, base_index);
        cpu.write_operand(mem, &instr.dst, ea);
    }
}

} // verus!
