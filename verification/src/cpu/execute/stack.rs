//! Stack instruction handlers (PUSH, POP)

use crate::cpu::decode::DecodedInstruction;
use crate::cpu::execute::arithmetic::instr_ok;
use crate::cpu::state::{operand_ok, operand_writable, phys, Cpu};
use crate::memory::{is_writable, law_word_read_after_write, MemoryBus};
use vstd::prelude::*;

verus! {

/// `nc`/`nm` is `oc`/`om` after pushing `value`: SP decreased by 2 and the
/// word written at SS:SP.
pub open spec fn pushed(oc: Cpu, om: MemoryBus, nc: Cpu, nm: MemoryBus, value: u16) -> bool {
    let sp = oc.regs@[4].wrapping_sub(2);
    &&& nc.regs@ == oc.regs@.update(4, sp)
    &&& oc.same_but_regs(nc)
    &&& nc.flags == oc.flags
    &&& MemoryBus::word_written(om, nm, phys(oc.segments@[2], sp), value)
}

/// The word on top of the stack
pub open spec fn stack_top(c: Cpu, mem: MemoryBus) -> u16 {
    mem.word(phys(c.segments@[2], c.regs@[4]))
}

/// `nc` is `oc` after popping a word: SP increased by 2
pub open spec fn popped(oc: Cpu, nc: Cpu) -> bool {
    &&& nc.regs@ == oc.regs@.update(4, oc.regs@[4].wrapping_add(2))
    &&& oc.same_but_regs(nc)
    &&& nc.flags == oc.flags
}

/// Push a word: SP -= 2, then write the word at SS:SP
pub fn push_word(cpu: &mut Cpu, mem: &mut MemoryBus, value: u16)
    requires
        old(mem).wf(),
    ensures
        pushed(*old(cpu), *old(mem), *final(cpu), *final(mem), value),
{
    let sp = cpu.read_reg16(4).wrapping_sub(2);
    cpu.write_reg16(4, sp);
    let ss = cpu.read_seg(2);
    cpu.write_mem16(mem, ss, sp, value);
}

/// Pop a word: read the word at SS:SP, then SP += 2
pub fn pop_word(cpu: &mut Cpu, mem: &MemoryBus) -> (r: u16)
    requires
        mem.wf(),
    ensures
        r == stack_top(*old(cpu), *mem),
        popped(*old(cpu), *final(cpu)),
{
    let sp = cpu.read_reg16(4);
    let ss = cpu.read_seg(2);
    let value = cpu.read_mem16(mem, ss, sp);
    cpu.write_reg16(4, sp.wrapping_add(2));
    value
}

/// A word pushed and then popped comes back, and SP returns to where it
/// was, provided both stack bytes lie in writable memory.
pub proof fn law_pop_after_push(oc: Cpu, om: MemoryBus, nc: Cpu, nm: MemoryBus, pc: Cpu, value: u16)
    requires
        pushed(oc, om, nc, nm, value),
        popped(nc, pc),
        is_writable(phys(oc.segments@[2], oc.regs@[4].wrapping_sub(2))),
        is_writable((phys(oc.segments@[2], oc.regs@[4].wrapping_sub(2)) + 1) as u32),
    ensures
        stack_top(nc, nm) == value,
        pc.regs@ == oc.regs@,
        pc.segments == oc.segments,
        pc.ip == oc.ip,
        pc.flags == oc.flags,
{
    let addr = phys(oc.segments@[2], oc.regs@[4].wrapping_sub(2));
    law_word_read_after_write(om, nm, addr, value, addr);
    assert(pc.regs@ =~= oc.regs@);
}

/// Effect of pushing the source operand
pub open spec fn push_operand_effect(oc: Cpu, om: MemoryBus, nc: Cpu, nm: MemoryBus, instr: DecodedInstruction) -> bool {
    pushed(oc, om, nc, nm, oc.read_op(om, instr.src))
}

/// Effect of popping a word into the destination operand (written after
/// SP has moved)
pub open spec fn pop_operand_effect(oc: Cpu, om: MemoryBus, nc: Cpu, nm: MemoryBus, instr: DecodedInstruction) -> bool {
    &&& nc.flags == oc.flags
    &&& nm.wf()
    &&& exists|mid: Cpu| #[trigger] popped(oc, mid) && Cpu::op_written(mid, om, nc, nm, instr.dst, stack_top(oc, om))
}

/// Push the source operand
fn push_operand(cpu: &mut Cpu, mem: &mut MemoryBus, instr: &DecodedInstruction)
    requires
        old(mem).wf(),
        operand_ok(instr.src),
    ensures
        push_operand_effect(*old(cpu), *old(mem), *final(cpu), *final(mem), *instr),
{
    let value = cpu.read_operand(mem, &instr.src);
    push_word(cpu, mem, value);
}

/// Pop into the destination operand
fn pop_operand(cpu: &mut Cpu, mem: &mut MemoryBus, instr: &DecodedInstruction)
    requires
        old(mem).wf(),
        operand_writable(instr.dst),
    ensures
        pop_operand_effect(*old(cpu), *old(mem), *final(cpu), *final(mem), *instr),
{
    let value = pop_word(cpu, mem);
    let ghost mid = *cpu;
    cpu.write_operand(mem, &instr.dst, value);
    assert(popped(*old(cpu), mid));
}

/// PUSH r16 (0x50-0x57)
pub fn push_r16(cpu: &mut Cpu, mem: &mut MemoryBus, instr: &DecodedInstruction)
    requires
        old(mem).wf(),
        operand_ok(instr.src),
    ensures
        push_operand_effect(*old(cpu), *old(mem), *final(cpu), *final(mem), *instr),
{
    push_operand(cpu, mem, instr);
}

/// PUSH r/m16 (0xFF /6)
pub fn push_rm16(cpu: &mut Cpu, mem: &mut MemoryBus, instr: &DecodedInstruction)
    requires
        old(mem).wf(),
        operand_ok(instr.src),
    ensures
        push_operand_effect(*old(cpu), *old(mem), *final(cpu), *final(mem), *instr),
{
    push_operand(cpu, mem, instr);
}

/// POP r16 (0x58-0x5F)
pub fn pop_r16(cpu: &mut Cpu, mem: &mut MemoryBus, instr: &DecodedInstruction)
    requires
        old(mem).wf(),
        operand_writable(instr.dst),
    ensures
        pop_operand_effect(*old(cpu), *old(mem), *final(cpu), *final(mem), *instr),
{
    pop_operand(cpu, mem, instr);
}

/// POP r/m16 (0x8F /0)
pub fn pop_rm16(cpu: &mut Cpu, mem: &mut MemoryBus, instr: &DecodedInstruction)
    requires
        old(mem).wf(),
        operand_writable(instr.dst),
    ensures
        pop_operand_effect(*old(cpu), *old(mem), *final(cpu), *final(mem), *instr),
{
    pop_operand(cpu, mem, instr);
}

/// PUSH Sreg (0x06, 0x0E, 0x16, 0x1E)
pub fn push_seg(cpu: &mut Cpu, mem: &mut MemoryBus, instr: &DecodedInstruction)
    requires
        old(mem).wf(),
        operand_ok(instr.src),
    ensures
        push_operand_effect(*old(cpu), *old(mem), *final(cpu), *final(mem), *instr),
{
    push_operand(cpu, mem, instr);
}

/// POP Sreg (0x07, 0x17, 0x1F)
pub fn pop_seg(cpu: &mut Cpu, mem: &mut MemoryBus, instr: &DecodedInstruction)
    requires
        old(mem).wf(),
        operand_writable(instr.dst),
    ensures
        pop_operand_effect(*old(cpu), *old(mem), *final(cpu), *final(mem), *instr),
{
    pop_operand(cpu, mem, instr);
}

} // verus!
