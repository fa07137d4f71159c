//! Flag instruction handlers (CLC, STC, CMC, CLI, STI, CLD, STD, PUSHF,
//! POPF, SAHF, LAHF)

use crate::cpu::decode::DecodedInstruction;
use crate::cpu::execute::stack::{pop_word, popped, push_word, pushed, stack_top};
use crate::cpu::state::{set_bit, with_reg_byte, Cpu};
use crate::memory::MemoryBus;
use vstd::prelude::*;

verus! {

/// Only flag `mask` changed, to `value`
pub open spec fn flag_set_effect(oc: Cpu, nc: Cpu, mask: u16, value: bool) -> bool {
    &&& nc.flags == set_bit(oc.flags, mask, value)
    &&& oc.same_but_flags(nc)
}

/// CLC - Clear Carry Flag (0xF8)
pub fn clc(cpu: &mut Cpu, _mem: &mut MemoryBus, _instr: &DecodedInstruction)
    ensures
        flag_set_effect(*old(cpu), *final(cpu), Cpu::CF, false),
        *final(_mem) == *old(_mem),
{
    cpu.set_flag(Cpu::CF, false);
}

/// STC - Set Carry Flag (0xF9)
pub fn stc(cpu: &mut Cpu, _mem: &mut MemoryBus, _instr: &DecodedInstruction)
    ensures
        flag_set_effect(*old(cpu), *final(cpu), Cpu::CF, true),
        *final(_mem) == *old(_mem),
{
    cpu.set_flag(Cpu::CF, true);
}

/// CMC - Complement Carry Flag (0xF5)
pub fn cmc(cpu: &mut Cpu, _mem: &mut MemoryBus, _instr: &DecodedInstruction)
    ensures
        flag_set_effect(*old(cpu), *final(cpu), Cpu::CF, !old(cpu).flag(Cpu::CF)),
        *final(_mem) == *old(_mem),
{
    let current_cf = cpu.get_flag(Cpu::CF);
    cpu.set_flag(Cpu::CF, !current_cf);
}

/// CLI - Clear Interrupt Flag (0xFA)
pub fn cli(cpu: &mut Cpu, _mem: &mut MemoryBus, _instr: &DecodedInstruction)
    ensures
        flag_set_effect(*old(cpu), *final(cpu), Cpu::IF, false),
        *final(_mem) == *old(_mem),
{
    cpu.set_flag(Cpu::IF, false);
}

/// Effect of STI: IF set, and the interrupt delay armed when IF was clear
pub open spec fn sti_effect(oc: Cpu, nc: Cpu) -> bool {
    &&& nc.flags == set_bit(oc.flags, Cpu::IF, true)
    &&& nc.interrupt_delay == (oc.interrupt_delay || !oc.flag(Cpu::IF))
    &&& nc.regs == oc.regs
    &&& nc.segments == oc.segments
    &&& nc.ip == oc.ip
    &&& oc.same_aux(Cpu { interrupt_delay: oc.interrupt_delay, ..nc })
}

/// STI - Set Interrupt Flag (0xFB); when interrupts were disabled, they
/// stay blocked for one more instruction.
pub fn sti(cpu: &mut Cpu, _mem: &mut MemoryBus, _instr: &DecodedInstruction)
    ensures
        sti_effect(*old(cpu), *final(cpu)),
        *final(_mem) == *old(_mem),
{
    let was_disabled = !cpu.get_flag(Cpu::IF);
    cpu.set_flag(Cpu::IF, true);
    if was_disabled {
        cpu.interrupt_delay = true;
    }
}

/// CLD - Clear Direction Flag (0xFC)
pub fn cld(cpu: &mut Cpu, _mem: &mut MemoryBus, _instr: &DecodedInstruction)
    ensures
        flag_set_effect(*old(cpu), *final(cpu), Cpu::DF, false),
        *final(_mem) == *old(_mem),
{
    cpu.set_flag(Cpu::DF, false);
}

/// STD - Set Direction Flag (0xFD)
pub fn std_(cpu: &mut Cpu, _mem: &mut MemoryBus, _instr: &DecodedInstruction)
    ensures
        flag_set_effect(*old(cpu), *final(cpu), Cpu::DF, true),
        *final(_mem) == *old(_mem),
{
    cpu.set_flag(Cpu::DF, true);
}

/// PUSHF - Push FLAGS register (0x9C)
pub fn pushf(cpu: &mut Cpu, mem: &mut MemoryBus, _instr: &DecodedInstruction)
    requires
        old(mem).wf(),
    ensures
        pushed(*old(cpu), *old(mem), *final(cpu), *final(mem), old(cpu).flags),
{
    let flags = cpu.get_flags();
    push_word(cpu, mem, flags);
}

/// Effect of POPF
pub open spec fn popf_effect(oc: Cpu, om: MemoryBus, nc: Cpu, nm: MemoryBus) -> bool {
    &&& nc.regs@ =~= oc.regs@.update(4, oc.regs@[4].wrapping_add(2))
    &&& oc.same_but_regs(nc)
    &&& nc.flags == stack_top(oc, om) | 0x0002
    &&& nm == om
}

/// POPF - Pop FLAGS register (0x9D); bit 1 always reads as set
pub fn popf(cpu: &mut Cpu, mem: &mut MemoryBus, _instr: &DecodedInstruction)
    requires
        old(mem).wf(),
    ensures
        popf_effect(*old(cpu), *old(mem), *final(cpu), *final(mem)),
{
    let flags = pop_word(cpu, mem);
    cpu.set_flags(flags);
}

/// Effect of SAHF
pub open spec fn sahf_effect(oc: Cpu, nc: Cpu) -> bool {
    &&& nc.flags == ((oc.flags & 0xFF00) | (oc.reg8(4) as u16) | 0x0002) | 0x0002
    &&& oc.same_but_flags(nc)
}

/// SAHF - Store AH into the low byte of FLAGS (0x9E)
pub fn sahf(cpu: &mut Cpu, _mem: &mut MemoryBus, _instr: &DecodedInstruction)
    ensures
        sahf_effect(*old(cpu), *final(cpu)),
        *final(_mem) == *old(_mem),
{
    let ah = cpu.read_reg8(4);
    let current_flags = cpu.get_flags();
    let high_flags = current_flags & 0xFF00;
    let new_flags = high_flags | (ah as u16) | 0x0002;
    cpu.set_flags(new_flags);
}

/// Effect of LAHF
pub open spec fn lahf_effect(oc: Cpu, nc: Cpu) -> bool {
    &&& nc.regs@ =~= oc.regs@.update(0, with_reg_byte(oc.regs@[0], true, (oc.flags & 0xFF) as u8))
    &&& oc.same_but_regs(nc)
    &&& nc.flags == oc.flags
}

/// LAHF - Load AH from the low byte of FLAGS (0x9F)
pub fn lahf(cpu: &mut Cpu, _mem: &mut MemoryBus, _instr: &DecodedInstruction)
    ensures
        lahf_effect(*old(cpu), *final(cpu)),
        *final(_mem) == *old(_mem),
{
    let flags = cpu.get_flags();
    let low_byte = (flags & 0xFF) as u8;
    cpu.write_reg8(4, low_byte);
}

} // verus!
