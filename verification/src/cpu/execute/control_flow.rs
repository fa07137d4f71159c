//! Control flow instruction handlers (JMP, Jcc, CALL, RET, LOOP, INT, IRET)

use crate::cpu::decode::{DecodedInstruction, OperandType};
use crate::cpu::execute::arithmetic::{incdec_effect, instr_ok, group_reg};
use crate::cpu::execute::stack::{
    pop_word, popped, push_operand_effect, push_word, pushed, stack_top,
};
use crate::cpu::state::{law_flag_read_after_write, lemma_flag_masks_disjoint, operand_ok, operand_writable, phys, set_bit, Cpu};
use crate::memory::{is_writable, law_word_read_after_write, MemoryBus};
use vstd::prelude::*;

verus! {

/// IP after a relative jump by the offset in the source operand
pub open spec fn jump_target(oc: Cpu, instr: DecodedInstruction) -> u16 {
    oc.ip.wrapping_add((instr.src.value as i16) as u16)
}

/// Effect of a relative jump that is `taken` or not
pub open spec fn jump_effect(oc: Cpu, nc: Cpu, instr: DecodedInstruction, taken: bool) -> bool {
    nc == (if taken {
        Cpu { ip: jump_target(oc, instr), ..oc }
    } else {
        oc
    })
}

/// `nc` is `m` with CS:IP set to `cs:ip`
pub open spec fn far_jumped(m: Cpu, nc: Cpu, cs: u16, ip: u16) -> bool {
    &&& nc.segments@ == m.segments@.update(1, cs)
    &&& nc.regs == m.regs
    &&& nc.ip == ip
    &&& nc.flags == m.flags
    &&& m.same_aux(nc)
}

/// Add the source operand's offset to IP
fn relative_jump(cpu: &mut Cpu, instr: &DecodedInstruction)
    ensures
        *final(cpu) == (Cpu { ip: jump_target(*old(cpu), *instr), ..*old(cpu) }),
{
    let offset = instr.src.value as i16;
    cpu.ip = cpu.ip.wrapping_add(offset as u16);
}

/// JMP short (0xEB)
pub fn jmp_short(cpu: &mut Cpu, _mem: &mut MemoryBus, instr: &DecodedInstruction)
    ensures
        jump_effect(*old(cpu), *final(cpu), *instr, true),
        *final(_mem) == *old(_mem),
{
    relative_jump(cpu, instr);
}

/// JMP near (0xE9)
pub fn jmp_near(cpu: &mut Cpu, _mem: &mut MemoryBus, instr: &DecodedInstruction)
    ensures
        jump_effect(*old(cpu), *final(cpu), *instr, true),
        *final(_mem) == *old(_mem),
{
    relative_jump(cpu, instr);
}

/// JZ/JE - jump if zero (0x74)
pub fn jz(cpu: &mut Cpu, _mem: &mut MemoryBus, instr: &DecodedInstruction)
    ensures
        jump_effect(*old(cpu), *final(cpu), *instr, old(cpu).flag(Cpu::ZF)),
        *final(_mem) == *old(_mem),
{
    if cpu.get_flag(Cpu::ZF) {
        relative_jump(cpu, instr);
    }
}

/// JNZ/JNE - jump if not zero (0x75)
pub fn jnz(cpu: &mut Cpu, _mem: &mut MemoryBus, instr: &DecodedInstruction)
    ensures
        jump_effect(*old(cpu), *final(cpu), *instr, !old(cpu).flag(Cpu::ZF)),
        *final(_mem) == *old(_mem),
{
    if !cpu.get_flag(Cpu::ZF) {
        relative_jump(cpu, instr);
    }
}

/// JS - jump if sign (0x78)
pub fn js(cpu: &mut Cpu, _mem: &mut MemoryBus, instr: &DecodedInstruction)
    ensures
        jump_effect(*old(cpu), *final(cpu), *instr, old(cpu).flag(Cpu::SF)),
        *final(_mem) == *old(_mem),
{
    if cpu.get_flag(Cpu::SF) {
        relative_jump(cpu, instr);
    }
}

/// JNS - jump if not sign (0x79)
pub fn jns(cpu: &mut Cpu, _mem: &mut MemoryBus, instr: &DecodedInstruction)
    ensures
        jump_effect(*old(cpu), *final(cpu), *instr, !old(cpu).flag(Cpu::SF)),
        *final(_mem) == *old(_mem),
{
    if !cpu.get_flag(Cpu::SF) {
        relative_jump(cpu, instr);
    }
}

/// JC/JB/JNAE - jump if carry (0x72)
pub fn jc(cpu: &mut Cpu, _mem: &mut MemoryBus, instr: &DecodedInstruction)
    ensures
        jump_effect(*old(cpu), *final(cpu), *instr, old(cpu).flag(Cpu::CF)),
        *final(_mem) == *old(_mem),
{
    if cpu.get_flag(Cpu::CF) {
        relative_jump(cpu, instr);
    }
}

/// JNC/JAE/JNB - jump if not carry (0x73)
pub fn jnc(cpu: &mut Cpu, _mem: &mut MemoryBus, instr: &DecodedInstruction)
    ensures
        jump_effect(*old(cpu), *final(cpu), *instr, !old(cpu).flag(Cpu::CF)),
        *final(_mem) == *old(_mem),
{
    if !cpu.get_flag(Cpu::CF) {
        relative_jump(cpu, instr);
    }
}

/// JO - jump if overflow (0x70)
pub fn jo(cpu: &mut Cpu, _mem: &mut MemoryBus, instr: &DecodedInstruction)
    ensures
        jump_effect(*old(cpu), *final(cpu), *instr, old(cpu).flag(Cpu::OF)),
        *final(_mem) == *old(_mem),
{
    if cpu.get_flag(Cpu::OF) {
        relative_jump(cpu, instr);
    }
}

/// JNO - jump if not overflow (0x71)
pub fn jno(cpu: &mut Cpu, _mem: &mut MemoryBus, instr: &DecodedInstruction)
    ensures
        jump_effect(*old(cpu), *final(cpu), *instr, !old(cpu).flag(Cpu::OF)),
        *final(_mem) == *old(_mem),
{
    if !cpu.get_flag(Cpu::OF) {
        relative_jump(cpu, instr);
    }
}

/// JBE/JNA - jump if below or equal (0x76)
pub fn jbe(cpu: &mut Cpu, _mem: &mut MemoryBus, instr: &DecodedInstruction)
    ensures
        jump_effect(*old(cpu), *final(cpu), *instr, old(cpu).flag(Cpu::CF) || old(cpu).flag(Cpu::ZF)),
        *final(_mem) == *old(_mem),
{
    if cpu.get_flag(Cpu::CF) || cpu.get_flag(Cpu::ZF) {
        relative_jump(cpu, instr);
    }
}

/// JA/JNBE - jump if above (0x77)
pub fn ja(cpu: &mut Cpu, _mem: &mut MemoryBus, instr: &DecodedInstruction)
    ensures
        jump_effect(*old(cpu), *final(cpu), *instr, !old(cpu).flag(Cpu::CF) && !old(cpu).flag(Cpu::ZF)),
        *final(_mem) == *old(_mem),
{
    if !cpu.get_flag(Cpu::CF) && !cpu.get_flag(Cpu::ZF) {
        relative_jump(cpu, instr);
    }
}

/// JP/JPE - jump if parity even (0x7A)
pub fn jp(cpu: &mut Cpu, _mem: &mut MemoryBus, instr: &DecodedInstruction)
    ensures
        jump_effect(*old(cpu), *final(cpu), *instr, old(cpu).flag(Cpu::PF)),
        *final(_mem) == *old(_mem),
{
    if cpu.get_flag(Cpu::PF) {
        relative_jump(cpu, instr);
    }
}

/// JNP/JPO - jump if parity odd (0x7B)
pub fn jnp(cpu: &mut Cpu, _mem: &mut MemoryBus, instr: &DecodedInstruction)
    ensures
        jump_effect(*old(cpu), *final(cpu), *instr, !old(cpu).flag(Cpu::PF)),
        *final(_mem) == *old(_mem),
{
    if !cpu.get_flag(Cpu::PF) {
        relative_jump(cpu, instr);
    }
}

/// JL/JNGE - jump if less (0x7C)
pub fn jl(cpu: &mut Cpu, _mem: &mut MemoryBus, instr: &DecodedInstruction)
    ensures
        jump_effect(*old(cpu), *final(cpu), *instr, old(cpu).flag(Cpu::SF) != old(cpu).flag(Cpu::OF)),
        *final(_mem) == *old(_mem),
{
    if cpu.get_flag(Cpu::SF) != cpu.get_flag(Cpu::OF) {
        relative_jump(cpu, instr);
    }
}

/// JGE/JNL - jump if greater or equal (0x7D)
pub fn jge(cpu: &mut Cpu, _mem: &mut MemoryBus, instr: &DecodedInstruction)
    ensures
        jump_effect(*old(cpu), *final(cpu), *instr, old(cpu).flag(Cpu::SF) == old(cpu).flag(Cpu::OF)),
        *final(_mem) == *old(_mem),
{
    if cpu.get_flag(Cpu::SF) == cpu.get_flag(Cpu::OF) {
        relative_jump(cpu, instr);
    }
}

/// JLE/JNG - jump if less or equal (0x7E)
pub fn jle(cpu: &mut Cpu, _mem: &mut MemoryBus, instr: &DecodedInstruction)
    ensures
        jump_effect(*old(cpu), *final(cpu), *instr, old(cpu).flag(Cpu::ZF) || (old(cpu).flag(Cpu::SF) != old(cpu).flag(Cpu::OF))),
        *final(_mem) == *old(_mem),
{
    if cpu.get_flag(Cpu::ZF) || (cpu.get_flag(Cpu::SF) != cpu.get_flag(Cpu::OF)) {
        relative_jump(cpu, instr);
    }
}

/// JG/JNLE - jump if greater (0x7F)
pub fn jg(cpu: &mut Cpu, _mem: &mut MemoryBus, instr: &DecodedInstruction)
    ensures
        jump_effect(*old(cpu), *final(cpu), *instr, !old(cpu).flag(Cpu::ZF) && (old(cpu).flag(Cpu::SF) == old(cpu).flag(Cpu::OF))),
        *final(_mem) == *old(_mem),
{
    if !cpu.get_flag(Cpu::ZF) && (cpu.get_flag(Cpu::SF) == cpu.get_flag(Cpu::OF)) {
        relative_jump(cpu, instr);
    }
}


/// Effect of a near call: the return address is pushed and IP becomes `target`
pub open spec fn call_effect(oc: Cpu, om: MemoryBus, nc: Cpu, nm: MemoryBus, ret: u16, target: u16) -> bool {
    exists|mid: Cpu| #[trigger] pushed(oc, om, mid, nm, ret) && nc == (Cpu { ip: target, ..mid })
}

/// Effect of a far call: CS then IP are pushed and CS:IP becomes `cs:ip`
pub open spec fn far_call_effect(oc: Cpu, om: MemoryBus, nc: Cpu, nm: MemoryBus, cs: u16, ip: u16) -> bool {
    exists|m1: Cpu, mm1: MemoryBus, m2: Cpu|
        #[trigger] pushed(oc, om, m1, mm1, oc.segments@[1]) && #[trigger] pushed(m1, mm1, m2, nm, oc.ip)
            && far_jumped(m2, nc, cs, ip)
}

/// CALL near (0xE8): push IP, then add the source's offset to IP
pub fn call_near(cpu: &mut Cpu, mem: &mut MemoryBus, instr: &DecodedInstruction)
    requires
        old(mem).wf(),
    ensures
        call_effect(*old(cpu), *old(mem), *final(cpu), *final(mem), old(cpu).ip, jump_target(*old(cpu), *instr)),
        final(mem).wf(),
{
    let return_addr = cpu.ip;
    push_word(cpu, mem, return_addr);
    let ghost mid = *cpu;
    let offset = instr.src.value as i16;
    cpu.ip = cpu.ip.wrapping_add(offset as u16);
    assert(pushed(*old(cpu), *old(mem), mid, *mem, return_addr));
}

/// Push CS and IP, then jump to `new_cs:new_ip`
fn far_call(cpu: &mut Cpu, mem: &mut MemoryBus, new_cs: u16, new_ip: u16)
    requires
        old(mem).wf(),
    ensures
        far_call_effect(*old(cpu), *old(mem), *final(cpu), *final(mem), new_cs, new_ip),
        final(mem).wf(),
{
    let return_cs = cpu.read_seg(1);
    let return_ip = cpu.ip;
    push_word(cpu, mem, return_cs);
    let ghost m1 = *cpu;
    let ghost mm1 = *mem;
    push_word(cpu, mem, return_ip);
    let ghost m2 = *cpu;
    cpu.write_seg(1, new_cs);
    cpu.ip = new_ip;
    assert(pushed(*old(cpu), *old(mem), m1, mm1, old(cpu).segments@[1]));
    assert(pushed(m1, mm1, m2, *mem, old(cpu).ip));
}

/// CALL far (0x9A): push CS and IP, then CS:IP = dst:src immediates
pub fn call_far(cpu: &mut Cpu, mem: &mut MemoryBus, instr: &DecodedInstruction)
    requires
        old(mem).wf(),
    ensures
        far_call_effect(*old(cpu), *old(mem), *final(cpu), *final(mem), instr.dst.value, instr.src.value),
        final(mem).wf(),
{
    far_call(cpu, mem, instr.dst.value, instr.src.value);
}

/// CALL r/m16 (0xFF /2): push IP, then IP = the destination's value
pub fn call_rm16(cpu: &mut Cpu, mem: &mut MemoryBus, instr: &DecodedInstruction)
    requires
        old(mem).wf(),
        operand_ok(instr.dst),
    ensures
        call_effect(*old(cpu), *old(mem), *final(cpu), *final(mem), old(cpu).ip, old(cpu).read_op(*old(mem), instr.dst)),
        final(mem).wf(),
{
    let target = cpu.read_operand(mem, &instr.dst);
    let return_addr = cpu.ip;
    push_word(cpu, mem, return_addr);
    let ghost mid = *cpu;
    cpu.ip = target;
    assert(pushed(*old(cpu), *old(mem), mid, *mem, return_addr));
}

/// Whether a far indirect transfer's operand is a 16-bit memory operand
pub open spec fn far_pointer_ok(instr: DecodedInstruction) -> bool {
    instr.dst.op_type == OperandType::Mem16 && operand_ok(instr.dst)
}

/// Segment and offset of the far pointer in memory operand `dst`
pub open spec fn far_pointer_location(oc: Cpu, instr: DecodedInstruction) -> (u16, u16) {
    (oc.operand_segment(instr.dst), oc.ea(instr.dst.value as u8, instr.dst.disp as u16).1)
}

/// The offset word of the far pointer in memory operand `dst`
pub open spec fn far_pointer_ip(oc: Cpu, om: MemoryBus, instr: DecodedInstruction) -> u16 {
    let (s, o) = far_pointer_location(oc, instr);
    om.word(phys(s, o))
}

/// The segment word of the far pointer in memory operand `dst`
pub open spec fn far_pointer_cs(oc: Cpu, om: MemoryBus, instr: DecodedInstruction) -> u16 {
    let (s, o) = far_pointer_location(oc, instr);
    om.word(phys(s, o.wrapping_add(2)))
}

/// Read the far pointer (offset, segment) in the destination memory operand
fn read_far_pointer(cpu: &Cpu, mem: &MemoryBus, instr: &DecodedInstruction) -> (r: (u16, u16))
    requires
        mem.wf(),
        far_pointer_ok(*instr),
    ensures
        r == (far_pointer_ip(*cpu, *mem, *instr), far_pointer_cs(*cpu, *mem, *instr)),
{
    let base_index = instr.dst.value as u8;
    let (seg_idx, ea) = cpu.calculate_ea_from_operand(&instr.dst, base_index);
    let segment = if instr.dst.segment != 0xFF {
        cpu.read_seg(instr.dst.segment)
    } else {
        cpu.segments[seg_idx as usize]
    };
    let new_ip = cpu.read_mem16(mem, segment, ea);
    let new_cs = cpu.read_mem16(mem, segment, ea.wrapping_add(2));
    (new_ip, new_cs)
}

/// CALL m16:16 (0xFF /3): push CS and IP, then load CS:IP from memory
pub fn call_m16_16(cpu: &mut Cpu, mem: &mut MemoryBus, instr: &DecodedInstruction)
    requires
        old(mem).wf(),
        far_pointer_ok(*instr),
    ensures
        far_call_effect(*old(cpu), *old(mem), *final(cpu), *final(mem),
            far_pointer_cs(*old(cpu), *old(mem), *instr), far_pointer_ip(*old(cpu), *old(mem), *instr)),
        final(mem).wf(),
{
    let (new_ip, new_cs) = read_far_pointer(cpu, mem, instr);
    far_call(cpu, mem, new_cs, new_ip);
}

/// JMP far (0xEA): CS:IP = dst:src immediates
pub fn jmp_far(cpu: &mut Cpu, _mem: &mut MemoryBus, instr: &DecodedInstruction)
    ensures
        far_jumped(*old(cpu), *final(cpu), instr.dst.value, instr.src.value),
        *final(_mem) == *old(_mem),
{
    cpu.write_seg(1, instr.dst.value);
    cpu.ip = instr.src.value;
}

/// JMP r/m16 (0xFF /4): IP = the destination's value
pub fn jmp_rm16(cpu: &mut Cpu, mem: &mut MemoryBus, instr: &DecodedInstruction)
    requires
        old(mem).wf(),
        operand_ok(instr.dst),
    ensures
        *final(cpu) == (Cpu { ip: old(cpu).read_op(*old(mem), instr.dst), ..*old(cpu) }),
        *final(mem) == *old(mem),
{
    let target = cpu.read_operand(mem, &instr.dst);
    cpu.ip = target;
}

/// JMP m16:16 (0xFF /5): load CS:IP from memory
pub fn jmp_m16_16(cpu: &mut Cpu, mem: &mut MemoryBus, instr: &DecodedInstruction)
    requires
        old(mem).wf(),
        far_pointer_ok(*instr),
    ensures
        far_jumped(*old(cpu), *final(cpu), far_pointer_cs(*old(cpu), *old(mem), *instr), far_pointer_ip(*old(cpu), *old(mem), *instr)),
        *final(mem) == *old(mem),
{
    let (new_ip, new_cs) = read_far_pointer(cpu, mem, instr);
    cpu.write_seg(1, new_cs);
    cpu.ip = new_ip;
}

/// Whether a 0xFF group instruction can run: a defined reg field, and a
/// memory operand for the far forms
pub open spec fn group_ff_ok(instr: DecodedInstruction) -> bool {
    let reg = group_reg(instr);
    &&& reg < 7
    &&& (reg == 3 || reg == 5) ==> far_pointer_ok(instr)
}

/// Effect of a 0xFF group instruction selected by the reg field
pub open spec fn group_ff_effect(oc: Cpu, om: MemoryBus, nc: Cpu, nm: MemoryBus, instr: DecodedInstruction) -> bool {
    let reg = group_reg(instr);
    if reg == 0 {
        incdec_effect(oc, om, nc, nm, instr, true, crate::cpu::state::is_byte_operand(instr.dst))
    } else if reg == 1 {
        incdec_effect(oc, om, nc, nm, instr, false, crate::cpu::state::is_byte_operand(instr.dst))
    } else if reg == 2 {
        call_effect(oc, om, nc, nm, oc.ip, oc.read_op(om, instr.dst))
    } else if reg == 3 {
        far_call_effect(oc, om, nc, nm, far_pointer_cs(oc, om, instr), far_pointer_ip(oc, om, instr))
    } else if reg == 4 {
        nc == (Cpu { ip: oc.read_op(om, instr.dst), ..oc }) && nm == om
    } else if reg == 5 {
        far_jumped(oc, nc, far_pointer_cs(oc, om, instr), far_pointer_ip(oc, om, instr)) && nm == om
    } else {
        push_operand_effect(oc, om, nc, nm, instr)
    }
}

/// Group 0xFF: INC/DEC/CALL/JMP/PUSH r/m16
pub fn group_ff(cpu: &mut Cpu, mem: &mut MemoryBus, instr: &DecodedInstruction)
    requires
        old(mem).wf(),
        instr_ok(*instr),
        group_ff_ok(*instr),
    ensures
        group_ff_effect(*old(cpu), *old(mem), *final(cpu), *final(mem), *instr),
        final(mem).wf(),
{
    let reg = instr.dst.value >> 8;
    match reg {
        0 => crate::cpu::execute::arithmetic::inc_rm(cpu, mem, instr),
        1 => crate::cpu::execute::arithmetic::dec_rm(cpu, mem, instr),
        2 => call_rm16(cpu, mem, instr),
        3 => call_m16_16(cpu, mem, instr),
        4 => jmp_rm16(cpu, mem, instr),
        5 => jmp_m16_16(cpu, mem, instr),
        _ => crate::cpu::execute::stack::push_rm16(cpu, mem, instr),
    }
}

/// Effect of RET near with `cleanup` bytes released: IP = pop, SP += cleanup
pub open spec fn ret_near_effect(oc: Cpu, om: MemoryBus, nc: Cpu, nm: MemoryBus, cleanup: u16) -> bool {
    &&& nc.ip == stack_top(oc, om)
    &&& nc.regs@ =~= oc.regs@.update(4, oc.regs@[4].wrapping_add(2).wrapping_add(cleanup))
    &&& nc.segments == oc.segments
    &&& nc.flags == oc.flags
    &&& oc.same_aux(nc)
    &&& nm == om
}

/// Effect of RET far with `cleanup` bytes released: IP = pop, CS = pop, SP += cleanup
pub open spec fn ret_far_effect(oc: Cpu, om: MemoryBus, nc: Cpu, nm: MemoryBus, cleanup: u16) -> bool {
    &&& nc.ip == stack_top(oc, om)
    &&& nc.segments@ =~= oc.segments@.update(1, stack_second(oc, om))
    &&& nc.regs@ =~= oc.regs@.update(4, oc.regs@[4].wrapping_add(2).wrapping_add(2).wrapping_add(cleanup))
    &&& nc.flags == oc.flags
    &&& oc.same_aux(nc)
    &&& nm == om
}

/// RET near (0xC3): IP = pop
pub fn ret_near(cpu: &mut Cpu, mem: &mut MemoryBus, _instr: &DecodedInstruction)
    requires
        old(mem).wf(),
    ensures
        ret_near_effect(*old(cpu), *old(mem), *final(cpu), *final(mem), 0),
{
    cpu.ip = pop_word(cpu, mem);
    assert(old(cpu).regs@[4].wrapping_add(2).wrapping_add(0) == old(cpu).regs@[4].wrapping_add(2));
}

/// RET near imm16 (0xC2): IP = pop, then SP += imm16
pub fn ret_near_imm(cpu: &mut Cpu, mem: &mut MemoryBus, instr: &DecodedInstruction)
    requires
        old(mem).wf(),
    ensures
        ret_near_effect(*old(cpu), *old(mem), *final(cpu), *final(mem), instr.src.value),
{
    cpu.ip = pop_word(cpu, mem);
    let cleanup = instr.src.value;
    cpu.regs[4] = cpu.regs[4].wrapping_add(cleanup);
}

/// The word one slot above the top of the stack
pub open spec fn stack_second(c: Cpu, mem: MemoryBus) -> u16 {
    mem.word(phys(c.segments@[2], c.regs@[4].wrapping_add(2)))
}

/// The word two slots above the top of the stack
pub open spec fn stack_third(c: Cpu, mem: MemoryBus) -> u16 {
    mem.word(phys(c.segments@[2], c.regs@[4].wrapping_add(2).wrapping_add(2)))
}

/// RET far (0xCB): IP = pop, CS = pop
pub fn ret_far(cpu: &mut Cpu, mem: &mut MemoryBus, _instr: &DecodedInstruction)
    requires
        old(mem).wf(),
    ensures
        ret_far_effect(*old(cpu), *old(mem), *final(cpu), *final(mem), 0),
{
    cpu.ip = pop_word(cpu, mem);
    let new_cs = pop_word(cpu, mem);
    cpu.write_seg(1, new_cs);
    assert(old(cpu).regs@[4].wrapping_add(2).wrapping_add(2).wrapping_add(0) == old(cpu).regs@[4].wrapping_add(2).wrapping_add(2));
}

/// RETF imm16 (0xCA): IP = pop, CS = pop, then SP += imm16
pub fn ret_far_imm(cpu: &mut Cpu, mem: &mut MemoryBus, instr: &DecodedInstruction)
    requires
        old(mem).wf(),
    ensures
        ret_far_effect(*old(cpu), *old(mem), *final(cpu), *final(mem), instr.src.value),
{
    cpu.ip = pop_word(cpu, mem);
    let new_cs = pop_word(cpu, mem);
    cpu.write_seg(1, new_cs);
    let cleanup = instr.src.value;
    cpu.regs[4] = cpu.regs[4].wrapping_add(cleanup);
}

/// Effect of LOOP/LOOPE/LOOPNE: CX is decremented, and the relative jump
/// is taken when CX is still nonzero and the `cond` on the flags holds.
pub open spec fn loop_effect(oc: Cpu, nc: Cpu, instr: DecodedInstruction, cond: bool) -> bool {
    let cx = oc.regs@[1].wrapping_sub(1);
    &&& nc.regs@ == oc.regs@.update(1, cx)
    &&& nc.segments == oc.segments
    &&& nc.flags == oc.flags
    &&& oc.same_aux(nc)
    &&& nc.ip == (if cx != 0 && cond {
        jump_target(oc, instr)
    } else {
        oc.ip
    })
}

/// LOOP rel8 (0xE2): decrement CX, jump if CX != 0
pub fn loop_rel8(cpu: &mut Cpu, _mem: &mut MemoryBus, instr: &DecodedInstruction)
    ensures
        loop_effect(*old(cpu), *final(cpu), *instr, true),
        *final(_mem) == *old(_mem),
{
    cpu.regs[1] = cpu.regs[1].wrapping_sub(1);
    if cpu.regs[1] != 0 {
        relative_jump(cpu, instr);
    }
}

/// LOOPE/LOOPZ rel8 (0xE1): decrement CX, jump if CX != 0 and ZF = 1
pub fn loope(cpu: &mut Cpu, _mem: &mut MemoryBus, instr: &DecodedInstruction)
    ensures
        loop_effect(*old(cpu), *final(cpu), *instr, old(cpu).flag(Cpu::ZF)),
        *final(_mem) == *old(_mem),
{
    cpu.regs[1] = cpu.regs[1].wrapping_sub(1);
    if cpu.regs[1] != 0 && cpu.get_flag(Cpu::ZF) {
        relative_jump(cpu, instr);
    }
}

/// LOOPNE/LOOPNZ rel8 (0xE0): decrement CX, jump if CX != 0 and ZF = 0
pub fn loopne(cpu: &mut Cpu, _mem: &mut MemoryBus, instr: &DecodedInstruction)
    ensures
        loop_effect(*old(cpu), *final(cpu), *instr, !old(cpu).flag(Cpu::ZF)),
        *final(_mem) == *old(_mem),
{
    cpu.regs[1] = cpu.regs[1].wrapping_sub(1);
    if cpu.regs[1] != 0 && !cpu.get_flag(Cpu::ZF) {
        relative_jump(cpu, instr);
    }
}

/// JCXZ rel8 (0xE3): jump if CX = 0
pub fn jcxz(cpu: &mut Cpu, _mem: &mut MemoryBus, instr: &DecodedInstruction)
    ensures
        jump_effect(*old(cpu), *final(cpu), *instr, old(cpu).regs@[1] == 0),
        *final(_mem) == *old(_mem),
{
    if cpu.regs[1] == 0 {
        relative_jump(cpu, instr);
    }
}

/// Effect of entering interrupt `vector`: FLAGS, CS and IP are pushed (TF
/// and IF cleared after FLAGS is pushed), then CS:IP is loaded from the
/// interrupt vector table entry at `vector * 4`.
pub open spec fn interrupt_effect(oc: Cpu, om: MemoryBus, nc: Cpu, nm: MemoryBus, vector: u8) -> bool {
    exists|m1: Cpu, mm1: MemoryBus, m2: Cpu, mm2: MemoryBus, m3: Cpu|
        #[trigger] pushed(oc, om, m1, mm1, oc.flags) && #[trigger] pushed(
            Cpu { flags: set_bit(set_bit(m1.flags, Cpu::TF, false), Cpu::IF, false), ..m1 },
            mm1,
            m2,
            mm2,
            oc.segments@[1],
        ) && #[trigger] pushed(m2, mm2, m3, nm, oc.ip) && far_jumped(
            m3,
            nc,
            nm.word((vector as u32 * 4 + 2) as u32),
            nm.word((vector as u32 * 4) as u32),
        )
}

/// Enter interrupt `vector` through the interrupt vector table
pub(crate) fn enter_interrupt(cpu: &mut Cpu, mem: &mut MemoryBus, vector: u8)
    requires
        old(mem).wf(),
    ensures
        interrupt_effect(*old(cpu), *old(mem), *final(cpu), *final(mem), vector),
        final(mem).wf(),
{
    let flags = cpu.get_flags();
    push_word(cpu, mem, flags);
    let ghost m1 = *cpu;
    let ghost mm1 = *mem;
    cpu.set_flag(Cpu::TF, false);
    cpu.set_flag(Cpu::IF, false);
    let ghost m1b = *cpu;
    let return_cs = cpu.read_seg(1);
    push_word(cpu, mem, return_cs);
    let ghost m2 = *cpu;
    let ghost mm2 = *mem;
    let return_ip = cpu.ip;
    push_word(cpu, mem, return_ip);
    let ghost m3 = *cpu;
    let ivt_addr = (vector as u32) * 4;
    let new_ip = mem.read_u16(ivt_addr);
    let new_cs = mem.read_u16(ivt_addr + 2);
    cpu.write_seg(1, new_cs);
    cpu.ip = new_ip;
    assert(m1b == Cpu { flags: set_bit(set_bit(m1.flags, Cpu::TF, false), Cpu::IF, false), ..m1 });
    assert(pushed(*old(cpu), *old(mem), m1, mm1, old(cpu).flags));
    assert(pushed(m1b, mm1, m2, mm2, old(cpu).segments@[1]));
    assert(pushed(m2, mm2, m3, *mem, old(cpu).ip));
}

/// INT imm8 (0xCD): the vector is the low byte of the source operand
pub fn int_n(cpu: &mut Cpu, mem: &mut MemoryBus, instr: &DecodedInstruction)
    requires
        old(mem).wf(),
    ensures
        interrupt_effect(*old(cpu), *old(mem), *final(cpu), *final(mem), instr.src.value as u8),
        final(mem).wf(),
{
    let int_num = instr.src.value as u8;
    enter_interrupt(cpu, mem, int_num);
}

/// INT 3 (0xCC): breakpoint interrupt
pub fn int3(cpu: &mut Cpu, mem: &mut MemoryBus, _instr: &DecodedInstruction)
    requires
        old(mem).wf(),
    ensures
        interrupt_effect(*old(cpu), *old(mem), *final(cpu), *final(mem), 3),
        final(mem).wf(),
{
    enter_interrupt(cpu, mem, 3);
}

/// Effect of IRET: IP, CS and FLAGS are popped (bit 1 of FLAGS set)
pub open spec fn iret_effect(oc: Cpu, om: MemoryBus, nc: Cpu, nm: MemoryBus) -> bool {
    &&& nc.ip == stack_top(oc, om)
    &&& nc.segments@ =~= oc.segments@.update(1, stack_second(oc, om))
    &&& nc.flags == stack_third(oc, om) | 0x0002
    &&& nc.regs@ =~= oc.regs@.update(4, oc.regs@[4].wrapping_add(2).wrapping_add(2).wrapping_add(2))
    &&& oc.same_aux(nc)
    &&& nm == om
}

/// IRET (0xCF): IP, CS and FLAGS are popped (bit 1 of FLAGS set)
pub fn iret(cpu: &mut Cpu, mem: &mut MemoryBus, _instr: &DecodedInstruction)
    requires
        old(mem).wf(),
    ensures
        iret_effect(*old(cpu), *old(mem), *final(cpu), *final(mem)),
{
    cpu.ip = pop_word(cpu, mem);
    let new_cs = pop_word(cpu, mem);
    cpu.write_seg(1, new_cs);
    let flags = pop_word(cpu, mem);
    cpu.set_flags(flags);
}

/// RET near returns from CALL near: IP is the return address the call
/// pushed, and SP, the other registers, the segments and the flags are as
/// before the call, provided both stack bytes lie in writable memory.
pub proof fn law_ret_undoes_call(
    c0: Cpu,
    m0: MemoryBus,
    c1: Cpu,
    m1: MemoryBus,
    c2: Cpu,
    m2: MemoryBus,
    ret: u16,
    target: u16,
)
    requires
        call_effect(c0, m0, c1, m1, ret, target),
        ret_near_effect(c1, m1, c2, m2, 0),
        is_writable(phys(c0.segments@[2], c0.regs@[4].wrapping_sub(2))),
        is_writable((phys(c0.segments@[2], c0.regs@[4].wrapping_sub(2)) + 1) as u32),
    ensures
        c2.ip == ret,
        c2.regs@ == c0.regs@,
        c2.segments == c0.segments,
        c2.flags == c0.flags,
{
    let mid = choose|mid: Cpu| #[trigger] pushed(c0, m0, mid, m1, ret) && c1 == (Cpu { ip: target, ..mid });
    let addr = phys(c0.segments@[2], c0.regs@[4].wrapping_sub(2));
    law_word_read_after_write(m0, m1, addr, ret, addr);
    assert(stack_top(c1, m1) == stack_top(mid, m1));
    assert(c0.regs@[4].wrapping_sub(2).wrapping_add(2).wrapping_add(0) == c0.regs@[4]);
    assert(c2.regs@ =~= c0.regs@);
}

/// Whether both bytes of the word at `addr` lie in writable memory
pub open spec fn word_writable(addr: u32) -> bool {
    is_writable(addr) && is_writable((addr + 1) as u32)
}

/// Entering interrupt `vector` leaves its frame on the stack, provided the
/// six stack bytes below SS:SP are writable: SP is six lower, the old IP is
/// at SS:SP, the old CS above it and the old FLAGS above that; CS:IP is
/// loaded from the vector table entry at `vector * 4`; TF and IF are clear
/// and every other register and flag is kept.
pub proof fn law_interrupt_frame(oc: Cpu, om: MemoryBus, nc: Cpu, nm: MemoryBus, vector: u8)
    requires
        interrupt_effect(oc, om, nc, nm, vector),
        word_writable(phys(oc.segments@[2], oc.regs@[4].wrapping_sub(2))),
        word_writable(phys(oc.segments@[2], oc.regs@[4].wrapping_sub(4))),
        word_writable(phys(oc.segments@[2], oc.regs@[4].wrapping_sub(6))),
    ensures
        nc.regs@ == oc.regs@.update(4, oc.regs@[4].wrapping_sub(6)),
        nm.word(phys(oc.segments@[2], oc.regs@[4].wrapping_sub(6))) == oc.ip,
        nm.word(phys(oc.segments@[2], oc.regs@[4].wrapping_sub(4))) == oc.segments@[1],
        nm.word(phys(oc.segments@[2], oc.regs@[4].wrapping_sub(2))) == oc.flags,
        nc.ip == nm.word((vector as u32 * 4) as u32),
        nc.segments@ == oc.segments@.update(1, nm.word((vector as u32 * 4 + 2) as u32)),
        nc.flags == set_bit(set_bit(oc.flags, Cpu::TF, false), Cpu::IF, false),
        !nc.flag(Cpu::TF),
        !nc.flag(Cpu::IF),
{
    let (m1, mm1, m2, mm2, m3) = choose|m1: Cpu, mm1: MemoryBus, m2: Cpu, mm2: MemoryBus, m3: Cpu|
        #[trigger] pushed(oc, om, m1, mm1, oc.flags) && #[trigger] pushed(
            Cpu { flags: set_bit(set_bit(m1.flags, Cpu::TF, false), Cpu::IF, false), ..m1 },
            mm1,
            m2,
            mm2,
            oc.segments@[1],
        ) && #[trigger] pushed(m2, mm2, m3, nm, oc.ip) && far_jumped(
            m3,
            nc,
            nm.word((vector as u32 * 4 + 2) as u32),
            nm.word((vector as u32 * 4) as u32),
        );
    let ss = oc.segments@[2];
    let sp = oc.regs@[4];
    assert(sp.wrapping_sub(2).wrapping_sub(2) == sp.wrapping_sub(4));
    assert(sp.wrapping_sub(4).wrapping_sub(2) == sp.wrapping_sub(6));
    let a1 = phys(ss, sp.wrapping_sub(2));
    let a2 = phys(ss, sp.wrapping_sub(4));
    let a3 = phys(ss, sp.wrapping_sub(6));
    assert(a1 != a2 && a1 != a2 + 1 && a1 + 1 != a2 && a1 + 1 != a2 + 1);
    assert(a1 != a3 && a1 != a3 + 1 && a1 + 1 != a3 && a1 + 1 != a3 + 1);
    assert(a2 != a3 && a2 != a3 + 1 && a2 + 1 != a3 && a2 + 1 != a3 + 1);
    let a1h = (a1 + 1) as u32;
    let a2h = (a2 + 1) as u32;
    law_word_read_after_write(om, mm1, a1, oc.flags, a1);
    law_word_read_after_write(mm1, mm2, a2, oc.segments@[1], a1);
    law_word_read_after_write(mm1, mm2, a2, oc.segments@[1], a1h);
    law_word_read_after_write(mm1, mm2, a2, oc.segments@[1], a2);
    law_word_read_after_write(mm2, nm, a3, oc.ip, a1);
    law_word_read_after_write(mm2, nm, a3, oc.ip, a1h);
    law_word_read_after_write(mm2, nm, a3, oc.ip, a2);
    law_word_read_after_write(mm2, nm, a3, oc.ip, a2h);
    law_word_read_after_write(mm2, nm, a3, oc.ip, a3);
    assert(nc.regs@ =~= oc.regs@.update(4, sp.wrapping_sub(6)));
    lemma_flag_masks_disjoint();
    law_flag_read_after_write(oc.flags, Cpu::TF, false, Cpu::IF);
    law_flag_read_after_write(set_bit(oc.flags, Cpu::TF, false), Cpu::IF, false, Cpu::TF);
}

} // verus!
