//! IO instruction handlers (IN, OUT)

use crate::cpu::decode::DecodedInstruction;
use crate::cpu::state::{with_reg_byte, Cpu};
use crate::memory::{is_pic_port, MemoryBus};
use vstd::prelude::*;

verus! {

/// Only AL changed
pub open spec fn al_loaded(oc: Cpu, nc: Cpu) -> bool {
    &&& nc.regs@ == oc.regs@.update(0, with_reg_byte(oc.regs@[0], false, nc.reg8(0)))
    &&& oc.same_but_regs(nc)
    &&& nc.flags == oc.flags
}

/// Only AX changed
pub open spec fn ax_loaded(oc: Cpu, nc: Cpu) -> bool {
    &&& nc.regs@ == oc.regs@.update(0, nc.regs@[0])
    &&& oc.same_but_regs(nc)
    &&& nc.flags == oc.flags
}

/// Effect of `in_al_imm8`
pub open spec fn in_al_imm8_effect(oc: Cpu, om: MemoryBus, nc: Cpu, nm: MemoryBus, instr: DecodedInstruction) -> bool {
    &&& al_loaded(oc, nc)
    &&& is_pic_port(instr.src.value) ==> nc.reg8(0) == om.pic.spec_read(instr.src.value)
    &&& nm.wf()
    &&& nm.ram@ == om.ram@
}

/// IN AL, imm8 (0xE4): AL = byte read from the port in the source operand
pub fn in_al_imm8(cpu: &mut Cpu, mem: &mut MemoryBus, instr: &DecodedInstruction)
    requires
        old(mem).wf(),
    ensures
        in_al_imm8_effect(*old(cpu), *old(mem), *final(cpu), *final(mem), *instr),
{
    let port = instr.src.value;
    let value = mem.io_read_u8(port);
    cpu.write_reg8(0, value);
    proof {
        crate::cpu::state::lemma_reg_byte(old(cpu).regs@[0], value);
    }
}

/// Effect of `in_ax_imm8`
pub open spec fn in_ax_imm8_effect(oc: Cpu, om: MemoryBus, nc: Cpu, nm: MemoryBus, instr: DecodedInstruction) -> bool {
    &&& ax_loaded(oc, nc)
    &&& nm.wf()
    &&& nm.ram@ == om.ram@
}

/// IN AX, imm8 (0xE5): AX = word read from the port in the source operand
pub fn in_ax_imm8(cpu: &mut Cpu, mem: &mut MemoryBus, instr: &DecodedInstruction)
    requires
        old(mem).wf(),
        instr.src.value < u16::MAX,
    ensures
        in_ax_imm8_effect(*old(cpu), *old(mem), *final(cpu), *final(mem), *instr),
{
    let port = instr.src.value;
    let value = mem.io_read_u16(port);
    cpu.write_reg16(0, value);
}

/// Effect of `out_imm8_al`
pub open spec fn out_imm8_al_effect(oc: Cpu, om: MemoryBus, nc: Cpu, nm: MemoryBus, instr: DecodedInstruction) -> bool {
    &&& nc == oc
    &&& is_pic_port(instr.dst.value) ==> nm == (MemoryBus {
        pic: (if instr.dst.value == 0x20 {
            om.pic.spec_write_command(oc.reg8(0))
        } else {
            om.pic.spec_write_data(oc.reg8(0))
        }),
        ..om
    })
    &&& nm.wf()
    &&& nm.ram@ == om.ram@
}

/// OUT imm8, AL (0xE6): write AL to the port in the destination operand
pub fn out_imm8_al(cpu: &mut Cpu, mem: &mut MemoryBus, instr: &DecodedInstruction)
    requires
        old(mem).wf(),
    ensures
        out_imm8_al_effect(*old(cpu), *old(mem), *final(cpu), *final(mem), *instr),
{
    let port = instr.dst.value;
    let value = cpu.read_reg8(0);
    mem.io_write_u8(port, value);
}

/// Effect of `out_imm8_ax`: AX written to the port in the destination
/// operand (AL to the port, AH to the next one)
pub open spec fn out_imm8_ax_effect(oc: Cpu, om: MemoryBus, nc: Cpu, nm: MemoryBus, instr: DecodedInstruction) -> bool {
    &&& nc == oc
    &&& MemoryBus::io_word_written(om, nm, instr.dst.value, oc.regs@[0])
    &&& nm.wf()
    &&& nm.ram@ == om.ram@
}

/// OUT imm8, AX (0xE7): write AX to the port in the destination operand
pub fn out_imm8_ax(cpu: &mut Cpu, mem: &mut MemoryBus, instr: &DecodedInstruction)
    requires
        old(mem).wf(),
        instr.dst.value < u16::MAX,
    ensures
        out_imm8_ax_effect(*old(cpu), *old(mem), *final(cpu), *final(mem), *instr),
{
    let port = instr.dst.value;
    let value = cpu.read_reg16(0);
    mem.io_write_u16(port, value);
}

/// Effect of `in_al_dx`
pub open spec fn in_al_dx_effect(oc: Cpu, om: MemoryBus, nc: Cpu, nm: MemoryBus, instr: DecodedInstruction) -> bool {
    &&& al_loaded(oc, nc)
    &&& is_pic_port(oc.regs@[2]) ==> nc.reg8(0) == om.pic.spec_read(oc.regs@[2])
    &&& nm.wf()
    &&& nm.ram@ == om.ram@
}

/// IN AL, DX (0xEC)
pub fn in_al_dx(cpu: &mut Cpu, mem: &mut MemoryBus, _instr: &DecodedInstruction)
    requires
        old(mem).wf(),
    ensures
        in_al_dx_effect(*old(cpu), *old(mem), *final(cpu), *final(mem), *_instr),
{
    let port = cpu.read_reg16(2);
    let value = mem.io_read_u8(port);
    cpu.write_reg8(0, value);
    proof {
        crate::cpu::state::lemma_reg_byte(old(cpu).regs@[0], value);
    }
}

/// Effect of `in_ax_dx`
pub open spec fn in_ax_dx_effect(oc: Cpu, om: MemoryBus, nc: Cpu, nm: MemoryBus, instr: DecodedInstruction) -> bool {
    &&& ax_loaded(oc, nc)
    &&& nm.wf()
    &&& nm.ram@ == om.ram@
}

/// IN AX, DX (0xED)
pub fn in_ax_dx(cpu: &mut Cpu, mem: &mut MemoryBus, _instr: &DecodedInstruction)
    requires
        old(mem).wf(),
        old(cpu).regs@[2] < u16::MAX,
    ensures
        in_ax_dx_effect(*old(cpu), *old(mem), *final(cpu), *final(mem), *_instr),
{
    let port = cpu.read_reg16(2);
    let value = mem.io_read_u16(port);
    cpu.write_reg16(0, value);
}

/// Effect of `out_dx_al`
pub open spec fn out_dx_al_effect(oc: Cpu, om: MemoryBus, nc: Cpu, nm: MemoryBus, instr: DecodedInstruction) -> bool {
    &&& nc == oc
    &&& is_pic_port(oc.regs@[2]) ==> nm == (MemoryBus {
        pic: (if oc.regs@[2] == 0x20 {
            om.pic.spec_write_command(oc.reg8(0))
        } else {
            om.pic.spec_write_data(oc.reg8(0))
        }),
        ..om
    })
    &&& nm.wf()
    &&& nm.ram@ == om.ram@
}

/// OUT DX, AL (0xEE)
pub fn out_dx_al(cpu: &mut Cpu, mem: &mut MemoryBus, _instr: &DecodedInstruction)
    requires
        old(mem).wf(),
    ensures
        out_dx_al_effect(*old(cpu), *old(mem), *final(cpu), *final(mem), *_instr),
{
    let port = cpu.read_reg16(2);
    let value = cpu.read_reg8(0);
    mem.io_write_u8(port, value);
}

/// Effect of `out_dx_ax`: AX written to the port in DX (AL to the port,
/// AH to the next one)
pub open spec fn out_dx_ax_effect(oc: Cpu, om: MemoryBus, nc: Cpu, nm: MemoryBus, instr: DecodedInstruction) -> bool {
    &&& nc == oc
    &&& MemoryBus::io_word_written(om, nm, oc.regs@[2], oc.regs@[0])
    &&& nm.wf()
    &&& nm.ram@ == om.ram@
}

/// OUT DX, AX (0xEF)
pub fn out_dx_ax(cpu: &mut Cpu, mem: &mut MemoryBus, _instr: &DecodedInstruction)
    requires
        old(mem).wf(),
        old(cpu).regs@[2] < u16::MAX,
    ensures
        out_dx_ax_effect(*old(cpu), *old(mem), *final(cpu), *final(mem), *_instr),
{
    let port = cpu.read_reg16(2);
    let value = cpu.read_reg16(0);
    mem.io_write_u16(port, value);
}

} // verus!
