//! Basic instruction handlers: invalid opcodes, NOP, HLT

use crate::cpu::decode::DecodedInstruction;
use crate::cpu::state::Cpu;
use crate::memory::MemoryBus;
use vstd::prelude::*;

verus! {

/// Why an instruction could not be executed
#[derive(Debug, Clone, Copy, PartialEq, Eq, Structural)]
pub enum ExecError {
    /// The opcode is invalid or not implemented; `cs:ip` is where it was fetched
    InvalidOpcode { opcode: u8, cs: u16, ip: u16 },
    /// The instruction's operands cannot be used (a register where memory is
    /// needed, an undefined group encoding, a division that faults)
    InvalidOperand { opcode: u8, cs: u16, ip: u16 },
}

/// Handler for invalid/unimplemented opcodes: reports the opcode and the
/// CS:IP it was fetched from (IP was already advanced past it); the CPU is
/// left as it was.
pub fn invalid_opcode(cpu: &mut Cpu, _mem: &mut MemoryBus, instr: &DecodedInstruction) -> (r: ExecError)
    ensures
        r == (ExecError::InvalidOpcode {
            opcode: instr.opcode,
            cs: old(cpu).segments@[1],
            ip: old(cpu).ip.wrapping_sub(1),
        }),
        *final(cpu) == *old(cpu),
        *final(_mem) == *old(_mem),
{
    ExecError::InvalidOpcode { opcode: instr.opcode, cs: cpu.read_seg(1), ip: cpu.ip.wrapping_sub(1) }
}

/// Handler for NOP (0x90) - No operation
pub fn nop(_cpu: &mut Cpu, _mem: &mut MemoryBus, _instr: &DecodedInstruction)
    ensures
        *final(_cpu) == *old(_cpu),
        *final(_mem) == *old(_mem),
{
}

/// Handler for HLT (0xF4) - Halt until an interrupt occurs
pub fn hlt(cpu: &mut Cpu, _mem: &mut MemoryBus, _instr: &DecodedInstruction)
    ensures
        *final(cpu) == (Cpu { halted: true, ..*old(cpu) }),
        *final(_mem) == *old(_mem),
{
    cpu.halted = true;
}

} // verus!
