//! Prefix instruction handlers
//!
//! Prefix bytes modify the behavior of the following instruction:
//! - Segment override prefixes (ES:, CS:, SS:, DS:)
//! - Repeat prefixes (REP, REPNE)

use crate::cpu::decode::DecodedInstruction;
use crate::cpu::state::{Cpu, RepeatPrefix};
use crate::memory::MemoryBus;
use vstd::prelude::*;

verus! {

/// Effect of a segment override prefix selecting segment `seg`
pub open spec fn override_effect(oc: Cpu, nc: Cpu, seg: u8) -> bool {
    nc == Cpu { segment_override: Some(seg), ..oc }
}

/// Effect of a repeat prefix: the prefix and the address of the prefix byte
/// (IP already points past it) are remembered.
pub open spec fn repeat_effect(oc: Cpu, nc: Cpu, prefix: RepeatPrefix) -> bool {
    nc == Cpu { repeat_prefix: prefix, repeat_ip: oc.ip.wrapping_sub(1), ..oc }
}

/// ES: segment override prefix (0x26)
pub fn seg_es(cpu: &mut Cpu, _mem: &mut MemoryBus, _instr: &DecodedInstruction)
    ensures
        override_effect(*old(cpu), *final(cpu), 0),
        *final(_mem) == *old(_mem),
{
    cpu.segment_override = Some(0);
}

/// CS: segment override prefix (0x2E)
pub fn seg_cs(cpu: &mut Cpu, _mem: &mut MemoryBus, _instr: &DecodedInstruction)
    ensures
        override_effect(*old(cpu), *final(cpu), 1),
        *final(_mem) == *old(_mem),
{
    cpu.segment_override = Some(1);
}

/// SS: segment override prefix (0x36)
pub fn seg_ss(cpu: &mut Cpu, _mem: &mut MemoryBus, _instr: &DecodedInstruction)
    ensures
        override_effect(*old(cpu), *final(cpu), 2),
        *final(_mem) == *old(_mem),
{
    cpu.segment_override = Some(2);
}

/// DS: segment override prefix (0x3E)
pub fn seg_ds(cpu: &mut Cpu, _mem: &mut MemoryBus, _instr: &DecodedInstruction)
    ensures
        override_effect(*old(cpu), *final(cpu), 3),
        *final(_mem) == *old(_mem),
{
    cpu.segment_override = Some(3);
}

/// REPNE/REPNZ prefix (0xF2): repeat while CX != 0 and ZF == 0
pub fn repne(cpu: &mut Cpu, _mem: &mut MemoryBus, _instr: &DecodedInstruction)
    ensures
        repeat_effect(*old(cpu), *final(cpu), RepeatPrefix::RepNe),
        *final(_mem) == *old(_mem),
{
    cpu.repeat_prefix = RepeatPrefix::RepNe;
    cpu.repeat_ip = cpu.ip.wrapping_sub(1);
}

/// REP/REPE/REPZ prefix (0xF3): repeat while CX != 0 (and ZF == 1 for
/// CMPS/SCAS)
pub fn rep(cpu: &mut Cpu, _mem: &mut MemoryBus, _instr: &DecodedInstruction)
    ensures
        repeat_effect(*old(cpu), *final(cpu), RepeatPrefix::Rep),
        *final(_mem) == *old(_mem),
{
    cpu.repeat_prefix = RepeatPrefix::Rep;
    cpu.repeat_ip = cpu.ip.wrapping_sub(1);
}

} // verus!
