//! Decoded instruction representation for caching

use super::operands::{Operand, OperandType};
use vstd::prelude::*;

verus! {

/// A fully decoded instruction ready for execution
///
/// This struct caches all information needed to execute an instruction
/// without re-decoding it; its opcode selects the handler. Used by tier 2
/// (decode cache).
#[derive(Debug, Clone, Copy, PartialEq, Eq, Structural)]
pub struct DecodedInstruction {
    /// The opcode byte
    pub opcode: u8,
    /// First operand (destination for most instructions)
    pub dst: Operand,
    /// Second operand (source for most instructions)
    pub src: Operand,
    /// Total length of the instruction in bytes (opcode, modrm, displacement, immediate)
    pub length: u8,
    /// Base cycles for this instruction (from timing table)
    pub base_cycles: u8,
    /// EA (Effective Address) calculation cycles for memory operands
    pub ea_cycles: u8,
}

/// The operand that no instruction uses
pub open spec fn no_operand() -> Operand {
    Operand { op_type: OperandType::Absent, value: 0, segment: 0xFF, disp: 0 }
}

impl DecodedInstruction {
    /// Create a new decoded instruction with no operands and length 1
    pub fn new(opcode: u8) -> (r: Self)
        ensures
            r == (DecodedInstruction {
                opcode,
                dst: no_operand(),
                src: no_operand(),
                length: 1,
                base_cycles: 0,
                ea_cycles: 0,
            }),
    {
        DecodedInstruction {
            opcode,
            dst: Operand::none(),
            src: Operand::none(),
            length: 1,
            base_cycles: 0,
            ea_cycles: 0,
        }
    }

    /// Set the destination operand
    pub fn with_dst(self, dst: Operand) -> (r: Self)
        ensures
            r == (DecodedInstruction { dst, ..self }),
    {
        DecodedInstruction { dst, ..self }
    }

    /// Set the source operand
    pub fn with_src(self, src: Operand) -> (r: Self)
        ensures
            r == (DecodedInstruction { src, ..self }),
    {
        DecodedInstruction { src, ..self }
    }

    /// Set the instruction length
    pub fn with_length(self, length: u8) -> (r: Self)
        ensures
            r == (DecodedInstruction { length, ..self }),
    {
        DecodedInstruction { length, ..self }
    }

    /// Set the base cycles for this instruction
    pub fn with_base_cycles(self, cycles: u8) -> (r: Self)
        ensures
            r == (DecodedInstruction { base_cycles: cycles, ..self }),
    {
        DecodedInstruction { base_cycles: cycles, ..self }
    }

    /// Set the EA calculation cycles for this instruction
    pub fn with_ea_cycles(self, cycles: u8) -> (r: Self)
        ensures
            r == (DecodedInstruction { ea_cycles: cycles, ..self }),
    {
        DecodedInstruction { ea_cycles: cycles, ..self }
    }

    /// Set both base and EA cycles
    pub fn with_timing(self, base_cycles: u8, ea_cycles: u8) -> (r: Self)
        ensures
            r == (DecodedInstruction { base_cycles, ea_cycles, ..self }),
    {
        DecodedInstruction { base_cycles, ea_cycles, ..self }
    }

    /// Get total cycles for this instruction (base + EA, saturating at 255)
    ///
    /// Transfer penalties and segment override costs are not included.
    pub fn total_cycles(&self) -> (r: u8)
        ensures
            r == (if self.base_cycles + self.ea_cycles > 255 {
                255
            } else {
                self.base_cycles + self.ea_cycles
            }),
    {
        self.base_cycles.saturating_add(self.ea_cycles)
    }

    /// Check if instruction has a destination operand
    pub fn has_dst(&self) -> (r: bool)
        ensures
            r == (self.dst.op_type != OperandType::Absent),
    {
        self.dst.op_type != OperandType::Absent
    }

    /// Check if instruction has a source operand
    pub fn has_src(&self) -> (r: bool)
        ensures
            r == (self.src.op_type != OperandType::Absent),
    {
        self.src.op_type != OperandType::Absent
    }
}

} // verus!
