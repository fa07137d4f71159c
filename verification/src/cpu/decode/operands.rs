//! Operand type definitions for decoded instructions

use vstd::prelude::*;

verus! {

/// Types of operands that can appear in 8088 instructions
#[derive(Debug, Clone, Copy, PartialEq, Eq, Structural)]
pub enum OperandType {
    /// No operand
    Absent,
    /// 8-bit register (value is register index 0-7)
    Reg8,
    /// 16-bit register (value is register index 0-7)
    Reg16,
    /// Segment register (value is segment index 0-3)
    SegReg,
    /// 8-bit immediate value
    Imm8,
    /// 16-bit immediate value
    Imm16,
    /// 8-bit memory operand (requires addressing mode calculation)
    Mem8,
    /// 16-bit memory operand (requires addressing mode calculation)
    Mem16,
    /// Direct memory address (offset in the default data segment)
    Direct,
    /// Relative offset for jumps
    Rel8,
    /// Relative offset for jumps (16-bit)
    Rel16,
}

/// Base/index encoding of a memory operand that addresses `[disp16]`
/// directly (ModR/M mod 00, r/m 110). A direct address is always written
/// this way: a `Mem8`/`Mem16` operand's value is its base/index (0-7, or
/// this marker) and the address sits in `disp`; a value that is neither is
/// not a memory operand and is refused.
pub const DIRECT_BASE_INDEX: u8 = 0xFF;

/// Decoded operand with type and value
///
/// For memory operands the low byte of `value` holds the base/index
/// encoding (0-7 from the ModR/M r/m field, or 0xFF for a direct address
/// whose offset is in `disp`); group opcodes keep the ModR/M reg field in
/// the high byte.
#[derive(Debug, Clone, Copy, PartialEq, Eq, Structural)]
pub struct Operand {
    /// Type of the operand
    pub op_type: OperandType,
    /// Value of the operand (register index, immediate value, offset, etc.)
    pub value: u16,
    /// For memory operands: segment override (or 0xFF for default)
    pub segment: u8,
    /// For memory operands: displacement value (sign-extended to i16)
    pub disp: i16,
}

impl Operand {
    /// Create a new operand
    pub fn new(op_type: OperandType, value: u16) -> (r: Self)
        ensures
            r == (Operand { op_type, value, segment: 0xFF, disp: 0 }),
    {
        Operand { op_type, value, segment: 0xFF, disp: 0 }
    }

    /// Create an operand with a segment override
    pub fn with_segment(op_type: OperandType, value: u16, segment: u8) -> (r: Self)
        ensures
            r == (Operand { op_type, value, segment, disp: 0 }),
    {
        Operand { op_type, value, segment, disp: 0 }
    }

    /// Set the displacement for a memory operand
    pub fn with_disp(self, disp: i16) -> (r: Self)
        ensures
            r == (Operand { disp, ..self }),
    {
        Operand { disp, ..self }
    }

    /// Create a "none" operand
    pub fn none() -> (r: Self)
        ensures
            r == (Operand { op_type: OperandType::Absent, value: 0, segment: 0xFF, disp: 0 }),
    {
        Self::new(OperandType::Absent, 0)
    }

    /// Create a register operand (8-bit)
    pub fn reg8(reg: u8) -> (r: Self)
        ensures
            r == (Operand { op_type: OperandType::Reg8, value: reg as u16, segment: 0xFF, disp: 0 }),
    {
        Self::new(OperandType::Reg8, reg as u16)
    }

    /// Create a register operand (16-bit)
    pub fn reg16(reg: u8) -> (r: Self)
        ensures
            r == (Operand { op_type: OperandType::Reg16, value: reg as u16, segment: 0xFF, disp: 0 }),
    {
        Self::new(OperandType::Reg16, reg as u16)
    }

    /// Create an immediate operand (8-bit)
    pub fn imm8(value: u8) -> (r: Self)
        ensures
            r == (Operand { op_type: OperandType::Imm8, value: value as u16, segment: 0xFF, disp: 0 }),
    {
        Self::new(OperandType::Imm8, value as u16)
    }

    /// Create an immediate operand (16-bit)
    pub fn imm16(value: u16) -> (r: Self)
        ensures
            r == (Operand { op_type: OperandType::Imm16, value, segment: 0xFF, disp: 0 }),
    {
        Self::new(OperandType::Imm16, value)
    }

    /// Create a memory operand (8-bit)
    pub fn mem8(base_index: u8) -> (r: Self)
        ensures
            r == (Operand {
                op_type: OperandType::Mem8,
                value: base_index as u16,
                segment: 0xFF,
                disp: 0,
            }),
    {
        Self::new(OperandType::Mem8, base_index as u16)
    }

    /// Create a memory operand (8-bit) with displacement
    pub fn mem8_disp(base_index: u8, disp: i16) -> (r: Self)
        ensures
            r == (Operand {
                op_type: OperandType::Mem8,
                value: base_index as u16,
                segment: 0xFF,
                disp,
            }),
    {
        Self::new(OperandType::Mem8, base_index as u16).with_disp(disp)
    }

    /// Create a memory operand (16-bit)
    pub fn mem16(base_index: u8) -> (r: Self)
        ensures
            r == (Operand {
                op_type: OperandType::Mem16,
                value: base_index as u16,
                segment: 0xFF,
                disp: 0,
            }),
    {
        Self::new(OperandType::Mem16, base_index as u16)
    }

    /// Create a memory operand (16-bit) with displacement
    pub fn mem16_disp(base_index: u8, disp: i16) -> (r: Self)
        ensures
            r == (Operand {
                op_type: OperandType::Mem16,
                value: base_index as u16,
                segment: 0xFF,
                disp,
            }),
    {
        Self::new(OperandType::Mem16, base_index as u16).with_disp(disp)
    }

    /// Create a relative jump operand (8-bit)
    pub fn rel8(offset: i8) -> (r: Self)
        ensures
            r == (Operand {
                op_type: OperandType::Rel8,
                value: offset as i16 as u16,
                segment: 0xFF,
                disp: 0,
            }),
    {
        Self::new(OperandType::Rel8, offset as i16 as u16)
    }

    /// Create a relative jump operand (16-bit)
    pub fn rel16(offset: i16) -> (r: Self)
        ensures
            r == (Operand { op_type: OperandType::Rel16, value: offset as u16, segment: 0xFF, disp: 0 }),
    {
        Self::new(OperandType::Rel16, offset as u16)
    }

    /// Create a segment register operand
    pub fn seg(seg: u8) -> (r: Self)
        ensures
            r == (Operand { op_type: OperandType::SegReg, value: seg as u16, segment: 0xFF, disp: 0 }),
    {
        Self::new(OperandType::SegReg, seg as u16)
    }
}

} // verus!
