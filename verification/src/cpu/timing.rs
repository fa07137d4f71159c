//! 8088 Instruction Timing Tables
//!
//! Cycle counts based on Intel 8088 documentation, in clock cycles at 4.77 MHz.
//!
//! The 8088 timing model consists of:
//! - Base cycles: Fixed cost per opcode (simplest variant)
//! - EA cycles: Added for memory addressing modes
//! - Transfer penalty: 8088 has 8-bit bus, 16-bit transfers cost extra
//! - Segment override: +2 cycles when present

use crate::cpu::decode::{DecodedInstruction, Operand, OperandType};
use vstd::prelude::*;

verus! {

/// Direct address [disp16] EA calculation cycles
pub const DIRECT_ADDRESS_CYCLES: u8 = 6;

/// Additional cycles when displacement is present
pub const DISP_CYCLES: u8 = 4;

/// Segment override prefix adds 2 cycles
pub const SEGMENT_OVERRIDE_CYCLES: u8 = 2;

/// 16-bit memory transfer penalty on 8088's 8-bit bus
pub const WORD_TRANSFER_PENALTY: u8 = 4;

/// Extra cycles when reading from memory (reg, mem pattern):
/// MOV reg, mem is 8+EA (reg-reg 2); ADD reg, mem is 9+EA (reg-reg 3)
pub const MEMORY_READ_EXTRA_CYCLES: u8 = 6;

/// Extra cycles for simple memory writes: MOV mem, reg is 9+EA (reg-reg 2)
pub const MEMORY_WRITE_SIMPLE_EXTRA_CYCLES: u8 = 7;

/// Extra cycles for read-modify-write: ADD mem, reg is 16+EA (reg-reg 3)
pub const MEMORY_RMW_EXTRA_CYCLES: u8 = 13;

/// Base cycles of opcodes 0x00-0x3F
pub open spec fn base_cycles_00(op: u8) -> u8 {
    if 0x00 <= op <= 0x03 {
        3
    } else if 0x04 <= op <= 0x05 {
        4
    } else if op == 0x06 {
        14
    } else if op == 0x07 {
        12
    } else if 0x08 <= op <= 0x0B {
        3
    } else if 0x0C <= op <= 0x0D {
        4
    } else if op == 0x0E {
        14
    } else if op == 0x0F {
        0
    } else if 0x10 <= op <= 0x13 {
        3
    } else if 0x14 <= op <= 0x15 {
        4
    } else if op == 0x16 {
        14
    } else if op == 0x17 {
        12
    } else if 0x18 <= op <= 0x1B {
        3
    } else if 0x1C <= op <= 0x1D {
        4
    } else if op == 0x1E {
        14
    } else if op == 0x1F {
        12
    } else if 0x20 <= op <= 0x23 {
        3
    } else if 0x24 <= op <= 0x25 {
        4
    } else if op == 0x26 {
        0
    } else if op == 0x27 {
        4
    } else if 0x28 <= op <= 0x2B {
        3
    } else if 0x2C <= op <= 0x2D {
        4
    } else if op == 0x2E {
        0
    } else if op == 0x2F {
        4
    } else if 0x30 <= op <= 0x33 {
        3
    } else if 0x34 <= op <= 0x35 {
        4
    } else if op == 0x36 {
        0
    } else if op == 0x37 {
        4
    } else if 0x38 <= op <= 0x3B {
        3
    } else if 0x3C <= op <= 0x3D {
        4
    } else if op == 0x3E {
        0
    } else {
        4
    }
}

/// Base cycles of opcodes 0x00-0x3F
fn base_cycles_exec_00(op: u8) -> (r: u8)
    ensures
        r == base_cycles_00(op),
{
    if 0x00 <= op && op <= 0x03 {
        3
    } else if 0x04 <= op && op <= 0x05 {
        4
    } else if op == 0x06 {
        14
    } else if op == 0x07 {
        12
    } else if 0x08 <= op && op <= 0x0B {
        3
    } else if 0x0C <= op && op <= 0x0D {
        4
    } else if op == 0x0E {
        14
    } else if op == 0x0F {
        0
    } else if 0x10 <= op && op <= 0x13 {
        3
    } else if 0x14 <= op && op <= 0x15 {
        4
    } else if op == 0x16 {
        14
    } else if op == 0x17 {
        12
    } else if 0x18 <= op && op <= 0x1B {
        3
    } else if 0x1C <= op && op <= 0x1D {
        4
    } else if op == 0x1E {
        14
    } else if op == 0x1F {
        12
    } else if 0x20 <= op && op <= 0x23 {
        3
    } else if 0x24 <= op && op <= 0x25 {
        4
    } else if op == 0x26 {
        0
    } else if op == 0x27 {
        4
    } else if 0x28 <= op && op <= 0x2B {
        3
    } else if 0x2C <= op && op <= 0x2D {
        4
    } else if op == 0x2E {
        0
    } else if op == 0x2F {
        4
    } else if 0x30 <= op && op <= 0x33 {
        3
    } else if 0x34 <= op && op <= 0x35 {
        4
    } else if op == 0x36 {
        0
    } else if op == 0x37 {
        4
    } else if 0x38 <= op && op <= 0x3B {
        3
    } else if 0x3C <= op && op <= 0x3D {
        4
    } else if op == 0x3E {
        0
    } else {
        4
    }
}

/// Base cycles of opcodes 0x40-0x7F
pub open spec fn base_cycles_40(op: u8) -> u8 {
    if 0x40 <= op <= 0x4F {
        2
    } else if 0x50 <= op <= 0x57 {
        15
    } else if 0x58 <= op <= 0x5F {
        12
    } else if 0x60 <= op <= 0x6F {
        0
    } else {
        4
    }
}

/// Base cycles of opcodes 0x40-0x7F
fn base_cycles_exec_40(op: u8) -> (r: u8)
    ensures
        r == base_cycles_40(op),
{
    if 0x40 <= op && op <= 0x4F {
        2
    } else if 0x50 <= op && op <= 0x57 {
        15
    } else if 0x58 <= op && op <= 0x5F {
        12
    } else if 0x60 <= op && op <= 0x6F {
        0
    } else {
        4
    }
}

/// Base cycles of opcodes 0x80-0xBF
pub open spec fn base_cycles_80(op: u8) -> u8 {
    if 0x80 <= op <= 0x83 {
        4
    } else if 0x84 <= op <= 0x85 {
        5
    } else if 0x86 <= op <= 0x87 {
        4
    } else if 0x88 <= op <= 0x8E {
        2
    } else if op == 0x8F {
        0
    } else if 0x90 <= op <= 0x97 {
        3
    } else if op == 0x98 {
        2
    } else if op == 0x99 {
        5
    } else if op == 0x9A {
        36
    } else if op == 0x9B {
        0
    } else if op == 0x9C {
        14
    } else if op == 0x9D {
        12
    } else if 0x9E <= op <= 0x9F {
        4
    } else if 0xA0 <= op <= 0xA3 {
        14
    } else if op == 0xA4 {
        18
    } else if op == 0xA5 {
        26
    } else if op == 0xA6 {
        22
    } else if op == 0xA7 {
        30
    } else if 0xA8 <= op <= 0xA9 {
        4
    } else if op == 0xAA {
        11
    } else if op == 0xAB {
        15
    } else if op == 0xAC {
        12
    } else if op == 0xAD {
        16
    } else if op == 0xAE {
        15
    } else if op == 0xAF {
        19
    } else {
        4
    }
}

/// Base cycles of opcodes 0x80-0xBF
fn base_cycles_exec_80(op: u8) -> (r: u8)
    ensures
        r == base_cycles_80(op),
{
    if 0x80 <= op && op <= 0x83 {
        4
    } else if 0x84 <= op && op <= 0x85 {
        5
    } else if 0x86 <= op && op <= 0x87 {
        4
    } else if 0x88 <= op && op <= 0x8E {
        2
    } else if op == 0x8F {
        0
    } else if 0x90 <= op && op <= 0x97 {
        3
    } else if op == 0x98 {
        2
    } else if op == 0x99 {
        5
    } else if op == 0x9A {
        36
    } else if op == 0x9B {
        0
    } else if op == 0x9C {
        14
    } else if op == 0x9D {
        12
    } else if 0x9E <= op && op <= 0x9F {
        4
    } else if 0xA0 <= op && op <= 0xA3 {
        14
    } else if op == 0xA4 {
        18
    } else if op == 0xA5 {
        26
    } else if op == 0xA6 {
        22
    } else if op == 0xA7 {
        30
    } else if 0xA8 <= op && op <= 0xA9 {
        4
    } else if op == 0xAA {
        11
    } else if op == 0xAB {
        15
    } else if op == 0xAC {
        12
    } else if op == 0xAD {
        16
    } else if op == 0xAE {
        15
    } else if op == 0xAF {
        19
    } else {
        4
    }
}

/// Base cycles of opcodes 0xC0-0xFF
pub open spec fn base_cycles_c0(op: u8) -> u8 {
    if 0xC0 <= op <= 0xC1 {
        0
    } else if op == 0xC2 {
        24
    } else if op == 0xC3 {
        20
    } else if 0xC4 <= op <= 0xC5 {
        24
    } else if 0xC6 <= op <= 0xC7 {
        4
    } else if 0xC8 <= op <= 0xC9 {
        0
    } else if op == 0xCA {
        33
    } else if op == 0xCB {
        34
    } else if op == 0xCC {
        52
    } else if op == 0xCD {
        51
    } else if op == 0xCE {
        0
    } else if op == 0xCF {
        44
    } else if 0xD0 <= op <= 0xD1 {
        2
    } else if 0xD2 <= op <= 0xD3 {
        8
    } else if op == 0xD4 {
        83
    } else if op == 0xD5 {
        60
    } else if op == 0xD6 {
        0
    } else if op == 0xD7 {
        11
    } else if 0xD8 <= op <= 0xDF {
        0
    } else if 0xE0 <= op <= 0xE2 {
        5
    } else if op == 0xE3 {
        6
    } else if op == 0xE4 {
        10
    } else if op == 0xE5 {
        14
    } else if op == 0xE6 {
        10
    } else if op == 0xE7 {
        14
    } else if op == 0xE8 {
        23
    } else if 0xE9 <= op <= 0xEB {
        15
    } else if op == 0xEC {
        8
    } else if op == 0xED {
        12
    } else if op == 0xEE {
        8
    } else if op == 0xEF {
        12
    } else if 0xF0 <= op <= 0xF3 {
        0
    } else if 0xF4 <= op <= 0xF5 {
        2
    } else if 0xF6 <= op <= 0xF7 {
        5
    } else if 0xF8 <= op <= 0xFD {
        2
    } else if op == 0xFE {
        3
    } else {
        0
    }
}

/// Base cycles of opcodes 0xC0-0xFF
fn base_cycles_exec_c0(op: u8) -> (r: u8)
    ensures
        r == base_cycles_c0(op),
{
    if 0xC0 <= op && op <= 0xC1 {
        0
    } else if op == 0xC2 {
        24
    } else if op == 0xC3 {
        20
    } else if 0xC4 <= op && op <= 0xC5 {
        24
    } else if 0xC6 <= op && op <= 0xC7 {
        4
    } else if 0xC8 <= op && op <= 0xC9 {
        0
    } else if op == 0xCA {
        33
    } else if op == 0xCB {
        34
    } else if op == 0xCC {
        52
    } else if op == 0xCD {
        51
    } else if op == 0xCE {
        0
    } else if op == 0xCF {
        44
    } else if 0xD0 <= op && op <= 0xD1 {
        2
    } else if 0xD2 <= op && op <= 0xD3 {
        8
    } else if op == 0xD4 {
        83
    } else if op == 0xD5 {
        60
    } else if op == 0xD6 {
        0
    } else if op == 0xD7 {
        11
    } else if 0xD8 <= op && op <= 0xDF {
        0
    } else if 0xE0 <= op && op <= 0xE2 {
        5
    } else if op == 0xE3 {
        6
    } else if op == 0xE4 {
        10
    } else if op == 0xE5 {
        14
    } else if op == 0xE6 {
        10
    } else if op == 0xE7 {
        14
    } else if op == 0xE8 {
        23
    } else if 0xE9 <= op && op <= 0xEB {
        15
    } else if op == 0xEC {
        8
    } else if op == 0xED {
        12
    } else if op == 0xEE {
        8
    } else if op == 0xEF {
        12
    } else if 0xF0 <= op && op <= 0xF3 {
        0
    } else if 0xF4 <= op && op <= 0xF5 {
        2
    } else if 0xF6 <= op && op <= 0xF7 {
        5
    } else if 0xF8 <= op && op <= 0xFD {
        2
    } else if op == 0xFE {
        3
    } else {
        0
    }
}


/// Base cycle count of each opcode: the reg-reg timing where applicable,
/// 0 for invalid opcodes and prefixes; Jcc and LOOP count as not taken.
pub open spec fn spec_base_cycles(op: u8) -> u8 {
    if op < 0x40 {
        base_cycles_00(op)
    } else if op < 0x80 {
        base_cycles_40(op)
    } else if op < 0xC0 {
        base_cycles_80(op)
    } else {
        base_cycles_c0(op)
    }
}

/// Base cycle count of `opcode` (see `spec_base_cycles`)
pub fn base_cycles(opcode: u8) -> (r: u8)
    ensures
        r == spec_base_cycles(opcode),
{
    if opcode < 0x40 {
        base_cycles_exec_00(opcode)
    } else if opcode < 0x80 {
        base_cycles_exec_40(opcode)
    } else if opcode < 0xC0 {
        base_cycles_exec_80(opcode)
    } else {
        base_cycles_exec_c0(opcode)
    }
}

/// EA calculation cycles by r/m field (mod != 11): [BX+SI] 7, [BX+DI] 8,
/// [BP+SI] 8, [BP+DI] 7, [SI] 5, [DI] 5, [BP] 5, [BX] 5
pub open spec fn spec_ea_cycles(base_index: u8) -> u8 {
    if base_index == 0 || base_index == 3 {
        7
    } else if base_index == 1 || base_index == 2 {
        8
    } else {
        5
    }
}

/// EA calculation cycles of base/index encoding `base_index` (0-7)
pub fn ea_cycles(base_index: u8) -> (r: u8)
    requires
        base_index < 8,
    ensures
        r == spec_ea_cycles(base_index),
{
    if base_index == 0 || base_index == 3 {
        7
    } else if base_index == 1 || base_index == 2 {
        8
    } else {
        5
    }
}

/// Whether an operand is a memory operand
pub open spec fn spec_is_memory_operand(op: Operand) -> bool {
    op.op_type == OperandType::Mem8 || op.op_type == OperandType::Mem16 || op.op_type
        == OperandType::Direct
}

/// EA cycles of an operand: 0 for registers and immediates, 6 for a direct
/// address, the r/m cost (plus 4 with a displacement) otherwise; 0 for an
/// invalid base/index.
pub open spec fn spec_operand_ea_cycles(op: Operand) -> u8 {
    if op.op_type == OperandType::Mem8 || op.op_type == OperandType::Mem16 {
        let base_index = (op.value & 0xFF) as u8;
        if base_index == 0xFF {
            DIRECT_ADDRESS_CYCLES
        } else if base_index < 8 {
            if op.disp != 0 {
                (spec_ea_cycles(base_index) + DISP_CYCLES) as u8
            } else {
                spec_ea_cycles(base_index)
            }
        } else {
            0
        }
    } else if op.op_type == OperandType::Direct {
        DIRECT_ADDRESS_CYCLES
    } else {
        0
    }
}

/// Calculate EA cycles for an operand (see `spec_operand_ea_cycles`)
pub fn calculate_ea_cycles(operand: &Operand) -> (r: u8)
    ensures
        r == spec_operand_ea_cycles(*operand),
        r <= 12,
{
    match operand.op_type {
        OperandType::Mem8 | OperandType::Mem16 => {
            let base_index = (operand.value & 0xFF) as u8;
            if base_index == 0xFF {
                DIRECT_ADDRESS_CYCLES
            } else if base_index < 8 {
                let cycles = ea_cycles(base_index);
                if operand.disp != 0 {
                    cycles + DISP_CYCLES
                } else {
                    cycles
                }
            } else {
                0
            }
        },
        OperandType::Direct => DIRECT_ADDRESS_CYCLES,
        _ => 0,
    }
}

/// Calculate the 16-bit memory transfer penalty of an operand
pub fn calculate_transfer_penalty(operand: &Operand) -> (r: u8)
    ensures
        r == (if operand.op_type == OperandType::Mem16 {
            WORD_TRANSFER_PENALTY
        } else {
            0
        }),
{
    match operand.op_type {
        OperandType::Mem16 => WORD_TRANSFER_PENALTY,
        _ => 0,
    }
}

/// Sum of the EA cycles of both operands
pub fn calculate_total_ea_cycles(dst: &Operand, src: &Operand) -> (r: u8)
    ensures
        r == spec_operand_ea_cycles(*dst) + spec_operand_ea_cycles(*src),
{
    calculate_ea_cycles(dst) + calculate_ea_cycles(src)
}

/// Sum of the transfer penalties of both operands
pub fn calculate_total_transfer_penalty(dst: &Operand, src: &Operand) -> (r: u8)
    ensures
        r == (if dst.op_type == OperandType::Mem16 {
            WORD_TRANSFER_PENALTY
        } else {
            0
        }) + (if src.op_type == OperandType::Mem16 {
            WORD_TRANSFER_PENALTY
        } else {
            0
        }),
{
    calculate_transfer_penalty(dst) + calculate_transfer_penalty(src)
}

/// Check if an operand is a memory operand
pub fn is_memory_operand(operand: &Operand) -> (r: bool)
    ensures
        r == spec_is_memory_operand(*operand),
{
    matches!(operand.op_type, OperandType::Mem8 | OperandType::Mem16 | OperandType::Direct)
}

/// Extra base cycles for a memory variant of `opcode`, and whether the
/// memory access is 16-bit (see `calculate_memory_timing`)
pub open spec fn spec_memory_timing(opcode: u8, dst: Operand, src: Operand) -> (u8, bool) {
    let dst_is_mem = spec_is_memory_operand(dst);
    let src_is_mem = spec_is_memory_operand(src);
    if !dst_is_mem && !src_is_mem {
        (0, false)
    } else {
        let is_16bit = dst.op_type == OperandType::Mem16 || src.op_type == OperandType::Mem16;
        let op = opcode;
        let extra: u8 = if (op == 0x88 || op == 0x89) && dst_is_mem {
            MEMORY_WRITE_SIMPLE_EXTRA_CYCLES
        } else if (op == 0x8A || op == 0x8B) && src_is_mem {
            MEMORY_READ_EXTRA_CYCLES
        } else if op == 0x8C && dst_is_mem {
            MEMORY_WRITE_SIMPLE_EXTRA_CYCLES
        } else if op == 0x8E && src_is_mem {
            MEMORY_READ_EXTRA_CYCLES
        } else if (op == 0xC6 || op == 0xC7) && dst_is_mem {
            6
        } else if op < 0x40 && op % 8 < 2 && dst_is_mem {
            MEMORY_RMW_EXTRA_CYCLES
        } else if op < 0x40 && (op % 8 == 2 || op % 8 == 3) && src_is_mem {
            MEMORY_READ_EXTRA_CYCLES
        } else if 0x80 <= op <= 0x83 && dst_is_mem {
            MEMORY_RMW_EXTRA_CYCLES
        } else if (op == 0x84 || op == 0x85) && dst_is_mem {
            MEMORY_READ_EXTRA_CYCLES
        } else if (op == 0x86 || op == 0x87 || op == 0xFE || op == 0xFF || (0xD0 <= op <= 0xD3))
            && dst_is_mem {
            MEMORY_RMW_EXTRA_CYCLES
        } else if (op == 0xF6 || op == 0xF7) && dst_is_mem {
            MEMORY_READ_EXTRA_CYCLES
        } else {
            0
        };
        (extra, is_16bit)
    }
}

/// Calculate extra base cycles for memory operand variants
///
/// The base table stores reg-reg timing; memory variants cost more:
/// simple writes +7, reads +6, read-modify-write +13, MOV r/m, imm +6.
/// Returns (memory_extra_cycles, is_16bit_memory_access).
pub fn calculate_memory_timing(opcode: u8, dst: &Operand, src: &Operand) -> (r: (u8, bool))
    ensures
        r == spec_memory_timing(opcode, *dst, *src),
{
    let dst_is_mem = is_memory_operand(dst);
    let src_is_mem = is_memory_operand(src);
    if !dst_is_mem && !src_is_mem {
        return (0, false);
    }
    let is_16bit = dst.op_type == OperandType::Mem16 || src.op_type == OperandType::Mem16;
    let op = opcode;
    let extra: u8 = if (op == 0x88 || op == 0x89) && dst_is_mem {
        MEMORY_WRITE_SIMPLE_EXTRA_CYCLES
    } else if (op == 0x8A || op == 0x8B) && src_is_mem {
        MEMORY_READ_EXTRA_CYCLES
    } else if op == 0x8C && dst_is_mem {
        MEMORY_WRITE_SIMPLE_EXTRA_CYCLES
    } else if op == 0x8E && src_is_mem {
        MEMORY_READ_EXTRA_CYCLES
    } else if (op == 0xC6 || op == 0xC7) && dst_is_mem {
        6
    } else if op < 0x40 && op % 8 < 2 && dst_is_mem {
        MEMORY_RMW_EXTRA_CYCLES
    } else if op < 0x40 && (op % 8 == 2 || op % 8 == 3) && src_is_mem {
        MEMORY_READ_EXTRA_CYCLES
    } else if 0x80 <= op && op <= 0x83 && dst_is_mem {
        MEMORY_RMW_EXTRA_CYCLES
    } else if (op == 0x84 || op == 0x85) && dst_is_mem {
        MEMORY_READ_EXTRA_CYCLES
    } else if (op == 0x86 || op == 0x87 || op == 0xFE || op == 0xFF || (0xD0 <= op && op <= 0xD3))
        && dst_is_mem {
        MEMORY_RMW_EXTRA_CYCLES
    } else if (op == 0xF6 || op == 0xF7) && dst_is_mem {
        MEMORY_READ_EXTRA_CYCLES
    } else {
        0
    };
    (extra, is_16bit)
}

/// Cycles an instruction takes: base, EA cycles of its operands, the extra
/// cycles of its memory variant, and the 16-bit transfer penalty
pub open spec fn spec_instruction_cycles(instr: DecodedInstruction) -> u16 {
    let (extra, is_16bit) = spec_memory_timing(instr.opcode, instr.dst, instr.src);
    (spec_base_cycles(instr.opcode) + spec_operand_ea_cycles(instr.dst) + spec_operand_ea_cycles(
        instr.src,
    ) + extra + if is_16bit {
        WORD_TRANSFER_PENALTY
    } else {
        0
    }) as u16
}

/// Cycles an instruction takes (see `spec_instruction_cycles`)
pub fn instruction_cycles(instr: &DecodedInstruction) -> (r: u16)
    ensures
        r == spec_instruction_cycles(*instr),
{
    let base = base_cycles(instr.opcode) as u16;
    let ea = calculate_total_ea_cycles(&instr.dst, &instr.src) as u16;
    let (extra, is_16bit) = calculate_memory_timing(instr.opcode, &instr.dst, &instr.src);
    let penalty: u16 = if is_16bit {
        WORD_TRANSFER_PENALTY as u16
    } else {
        0
    };
    base + ea + extra as u16 + penalty
}

} // verus!
