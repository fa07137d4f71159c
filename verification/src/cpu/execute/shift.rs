//! Shift and rotate instruction handlers (ROL, ROR, RCL, RCR, SHL, SHR, SAR)

use crate::cpu::decode::{DecodedInstruction, OperandType};
use crate::cpu::state::{
    flags_after, is_byte_operand, law_flag_read_after_write, law_operand_read_after_write,
    lemma_flag_masks_disjoint, operand_stores, operand_writable, set_bit, Cpu, FlagOp,
};
use crate::memory::MemoryBus;
use vstd::prelude::*;

verus! {

/// A count cut to 3 bits is below 8, cut to 4 bits below 16.
pub proof fn lemma_count_masks(count: u8)
    by (bit_vector)
    ensures
        count & 0x07 < 8,
        count & 0x0F < 16,
{
}

/// Rotate a byte left by `c` (1-7)
pub open spec fn rotl8(v: u8, c: u8) -> u8 {
    (v << c) | (v >> ((8 - c) as u8))
}

/// Rotate a word left by `c` (1-15)
pub open spec fn rotl16(v: u16, c: u8) -> u16 {
    (v << c) | (v >> ((16 - c) as u8))
}

/// Rotate a byte right by `c` (1-7)
pub open spec fn rotr8(v: u8, c: u8) -> u8 {
    (v >> c) | (v << ((8 - c) as u8))
}

/// Rotate a word right by `c` (1-15)
pub open spec fn rotr16(v: u16, c: u8) -> u16 {
    (v >> c) | (v << ((16 - c) as u8))
}

/// The sign bit of a byte or word result
pub open spec fn sign_bit(r: u16, is_byte: bool) -> bool {
    if is_byte {
        r & 0x80 != 0
    } else {
        r & 0x8000 != 0
    }
}

/// The bit below the sign bit
pub open spec fn next_bit(r: u16, is_byte: bool) -> bool {
    if is_byte {
        r & 0x40 != 0
    } else {
        r & 0x4000 != 0
    }
}

/// Effect of writing a shift or rotate result `r` with new flags `flags`
pub open spec fn shift_written(oc: Cpu, om: MemoryBus, nc: Cpu, nm: MemoryBus, instr: DecodedInstruction, r: u16, flags: u16) -> bool {
    &&& Cpu::op_written(oc, om, nc, nm, instr.dst, r)
    &&& nc.flags == flags
    &&& nm.wf()
}

/// The count of a rotate, reduced to the operand size
pub open spec fn rotate_count(count: u8, is_byte: bool) -> u8 {
    if is_byte {
        count & 0x07
    } else {
        count & 0x0F
    }
}

/// Effect of ROL by `count`
pub open spec fn rol_effect(oc: Cpu, om: MemoryBus, nc: Cpu, nm: MemoryBus, instr: DecodedInstruction, count: u8) -> bool {
    let v = oc.read_op(om, instr.dst);
    let b = is_byte_operand(instr.dst);
    let c = rotate_count(count, b);
    if count == 0 || c == 0 {
        nc == oc && nm == om
    } else {
        let r: u16 = if b {
            rotl8(v as u8, c) as u16
        } else {
            rotl16(v, c)
        };
        let cf = r & 1 != 0;
        let f1 = set_bit(oc.flags, Cpu::CF, cf);
        let f2 = if c == 1 {
            set_bit(f1, Cpu::OF, sign_bit(r, b) != cf)
        } else {
            f1
        };
        shift_written(oc, om, nc, nm, instr, r, f2)
    }
}

/// ROL - Rotate left by `count` (mod 8 for bytes, mod 16 for words)
pub fn rol(cpu: &mut Cpu, mem: &mut MemoryBus, instr: &DecodedInstruction, count: u8)
    requires
        old(mem).wf(),
        operand_writable(instr.dst),
    ensures
        rol_effect(*old(cpu), *old(mem), *final(cpu), *final(mem), *instr, count),
{
    if count == 0 {
        return;
    }
    let value = cpu.read_operand(mem, &instr.dst);
    let is_byte = instr.dst.op_type == OperandType::Reg8 || instr.dst.op_type == OperandType::Mem8;
    let c: u8 = if is_byte {
        count & 0x07
    } else {
        count & 0x0F
    };
    if c == 0 {
        return;
    }
    proof {
        lemma_count_masks(count);
    }
    let result: u16 = if is_byte {
        let val = value as u8;
        ((val << c) | (val >> (8 - c))) as u16
    } else {
        (value << c) | (value >> (16 - c))
    };
    let new_cf = result & 1 != 0;
    cpu.write_operand(mem, &instr.dst, result);
    cpu.set_flag(Cpu::CF, new_cf);
    if c == 1 {
        let msb = if is_byte {
            (result & 0x80) != 0
        } else {
            (result & 0x8000) != 0
        };
        cpu.set_flag(Cpu::OF, msb != new_cf);
    }
}

/// Effect of ROR by `count`
pub open spec fn ror_effect(oc: Cpu, om: MemoryBus, nc: Cpu, nm: MemoryBus, instr: DecodedInstruction, count: u8) -> bool {
    let v = oc.read_op(om, instr.dst);
    let b = is_byte_operand(instr.dst);
    let c = rotate_count(count, b);
    if count == 0 || c == 0 {
        nc == oc && nm == om
    } else {
        let r: u16 = if b {
            rotr8(v as u8, c) as u16
        } else {
            rotr16(v, c)
        };
        let cf = sign_bit(r, b);
        let f1 = set_bit(oc.flags, Cpu::CF, cf);
        let f2 = if c == 1 {
            set_bit(f1, Cpu::OF, sign_bit(r, b) != next_bit(r, b))
        } else {
            f1
        };
        shift_written(oc, om, nc, nm, instr, r, f2)
    }
}

/// ROR - Rotate right by `count` (mod 8 for bytes, mod 16 for words)
pub fn ror(cpu: &mut Cpu, mem: &mut MemoryBus, instr: &DecodedInstruction, count: u8)
    requires
        old(mem).wf(),
        operand_writable(instr.dst),
    ensures
        ror_effect(*old(cpu), *old(mem), *final(cpu), *final(mem), *instr, count),
{
    if count == 0 {
        return;
    }
    let value = cpu.read_operand(mem, &instr.dst);
    let is_byte = instr.dst.op_type == OperandType::Reg8 || instr.dst.op_type == OperandType::Mem8;
    let c: u8 = if is_byte {
        count & 0x07
    } else {
        count & 0x0F
    };
    if c == 0 {
        return;
    }
    proof {
        lemma_count_masks(count);
    }
    let result: u16 = if is_byte {
        let val = value as u8;
        ((val >> c) | (val << (8 - c))) as u16
    } else {
        (value >> c) | (value << (16 - c))
    };
    let new_cf = if is_byte {
        (result & 0x80) != 0
    } else {
        (result & 0x8000) != 0
    };
    cpu.write_operand(mem, &instr.dst, result);
    cpu.set_flag(Cpu::CF, new_cf);
    if c == 1 {
        let msb = if is_byte {
            (result & 0x80) != 0
        } else {
            (result & 0x8000) != 0
        };
        let next_msb = if is_byte {
            (result & 0x40) != 0
        } else {
            (result & 0x4000) != 0
        };
        cpu.set_flag(Cpu::OF, msb != next_msb);
    }
}

/// One step of rotate-through-carry left: the carry enters at bit 0 and the
/// sign bit becomes the carry
pub open spec fn rcl_step(r: u16, cf: bool, is_byte: bool) -> (u16, bool) {
    let carry_in: u16 = if cf {
        1u16
    } else {
        0u16
    };
    let shifted: u16 = if is_byte {
        ((r << 1u16) & 0xFF) | carry_in
    } else {
        ((r << 1u16) & 0xFFFF) | carry_in
    };
    (shifted, sign_bit(r, is_byte))
}

/// One step of rotate-through-carry right: the carry enters at the sign bit
/// and bit 0 becomes the carry
pub open spec fn rcr_step(r: u16, cf: bool, is_byte: bool) -> (u16, bool) {
    let carry_in: u16 = if cf {
        if is_byte {
            0x80u16
        } else {
            0x8000u16
        }
    } else {
        0u16
    };
    ((r >> 1u16) | carry_in, r & 1 != 0)
}

/// Result and carry after `n` steps of rotate-through-carry left
pub open spec fn rcl_steps(r: u16, cf: bool, n: nat, is_byte: bool) -> (u16, bool)
    decreases n,
{
    if n == 0 {
        (r, cf)
    } else {
        let (r1, c1) = rcl_steps(r, cf, (n - 1) as nat, is_byte);
        rcl_step(r1, c1, is_byte)
    }
}

/// Result and carry after `n` steps of rotate-through-carry right
pub open spec fn rcr_steps(r: u16, cf: bool, n: nat, is_byte: bool) -> (u16, bool)
    decreases n,
{
    if n == 0 {
        (r, cf)
    } else {
        let (r1, c1) = rcr_steps(r, cf, (n - 1) as nat, is_byte);
        rcr_step(r1, c1, is_byte)
    }
}

/// Effect of RCL (`left`) or RCR by `count` (taken mod 32)
pub open spec fn rc_effect(oc: Cpu, om: MemoryBus, nc: Cpu, nm: MemoryBus, instr: DecodedInstruction, count: u8, left: bool) -> bool {
    let v = oc.read_op(om, instr.dst);
    let b = is_byte_operand(instr.dst);
    let n = (count & 0x1F) as nat;
    if count == 0 {
        nc == oc && nm == om
    } else {
        let (r, cf) = if left {
            rcl_steps(v, oc.flag(Cpu::CF), n, b)
        } else {
            rcr_steps(v, oc.flag(Cpu::CF), n, b)
        };
        let f1 = set_bit(oc.flags, Cpu::CF, cf);
        let f2 = if count == 1 {
            if left {
                set_bit(f1, Cpu::OF, sign_bit(r, b) != cf)
            } else {
                set_bit(f1, Cpu::OF, sign_bit(r, b) != next_bit(r, b))
            }
        } else {
            f1
        };
        shift_written(oc, om, nc, nm, instr, r, f2)
    }
}

/// RCL - Rotate left through carry by `count` (mod 32)
pub fn rcl(cpu: &mut Cpu, mem: &mut MemoryBus, instr: &DecodedInstruction, count: u8)
    requires
        old(mem).wf(),
        operand_writable(instr.dst),
    ensures
        rc_effect(*old(cpu), *old(mem), *final(cpu), *final(mem), *instr, count, true),
{
    if count == 0 {
        return;
    }
    let value = cpu.read_operand(mem, &instr.dst);
    let is_byte = instr.dst.op_type == OperandType::Reg8 || instr.dst.op_type == OperandType::Mem8;
    let mut cf = cpu.get_flag(Cpu::CF);
    let mut result = value;
    let n: u8 = count & 0x1F;
    let mut i: u8 = 0;
    while i < n
        invariant
            0 <= i <= n,
            (result, cf) == rcl_steps(value, old(cpu).flag(Cpu::CF), i as nat, is_byte),
        decreases n - i,
    {
        let new_cf = if is_byte {
            (result & 0x80) != 0
        } else {
            (result & 0x8000) != 0
        };
        result = if is_byte {
            ((result << 1) & 0xFF) | (if cf {
                1u16
            } else {
                0u16
            })
        } else {
            ((result << 1) & 0xFFFF) | (if cf {
                1u16
            } else {
                0u16
            })
        };
        cf = new_cf;
        i = i + 1;
    }
    cpu.write_operand(mem, &instr.dst, result);
    cpu.set_flag(Cpu::CF, cf);
    if count == 1 {
        let msb = if is_byte {
            (result & 0x80) != 0
        } else {
            (result & 0x8000) != 0
        };
        cpu.set_flag(Cpu::OF, msb != cf);
    }
}

/// RCR - Rotate right through carry by `count` (mod 32)
pub fn rcr(cpu: &mut Cpu, mem: &mut MemoryBus, instr: &DecodedInstruction, count: u8)
    requires
        old(mem).wf(),
        operand_writable(instr.dst),
    ensures
        rc_effect(*old(cpu), *old(mem), *final(cpu), *final(mem), *instr, count, false),
{
    if count == 0 {
        return;
    }
    let value = cpu.read_operand(mem, &instr.dst);
    let is_byte = instr.dst.op_type == OperandType::Reg8 || instr.dst.op_type == OperandType::Mem8;
    let mut cf = cpu.get_flag(Cpu::CF);
    let mut result = value;
    let n: u8 = count & 0x1F;
    let mut i: u8 = 0;
    while i < n
        invariant
            0 <= i <= n,
            (result, cf) == rcr_steps(value, old(cpu).flag(Cpu::CF), i as nat, is_byte),
        decreases n - i,
    {
        let new_cf = (result & 1) != 0;
        result = (result >> 1) | (if cf {
            if is_byte {
                0x80u16
            } else {
                0x8000u16
            }
        } else {
            0u16
        });
        cf = new_cf;
        i = i + 1;
    }
    cpu.write_operand(mem, &instr.dst, result);
    cpu.set_flag(Cpu::CF, cf);
    if count == 1 {
        let msb = if is_byte {
            (result & 0x80) != 0
        } else {
            (result & 0x8000) != 0
        };
        let next_msb = if is_byte {
            (result & 0x40) != 0
        } else {
            (result & 0x4000) != 0
        };
        cpu.set_flag(Cpu::OF, msb != next_msb);
    }
}

/// Flags after a shift with result `r` and carry `cf`: CF from the shift,
/// ZF, SF and PF from the result, OF and AF cleared, and OF set for a
/// one-bit shift as `of1`.
pub open spec fn shift_flags(flags: u16, r: u16, cf: bool, is_byte: bool, count: u8, of1: bool) -> u16 {
    let f1 = set_bit(flags, Cpu::CF, cf);
    let f2 = flags_after(f1, r as u32, if is_byte {
        FlagOp::And8
    } else {
        FlagOp::And16
    });
    let f3 = f2 & !0x0811u16;
    let f4 = set_bit(f3, Cpu::CF, cf);
    if count == 1 {
        set_bit(f4, Cpu::OF, of1)
    } else {
        f4
    }
}

/// Set the flags of a shift (see `shift_flags`)
fn set_shift_flags(cpu: &mut Cpu, result: u16, new_cf: bool, is_byte: bool, count: u8, of1: bool)
    ensures
        final(cpu).flags == shift_flags(old(cpu).flags, result, new_cf, is_byte, count, of1),
        old(cpu).same_but_flags(*final(cpu)),
{
    cpu.set_flag(Cpu::CF, new_cf);
    if is_byte {
        cpu.set_lazy_flags(result as u32, FlagOp::And8);
    } else {
        cpu.set_lazy_flags(result as u32, FlagOp::And16);
    }
    cpu.clear_of_cf_af();
    cpu.set_flag(Cpu::CF, new_cf);
    if count == 1 {
        cpu.set_flag(Cpu::OF, of1);
    }
}

/// Effect of SHL/SAL by `count` (counts of 8 or 16 and more clear the
/// operand; CF is the last bit shifted out, none beyond the operand width)
pub open spec fn shl_effect(oc: Cpu, om: MemoryBus, nc: Cpu, nm: MemoryBus, instr: DecodedInstruction, count: u8) -> bool {
    let v = oc.read_op(om, instr.dst);
    let b = is_byte_operand(instr.dst);
    if count == 0 {
        nc == oc && nm == om
    } else {
        let (r, cf): (u16, bool) = if b {
            let val = v as u8;
            let c = if count >= 8 {
                8u8
            } else {
                count
            };
            (if c >= 8 {
                0u16
            } else {
                ((val << c) & 0xFF) as u16
            }, count <= 8 && (val >> ((8 - c) as u8)) & 1 != 0)
        } else {
            let c = if count >= 16 {
                16u8
            } else {
                count
            };
            (if c >= 16 {
                0u16
            } else {
                (v << c) & 0xFFFF
            }, count <= 16 && (v >> ((16 - c) as u8)) & 1 != 0)
        };
        shift_written(oc, om, nc, nm, instr, r, shift_flags(oc.flags, r, cf, b, count, sign_bit(r, b) != cf))
    }
}

/// SHL/SAL - Shift left by `count`
pub fn shl(cpu: &mut Cpu, mem: &mut MemoryBus, instr: &DecodedInstruction, count: u8)
    requires
        old(mem).wf(),
        operand_writable(instr.dst),
    ensures
        shl_effect(*old(cpu), *old(mem), *final(cpu), *final(mem), *instr, count),
{
    if count == 0 {
        return;
    }
    let value = cpu.read_operand(mem, &instr.dst);
    let is_byte = instr.dst.op_type == OperandType::Reg8 || instr.dst.op_type == OperandType::Mem8;
    let (result, new_cf): (u16, bool) = if is_byte {
        let val = value as u8;
        let c: u8 = if count >= 8 {
            8
        } else {
            count
        };
        // CF is the last bit shifted out: none is left once the count exceeds 8
        let cf = count <= 8 && (val >> (8 - c)) & 1 != 0;
        let result: u16 = if c >= 8 {
            0
        } else {
            ((val << c) & 0xFF) as u16
        };
        (result, cf)
    } else {
        let c: u8 = if count >= 16 {
            16
        } else {
            count
        };
        let cf = count <= 16 && (value >> (16 - c)) & 1 != 0;
        let result: u16 = if c >= 16 {
            0
        } else {
            (value << c) & 0xFFFF
        };
        (result, cf)
    };
    cpu.write_operand(mem, &instr.dst, result);
    let msb = if is_byte {
        (result & 0x80) != 0
    } else {
        (result & 0x8000) != 0
    };
    set_shift_flags(cpu, result, new_cf, is_byte, count, msb != new_cf);
}

/// Effect of SHR by `count`; OF for a one-bit shift is the operand's
/// original sign bit
pub open spec fn shr_effect(oc: Cpu, om: MemoryBus, nc: Cpu, nm: MemoryBus, instr: DecodedInstruction, count: u8) -> bool {
    let v = oc.read_op(om, instr.dst);
    let b = is_byte_operand(instr.dst);
    if count == 0 {
        nc == oc && nm == om
    } else {
        let (r, cf): (u16, bool) = if b {
            let val = v as u8;
            let c = if count >= 8 {
                8u8
            } else {
                count
            };
            (if c >= 8 {
                0u16
            } else {
                (val >> c) as u16
            }, count <= 8 && (val >> ((c - 1) as u8)) & 1 != 0)
        } else {
            let c = if count >= 16 {
                16u8
            } else {
                count
            };
            (if c >= 16 {
                0u16
            } else {
                v >> c
            }, count <= 16 && (v >> ((c - 1) as u8)) & 1 != 0)
        };
        shift_written(oc, om, nc, nm, instr, r, shift_flags(oc.flags, r, cf, b, count, sign_bit(v, b)))
    }
}

/// SHR - Logical shift right by `count`
pub fn shr(cpu: &mut Cpu, mem: &mut MemoryBus, instr: &DecodedInstruction, count: u8)
    requires
        old(mem).wf(),
        operand_writable(instr.dst),
    ensures
        shr_effect(*old(cpu), *old(mem), *final(cpu), *final(mem), *instr, count),
{
    if count == 0 {
        return;
    }
    let value = cpu.read_operand(mem, &instr.dst);
    let is_byte = instr.dst.op_type == OperandType::Reg8 || instr.dst.op_type == OperandType::Mem8;
    let original_msb = if is_byte {
        (value & 0x80) != 0
    } else {
        (value & 0x8000) != 0
    };
    let (result, new_cf): (u16, bool) = if is_byte {
        let val = value as u8;
        let c: u8 = if count >= 8 {
            8
        } else {
            count
        };
        // CF is the last bit shifted out: none is left once the count exceeds 8
        let cf = count <= 8 && (val >> (c - 1)) & 1 != 0;
        let result: u16 = if c >= 8 {
            0
        } else {
            (val >> c) as u16
        };
        (result, cf)
    } else {
        let c: u8 = if count >= 16 {
            16
        } else {
            count
        };
        let cf = count <= 16 && (value >> (c - 1)) & 1 != 0;
        let result: u16 = if c >= 16 {
            0
        } else {
            value >> c
        };
        (result, cf)
    };
    cpu.write_operand(mem, &instr.dst, result);
    set_shift_flags(cpu, result, new_cf, is_byte, count, original_msb);
}

/// Effect of SAR by `count`: the sign bit fills every vacated position
/// (all of them once the count reaches the operand width), CF is the last
/// bit shifted out (the sign bit for counts past the width); OF cleared
/// for a one-bit shift
pub open spec fn sar_effect(oc: Cpu, om: MemoryBus, nc: Cpu, nm: MemoryBus, instr: DecodedInstruction, count: u8) -> bool {
    let v = oc.read_op(om, instr.dst);
    let b = is_byte_operand(instr.dst);
    if count == 0 {
        nc == oc && nm == om
    } else {
        let (r, cf): (u16, bool) = if b {
            let val = v as u8;
            let c = if count >= 8 {
                8u8
            } else {
                count
            };
            (((val as i8) >> (if c >= 8 {
                7u8
            } else {
                c
            })) as u8 as u16, (val >> ((c - 1) as u8)) & 1 != 0)
        } else {
            let c = if count >= 16 {
                16u8
            } else {
                count
            };
            (((v as i16) >> (if c >= 16 {
                15u8
            } else {
                c
            })) as u16, (v >> ((c - 1) as u8)) & 1 != 0)
        };
        shift_written(oc, om, nc, nm, instr, r, shift_flags(oc.flags, r, cf, b, count, false))
    }
}

/// SAR - Arithmetic shift right by `count`
pub fn sar(cpu: &mut Cpu, mem: &mut MemoryBus, instr: &DecodedInstruction, count: u8)
    requires
        old(mem).wf(),
        operand_writable(instr.dst),
    ensures
        sar_effect(*old(cpu), *old(mem), *final(cpu), *final(mem), *instr, count),
{
    if count == 0 {
        return;
    }
    let value = cpu.read_operand(mem, &instr.dst);
    let is_byte = instr.dst.op_type == OperandType::Reg8 || instr.dst.op_type == OperandType::Mem8;
    let (result, new_cf): (u16, bool) = if is_byte {
        let val = value as u8;
        let c: u8 = if count >= 8 {
            8
        } else {
            count
        };
        let cf = (val >> (c - 1)) & 1 != 0;
        // A shift by the full width leaves only copies of the sign bit
        let shift: u8 = if c >= 8 {
            7
        } else {
            c
        };
        let result = ((val as i8) >> shift) as u8;
        (result as u16, cf)
    } else {
        let c: u8 = if count >= 16 {
            16
        } else {
            count
        };
        let cf = (value >> (c - 1)) & 1 != 0;
        let shift: u8 = if c >= 16 {
            15
        } else {
            c
        };
        let result = ((value as i16) >> shift) as u16;
        (result, cf)
    };
    cpu.write_operand(mem, &instr.dst, result);
    set_shift_flags(cpu, result, new_cf, is_byte, count, false);
}

/// Effect of shift/rotate `operation` (0=ROL, 1=ROR, 2=RCL, 3=RCR,
/// 4/6=SHL, 5=SHR, 7=SAR) by `count`
pub open spec fn shift_op_effect(oc: Cpu, om: MemoryBus, nc: Cpu, nm: MemoryBus, instr: DecodedInstruction, operation: u16, count: u8) -> bool {
    if operation == 0 {
        rol_effect(oc, om, nc, nm, instr, count)
    } else if operation == 1 {
        ror_effect(oc, om, nc, nm, instr, count)
    } else if operation == 2 {
        rc_effect(oc, om, nc, nm, instr, count, true)
    } else if operation == 3 {
        rc_effect(oc, om, nc, nm, instr, count, false)
    } else if operation == 4 || operation == 6 {
        shl_effect(oc, om, nc, nm, instr, count)
    } else if operation == 5 {
        shr_effect(oc, om, nc, nm, instr, count)
    } else {
        sar_effect(oc, om, nc, nm, instr, count)
    }
}

/// Whether shift group `operation` by `count` can run
pub open spec fn shift_group_ok(instr: DecodedInstruction, count: u8) -> bool {
    &&& instr.src.value < 8
    &&& operand_writable(instr.dst)
}

/// Run shift/rotate `operation` from the source operand by `count`
fn shift_group(cpu: &mut Cpu, mem: &mut MemoryBus, instr: &DecodedInstruction, count: u8)
    requires
        old(mem).wf(),
        shift_group_ok(*instr, count),
    ensures
        shift_op_effect(*old(cpu), *old(mem), *final(cpu), *final(mem), *instr, instr.src.value, count),
{
    match instr.src.value {
        0 => rol(cpu, mem, instr, count),
        1 => ror(cpu, mem, instr, count),
        2 => rcl(cpu, mem, instr, count),
        3 => rcr(cpu, mem, instr, count),
        4 | 6 => shl(cpu, mem, instr, count),
        5 => shr(cpu, mem, instr, count),
        _ => sar(cpu, mem, instr, count),
    }
}

/// Group 0xD0: shift/rotate r/m8 by 1
pub fn group_d0(cpu: &mut Cpu, mem: &mut MemoryBus, instr: &DecodedInstruction)
    requires
        old(mem).wf(),
        shift_group_ok(*instr, 1),
    ensures
        shift_op_effect(*old(cpu), *old(mem), *final(cpu), *final(mem), *instr, instr.src.value, 1),
{
    shift_group(cpu, mem, instr, 1);
}

/// Group 0xD1: shift/rotate r/m16 by 1
pub fn group_d1(cpu: &mut Cpu, mem: &mut MemoryBus, instr: &DecodedInstruction)
    requires
        old(mem).wf(),
        shift_group_ok(*instr, 1),
    ensures
        shift_op_effect(*old(cpu), *old(mem), *final(cpu), *final(mem), *instr, instr.src.value, 1),
{
    shift_group(cpu, mem, instr, 1);
}

/// Group 0xD2: shift/rotate r/m8 by CL
pub fn group_d2(cpu: &mut Cpu, mem: &mut MemoryBus, instr: &DecodedInstruction)
    requires
        old(mem).wf(),
        shift_group_ok(*instr, old(cpu).reg8(1)),
    ensures
        shift_op_effect(*old(cpu), *old(mem), *final(cpu), *final(mem), *instr, instr.src.value, old(cpu).reg8(1)),
{
    let count = cpu.read_reg8(1);
    shift_group(cpu, mem, instr, count);
}

/// Group 0xD3: shift/rotate r/m16 by CL
pub fn group_d3(cpu: &mut Cpu, mem: &mut MemoryBus, instr: &DecodedInstruction)
    requires
        old(mem).wf(),
        shift_group_ok(*instr, old(cpu).reg8(1)),
    ensures
        shift_op_effect(*old(cpu), *old(mem), *final(cpu), *final(mem), *instr, instr.src.value, old(cpu).reg8(1)),
{
    let count = cpu.read_reg8(1);
    shift_group(cpu, mem, instr, count);
}

/// Rotating a byte or a word right by `c` undoes rotating it left by `c`.
pub proof fn lemma_rotr_rotl(v8: u8, v16: u16, c: u8)
    by (bit_vector)
    ensures
        1 <= c < 8 ==> rotr8(rotl8(v8, c), c) == v8,
        1 <= c < 16 ==> rotr16(rotl16(v16, c), c) == v16,
{
}

/// ROR by `count` undoes ROL by the same `count`: the operand (a register,
/// or memory that can be written) holds its old value again.
pub proof fn law_ror_undoes_rol(
    c0: Cpu,
    m0: MemoryBus,
    c1: Cpu,
    m1: MemoryBus,
    c2: Cpu,
    m2: MemoryBus,
    instr: DecodedInstruction,
    count: u8,
)
    requires
        operand_stores(c0, instr.dst),
        rol_effect(c0, m0, c1, m1, instr, count),
        ror_effect(c1, m1, c2, m2, instr, count),
    ensures
        c2.read_op(m2, instr.dst) == c0.read_op(m0, instr.dst),
{
    let v = c0.read_op(m0, instr.dst);
    let b = is_byte_operand(instr.dst);
    let c = rotate_count(count, b);
    if count != 0 && c != 0 {
        lemma_count_masks(count);
        let r1: u16 = if b {
            rotl8(v as u8, c) as u16
        } else {
            rotl16(v, c)
        };
        law_operand_read_after_write(c0, m0, c1, m1, instr.dst, r1);
        let v1 = c1.read_op(m1, instr.dst);
        let r2: u16 = if b {
            rotr8(v1 as u8, c) as u16
        } else {
            rotr16(v1, c)
        };
        law_operand_read_after_write(c1, m1, c2, m2, instr.dst, r2);
        if b {
            lemma_rotr_rotl(v as u8, 0, c);
            assert(v < 256);
        } else {
            lemma_rotr_rotl(0, v, c);
        }
    }
}

/// One step right through the carry undoes one step left (a byte value
/// stays below 256).
pub proof fn lemma_rcr_step_rcl_step(r: u16, cf: bool, is_byte: bool)
    requires
        is_byte ==> r < 256,
    ensures
        rcr_step(rcl_step(r, cf, is_byte).0, rcl_step(r, cf, is_byte).1, is_byte) == (r, cf),
        is_byte ==> rcl_step(r, cf, is_byte).0 < 256,
{
    let x: u16 = if cf {
        1u16
    } else {
        0u16
    };
    let y: u16 = if is_byte {
        0x80u16
    } else {
        0x8000u16
    };
    let top: u16 = if is_byte {
        0x80u16
    } else {
        0x8000u16
    };
    assert({
        let s: u16 = if is_byte {
            ((r << 1u16) & 0xFF) | x
        } else {
            ((r << 1u16) & 0xFFFF) | x
        };
        let c1 = r & top != 0;
        &&& ((s >> 1u16) | (if c1 {
            y
        } else {
            0u16
        })) == r
        &&& (s & 1 != 0) == cf
        &&& (is_byte ==> s < 256)
    }) by (bit_vector)
        requires
            is_byte ==> r < 256,
            x == (if cf {
                1u16
            } else {
                0u16
            }),
            y == top,
            top == (if is_byte {
                0x80u16
            } else {
                0x8000u16
            }),
    ;
}

/// `n + 1` steps right are one step right followed by `n` more.
pub proof fn lemma_rcr_steps_first(r: u16, cf: bool, n: nat, is_byte: bool)
    ensures
        rcr_steps(r, cf, n + 1, is_byte) == rcr_steps(rcr_step(r, cf, is_byte).0, rcr_step(r, cf, is_byte).1, n, is_byte),
    decreases n,
{
    let q = rcr_step(r, cf, is_byte);
    if n > 0 {
        lemma_rcr_steps_first(r, cf, (n - 1) as nat, is_byte);
        let p = rcr_steps(r, cf, n, is_byte);
        let t = rcr_steps(q.0, q.1, (n - 1) as nat, is_byte);
        assert(p == t);
        assert(rcr_steps(r, cf, n + 1, is_byte) == rcr_step(p.0, p.1, is_byte));
        assert(rcr_steps(q.0, q.1, n, is_byte) == rcr_step(t.0, t.1, is_byte));
    } else {
        let z = rcr_steps(r, cf, 0, is_byte);
        assert(z == (r, cf));
        assert(rcr_steps(r, cf, 1, is_byte) == rcr_step(z.0, z.1, is_byte));
    }
}

/// `n` steps right through the carry undo `n` steps left, for the value and
/// the carry.
pub proof fn lemma_rcr_steps_rcl_steps(r: u16, cf: bool, n: nat, is_byte: bool)
    requires
        is_byte ==> r < 256,
    ensures
        rcr_steps(rcl_steps(r, cf, n, is_byte).0, rcl_steps(r, cf, n, is_byte).1, n, is_byte) == (r, cf),
        is_byte ==> rcl_steps(r, cf, n, is_byte).0 < 256,
    decreases n,
{
    if n > 0 {
        let m = (n - 1) as nat;
        lemma_rcr_steps_rcl_steps(r, cf, m, is_byte);
        let p = rcl_steps(r, cf, m, is_byte);
        lemma_rcr_step_rcl_step(p.0, p.1, is_byte);
        let q = rcl_step(p.0, p.1, is_byte);
        lemma_rcr_steps_first(q.0, q.1, m, is_byte);
    }
}

/// RCR by `count` undoes RCL by the same `count`: the operand (a register,
/// or memory that can be written) and the carry flag hold their old values
/// again.
pub proof fn law_rcr_undoes_rcl(
    c0: Cpu,
    m0: MemoryBus,
    c1: Cpu,
    m1: MemoryBus,
    c2: Cpu,
    m2: MemoryBus,
    instr: DecodedInstruction,
    count: u8,
)
    requires
        operand_stores(c0, instr.dst),
        rc_effect(c0, m0, c1, m1, instr, count, true),
        rc_effect(c1, m1, c2, m2, instr, count, false),
    ensures
        c2.read_op(m2, instr.dst) == c0.read_op(m0, instr.dst),
        c2.flag(Cpu::CF) == c0.flag(Cpu::CF),
{
    if count != 0 {
        let v = c0.read_op(m0, instr.dst);
        let b = is_byte_operand(instr.dst);
        let n = (count & 0x1F) as nat;
        assert(b ==> v < 256);
        lemma_flag_masks_disjoint();
        lemma_rcr_steps_rcl_steps(v, c0.flag(Cpu::CF), n, b);
        let (r1, cf1) = rcl_steps(v, c0.flag(Cpu::CF), n, b);
        law_operand_read_after_write(c0, m0, c1, m1, instr.dst, r1);
        law_flag_read_after_write(c0.flags, Cpu::CF, cf1, Cpu::OF);
        let f1 = set_bit(c0.flags, Cpu::CF, cf1);
        law_flag_read_after_write(f1, Cpu::OF, sign_bit(r1, b) != cf1, Cpu::CF);
        assert(c1.flag(Cpu::CF) == cf1);
        let v1 = c1.read_op(m1, instr.dst);
        assert(v1 == r1);
        let (r2, cf2) = rcr_steps(v1, cf1, n, b);
        law_operand_read_after_write(c1, m1, c2, m2, instr.dst, r2);
        law_flag_read_after_write(c1.flags, Cpu::CF, cf2, Cpu::OF);
        let g1 = set_bit(c1.flags, Cpu::CF, cf2);
        law_flag_read_after_write(g1, Cpu::OF, sign_bit(r2, b) != next_bit(r2, b), Cpu::CF);
    }
}

} // verus!
