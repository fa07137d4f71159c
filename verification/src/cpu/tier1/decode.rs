//! Tier 1 operand decoding
//!
//! Decodes operands on-the-fly during first execution (cold path), directly
//! from memory at CS:IP, without caching.

use crate::cpu::decode::instruction::{no_operand, DecodedInstruction};
use crate::cpu::decode::operands::{Operand, OperandType};
use crate::cpu::execute::control_flow::jump_target;
use crate::cpu::state::{operand_ok, phys, Cpu};
use crate::memory::MemoryBus;
use vstd::prelude::*;

verus! {

/// `ip + n` in the 16-bit instruction pointer space
pub open spec fn ip_plus(ip: u16, n: int) -> u16 {
    ((ip as int + n) % 65536) as u16
}

/// Opcodes with a ModR/M byte whose r/m field is the destination and reg
/// field the source (ADD, OR, ADC, AND, SUB, XOR, MOV, XCHG r/m, r)
pub open spec fn is_rm_reg_opcode(op: u8) -> bool {
    op == 0x00 || op == 0x01 || op == 0x08 || op == 0x09 || op == 0x10 || op == 0x11 || op == 0x20
        || op == 0x21 || op == 0x28 || op == 0x29 || op == 0x30 || op == 0x31 || op == 0x88 || op
        == 0x89 || op == 0x86 || op == 0x87
}

/// Opcodes with a ModR/M byte whose reg field is the destination and r/m
/// field the source (ADD, OR, ADC, AND, SUB, XOR, MOV r, r/m)
pub open spec fn is_reg_rm_opcode(op: u8) -> bool {
    op == 0x02 || op == 0x03 || op == 0x0A || op == 0x0B || op == 0x12 || op == 0x13 || op == 0x22
        || op == 0x23 || op == 0x2A || op == 0x2B || op == 0x32 || op == 0x33 || op == 0x8A || op
        == 0x8B
}

/// Opcodes with AL/AX and an immediate (ADD, OR, ADC, AND, SUB, XOR)
pub open spec fn is_acc_imm_opcode(op: u8) -> bool {
    op == 0x04 || op == 0x05 || op == 0x0C || op == 0x0D || op == 0x14 || op == 0x15 || op == 0x24
        || op == 0x25 || op == 0x2C || op == 0x2D || op == 0x34 || op == 0x35
}

/// A register operand from a 3-bit register field
pub open spec fn reg_operand(reg: u8, is_byte: bool) -> Operand {
    Operand {
        op_type: if is_byte {
            OperandType::Reg8
        } else {
            OperandType::Reg16
        },
        value: reg as u16,
        segment: 0xFF,
        disp: 0,
    }
}

/// An operand with default segment and no displacement
pub open spec fn plain_operand(op_type: OperandType, value: u16) -> Operand {
    Operand { op_type, value, segment: 0xFF, disp: 0 }
}

/// A group operand: the r/m operand with the ModR/M reg field in the high byte
pub open spec fn with_group_reg(rm: Operand, reg: u8) -> Operand {
    Operand { value: ((rm.value & 0xFF) | ((reg as u16) << 8u16)) as u16, ..rm }
}

impl Cpu {
    /// The code byte at CS:`ip`
    pub open spec fn byte_at(self, mem: MemoryBus, ip: u16) -> u8 {
        mem.byte(phys(self.segments@[1], ip))
    }

    /// The little-endian code word at CS:`ip`
    pub open spec fn word_at(self, mem: MemoryBus, ip: u16) -> u16 {
        (((self.byte_at(mem, ip_plus(ip, 1)) as u16) << 8u16) | (self.byte_at(mem, ip) as u16)) as u16
    }

    /// The r/m operand of ModR/M byte `modrm` whose displacement (if any)
    /// starts at CS:`ip`, and the displacement's length
    pub open spec fn rm_from_modrm(self, mem: MemoryBus, modrm: u8, ip: u16, is_byte: bool) -> (Operand, u8) {
        let mod_bits = (modrm >> 6u8) & 0x03;
        let rm = modrm & 0x07;
        let t = if is_byte {
            OperandType::Mem8
        } else {
            OperandType::Mem16
        };
        if mod_bits == 3 {
            (reg_operand(rm, is_byte), 0)
        } else if mod_bits == 0 {
            if rm == 6 {
                (Operand { op_type: t, value: 0xFF, segment: 0xFF, disp: self.word_at(mem, ip) as i16 }, 2)
            } else {
                (plain_operand(t, rm as u16), 0)
            }
        } else if mod_bits == 1 {
            (Operand { op_type: t, value: rm as u16, segment: 0xFF, disp: self.byte_at(mem, ip) as i8 as i16 }, 1)
        } else {
            (Operand { op_type: t, value: rm as u16, segment: 0xFF, disp: self.word_at(mem, ip) as i16 }, 2)
        }
    }

    /// The instruction with no operands and length 1
    pub open spec fn t1_base(opcode: u8) -> DecodedInstruction {
        DecodedInstruction { opcode, dst: no_operand(), src: no_operand(), length: 1, base_cycles: 0, ea_cycles: 0 }
    }

    /// ModR/M forms: r/m and reg operands, r/m first when `rm_is_dst`
    pub open spec fn t1_modrm(self, mem: MemoryBus, opcode: u8, rm_is_dst: bool) -> DecodedInstruction {
        let ip = self.ip;
        let m = self.byte_at(mem, ip);
        let b = opcode % 2 == 0;
        let (rm, extra) = self.rm_from_modrm(mem, m, ip_plus(ip, 1), b);
        let reg = reg_operand((m >> 3u8) & 0x07, b);
        if rm_is_dst {
            DecodedInstruction { dst: rm, src: reg, length: (2 + extra) as u8, ..Self::t1_base(opcode) }
        } else {
            DecodedInstruction { dst: reg, src: rm, length: (2 + extra) as u8, ..Self::t1_base(opcode) }
        }
    }

    /// AL/AX with an immediate byte or word
    pub open spec fn t1_acc_imm(self, mem: MemoryBus, opcode: u8) -> DecodedInstruction {
        let ip = self.ip;
        if opcode % 2 == 0 {
            DecodedInstruction {
                dst: reg_operand(0, true),
                src: plain_operand(OperandType::Imm8, self.byte_at(mem, ip) as u16),
                length: 2,
                ..Self::t1_base(opcode)
            }
        } else {
            DecodedInstruction {
                dst: reg_operand(0, false),
                src: plain_operand(OperandType::Imm16, self.word_at(mem, ip)),
                length: 3,
                ..Self::t1_base(opcode)
            }
        }
    }

    /// MOV r, imm (0xB0-0xBF)
    pub open spec fn t1_mov_imm(self, mem: MemoryBus, opcode: u8) -> DecodedInstruction {
        let ip = self.ip;
        if opcode <= 0xB7 {
            DecodedInstruction {
                dst: reg_operand(opcode & 0x07, true),
                src: plain_operand(OperandType::Imm8, self.byte_at(mem, ip) as u16),
                length: 2,
                ..Self::t1_base(opcode)
            }
        } else {
            DecodedInstruction {
                dst: reg_operand(opcode & 0x07, false),
                src: plain_operand(OperandType::Imm16, self.word_at(mem, ip)),
                length: 3,
                ..Self::t1_base(opcode)
            }
        }
    }

    /// MOV r/m, imm (0xC6, 0xC7)
    pub open spec fn t1_mov_rm_imm(self, mem: MemoryBus, opcode: u8) -> DecodedInstruction {
        let ip = self.ip;
        let b = opcode % 2 == 0;
        let (rm, extra) = self.rm_from_modrm(mem, self.byte_at(mem, ip), ip_plus(ip, 1), b);
        let k = ip_plus(ip, 1 + extra);
        if b {
            DecodedInstruction {
                dst: rm,
                src: plain_operand(OperandType::Imm8, self.byte_at(mem, k) as u16),
                length: (3 + extra) as u8,
                ..Self::t1_base(opcode)
            }
        } else {
            DecodedInstruction {
                dst: rm,
                src: plain_operand(OperandType::Imm16, self.word_at(mem, k)),
                length: (4 + extra) as u8,
                ..Self::t1_base(opcode)
            }
        }
    }

    /// Opcodes whose register operand is in the opcode byte
    pub open spec fn is_register_opcode(opcode: u8) -> bool {
        0x91 <= opcode <= 0x97 || 0x40 <= opcode <= 0x5F || opcode == 0x06 || opcode == 0x0E
            || opcode == 0x16 || opcode == 0x1E || opcode == 0x07 || opcode == 0x17 || opcode == 0x1F
    }

    /// XCHG AX, INC, DEC, PUSH, POP of a register or segment register
    pub open spec fn t1_register(opcode: u8) -> DecodedInstruction {
        let base = Self::t1_base(opcode);
        if 0x50 <= opcode <= 0x57 {
            DecodedInstruction { src: reg_operand(opcode & 0x07, false), ..base }
        } else if opcode == 0x06 || opcode == 0x0E || opcode == 0x16 || opcode == 0x1E {
            DecodedInstruction { src: plain_operand(OperandType::SegReg, ((opcode >> 3u8) & 0x03) as u16), ..base }
        } else if opcode == 0x07 || opcode == 0x17 || opcode == 0x1F {
            DecodedInstruction { dst: plain_operand(OperandType::SegReg, ((opcode >> 3u8) & 0x03) as u16), ..base }
        } else {
            DecodedInstruction { dst: reg_operand(opcode & 0x07, false), ..base }
        }
    }

    /// Opcodes with a relative or absolute branch target, or a RET count
    pub open spec fn is_branch_opcode(opcode: u8) -> bool {
        opcode == 0xEB || 0x70 <= opcode <= 0x7F || opcode == 0xE9 || opcode == 0xE8 || opcode == 0xC2
            || opcode == 0xCA || opcode == 0x9A || opcode == 0xEA
    }

    /// JMP short, Jcc (sign-extended byte), JMP/CALL near, RET imm (word),
    /// CALL/JMP far (offset in the source, segment in the destination)
    pub open spec fn t1_branch(self, mem: MemoryBus, opcode: u8) -> DecodedInstruction {
        let ip = self.ip;
        let base = Self::t1_base(opcode);
        if opcode == 0xEB || 0x70 <= opcode <= 0x7F {
            DecodedInstruction {
                src: plain_operand(OperandType::Imm16, self.byte_at(mem, ip) as i8 as i16 as u16),
                length: 2,
                ..base
            }
        } else if opcode == 0x9A || opcode == 0xEA {
            DecodedInstruction {
                src: plain_operand(OperandType::Imm16, self.word_at(mem, ip)),
                dst: plain_operand(OperandType::Imm16, self.word_at(mem, ip_plus(ip, 2))),
                length: 5,
                ..base
            }
        } else {
            DecodedInstruction { src: plain_operand(OperandType::Imm16, self.word_at(mem, ip)), length: 3, ..base }
        }
    }

    /// Groups 0x80-0x83 (with an immediate) and 0xFF: the reg field goes
    /// into the destination's high byte
    pub open spec fn t1_group(self, mem: MemoryBus, opcode: u8) -> DecodedInstruction {
        let ip = self.ip;
        let m = self.byte_at(mem, ip);
        let reg = (m >> 3u8) & 0x07;
        let word_rm = opcode == 0x81 || opcode == 0x83 || opcode == 0xFF;
        let (rm, extra) = self.rm_from_modrm(mem, m, ip_plus(ip, 1), !word_rm);
        let k = ip_plus(ip, 1 + extra);
        let base = DecodedInstruction { dst: with_group_reg(rm, reg), ..Self::t1_base(opcode) };
        if opcode == 0xFF {
            DecodedInstruction { length: (2 + extra) as u8, ..base }
        } else if opcode == 0x81 {
            DecodedInstruction {
                src: plain_operand(OperandType::Imm16, self.word_at(mem, k)),
                length: (4 + extra) as u8,
                ..base
            }
        } else if opcode == 0x83 {
            DecodedInstruction {
                src: plain_operand(OperandType::Imm16, self.byte_at(mem, k) as i8 as i16 as u16),
                length: (3 + extra) as u8,
                ..base
            }
        } else {
            DecodedInstruction {
                src: plain_operand(OperandType::Imm8, self.byte_at(mem, k) as u16),
                length: (3 + extra) as u8,
                ..base
            }
        }
    }

    /// Group opcodes decoded by tier 1
    pub open spec fn is_group_opcode(opcode: u8) -> bool {
        opcode == 0x80 || opcode == 0x81 || opcode == 0x82 || opcode == 0x83 || opcode == 0xFF
    }

    /// The instruction that tier 1 decodes for `opcode`, with IP just past
    /// the opcode byte; opcodes of no decoded form get no operands.
    pub open spec fn t1_decode(self, mem: MemoryBus, opcode: u8) -> DecodedInstruction {
        if is_rm_reg_opcode(opcode) {
            self.t1_modrm(mem, opcode, true)
        } else if is_reg_rm_opcode(opcode) {
            self.t1_modrm(mem, opcode, false)
        } else if is_acc_imm_opcode(opcode) {
            self.t1_acc_imm(mem, opcode)
        } else if 0xB0 <= opcode <= 0xBF {
            self.t1_mov_imm(mem, opcode)
        } else if opcode == 0xC6 || opcode == 0xC7 {
            self.t1_mov_rm_imm(mem, opcode)
        } else if Self::is_register_opcode(opcode) {
            Self::t1_register(opcode)
        } else if Self::is_branch_opcode(opcode) {
            self.t1_branch(mem, opcode)
        } else if Self::is_group_opcode(opcode) {
            self.t1_group(mem, opcode)
        } else {
            Self::t1_base(opcode)
        }
    }

    /// The decoding postcondition shared by the tier 1 helpers
    pub open spec fn t1_decoded(old: Cpu, new: Cpu, r: DecodedInstruction) -> bool {
        &&& new.ip == ip_plus(old.ip, r.length - 1)
        &&& operand_ok(r.dst)
        &&& operand_ok(r.src)
        &&& new.regs == old.regs
        &&& new.segments == old.segments
        &&& new.flags == old.flags
        &&& old.same_aux(new)
    }

    /// Decode the r/m operand of ModR/M byte `modrm`, fetching its
    /// displacement; returns the operand and the displacement length.
    fn decode_rm_from_modrm_byte(&mut self, mem: &MemoryBus, modrm: u8, is_byte: bool) -> (r: (Operand, u8))
        requires
            mem.wf(),
        ensures
            r == old(self).rm_from_modrm(*mem, modrm, old(self).ip, is_byte),
            r.1 <= 2,
            operand_ok(r.0),
            r.0.value < 8 || r.0.value == 0xFF,
            final(self).ip == ip_plus(old(self).ip, r.1 as int),
            final(self).regs == old(self).regs,
            final(self).segments == old(self).segments,
            final(self).flags == old(self).flags,
            old(self).same_aux(*final(self)),
    {
        let mod_bits = (modrm >> 6) & 0x03;
        let rm = modrm & 0x07;
        proof {
            lemma_field_bounds(modrm);
        }
        if mod_bits == 3 {
            let op = if is_byte {
                Operand::reg8(rm)
            } else {
                Operand::reg16(rm)
            };
            (op, 0)
        } else if mod_bits == 0 {
            if rm == 6 {
                let disp = self.fetch_u16(mem);
                let op = if is_byte {
                    Operand::mem8_disp(0xFF, disp as i16)
                } else {
                    Operand::mem16_disp(0xFF, disp as i16)
                };
                (op, 2)
            } else {
                let op = if is_byte {
                    Operand::mem8(rm)
                } else {
                    Operand::mem16(rm)
                };
                (op, 0)
            }
        } else if mod_bits == 1 {
            let disp = self.fetch_u8(mem) as i8 as i16;
            let op = if is_byte {
                Operand::mem8_disp(rm, disp)
            } else {
                Operand::mem16_disp(rm, disp)
            };
            (op, 1)
        } else {
            let disp = self.fetch_u16(mem) as i16;
            let op = if is_byte {
                Operand::mem8_disp(rm, disp)
            } else {
                Operand::mem16_disp(rm, disp)
            };
            (op, 2)
        }
    }

    /// Fetch a ModR/M byte and decode its r/m operand (with displacement)
    /// and reg operand; returns (r/m, reg, ModR/M byte plus displacement length)
    fn decode_modrm_operands(&mut self, mem: &MemoryBus, is_byte: bool) -> (r: (Operand, Operand, u8))
        requires
            mem.wf(),
        ensures
            ({
                let m = old(self).byte_at(*mem, old(self).ip);
                let (rm, extra) = old(self).rm_from_modrm(*mem, m, ip_plus(old(self).ip, 1), is_byte);
                &&& r == (rm, reg_operand((m >> 3u8) & 0x07, is_byte), (1 + extra) as u8)
                &&& extra <= 2
                &&& final(self).ip == ip_plus(old(self).ip, 1 + extra)
            }),
            operand_ok(r.0),
            final(self).regs == old(self).regs,
            final(self).segments == old(self).segments,
            final(self).flags == old(self).flags,
            old(self).same_aux(*final(self)),
    {
        let modrm = self.fetch_u8(mem);
        let reg = (modrm >> 3) & 0x07;
        let reg_operand = if is_byte {
            Operand::reg8(reg)
        } else {
            Operand::reg16(reg)
        };
        let (rm_operand, extra_len) = self.decode_rm_from_modrm_byte(mem, modrm, is_byte);
        (rm_operand, reg_operand, 1 + extra_len)
    }

    /// Decode a ModR/M form (`rm_is_dst`: r/m is the destination)
    fn decode_modrm_form(&mut self, mem: &MemoryBus, opcode: u8, rm_is_dst: bool) -> (r: DecodedInstruction)
        requires
            mem.wf(),
        ensures
            r == old(self).t1_modrm(*mem, opcode, rm_is_dst),
            Self::t1_decoded(*old(self), *final(self), r),
    {
        let instr = DecodedInstruction::new(opcode);
        let is_byte = opcode % 2 == 0;
        if rm_is_dst {
            let (dst, src, len) = self.decode_modrm_operands(mem, is_byte);
            instr.with_dst(dst).with_src(src).with_length(1 + len)
        } else {
            let (src, dst, len) = self.decode_modrm_operands(mem, is_byte);
            instr.with_dst(dst).with_src(src).with_length(1 + len)
        }
    }

    /// Decode AL/AX, imm
    fn decode_acc_imm(&mut self, mem: &MemoryBus, opcode: u8) -> (r: DecodedInstruction)
        requires
            mem.wf(),
        ensures
            r == old(self).t1_acc_imm(*mem, opcode),
            Self::t1_decoded(*old(self), *final(self), r),
    {
        let instr = DecodedInstruction::new(opcode);
        if opcode % 2 == 0 {
            let imm = self.fetch_u8(mem);
            instr.with_dst(Operand::reg8(0)).with_src(Operand::imm8(imm)).with_length(2)
        } else {
            let imm = self.fetch_u16(mem);
            instr.with_dst(Operand::reg16(0)).with_src(Operand::imm16(imm)).with_length(3)
        }
    }

    /// Decode MOV r, imm
    fn decode_mov_imm(&mut self, mem: &MemoryBus, opcode: u8) -> (r: DecodedInstruction)
        requires
            mem.wf(),
        ensures
            r == old(self).t1_mov_imm(*mem, opcode),
            Self::t1_decoded(*old(self), *final(self), r),
    {
        let instr = DecodedInstruction::new(opcode);
        if opcode <= 0xB7 {
            let imm = self.fetch_u8(mem);
            instr.with_dst(Operand::reg8(opcode & 0x07)).with_src(Operand::imm8(imm)).with_length(2)
        } else {
            let imm = self.fetch_u16(mem);
            instr.with_dst(Operand::reg16(opcode & 0x07)).with_src(Operand::imm16(imm)).with_length(3)
        }
    }

    /// Decode MOV r/m, imm
    fn decode_mov_rm_imm(&mut self, mem: &MemoryBus, opcode: u8) -> (r: DecodedInstruction)
        requires
            mem.wf(),
        ensures
            r == old(self).t1_mov_rm_imm(*mem, opcode),
            Self::t1_decoded(*old(self), *final(self), r),
    {
        let instr = DecodedInstruction::new(opcode);
        let is_byte = opcode % 2 == 0;
        let (dst, _, modrm_len) = self.decode_modrm_operands(mem, is_byte);
        if is_byte {
            let imm = self.fetch_u8(mem);
            instr.with_dst(dst).with_src(Operand::imm8(imm)).with_length(1 + modrm_len + 1)
        } else {
            let imm = self.fetch_u16(mem);
            instr.with_dst(dst).with_src(Operand::imm16(imm)).with_length(1 + modrm_len + 2)
        }
    }

    /// Decode a register form (operand in the opcode byte)
    fn decode_register(opcode: u8) -> (r: DecodedInstruction)
        requires
            Self::is_register_opcode(opcode),
        ensures
            r == Self::t1_register(opcode),
    {
        let instr = DecodedInstruction::new(opcode);
        if 0x50 <= opcode && opcode <= 0x57 {
            instr.with_src(Operand::reg16(opcode & 0x07)).with_length(1)
        } else if opcode == 0x06 || opcode == 0x0E || opcode == 0x16 || opcode == 0x1E {
            let seg = (opcode >> 3) & 0x03;
            instr.with_src(Operand::seg(seg)).with_length(1)
        } else if opcode == 0x07 || opcode == 0x17 || opcode == 0x1F {
            let seg = (opcode >> 3) & 0x03;
            instr.with_dst(Operand::seg(seg)).with_length(1)
        } else {
            instr.with_dst(Operand::reg16(opcode & 0x07)).with_length(1)
        }
    }

    /// Decode a branch form
    fn decode_branch(&mut self, mem: &MemoryBus, opcode: u8) -> (r: DecodedInstruction)
        requires
            mem.wf(),
            Self::is_branch_opcode(opcode),
        ensures
            r == old(self).t1_branch(*mem, opcode),
            Self::t1_decoded(*old(self), *final(self), r),
    {
        let instr = DecodedInstruction::new(opcode);
        if opcode == 0xEB || (0x70 <= opcode && opcode <= 0x7F) {
            let rel8 = self.fetch_u8(mem) as i8 as i16 as u16;
            instr.with_src(Operand::imm16(rel8)).with_length(2)
        } else if opcode == 0x9A || opcode == 0xEA {
            let offset = self.fetch_u16(mem);
            let segment = self.fetch_u16(mem);
            instr.with_src(Operand::imm16(offset)).with_dst(Operand::imm16(segment)).with_length(5)
        } else {
            let imm = self.fetch_u16(mem);
            instr.with_src(Operand::imm16(imm)).with_length(3)
        }
    }

    /// Decode a group form
    fn decode_group(&mut self, mem: &MemoryBus, opcode: u8) -> (r: DecodedInstruction)
        requires
            mem.wf(),
            Self::is_group_opcode(opcode),
        ensures
            r == old(self).t1_group(*mem, opcode),
            Self::t1_decoded(*old(self), *final(self), r),
    {
        let instr = DecodedInstruction::new(opcode);
        let word_rm = opcode == 0x81 || opcode == 0x83 || opcode == 0xFF;
        let modrm = self.fetch_u8(mem);
        proof {
            lemma_field_bounds(modrm);
        }
        let reg = (modrm >> 3) & 0x07;
        let (rm_operand, extra_len) = self.decode_rm_from_modrm_byte(mem, modrm, !word_rm);
        let mut dst_with_reg = rm_operand;
        dst_with_reg.value = (dst_with_reg.value & 0xFF) | ((reg as u16) << 8);
        proof {
            lemma_group_operand_ok(rm_operand, reg);
        }
        if opcode == 0xFF {
            instr.with_dst(dst_with_reg).with_length(1 + 1 + extra_len)
        } else if opcode == 0x81 {
            let imm = self.fetch_u16(mem);
            instr.with_dst(dst_with_reg).with_src(Operand::imm16(imm)).with_length(1 + 1 + extra_len + 2)
        } else if opcode == 0x83 {
            let imm8 = self.fetch_u8(mem);
            let imm16 = (imm8 as i8) as i16 as u16;
            instr.with_dst(dst_with_reg).with_src(Operand::imm16(imm16)).with_length(1 + 1 + extra_len + 1)
        } else {
            let imm = self.fetch_u8(mem);
            instr.with_dst(dst_with_reg).with_src(Operand::imm8(imm)).with_length(1 + 1 + extra_len + 1)
        }
    }

    /// Decode the operands for `opcode` (IP just past the opcode byte),
    /// fetching them from CS:IP.
    ///
    /// Register, memory and immediate operands are decoded for the ALU
    /// r/m-reg and accumulator-immediate forms, MOV, XCHG, PUSH/POP, INC/DEC,
    /// relative jumps and calls, far calls, RET imm, and groups 0x80-0x83
    /// and 0xFF (whose ModR/M reg field lands in the destination's high
    /// byte); every other opcode is decoded without operands.
    pub fn decode_instruction_t1(&mut self, mem: &MemoryBus, opcode: u8) -> (r: DecodedInstruction)
        requires
            mem.wf(),
        ensures
            r == old(self).t1_decode(*mem, opcode),
            Self::t1_decoded(*old(self), *final(self), r),
    {
        if is_rm_reg_op(opcode) {
            self.decode_modrm_form(mem, opcode, true)
        } else if is_reg_rm_op(opcode) {
            self.decode_modrm_form(mem, opcode, false)
        } else if is_acc_imm_op(opcode) {
            self.decode_acc_imm(mem, opcode)
        } else if 0xB0 <= opcode && opcode <= 0xBF {
            self.decode_mov_imm(mem, opcode)
        } else if opcode == 0xC6 || opcode == 0xC7 {
            self.decode_mov_rm_imm(mem, opcode)
        } else if (0x91 <= opcode && opcode <= 0x97) || (0x40 <= opcode && opcode <= 0x5F) || opcode
            == 0x06 || opcode == 0x0E || opcode == 0x16 || opcode == 0x1E || opcode == 0x07 || opcode
            == 0x17 || opcode == 0x1F {
            Self::decode_register(opcode)
        } else if opcode == 0xEB || (0x70 <= opcode && opcode <= 0x7F) || opcode == 0xE9 || opcode
            == 0xE8 || opcode == 0xC2 || opcode == 0xCA || opcode == 0x9A || opcode == 0xEA {
            self.decode_branch(mem, opcode)
        } else if opcode == 0x80 || opcode == 0x81 || opcode == 0x82 || opcode == 0x83 || opcode
            == 0xFF {
            self.decode_group(mem, opcode)
        } else {
            DecodedInstruction::new(opcode)
        }
    }
}

/// The mod and r/m fields of a ModR/M byte
proof fn lemma_field_bounds(m: u8)
    by (bit_vector)
    ensures
        (m >> 6u8) & 0x03 < 4,
        m & 0x07 < 8,
        (m >> 3u8) & 0x07 < 8,
{
}

/// Putting the reg field in the high byte keeps the base/index in the low byte
proof fn lemma_group_operand_ok(rm: Operand, reg: u8)
    requires
        operand_ok(rm),
        reg < 8,
        rm.value < 8 || rm.value == 0xFF,
    ensures
        operand_ok(with_group_reg(rm, reg)),
{
    let v = rm.value;
    assert((((v & 0xFF) | ((reg as u16) << 8u16)) as u8) == (v as u8)) by (bit_vector);
}

/// Whether `op` is an r/m, reg ALU/MOV/XCHG opcode
fn is_rm_reg_op(op: u8) -> (r: bool)
    ensures
        r == is_rm_reg_opcode(op),
{
    op == 0x00 || op == 0x01 || op == 0x08 || op == 0x09 || op == 0x10 || op == 0x11 || op == 0x20
        || op == 0x21 || op == 0x28 || op == 0x29 || op == 0x30 || op == 0x31 || op == 0x88 || op
        == 0x89 || op == 0x86 || op == 0x87
}

/// Whether `op` is a reg, r/m ALU/MOV opcode
fn is_reg_rm_op(op: u8) -> (r: bool)
    ensures
        r == is_reg_rm_opcode(op),
{
    op == 0x02 || op == 0x03 || op == 0x0A || op == 0x0B || op == 0x12 || op == 0x13 || op == 0x22
        || op == 0x23 || op == 0x2A || op == 0x2B || op == 0x32 || op == 0x33 || op == 0x8A || op
        == 0x8B
}

/// Whether `op` is an accumulator-immediate ALU opcode
fn is_acc_imm_op(op: u8) -> (r: bool)
    ensures
        r == is_acc_imm_opcode(op),
{
    op == 0x04 || op == 0x05 || op == 0x0C || op == 0x0D || op == 0x14 || op == 0x15 || op == 0x24
        || op == 0x25 || op == 0x2C || op == 0x2D || op == 0x34 || op == 0x35
}

/// The fields of a ModR/M byte as numbers, and code bytes read as signed
/// displacements: a byte sign-extended, and a little-endian word.
pub(crate) proof fn lemma_code_fields(m: u8, lo: u8, hi: u8, sd: i8, sw: i16)
    by (bit_vector)
    ensures
        (m >> 6u8) & 0x03 == m / 64,
        m & 0x07 == m % 8,
        (lo as i8 as i16) as int == (if lo < 0x80 {
            lo as int
        } else {
            lo as int - 256
        }),
        (lo as i8 as i16 as u16) as int == (if lo < 0x80 {
            lo as int
        } else {
            lo as int + 0xFF00
        }),
        ((lo as i8 as i16 as u16) as i16) as u16 == lo as i8 as i16 as u16,
        (sd as i16 as u16) as int == (if sd < 0 {
            sd as int + 65536
        } else {
            sd as int
        }),
        (sw as u16) as int == (if sw < 0 {
            sw as int + 65536
        } else {
            sw as int
        }),
        (sd as u8) as i8 == sd,
        (sw as u16) as i16 == sw,
        ((((hi as u16) << 8u16) | (lo as u16)) as u16 as i16) as int == (if (lo as int + 256 * hi as int)
            < 0x8000 {
            lo as int + 256 * hi as int
        } else {
            lo as int + 256 * hi as int - 65536
        }),
{
}

/// The r/m operand of a ModR/M byte, in terms of its mod field
/// (`modrm / 64`) and r/m field (`modrm % 8`) and the code bytes after it:
/// mod 3 names register r/m; mod 0 with r/m 6 is a direct address, the
/// little-endian word that follows; other mod 0 forms use base/index r/m
/// with no displacement; mod 1 adds the next byte sign-extended, and mod 2
/// the next word taken as signed.
pub proof fn law_rm_operand(c: Cpu, mem: MemoryBus, modrm: u8, ip: u16, is_byte: bool)
    ensures
        ({
            let (op, len) = c.rm_from_modrm(mem, modrm, ip, is_byte);
            let md = modrm / 64;
            let rm = modrm % 8;
            let lo = c.byte_at(mem, ip) as int;
            let word = lo + 256 * c.byte_at(mem, ip_plus(ip, 1)) as int;
            let signed_word = if word < 0x8000 {
                word
            } else {
                word - 65536
            };
            let mem_type = if is_byte {
                OperandType::Mem8
            } else {
                OperandType::Mem16
            };
            &&& md == 3 ==> op.op_type == (if is_byte {
                OperandType::Reg8
            } else {
                OperandType::Reg16
            }) && op.value == rm && len == 0
            &&& md == 0 && rm == 6 ==> op.op_type == mem_type && op.value == 0xFF && op.disp as int
                == signed_word && len == 2
            &&& md == 0 && rm != 6 ==> op.op_type == mem_type && op.value == rm && op.disp == 0 && len
                == 0
            &&& md == 1 ==> op.op_type == mem_type && op.value == rm && op.disp as int == (if lo < 0x80 {
                lo
            } else {
                lo - 256
            }) && len == 1
            &&& md == 2 ==> op.op_type == mem_type && op.value == rm && op.disp as int == signed_word
                && len == 2
        }),
{
    lemma_code_fields(modrm, c.byte_at(mem, ip), c.byte_at(mem, ip_plus(ip, 1)), 0, 0);
}

/// A short jump or conditional jump (0xEB, 0x70-0x7F) is two bytes long and
/// its offset is the byte after the opcode, sign-extended: taken, it lands
/// at the address after the instruction plus that signed byte, modulo
/// 65536.
pub proof fn law_short_branch(c: Cpu, mem: MemoryBus, opcode: u8)
    requires
        opcode == 0xEB || 0x70 <= opcode <= 0x7F,
    ensures
        ({
            let i = c.t1_decode(mem, opcode);
            let b = c.byte_at(mem, c.ip) as int;
            let offset = if b < 0x80 {
                b
            } else {
                b - 256
            };
            let next = Cpu { ip: ip_plus(c.ip, 1), ..c };
            &&& i.length == 2
            &&& i.src.value as int == (if b < 0x80 {
                b
            } else {
                b + 0xFF00
            })
            &&& jump_target(next, i) as int == (c.ip as int + 1 + offset) % 65536
        }),
{
    let b = c.byte_at(mem, c.ip);
    lemma_code_fields(0, b, 0, 0, 0);
}

/// The immediate of group 0x83 (ADD/OR/ADC/SBB/AND/SUB/XOR/CMP r/m16,
/// imm8) is its byte sign-extended to a word.
pub proof fn law_group_83_immediate(c: Cpu, mem: MemoryBus)
    ensures
        ({
            let i = c.t1_decode(mem, 0x83);
            let m = c.byte_at(mem, c.ip);
            let extra = c.rm_from_modrm(mem, m, ip_plus(c.ip, 1), false).1;
            let b = c.byte_at(mem, ip_plus(c.ip, 1 + extra)) as int;
            &&& i.src.op_type == OperandType::Imm16
            &&& i.src.value as int == (if b < 0x80 {
                b
            } else {
                b + 0xFF00
            })
            &&& i.length == 3 + extra
        }),
{
    let m = c.byte_at(mem, c.ip);
    let extra = c.rm_from_modrm(mem, m, ip_plus(c.ip, 1), false).1;
    lemma_code_fields(m, c.byte_at(mem, ip_plus(c.ip, 1 + extra)), 0, 0, 0);
}

} // verus!
