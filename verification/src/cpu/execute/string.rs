//! String instruction handlers (MOVS, CMPS, STOS, LODS, SCAS)
//!
//! Each handler performs one iteration; with a repeat prefix in effect, CX
//! is decremented and IP goes back to the prefix while the repetition
//! continues.

use crate::cpu::decode::DecodedInstruction;
use crate::cpu::state::{
    aux_carry, flag_bit, flags_after, law_flags_after, phys, sub_overflow, with_of_af, with_reg_byte,
    Cpu, FlagOp, RepeatPrefix,
};
use crate::memory::{is_writable, law_byte_read_after_write, MemoryBus};
use vstd::prelude::*;

verus! {

/// Registers after the repeat bookkeeping: CX decremented under a prefix
pub open spec fn rep_regs(prefix: RepeatPrefix, regs: Seq<u16>) -> Seq<u16> {
    if prefix == RepeatPrefix::NoRepeat {
        regs
    } else {
        regs.update(1, regs[1].wrapping_sub(1))
    }
}

/// IP after the repeat bookkeeping: back to the prefix while CX is nonzero
/// (and, for CMPS/SCAS, while ZF matches the prefix)
pub open spec fn rep_ip(
    prefix: RepeatPrefix,
    regs: Seq<u16>,
    ip: u16,
    repeat_ip: u16,
    zf: bool,
    conditional: bool,
) -> u16 {
    let cx = regs[1].wrapping_sub(1);
    match prefix {
        RepeatPrefix::NoRepeat => ip,
        RepeatPrefix::Rep => if cx != 0 && (!conditional || zf) {
            repeat_ip
        } else {
            ip
        },
        RepeatPrefix::RepNe => if cx != 0 && (!conditional || !zf) {
            repeat_ip
        } else {
            ip
        },
    }
}

/// `nc` is `oc` after one string iteration that left the registers as
/// `regs` and the flags as `flags`, followed by the repeat bookkeeping
pub open spec fn string_step(oc: Cpu, nc: Cpu, regs: Seq<u16>, flags: u16, conditional: bool) -> bool {
    &&& nc.regs@ =~= rep_regs(oc.repeat_prefix, regs)
    &&& nc.ip == rep_ip(oc.repeat_prefix, regs, oc.ip, oc.repeat_ip, flag_bit(flags, Cpu::ZF), conditional)
    &&& nc.segments == oc.segments
    &&& nc.flags == flags
    &&& oc.same_aux(nc)
}

/// Source segment: the override prefix's segment, else DS
pub open spec fn source_segment(c: Cpu) -> u16 {
    match c.segment_override {
        Some(s) => c.seg(s),
        None => c.seg(3),
    }
}

/// `index` stepped by `size` in the direction given by DF
pub open spec fn stepped(c: Cpu, index: u16, size: u16) -> u16 {
    if c.flag(Cpu::DF) {
        index.wrapping_sub(size)
    } else {
        index.wrapping_add(size)
    }
}

/// Repeat bookkeeping for MOVS, STOS and LODS
fn handle_rep(cpu: &mut Cpu)
    ensures
        string_step(*old(cpu), *final(cpu), old(cpu).regs@, old(cpu).flags, false),
{
    if cpu.repeat_prefix != RepeatPrefix::NoRepeat {
        let cx = cpu.read_reg16(1);
        let new_cx = cx.wrapping_sub(1);
        cpu.write_reg16(1, new_cx);
        if new_cx != 0 {
            cpu.ip = cpu.repeat_ip;
        }
    }
}

/// Repeat bookkeeping for CMPS and SCAS (REPE stops on ZF = 0, REPNE on ZF = 1)
fn handle_rep_conditional(cpu: &mut Cpu)
    ensures
        string_step(*old(cpu), *final(cpu), old(cpu).regs@, old(cpu).flags, true),
{
    match cpu.repeat_prefix {
        RepeatPrefix::NoRepeat => {},
        RepeatPrefix::Rep => {
            let cx = cpu.read_reg16(1);
            let new_cx = cx.wrapping_sub(1);
            cpu.write_reg16(1, new_cx);
            let zf = cpu.get_flag(Cpu::ZF);
            if new_cx != 0 && zf {
                cpu.ip = cpu.repeat_ip;
            }
        },
        RepeatPrefix::RepNe => {
            let cx = cpu.read_reg16(1);
            let new_cx = cx.wrapping_sub(1);
            cpu.write_reg16(1, new_cx);
            let zf = cpu.get_flag(Cpu::ZF);
            if new_cx != 0 && !zf {
                cpu.ip = cpu.repeat_ip;
            }
        },
    }
}

/// Read the source segment
fn read_source_segment(cpu: &Cpu) -> (r: u16)
    ensures
        r == source_segment(*cpu),
{
    match cpu.segment_override {
        Some(s) => cpu.read_seg(s),
        None => cpu.read_seg(3),
    }
}

/// Effect of `stosb`
pub open spec fn stosb_effect(oc: Cpu, om: MemoryBus, nc: Cpu, nm: MemoryBus) -> bool {
    &&& MemoryBus::written(om, nm, phys(oc.segments@[0], oc.regs@[7]), oc.reg8(0))
    &&& string_step(oc, nc, oc.regs@.update(7, stepped(oc, oc.regs@[7], 1)), oc.flags, false)
}

/// STOSB (0xAA): store AL at ES:DI, step DI by 1
pub fn stosb(cpu: &mut Cpu, mem: &mut MemoryBus, _instr: &DecodedInstruction)
    requires
        old(mem).wf(),
    ensures
        stosb_effect(*old(cpu), *old(mem), *final(cpu), *final(mem)),
{
    let es = cpu.read_seg(0);
    let di = cpu.read_reg16(7);
    let al = cpu.read_reg8(0);
    cpu.write_mem8(mem, es, di, al);
    let new_di = if cpu.get_flag(Cpu::DF) {
        di.wrapping_sub(1)
    } else {
        di.wrapping_add(1)
    };
    cpu.write_reg16(7, new_di);
    handle_rep(cpu);
}

/// Effect of `stosw`
pub open spec fn stosw_effect(oc: Cpu, om: MemoryBus, nc: Cpu, nm: MemoryBus) -> bool {
    &&& MemoryBus::word_written(om, nm, phys(oc.segments@[0], oc.regs@[7]), oc.regs@[0])
    &&& string_step(oc, nc, oc.regs@.update(7, stepped(oc, oc.regs@[7], 2)), oc.flags, false)
}

/// STOSW (0xAB): store AX at ES:DI, step DI by 2
pub fn stosw(cpu: &mut Cpu, mem: &mut MemoryBus, _instr: &DecodedInstruction)
    requires
        old(mem).wf(),
    ensures
        stosw_effect(*old(cpu), *old(mem), *final(cpu), *final(mem)),
{
    let es = cpu.read_seg(0);
    let di = cpu.read_reg16(7);
    let ax = cpu.read_reg16(0);
    cpu.write_mem16(mem, es, di, ax);
    let new_di = if cpu.get_flag(Cpu::DF) {
        di.wrapping_sub(2)
    } else {
        di.wrapping_add(2)
    };
    cpu.write_reg16(7, new_di);
    handle_rep(cpu);
}

/// Effect of `movsb`
pub open spec fn movsb_effect(oc: Cpu, om: MemoryBus, nc: Cpu, nm: MemoryBus) -> bool {
    &&& MemoryBus::written(om, nm, phys(oc.segments@[0], oc.regs@[7]),
            om.byte(phys(source_segment(oc), oc.regs@[6])))
    &&& string_step(oc, nc, oc.regs@.update(6, stepped(oc, oc.regs@[6], 1)).update(7, stepped(oc, oc.regs@[7], 1)), oc.flags, false)
}

/// MOVSB (0xA4): copy the byte at seg:SI to ES:DI, step SI and DI by 1
pub fn movsb(cpu: &mut Cpu, mem: &mut MemoryBus, _instr: &DecodedInstruction)
    requires
        old(mem).wf(),
    ensures
        movsb_effect(*old(cpu), *old(mem), *final(cpu), *final(mem)),
{
    let ds = read_source_segment(cpu);
    let si = cpu.read_reg16(6);
    let byte = cpu.read_mem8(mem, ds, si);
    let es = cpu.read_seg(0);
    let di = cpu.read_reg16(7);
    cpu.write_mem8(mem, es, di, byte);
    if cpu.get_flag(Cpu::DF) {
        cpu.write_reg16(6, si.wrapping_sub(1));
        cpu.write_reg16(7, di.wrapping_sub(1));
    } else {
        cpu.write_reg16(6, si.wrapping_add(1));
        cpu.write_reg16(7, di.wrapping_add(1));
    }
    handle_rep(cpu);
}

/// Effect of `movsw`
pub open spec fn movsw_effect(oc: Cpu, om: MemoryBus, nc: Cpu, nm: MemoryBus) -> bool {
    &&& MemoryBus::word_written(om, nm, phys(oc.segments@[0], oc.regs@[7]),
            om.word(phys(source_segment(oc), oc.regs@[6])))
    &&& string_step(oc, nc, oc.regs@.update(6, stepped(oc, oc.regs@[6], 2)).update(7, stepped(oc, oc.regs@[7], 2)), oc.flags, false)
}

/// MOVSW (0xA5): copy the word at seg:SI to ES:DI, step SI and DI by 2
pub fn movsw(cpu: &mut Cpu, mem: &mut MemoryBus, _instr: &DecodedInstruction)
    requires
        old(mem).wf(),
    ensures
        movsw_effect(*old(cpu), *old(mem), *final(cpu), *final(mem)),
{
    let ds = read_source_segment(cpu);
    let si = cpu.read_reg16(6);
    let word = cpu.read_mem16(mem, ds, si);
    let es = cpu.read_seg(0);
    let di = cpu.read_reg16(7);
    cpu.write_mem16(mem, es, di, word);
    if cpu.get_flag(Cpu::DF) {
        cpu.write_reg16(6, si.wrapping_sub(2));
        cpu.write_reg16(7, di.wrapping_sub(2));
    } else {
        cpu.write_reg16(6, si.wrapping_add(2));
        cpu.write_reg16(7, di.wrapping_add(2));
    }
    handle_rep(cpu);
}

/// Effect of `lodsb`
pub open spec fn lodsb_effect(oc: Cpu, om: MemoryBus, nc: Cpu, nm: MemoryBus) -> bool {
    &&& nm == om
    &&& string_step(oc, nc, oc.regs@.update(0, with_reg_byte(oc.regs@[0], false,
            om.byte(phys(source_segment(oc), oc.regs@[6])))).update(6, stepped(oc, oc.regs@[6], 1)),
            oc.flags, false)
}

/// LODSB (0xAC): load the byte at seg:SI into AL, step SI by 1
pub fn lodsb(cpu: &mut Cpu, mem: &mut MemoryBus, _instr: &DecodedInstruction)
    requires
        old(mem).wf(),
    ensures
        lodsb_effect(*old(cpu), *old(mem), *final(cpu), *final(mem)),
{
    let ds = read_source_segment(cpu);
    let si = cpu.read_reg16(6);
    let byte = cpu.read_mem8(mem, ds, si);
    cpu.write_reg8(0, byte);
    let new_si = if cpu.get_flag(Cpu::DF) {
        si.wrapping_sub(1)
    } else {
        si.wrapping_add(1)
    };
    cpu.write_reg16(6, new_si);
    handle_rep(cpu);
}

/// Effect of `lodsw`
pub open spec fn lodsw_effect(oc: Cpu, om: MemoryBus, nc: Cpu, nm: MemoryBus) -> bool {
    &&& nm == om
    &&& string_step(oc, nc, oc.regs@.update(0,
            om.word(phys(source_segment(oc), oc.regs@[6]))).update(6, stepped(oc, oc.regs@[6], 2)),
            oc.flags, false)
}

/// LODSW (0xAD): load the word at seg:SI into AX, step SI by 2
pub fn lodsw(cpu: &mut Cpu, mem: &mut MemoryBus, _instr: &DecodedInstruction)
    requires
        old(mem).wf(),
    ensures
        lodsw_effect(*old(cpu), *old(mem), *final(cpu), *final(mem)),
{
    let ds = read_source_segment(cpu);
    let si = cpu.read_reg16(6);
    let word = cpu.read_mem16(mem, ds, si);
    cpu.write_reg16(0, word);
    let new_si = if cpu.get_flag(Cpu::DF) {
        si.wrapping_sub(2)
    } else {
        si.wrapping_add(2)
    };
    cpu.write_reg16(6, new_si);
    handle_rep(cpu);
}

/// Flags after comparing `a - b` on bytes
pub open spec fn compare8_flags(flags: u16, a: u8, b: u8) -> u16 {
    let r = (a as u32).wrapping_sub(b as u32);
    flags_after(with_of_af(flags, sub_overflow(a as u32, b as u32, r, 0x80), aux_carry(a as u32, b as u32, r)), r, FlagOp::Sub8)
}

/// Flags after comparing `a - b` on words
pub open spec fn compare16_flags(flags: u16, a: u16, b: u16) -> u16 {
    let r = (a as u32).wrapping_sub(b as u32);
    flags_after(with_of_af(flags, sub_overflow(a as u32, b as u32, r, 0x8000), aux_carry(a as u32, b as u32, r)), r, FlagOp::Sub16)
}

/// Set the flags of the byte comparison `a - b`
fn compare8(cpu: &mut Cpu, a: u8, b: u8)
    ensures
        final(cpu).flags == compare8_flags(old(cpu).flags, a, b),
        old(cpu).same_but_flags(*final(cpu)),
{
    let result = (a as u32).wrapping_sub(b as u32);
    cpu.set_sub8_of_af(a, b, result);
    cpu.set_lazy_flags(result, FlagOp::Sub8);
}

/// Set the flags of the word comparison `a - b`
fn compare16(cpu: &mut Cpu, a: u16, b: u16)
    ensures
        final(cpu).flags == compare16_flags(old(cpu).flags, a, b),
        old(cpu).same_but_flags(*final(cpu)),
{
    let result = (a as u32).wrapping_sub(b as u32);
    cpu.set_sub16_of_af(a, b, result);
    cpu.set_lazy_flags(result, FlagOp::Sub16);
}

/// Effect of `cmpsb`
pub open spec fn cmpsb_effect(oc: Cpu, om: MemoryBus, nc: Cpu, nm: MemoryBus) -> bool {
    &&& nm == om
    &&& string_step(oc, nc, oc.regs@.update(6, stepped(oc, oc.regs@[6], 1)).update(7, stepped(oc, oc.regs@[7], 1)),
            compare8_flags(oc.flags, om.byte(phys(source_segment(oc), oc.regs@[6])),
                om.byte(phys(oc.segments@[0], oc.regs@[7]))), true)
}

/// CMPSB (0xA6): compare the bytes at seg:SI and ES:DI, step SI and DI by 1
pub fn cmpsb(cpu: &mut Cpu, mem: &mut MemoryBus, _instr: &DecodedInstruction)
    requires
        old(mem).wf(),
    ensures
        cmpsb_effect(*old(cpu), *old(mem), *final(cpu), *final(mem)),
{
    let ds = read_source_segment(cpu);
    let si = cpu.read_reg16(6);
    let byte1 = cpu.read_mem8(mem, ds, si);
    let es = cpu.read_seg(0);
    let di = cpu.read_reg16(7);
    let byte2 = cpu.read_mem8(mem, es, di);
    let df = cpu.get_flag(Cpu::DF);
    compare8(cpu, byte1, byte2);
    if df {
        cpu.write_reg16(6, si.wrapping_sub(1));
        cpu.write_reg16(7, di.wrapping_sub(1));
    } else {
        cpu.write_reg16(6, si.wrapping_add(1));
        cpu.write_reg16(7, di.wrapping_add(1));
    }
    handle_rep_conditional(cpu);
}

/// Effect of `cmpsw`
pub open spec fn cmpsw_effect(oc: Cpu, om: MemoryBus, nc: Cpu, nm: MemoryBus) -> bool {
    &&& nm == om
    &&& string_step(oc, nc, oc.regs@.update(6, stepped(oc, oc.regs@[6], 2)).update(7, stepped(oc, oc.regs@[7], 2)),
            compare16_flags(oc.flags, om.word(phys(source_segment(oc), oc.regs@[6])),
                om.word(phys(oc.segments@[0], oc.regs@[7]))), true)
}

/// CMPSW (0xA7): compare the words at seg:SI and ES:DI, step SI and DI by 2
pub fn cmpsw(cpu: &mut Cpu, mem: &mut MemoryBus, _instr: &DecodedInstruction)
    requires
        old(mem).wf(),
    ensures
        cmpsw_effect(*old(cpu), *old(mem), *final(cpu), *final(mem)),
{
    let ds = read_source_segment(cpu);
    let si = cpu.read_reg16(6);
    let word1 = cpu.read_mem16(mem, ds, si);
    let es = cpu.read_seg(0);
    let di = cpu.read_reg16(7);
    let word2 = cpu.read_mem16(mem, es, di);
    let df = cpu.get_flag(Cpu::DF);
    compare16(cpu, word1, word2);
    if df {
        cpu.write_reg16(6, si.wrapping_sub(2));
        cpu.write_reg16(7, di.wrapping_sub(2));
    } else {
        cpu.write_reg16(6, si.wrapping_add(2));
        cpu.write_reg16(7, di.wrapping_add(2));
    }
    handle_rep_conditional(cpu);
}

/// Effect of `scasb`
pub open spec fn scasb_effect(oc: Cpu, om: MemoryBus, nc: Cpu, nm: MemoryBus) -> bool {
    &&& nm == om
    &&& string_step(oc, nc, oc.regs@.update(7, stepped(oc, oc.regs@[7], 1)),
            compare8_flags(oc.flags, oc.reg8(0), om.byte(phys(oc.segments@[0], oc.regs@[7]))), true)
}

/// SCASB (0xAE): compare AL with the byte at ES:DI, step DI by 1
pub fn scasb(cpu: &mut Cpu, mem: &mut MemoryBus, _instr: &DecodedInstruction)
    requires
        old(mem).wf(),
    ensures
        scasb_effect(*old(cpu), *old(mem), *final(cpu), *final(mem)),
{
    let al = cpu.read_reg8(0);
    let es = cpu.read_seg(0);
    let di = cpu.read_reg16(7);
    let byte = cpu.read_mem8(mem, es, di);
    let df = cpu.get_flag(Cpu::DF);
    compare8(cpu, al, byte);
    let new_di = if df {
        di.wrapping_sub(1)
    } else {
        di.wrapping_add(1)
    };
    cpu.write_reg16(7, new_di);
    handle_rep_conditional(cpu);
}

/// Effect of `scasw`
pub open spec fn scasw_effect(oc: Cpu, om: MemoryBus, nc: Cpu, nm: MemoryBus) -> bool {
    &&& nm == om
    &&& string_step(oc, nc, oc.regs@.update(7, stepped(oc, oc.regs@[7], 2)),
            compare16_flags(oc.flags, oc.regs@[0], om.word(phys(oc.segments@[0], oc.regs@[7]))), true)
}

/// SCASW (0xAF): compare AX with the word at ES:DI, step DI by 2
pub fn scasw(cpu: &mut Cpu, mem: &mut MemoryBus, _instr: &DecodedInstruction)
    requires
        old(mem).wf(),
    ensures
        scasw_effect(*old(cpu), *old(mem), *final(cpu), *final(mem)),
{
    let ax = cpu.read_reg16(0);
    let es = cpu.read_seg(0);
    let di = cpu.read_reg16(7);
    let word = cpu.read_mem16(mem, es, di);
    let df = cpu.get_flag(Cpu::DF);
    compare16(cpu, ax, word);
    let new_di = if df {
        di.wrapping_sub(2)
    } else {
        di.wrapping_add(2)
    };
    cpu.write_reg16(7, new_di);
    handle_rep_conditional(cpu);
}

/// A difference wrapped into 32 bits ends in a zero byte (word) exactly
/// when the two bytes (words) are equal.
proof fn lemma_difference_zero(a8: u8, b8: u8, a16: u16, b16: u16)
    by (bit_vector)
    ensures
        ((if (a8 as int - b8 as int) < 0 {
            (a8 as int - b8 as int + 0x1_0000_0000) as u32
        } else {
            (a8 as int - b8 as int) as u32
        }) as u8 == 0) == (a8 == b8),
        ((if (a16 as int - b16 as int) < 0 {
            (a16 as int - b16 as int + 0x1_0000_0000) as u32
        } else {
            (a16 as int - b16 as int) as u32
        }) as u16 == 0) == (a16 == b16),
{
}

/// Repeating a comparison: after CMPS or SCAS compared `a` with `b` (bytes
/// or words), a REP/REPE prefix decrements CX and goes back to the prefix
/// exactly when CX is still nonzero and the two were equal; REPNE goes back
/// exactly when CX is nonzero and they differed; with no prefix CX is kept
/// and execution goes on.
pub proof fn law_repeat_compare(oc: Cpu, nc: Cpu, regs: Seq<u16>, a: u16, b: u16, is_byte: bool)
    requires
        regs.len() == 8,
        string_step(oc, nc, regs, if is_byte {
            compare8_flags(oc.flags, a as u8, b as u8)
        } else {
            compare16_flags(oc.flags, a, b)
        }, true),
    ensures
        ({
            let equal = if is_byte {
                a as u8 == b as u8
            } else {
                a == b
            };
            let cx = if regs[1] == 0 {
                65535
            } else {
                regs[1] - 1
            };
            &&& oc.repeat_prefix == RepeatPrefix::NoRepeat ==> nc.regs@[1] == regs[1] && nc.ip == oc.ip
            &&& oc.repeat_prefix == RepeatPrefix::Rep ==> nc.regs@[1] == cx && nc.ip == (if cx != 0
                && equal {
                oc.repeat_ip
            } else {
                oc.ip
            })
            &&& oc.repeat_prefix == RepeatPrefix::RepNe ==> nc.regs@[1] == cx && nc.ip == (if cx != 0
                && !equal {
                oc.repeat_ip
            } else {
                oc.ip
            })
        }),
{
    let a8 = a as u8;
    let b8 = b as u8;
    lemma_difference_zero(a8, b8, a, b);
    if is_byte {
        let r = (a8 as u32).wrapping_sub(b8 as u32);
        law_flags_after(with_of_af(oc.flags, sub_overflow(a8 as u32, b8 as u32, r, 0x80), aux_carry(a8 as u32, b8 as u32, r)), r, FlagOp::Sub8);
    } else {
        let r = (a as u32).wrapping_sub(b as u32);
        law_flags_after(with_of_af(oc.flags, sub_overflow(a as u32, b as u32, r, 0x8000), aux_carry(a as u32, b as u32, r)), r, FlagOp::Sub16);
    }
}

/// `law_repeat_compare` for two bytes.
proof fn lemma_repeat_compare_bytes(oc: Cpu, nc: Cpu, regs: Seq<u16>, x: u8, y: u8)
    requires
        regs.len() == 8,
        string_step(oc, nc, regs, compare8_flags(oc.flags, x, y), true),
    ensures
        ({
            let cx = if regs[1] == 0 {
                65535
            } else {
                regs[1] - 1
            };
            &&& oc.repeat_prefix == RepeatPrefix::Rep ==> nc.regs@[1] == cx && nc.ip == (if cx != 0
                && x == y {
                oc.repeat_ip
            } else {
                oc.ip
            })
            &&& oc.repeat_prefix == RepeatPrefix::RepNe ==> nc.regs@[1] == cx && nc.ip == (if cx != 0
                && x != y {
                oc.repeat_ip
            } else {
                oc.ip
            })
        }),
{
    assert((x as u16) as u8 == x && (y as u16) as u8 == y);
    law_repeat_compare(oc, nc, regs, x as u16, y as u16, true);
}

/// REPE/REPNE CMPSB on the bytes compared: the byte at the source (seg:SI)
/// and the byte at ES:DI decide whether the comparison repeats.
pub proof fn law_repeat_string_compare(oc: Cpu, om: MemoryBus, nc: Cpu, nm: MemoryBus)
    requires
        cmpsb_effect(oc, om, nc, nm),
    ensures
        ({
            let equal = om.byte(phys(source_segment(oc), oc.regs@[6])) == om.byte(phys(oc.segments@[0], oc.regs@[7]));
            let cx = if oc.regs@[1] == 0 {
                65535
            } else {
                oc.regs@[1] - 1
            };
            &&& oc.repeat_prefix == RepeatPrefix::Rep ==> nc.regs@[1] == cx && nc.ip == (if cx != 0
                && equal {
                oc.repeat_ip
            } else {
                oc.ip
            })
            &&& oc.repeat_prefix == RepeatPrefix::RepNe ==> nc.regs@[1] == cx && nc.ip == (if cx != 0
                && !equal {
                oc.repeat_ip
            } else {
                oc.ip
            })
        }),
{
    let regs = oc.regs@.update(6, stepped(oc, oc.regs@[6], 1)).update(7, stepped(oc, oc.regs@[7], 1));
    let x = om.byte(phys(source_segment(oc), oc.regs@[6]));
    let y = om.byte(phys(oc.segments@[0], oc.regs@[7]));
    lemma_repeat_compare_bytes(oc, nc, regs, x, y);
}

/// REPE/REPNE SCASB on the bytes compared: AL and the byte at ES:DI
/// decide whether the scan repeats.
pub proof fn law_repeat_string_scan(oc: Cpu, om: MemoryBus, nc: Cpu, nm: MemoryBus)
    requires
        scasb_effect(oc, om, nc, nm),
    ensures
        ({
            let equal = oc.reg8(0) == om.byte(phys(oc.segments@[0], oc.regs@[7]));
            let cx = if oc.regs@[1] == 0 {
                65535
            } else {
                oc.regs@[1] - 1
            };
            &&& oc.repeat_prefix == RepeatPrefix::Rep ==> nc.regs@[1] == cx && nc.ip == (if cx != 0
                && equal {
                oc.repeat_ip
            } else {
                oc.ip
            })
            &&& oc.repeat_prefix == RepeatPrefix::RepNe ==> nc.regs@[1] == cx && nc.ip == (if cx != 0
                && !equal {
                oc.repeat_ip
            } else {
                oc.ip
            })
        }),
{
    let regs = oc.regs@.update(7, stepped(oc, oc.regs@[7], 1));
    let x = oc.reg8(0);
    let y = om.byte(phys(oc.segments@[0], oc.regs@[7]));
    lemma_repeat_compare_bytes(oc, nc, regs, x, y);
}

/// Repeating MOVS, STOS or LODS: under either repeat prefix CX is
/// decremented and execution goes back to the prefix exactly when CX is
/// still nonzero, whatever the flags; with no prefix CX is kept and
/// execution goes on.
pub proof fn law_repeat_plain(oc: Cpu, nc: Cpu, regs: Seq<u16>, flags: u16)
    requires
        regs.len() == 8,
        string_step(oc, nc, regs, flags, false),
    ensures
        ({
            let cx = if regs[1] == 0 {
                65535
            } else {
                regs[1] - 1
            };
            &&& oc.repeat_prefix == RepeatPrefix::NoRepeat ==> nc.regs@[1] == regs[1] && nc.ip == oc.ip
            &&& oc.repeat_prefix != RepeatPrefix::NoRepeat ==> nc.regs@[1] == cx && nc.ip == (if cx != 0 {
                oc.repeat_ip
            } else {
                oc.ip
            })
        }),
{
}

/// MOVSB copies: the byte at ES:DI (when writable) becomes the byte that was
/// at the source (seg:SI), and SI and DI move one byte forward when DF is
/// clear and back when it is set, modulo 65536; the flags are kept.
pub proof fn law_movsb_copies(oc: Cpu, om: MemoryBus, nc: Cpu, nm: MemoryBus)
    requires
        movsb_effect(oc, om, nc, nm),
    ensures
        ({
            let src = phys(source_segment(oc), oc.regs@[6]);
            let dst = phys(oc.segments@[0], oc.regs@[7]);
            let step: int = if oc.flag(Cpu::DF) {
                -1
            } else {
                1
            };
            &&& is_writable(dst) ==> nm.byte(dst) == om.byte(src)
            &&& nc.regs@[6] as int == (oc.regs@[6] as int + step) % 65536
            &&& nc.regs@[7] as int == (oc.regs@[7] as int + step) % 65536
            &&& nc.flags == oc.flags
        }),
{
    let src = phys(source_segment(oc), oc.regs@[6]);
    let dst = phys(oc.segments@[0], oc.regs@[7]);
    law_byte_read_after_write(om, nm, dst, om.byte(src), dst);
}

} // verus!
