//! Tests of the CPU: instruction execution through the harness, registers,
//! flags, errors and the decode cache

use ezpc::cpu::decode::{DecodedInstruction, Operand};
use ezpc::memory::MemoryBus;
use ezpc::cpu::execute::handlers::ExecError;
use ezpc::cpu::tier2::cache::DecodeCache;
use ezpc::cpu::{Cpu, CpuHarness};

#[test]
fn test_harness_mov_r16_imm() {
    let mut h = CpuHarness::new();
    // MOV AX, 0x1234
    h.load_program(&[0xB8, 0x34, 0x12], 0x0100);
    assert_eq!(h.cpu.segments[1], 0x0100);
    assert_eq!(h.cpu.ip, 0);
    assert_eq!(h.mem.read_u8(0x1000), 0xB8);
    assert_eq!(h.step(), Ok(4));
    assert_eq!(h.cpu.regs[0], 0x1234);
    assert_eq!(h.cpu.ip, 3);
    assert_eq!(h.cpu.total_cycles, 4);
}

#[test]
fn test_harness_add_sets_flags() {
    let mut h = CpuHarness::new();
    // MOV AL, 0xFF ; ADD AL, 1
    h.load_program(&[0xB0, 0xFF, 0x04, 0x01], 0x0100);
    assert_eq!(h.step_n(2), Ok(()));
    assert_eq!(h.cpu.read_reg8(0), 0x00);
    assert!(h.cpu.get_flag(Cpu::ZF));
    assert!(h.cpu.get_flag(Cpu::CF));
    assert!(h.cpu.get_flag(Cpu::AF));
    assert!(!h.cpu.get_flag(Cpu::SF));
}

#[test]
fn test_harness_push_pop_round_trip() {
    let mut h = CpuHarness::new();
    // MOV AX, 0xBEEF ; PUSH AX ; POP BX
    h.load_program(&[0xB8, 0xEF, 0xBE, 0x50, 0x5B], 0x0100);
    h.cpu.regs[4] = 0x0200;
    assert_eq!(h.step_n(3), Ok(()));
    assert_eq!(h.cpu.regs[3], 0xBEEF);
    assert_eq!(h.cpu.regs[4], 0x0200);
    assert_eq!(h.mem.read_u16(0x01FE), 0xBEEF);
}

#[test]
fn test_harness_invalid_opcode() {
    let mut h = CpuHarness::new();
    h.load_program(&[0x0F], 0x0100);
    assert_eq!(h.step(), Err(ExecError::InvalidOpcode { opcode: 0x0F, cs: 0x0100, ip: 0 }));
    // The CPU is left where it was
    assert_eq!(h.cpu.ip, 0);
}

#[test]
fn test_harness_invalid_operand() {
    let mut h = CpuHarness::new();
    // LEA AX, AX (a register where memory is needed)
    h.load_program(&[0x8D, 0xC0], 0x0100);
    assert_eq!(h.step(), Err(ExecError::InvalidOperand { opcode: 0x8D, cs: 0x0100, ip: 0 }));
    assert_eq!(h.cpu.ip, 0);
}

#[test]
fn test_harness_step_n_stops_at_error() {
    let mut h = CpuHarness::new();
    // NOP ; (invalid) ; NOP
    h.load_program(&[0x90, 0x0F, 0x90], 0x0100);
    assert_eq!(h.step_n(3), Err(ExecError::InvalidOpcode { opcode: 0x0F, cs: 0x0100, ip: 1 }));
    assert_eq!(h.cpu.ip, 1);
}

#[test]
fn test_harness_reset() {
    let mut h = CpuHarness::new();
    h.cpu.regs[0] = 0x1234;
    h.reset();
    assert_eq!(h.cpu.regs[0], 0);
    assert_eq!(h.cpu.segments[1], 0xF000);
    assert_eq!(h.cpu.ip, 0xFFF0);
    assert_eq!(h.cpu.flags, 0x0002);
}

#[test]
fn test_harness_jmp_short() {
    let mut h = CpuHarness::new();
    // JMP +2 ; (skipped) ; MOV AL, 7
    h.load_program(&[0xEB, 0x02, 0x90, 0x90, 0xB0, 0x07], 0x0100);
    assert_eq!(h.step_n(2), Ok(()));
    assert_eq!(h.cpu.read_reg8(0), 7);
    assert_eq!(h.cpu.ip, 6);
}

#[test]
fn test_reg8_round_trip() {
    let mut cpu = Cpu::new();
    cpu.write_reg16(0, 0x1122);
    cpu.write_reg8(4, 0xAB); // AH
    assert_eq!(cpu.read_reg8(4), 0xAB);
    assert_eq!(cpu.read_reg8(0), 0x22); // AL kept
    assert_eq!(cpu.read_reg16(0), 0xAB22);
}

#[test]
fn test_reg16_round_trip() {
    let mut cpu = Cpu::new();
    cpu.write_reg16(5, 0x5555);
    cpu.write_reg16(13, 0x7777); // register numbers wrap modulo 8
    assert_eq!(cpu.read_reg16(5), 0x7777);
    assert_eq!(cpu.read_reg16(0), 0);
}

#[test]
fn test_flag_round_trip() {
    let mut cpu = Cpu::new();
    cpu.set_flag(Cpu::CF, true);
    cpu.set_flag(Cpu::DF, true);
    assert!(cpu.get_flag(Cpu::CF));
    assert!(cpu.get_flag(Cpu::DF));
    assert!(!cpu.get_flag(Cpu::ZF));
    cpu.set_flag(Cpu::CF, false);
    assert!(!cpu.get_flag(Cpu::CF));
    assert!(cpu.get_flag(Cpu::DF));
}

#[test]
fn test_decode_cache_insert_get_invalidate() {
    let mut cache = DecodeCache::with_capacity(2);
    assert!(cache.is_empty());
    assert!(!cache.insert(0x100, DecodedInstruction::new(0x90)));
    assert!(cache.contains(0x100));
    let entry = cache.get(0x100).unwrap();
    assert_eq!(entry.instruction.opcode, 0x90);
    assert_eq!(entry.hit_count, 1);
    assert!(cache.get(0x200).is_none());
    assert_eq!(cache.total_hits(), 1);
    assert_eq!(cache.total_misses(), 1);
    assert!(cache.invalidate(0x100));
    assert!(!cache.contains(0x100));
    assert!(!cache.invalidate(0x100));
}

#[test]
fn test_decode_cache_clears_when_full() {
    let mut cache = DecodeCache::with_capacity(2);
    assert!(!cache.insert(1, DecodedInstruction::new(0x90)));
    assert!(!cache.insert(2, DecodedInstruction::new(0x90)));
    assert!(cache.insert(3, DecodedInstruction::new(0x90)));
    assert_eq!(cache.len(), 1);
    assert!(cache.contains(3));
    assert!(!cache.contains(1));
}

#[test]
fn test_harness_call_ret() {
    let mut h = CpuHarness::new();
    // 0: CALL +3 ; 3: HLT ; 4: NOP ; 5: NOP ; 6: RET
    h.load_program(&[0xE8, 0x03, 0x00, 0xF4, 0x90, 0x90, 0xC3], 0x0100);
    h.cpu.regs[4] = 0x0100;
    assert!(h.step().is_ok());
    assert_eq!(h.cpu.ip, 6);
    assert_eq!(h.cpu.regs[4], 0x00FE);
    assert_eq!(h.mem.read_u16(0x00FE), 3);
    assert!(h.step().is_ok());
    assert_eq!(h.cpu.ip, 3);
    assert_eq!(h.cpu.regs[4], 0x0100);
    assert!(h.step().is_ok());
    assert!(h.cpu.halted);
}

#[test]
fn test_harness_inc_overflow() {
    let mut h = CpuHarness::new();
    // MOV AX, 0x7FFF ; INC AX
    h.load_program(&[0xB8, 0xFF, 0x7F, 0x40], 0x0100);
    assert_eq!(h.step_n(2), Ok(()));
    assert_eq!(h.cpu.regs[0], 0x8000);
    assert!(h.cpu.get_flag(Cpu::OF));
    assert!(h.cpu.get_flag(Cpu::SF));
    assert!(!h.cpu.get_flag(Cpu::ZF));
}

#[test]
fn test_harness_memory_moves() {
    let mut h = CpuHarness::new();
    // MOV AX, 0x5AA5 ; MOV [0x0200], AX ; MOV BX, [0x0200]
    h.load_program(&[0xB8, 0xA5, 0x5A, 0x89, 0x06, 0x00, 0x02, 0x8B, 0x1E, 0x00, 0x02], 0x0100);
    assert_eq!(h.step_n(3), Ok(()));
    assert_eq!(h.mem.read_u8(0x0200), 0xA5);
    assert_eq!(h.mem.read_u8(0x0201), 0x5A);
    assert_eq!(h.cpu.regs[3], 0x5AA5);
}

#[test]
fn test_harness_xor_clears() {
    let mut h = CpuHarness::new();
    // MOV AX, 0x1234 ; XOR AX, AX
    h.load_program(&[0xB8, 0x34, 0x12, 0x31, 0xC0], 0x0100);
    assert_eq!(h.step_n(2), Ok(()));
    assert_eq!(h.cpu.regs[0], 0);
    assert!(h.cpu.get_flag(Cpu::ZF));
    assert!(!h.cpu.get_flag(Cpu::CF));
    assert!(h.cpu.get_flag(Cpu::PF));
}

#[test]
fn test_harness_direction_flag() {
    let mut h = CpuHarness::new();
    // STD ; CLD ; STD
    h.load_program(&[0xFD, 0xFC, 0xFD], 0x0100);
    assert!(h.step().is_ok());
    assert!(h.cpu.get_flag(Cpu::DF));
    assert!(h.step().is_ok());
    assert!(!h.cpu.get_flag(Cpu::DF));
    assert!(h.step().is_ok());
    assert!(h.cpu.get_flag(Cpu::DF));
}

#[test]
fn test_decoded_instruction_execute() {
    let mut cpu = Cpu::new();
    let mut mem = MemoryBus::new();
    // MOV AX, 0x1234 decoded by hand
    let instr = DecodedInstruction::new(0xB8)
        .with_dst(Operand::reg16(0))
        .with_src(Operand::imm16(0x1234))
        .with_length(3);
    assert_eq!(instr.execute(&mut cpu, &mut mem), Ok(()));
    assert_eq!(cpu.regs[0], 0x1234);
    // An opcode without a handler is refused
    let bad = DecodedInstruction::new(0x0F).with_length(1);
    cpu.ip = 1;
    assert_eq!(bad.execute(&mut cpu, &mut mem), Err(ExecError::InvalidOpcode { opcode: 0x0F, cs: 0xF000, ip: 0 }));
}

#[test]
fn test_new_cpu_is_in_reset_state() {
    let mut cpu = Cpu::new();
    assert_eq!(cpu.segments, [0, 0xF000, 0, 0]);
    assert_eq!(cpu.ip, 0xFFF0);
    assert_eq!(cpu.regs, [0; 8]);
    assert_eq!(cpu.get_flags(), 0x0002);
    assert_eq!(cpu.total_cycles, 0);
}
