//! Tests on concrete values of the properties the library states in general:
//! shift counts past the operand size, faulting division, rotations undone,
//! CALL undone by RET, register writes, the PIT at power-on and the framing
//! of received packets

use ezpc::components::dma::Dma;
use ezpc::components::fdc::{Fdc, FdcPhase, DOR_RESET, FDC_DATA, FDC_DOR};
use ezpc::components::floppy::{DiskGeometry, FloppyDisk};
use ezpc::components::pit::Pit;
use ezpc::cpu::decode::operands::DIRECT_BASE_INDEX;
use ezpc::cpu::decode::{DecodedInstruction, Operand};
use ezpc::cpu::execute::arithmetic::{div, idiv};
use ezpc::cpu::execute::shift::{rcl, rcr, rol, ror, sar, shl, shr};
use ezpc::cpu::state::FlagOp;
use ezpc::cpu::{Cpu, CpuHarness};
use ezpc::debugger::commands::handle_command;
use ezpc::debugger::protocol::{discard_acks, format_packet, parse_packet, take_packet};
use ezpc::debugger::GdbDebugger;
use ezpc::memory::MemoryBus;

fn on_al() -> DecodedInstruction {
    DecodedInstruction::new(0xD2).with_dst(Operand::reg8(0))
}

fn on_ax() -> DecodedInstruction {
    DecodedInstruction::new(0xD3).with_dst(Operand::reg16(0))
}

#[test]
fn test_shl_past_width_clears_carry() {
    let mut cpu = Cpu::new();
    let mut mem = MemoryBus::new();
    cpu.write_reg8(0, 1);
    shl(&mut cpu, &mut mem, &on_al(), 9);
    assert_eq!(cpu.read_reg8(0), 0);
    assert!(!cpu.get_flag(Cpu::CF));
    assert!(cpu.get_flag(Cpu::ZF));
}

#[test]
fn test_shl_by_width_carries_last_bit() {
    let mut cpu = Cpu::new();
    let mut mem = MemoryBus::new();
    cpu.write_reg8(0, 1);
    shl(&mut cpu, &mut mem, &on_al(), 8);
    assert_eq!(cpu.read_reg8(0), 0);
    assert!(cpu.get_flag(Cpu::CF));
}

#[test]
fn test_shr_past_width_clears_carry() {
    let mut cpu = Cpu::new();
    let mut mem = MemoryBus::new();
    cpu.write_reg8(0, 0x80);
    shr(&mut cpu, &mut mem, &on_al(), 9);
    assert_eq!(cpu.read_reg8(0), 0);
    assert!(!cpu.get_flag(Cpu::CF));
}

#[test]
fn test_sar_fills_with_sign() {
    let mut cpu = Cpu::new();
    let mut mem = MemoryBus::new();
    cpu.write_reg8(0, 0x80);
    sar(&mut cpu, &mut mem, &on_al(), 8);
    assert_eq!(cpu.read_reg8(0), 0xFF);
    assert!(cpu.get_flag(Cpu::CF));
}

#[test]
fn test_sar_positive_past_width() {
    let mut cpu = Cpu::new();
    let mut mem = MemoryBus::new();
    cpu.regs[0] = 0x4000;
    sar(&mut cpu, &mut mem, &on_ax(), 20);
    assert_eq!(cpu.regs[0], 0);
    assert!(!cpu.get_flag(Cpu::CF));
}

/// A CPU at 0100:0007 whose interrupt 0 points at 0050:1234, with a stack
/// at 0000:0200
fn divide_error_setup() -> (Cpu, MemoryBus) {
    let mut cpu = Cpu::new();
    let mut mem = MemoryBus::new();
    mem.write_u16(0, 0x1234);
    mem.write_u16(2, 0x0050);
    cpu.segments[1] = 0x0100;
    cpu.segments[2] = 0;
    cpu.ip = 7;
    cpu.regs[4] = 0x0200;
    (cpu, mem)
}

#[test]
fn test_div_by_zero_raises_interrupt_0() {
    let (mut cpu, mut mem) = divide_error_setup();
    cpu.regs[0] = 0x0064;
    let flags = cpu.get_flags();
    div(&mut cpu, &mut mem, &DecodedInstruction::new(0xF6).with_dst(Operand::reg8(3)));
    assert_eq!(cpu.regs[0], 0x0064);
    assert_eq!(cpu.ip, 0x1234);
    assert_eq!(cpu.segments[1], 0x0050);
    assert_eq!(cpu.regs[4], 0x01FA);
    assert_eq!(mem.read_u16(0x01FA), 7);
    assert_eq!(mem.read_u16(0x01FC), 0x0100);
    assert_eq!(mem.read_u16(0x01FE), flags);
}

#[test]
fn test_div_overflow_raises_interrupt_0() {
    let (mut cpu, mut mem) = divide_error_setup();
    // 0x1000 / 2 = 0x800 does not fit in AL
    cpu.regs[0] = 0x1000;
    cpu.write_reg8(3, 2);
    div(&mut cpu, &mut mem, &DecodedInstruction::new(0xF6).with_dst(Operand::reg8(3)));
    assert_eq!(cpu.regs[0], 0x1000);
    assert_eq!(cpu.ip, 0x1234);
    assert_eq!(cpu.segments[1], 0x0050);
}

#[test]
fn test_div_word_by_zero_raises_interrupt_0() {
    let (mut cpu, mut mem) = divide_error_setup();
    cpu.regs[2] = 1;
    div(&mut cpu, &mut mem, &DecodedInstruction::new(0xF7).with_dst(Operand::reg16(3)));
    assert_eq!(cpu.regs[2], 1);
    assert_eq!(cpu.ip, 0x1234);
    assert_eq!(cpu.regs[4], 0x01FA);
}

#[test]
fn test_idiv_by_zero_raises_interrupt_0() {
    let (mut cpu, mut mem) = divide_error_setup();
    cpu.regs[0] = 0xFF9C;
    idiv(&mut cpu, &mut mem, &DecodedInstruction::new(0xF6).with_dst(Operand::reg8(3)));
    assert_eq!(cpu.regs[0], 0xFF9C);
    assert_eq!(cpu.ip, 0x1234);
}

#[test]
fn test_div_normal() {
    let (mut cpu, mut mem) = divide_error_setup();
    cpu.regs[0] = 100;
    cpu.write_reg8(3, 7);
    div(&mut cpu, &mut mem, &DecodedInstruction::new(0xF6).with_dst(Operand::reg8(3)));
    assert_eq!(cpu.read_reg8(0), 14);
    assert_eq!(cpu.read_reg8(4), 2);
    assert_eq!(cpu.ip, 7);
}

#[test]
fn test_ror_undoes_rol() {
    let mut cpu = Cpu::new();
    let mut mem = MemoryBus::new();
    cpu.regs[0] = 0x8421;
    rol(&mut cpu, &mut mem, &on_ax(), 5);
    assert_eq!(cpu.regs[0], 0x8421u16.rotate_left(5));
    ror(&mut cpu, &mut mem, &on_ax(), 5);
    assert_eq!(cpu.regs[0], 0x8421);
}

#[test]
fn test_ror_undoes_rol_on_memory_byte() {
    let mut cpu = Cpu::new();
    let mut mem = MemoryBus::new();
    let instr = DecodedInstruction::new(0xD0).with_dst(Operand::mem8_disp(DIRECT_BASE_INDEX, 0x0300));
    mem.write_u8(0x0300, 0x96);
    rol(&mut cpu, &mut mem, &instr, 1);
    assert_eq!(mem.read_u8(0x0300), 0x2D);
    assert!(cpu.get_flag(Cpu::CF));
    ror(&mut cpu, &mut mem, &instr, 1);
    assert_eq!(mem.read_u8(0x0300), 0x96);
}

#[test]
fn test_rcr_undoes_rcl() {
    let mut cpu = Cpu::new();
    let mut mem = MemoryBus::new();
    cpu.write_reg8(0, 0xA5);
    cpu.set_flag(Cpu::CF, true);
    rcl(&mut cpu, &mut mem, &on_al(), 3);
    // CF:AL = 1:10100101 rotated left by 3 through the carry gives 1:00101110
    assert_eq!(cpu.read_reg8(0), 0x2E);
    assert!(cpu.get_flag(Cpu::CF));
    rcr(&mut cpu, &mut mem, &on_al(), 3);
    assert_eq!(cpu.read_reg8(0), 0xA5);
    assert!(cpu.get_flag(Cpu::CF));
}

#[test]
fn test_ret_undoes_call() {
    let mut h = CpuHarness::new();
    // 0: CALL +1 ; 3: HLT ; 4: RET
    h.load_program(&[0xE8, 0x01, 0x00, 0xF4, 0xC3], 0x0100);
    h.cpu.regs[4] = 0x0080;
    let regs = h.cpu.regs;
    assert!(h.step().is_ok());
    assert_eq!(h.cpu.ip, 4);
    assert!(h.step().is_ok());
    assert_eq!(h.cpu.ip, 3);
    assert_eq!(h.cpu.regs, regs);
}

#[test]
fn test_write_all_registers_64_digits() {
    let mut cpu = Cpu::new();
    let mut mem = MemoryBus::new();
    let mut dbg = GdbDebugger::new();
    let cmd = format!("G3412{}", "0".repeat(60));
    assert_eq!(handle_command(&cmd, &mut cpu, &mut mem, &mut dbg), "OK");
    assert_eq!(cpu.regs, [0x1234, 0, 0, 0, 0, 0, 0, 0]);
    assert_eq!(cpu.ip, 0);
    assert_eq!(cpu.segments, [0, 0, 0, 0]);
    let short = format!("G3412{}", "0".repeat(59));
    assert_eq!(handle_command(&short, &mut cpu, &mut mem, &mut dbg), "E01");
}

#[test]
fn test_pit_new_counts_are_zero() {
    let pit = Pit::new();
    for i in 0..3 {
        assert_eq!(pit.counters[i].count, 0);
        assert_eq!(pit.counters[i].reload_value, 0);
        assert!(pit.counters[i].null_count);
    }
    assert_eq!(pit.cycle_accumulator, 0);
    assert!(!pit.irq0_pending);
}

#[test]
fn test_take_packet_consumes_through_checksum() {
    let mut buf = format_packet("g").into_bytes();
    buf.extend_from_slice(b"+$m0,4#");
    assert_eq!(take_packet(&mut buf), Some("g".to_string()));
    assert_eq!(buf, b"+$m0,4#".to_vec());
    // An incomplete packet stays in the buffer
    assert_eq!(take_packet(&mut buf), None);
    assert_eq!(buf, b"+$m0,4#".to_vec());
}

#[test]
fn test_take_packet_bad_checksum_keeps_buffer() {
    let mut buf = b"$g#00".to_vec();
    assert_eq!(take_packet(&mut buf), None);
    assert_eq!(buf, b"$g#00".to_vec());
}

#[test]
fn test_discard_acks() {
    let mut buf = b"+-+$g#67".to_vec();
    discard_acks(&mut buf);
    assert_eq!(buf, b"$g#67".to_vec());
    let mut all = b"++".to_vec();
    discard_acks(&mut all);
    assert!(all.is_empty());
    let mut none = b"$g#67+".to_vec();
    discard_acks(&mut none);
    assert_eq!(none, b"$g#67+".to_vec());
}

#[test]
fn test_compute_flags_per_flag() {
    let mut cpu = Cpu::new();
    cpu.set_flags(0x0803); // OF, CF and bit 1
    // ADD8 with a carry out of bit 7 and a zero byte result
    let f = cpu.compute_flags(0x100, FlagOp::Add8);
    assert_eq!(f, 0x0803 | 0x0040 | 0x0004);
    // AND8 clears CF; 0x81 has an even number of bits and its top bit set
    let f = cpu.compute_flags(0x81, FlagOp::And8);
    assert_eq!(f, 0x0802 | 0x0080 | 0x0004);
    // INC8 keeps CF; 0x01 has odd parity
    let f = cpu.compute_flags(0x01, FlagOp::Inc8);
    assert_eq!(f, 0x0803);
    // A word result: SF from bit 15, PF from the low byte only
    let f = cpu.compute_flags(0x8003, FlagOp::Or16);
    assert_eq!(f, 0x0802 | 0x0080 | 0x0004);
    assert_eq!(cpu.compute_flags(0x1234, FlagOp::NoOp), 0x0803);
}

#[test]
fn test_sector_write_leaves_other_sectors() {
    let g = DiskGeometry::new(40, 2, 9, 512);
    let mut disk = FloppyDisk::new(g);
    disk.write_sector(3, 1, 9, &[1, 2, 3]).unwrap();
    let s = disk.read_sector(3, 1, 9).unwrap();
    assert_eq!(&s[..3], &[1, 2, 3]);
    assert!(s[3..].iter().all(|&b| b == 0));
    // The neighbours in linear order, and the same sector number elsewhere
    for (c, h, sec) in [(3, 1, 8), (4, 0, 1), (3, 0, 9), (2, 1, 9)] {
        assert!(disk.read_sector(c, h, sec).unwrap().iter().all(|&b| b == 0));
    }
}

#[test]
fn test_format_track_keeps_neighbour_tracks() {
    let g = DiskGeometry::new(40, 2, 9, 512);
    let mut disk = FloppyDisk::new(g);
    disk.format_track(5, 1, 0xF6).unwrap();
    for sector in 1..=9 {
        assert!(disk.read_sector(5, 1, sector).unwrap().iter().all(|&b| b == 0xF6));
    }
    assert!(disk.read_sector(5, 0, 9).unwrap().iter().all(|&b| b == 0));
    assert!(disk.read_sector(6, 0, 1).unwrap().iter().all(|&b| b == 0));
    // A track that does not exist changes nothing but still reports success
    let mut other = FloppyDisk::new(g);
    assert!(other.format_track(40, 0, 0xF6).is_ok());
    assert!(other.read_sector(39, 1, 9).unwrap().iter().all(|&b| b == 0));
}

#[test]
fn test_transfer_result_read_back() {
    let mut fdc = Fdc::new();
    fdc.write_u8(FDC_DOR, DOR_RESET | 0x01);
    fdc.head = 1;
    fdc.sector = 5;
    fdc.sector_size = 2;
    fdc.drives[1].cylinder = 7;
    fdc.dma_pending = true;
    fdc.complete_transfer();
    assert!(!fdc.dma_pending);
    let mut bytes = Vec::new();
    for _ in 0..7 {
        bytes.push(fdc.read_u8(FDC_DATA));
    }
    // ST0: normal termination, head 1, drive 1
    assert_eq!(bytes, vec![0x05, 0, 0, 7, 1, 5, 2]);
    assert_eq!(fdc.phase, FdcPhase::Idle);
    assert_eq!(fdc.read_u8(FDC_DATA), 0xFF);
}

#[test]
fn test_reset_release_queues_interrupts() {
    let mut fdc = Fdc::new();
    assert_eq!(fdc.dor & DOR_RESET, 0);
    fdc.write_u8(FDC_DOR, DOR_RESET | 0x30);
    assert_eq!(fdc.dor, DOR_RESET | 0x30);
    assert!(fdc.irq_pending);
    let queued: Vec<(u8, u8)> = fdc.pending_interrupts.iter().cloned().collect();
    assert_eq!(queued, vec![(0xC0, 0), (0xC1, 0), (0xC2, 0), (0xC3, 0)]);
    assert!(fdc.drives[0].motor_on && fdc.drives[1].motor_on);
    assert!(!fdc.drives[2].motor_on && !fdc.drives[3].motor_on);
}

#[test]
fn test_interrupt_frame() {
    let (mut cpu, mut mem) = divide_error_setup();
    cpu.set_flag(Cpu::IF, true);
    cpu.set_flag(Cpu::TF, true);
    let flags = cpu.get_flags();
    mem.write_u16(4 * 0x21, 0x4321);
    mem.write_u16(4 * 0x21 + 2, 0x0060);
    let instr = DecodedInstruction::new(0xCD).with_src(Operand::imm8(0x21));
    ezpc::cpu::execute::control_flow::int_n(&mut cpu, &mut mem, &instr);
    assert_eq!(cpu.ip, 0x4321);
    assert_eq!(cpu.segments[1], 0x0060);
    assert_eq!(cpu.regs[4], 0x01FA);
    assert_eq!(mem.read_u16(0x01FA), 7);
    assert_eq!(mem.read_u16(0x01FC), 0x0100);
    assert_eq!(mem.read_u16(0x01FE), flags);
    assert!(!cpu.get_flag(Cpu::IF));
    assert!(!cpu.get_flag(Cpu::TF));
}

#[test]
fn test_format_packet_round_trip_non_ascii() {
    for data in ["é", "m1000,4", "vCont;c", "€x"] {
        let packet = format_packet(data);
        assert_eq!(parse_packet(packet.as_bytes()), Some(data.to_string()));
    }
    assert_eq!(format_packet("g"), "$g#67");
}

#[test]
fn test_dma_read_port_effect() {
    let mut dma = Dma::new();
    dma.write_u8(0x0C, 0);
    dma.write_u8(0x04, 0x34);
    dma.write_u8(0x04, 0x12);
    assert_eq!(dma.read_u8(0x04), 0x34);
    assert_eq!(dma.read_u8(0x04), 0x12);
}
