//! Tests of the GDB debugger: packets, commands and breakpoints

use ezpc::cpu::Cpu;
use ezpc::debugger::commands::handle_command;
use ezpc::debugger::protocol::{format_packet, parse_packet};
use ezpc::debugger::{DebugState, GdbDebugger};
use ezpc::memory::MemoryBus;

#[test]
fn test_parse_after_format() {
    for data in ["", "g", "m1000,4", "qSupported:multiprocess+"] {
        let packet = format_packet(data);
        assert_eq!(parse_packet(packet.as_bytes()), Some(data.to_string()));
    }
}

#[test]
fn test_parse_packet_not_utf8() {
    // 0xFF 0xFE sum to 0xFD; valid checksum but not UTF-8
    assert_eq!(parse_packet(&[b'$', 0xFF, 0xFE, b'#', b'f', b'd']), None);
}

#[test]
fn test_parse_packet_uppercase_and_plus_checksum() {
    assert_eq!(parse_packet(b"$g#67"), Some("g".to_string()));
    assert_eq!(parse_packet(b"$qSupported#37"), Some("qSupported".to_string()));
    // The checksum digits may be upper case, or a '+' and one digit
    assert_eq!(parse_packet(b"$\x0a#0A"), Some("\n".to_string()));
    assert_eq!(parse_packet(b"$\x0a#+a"), Some("\n".to_string()));
}

#[test]
fn test_command_halt_reason_and_registers() {
    let mut cpu = Cpu::new();
    let mut mem = MemoryBus::new();
    let mut dbg = GdbDebugger::new();
    assert_eq!(handle_command("?", &mut cpu, &mut mem, &mut dbg), "S05");
    cpu.regs[0] = 0x1234;
    cpu.ip = 0xABCD;
    let regs = handle_command("g", &mut cpu, &mut mem, &mut dbg);
    assert_eq!(regs.len(), 64);
    assert!(regs.starts_with("3412"));
    assert_eq!(&regs[32..36], "cdab");
    assert!(regs.ends_with("00000000"));
}

#[test]
fn test_command_write_registers() {
    let mut cpu = Cpu::new();
    let mut mem = MemoryBus::new();
    let mut dbg = GdbDebugger::new();
    let mut dump = String::new();
    for i in 0..16u16 {
        let v = 0x0101 * (i + 1);
        dump.push_str(&format!("{:02x}{:02x}", v & 0xFF, v >> 8));
    }
    dump.push_str("0000000000000000");
    let cmd = format!("G{}", dump);
    assert_eq!(handle_command(&cmd, &mut cpu, &mut mem, &mut dbg), "OK");
    assert_eq!(cpu.regs[0], 0x0101);
    assert_eq!(cpu.regs[7], 0x0808);
    assert_eq!(cpu.ip, 0x0909);
    assert_eq!(cpu.flags, 0x0002); // the FLAGS field is skipped
    assert_eq!(cpu.segments[1], 0x0b0b); // CS
    assert_eq!(cpu.segments[0], 0x0e0e); // ES
    assert_eq!(handle_command("G0000", &mut cpu, &mut mem, &mut dbg), "E01");
}

#[test]
fn test_command_memory() {
    let mut cpu = Cpu::new();
    let mut mem = MemoryBus::new();
    let mut dbg = GdbDebugger::new();
    assert_eq!(handle_command("M100,3:abcdef", &mut cpu, &mut mem, &mut dbg), "OK");
    assert_eq!(mem.read_u8(0x100), 0xAB);
    assert_eq!(mem.read_u8(0x102), 0xEF);
    assert_eq!(handle_command("m100,3", &mut cpu, &mut mem, &mut dbg), "abcdef");
    assert_eq!(handle_command("m100", &mut cpu, &mut mem, &mut dbg), "E01");
    assert_eq!(handle_command("mxyz,1", &mut cpu, &mut mem, &mut dbg), "E01");
    // A bad pair stops the write after the good ones
    assert_eq!(handle_command("M200,3:11zz33", &mut cpu, &mut mem, &mut dbg), "E01");
    assert_eq!(mem.read_u8(0x200), 0x11);
    assert_eq!(mem.read_u8(0x201), 0x00);
}

#[test]
fn test_command_run_control() {
    let mut cpu = Cpu::new();
    let mut mem = MemoryBus::new();
    let mut dbg = GdbDebugger::new();
    assert!(dbg.is_paused());
    assert_eq!(handle_command("c", &mut cpu, &mut mem, &mut dbg), "");
    assert_eq!(dbg.state, DebugState::Running);
    assert_eq!(handle_command("s", &mut cpu, &mut mem, &mut dbg), "");
    assert!(dbg.is_single_stepping());
    assert_eq!(handle_command("k", &mut cpu, &mut mem, &mut dbg), "OK");
    assert!(dbg.is_paused());
    assert_eq!(handle_command("Hg0", &mut cpu, &mut mem, &mut dbg), "OK");
    assert_eq!(handle_command("X", &mut cpu, &mut mem, &mut dbg), "");
}

#[test]
fn test_command_queries() {
    let mut cpu = Cpu::new();
    let mut mem = MemoryBus::new();
    let mut dbg = GdbDebugger::new();
    assert_eq!(handle_command("qSupported:xmlRegisters=i386", &mut cpu, &mut mem, &mut dbg), "PacketSize=4096");
    assert_eq!(handle_command("qAttached", &mut cpu, &mut mem, &mut dbg), "1");
    assert_eq!(handle_command("qC", &mut cpu, &mut mem, &mut dbg), "QC0");
    assert_eq!(handle_command("qfThreadInfo", &mut cpu, &mut mem, &mut dbg), "m0");
    assert_eq!(handle_command("qsThreadInfo", &mut cpu, &mut mem, &mut dbg), "l");
    assert_eq!(handle_command("qTStatus", &mut cpu, &mut mem, &mut dbg), "");
    assert_eq!(handle_command("qSymbol::", &mut cpu, &mut mem, &mut dbg), "OK");
    assert_eq!(handle_command("qXfer", &mut cpu, &mut mem, &mut dbg), "");
}

#[test]
fn test_breakpoints() {
    let mut cpu = Cpu::new();
    let mut mem = MemoryBus::new();
    let mut dbg = GdbDebugger::new();
    assert_eq!(handle_command("Z0,1000,1", &mut cpu, &mut mem, &mut dbg), "OK");
    assert_eq!(handle_command("Z0,1000,1", &mut cpu, &mut mem, &mut dbg), "OK");
    assert_eq!(dbg.breakpoints, vec![0x1000]);
    cpu.segments[1] = 0x0100;
    cpu.ip = 0;
    assert!(dbg.check_breakpoint(&cpu));
    assert_eq!(handle_command("z0,1000,1", &mut cpu, &mut mem, &mut dbg), "OK");
    assert!(!dbg.check_breakpoint(&cpu));
    assert_eq!(handle_command("Z0", &mut cpu, &mut mem, &mut dbg), "E01");
}

#[test]
fn test_process_packet_queues_replies() {
    let mut cpu = Cpu::new();
    let mut mem = MemoryBus::new();
    let mut dbg = GdbDebugger::new();
    dbg.process_packet("?", &mut cpu, &mut mem);
    dbg.process_packet("c", &mut cpu, &mut mem);
    dbg.process_packet("vMustReplyEmpty", &mut cpu, &mut mem);
    assert_eq!(dbg.packets_processed, 3);
    assert_eq!(dbg.take_outgoing(), vec!["$S05#b8".to_string(), "$#00".to_string()]);
    assert!(dbg.take_outgoing().is_empty());
    dbg.single_step();
    dbg.finish_single_step();
    assert!(dbg.is_paused());
    assert_eq!(dbg.take_outgoing(), vec!["$S05#b8".to_string()]);
}
