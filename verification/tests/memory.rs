//! Tests of the memory bus and the display adapter

use ezpc::components::mda::Mda;
use ezpc::components::pit::Pit;
use ezpc::memory::{IoPeripheral, MemoryBus};

#[test]
fn test_ram_write_read() {
    let mut mem = MemoryBus::new();
    mem.write_u8(0x1234, 0x56);
    assert_eq!(mem.read_u8(0x1234), 0x56);
    assert_eq!(mem.read_u8(0x1235), 0x00);
    mem.write_u16(0x2000, 0xABCD);
    assert_eq!(mem.read_u8(0x2000), 0xCD);
    assert_eq!(mem.read_u8(0x2001), 0xAB);
    assert_eq!(mem.read_u16(0x2000), 0xABCD);
}

#[test]
fn test_rom_is_read_only() {
    let mut mem = MemoryBus::new();
    mem.load_rom(&[0xEA, 0x5B, 0xE0]);
    // The image sits at the end of the ROM space
    assert_eq!(mem.read_u8(0xFFFFD), 0xEA);
    assert_eq!(mem.read_u8(0xFFFFF), 0xE0);
    mem.write_u8(0xFFFFD, 0x00);
    assert_eq!(mem.read_u8(0xFFFFD), 0xEA);
}

#[test]
fn test_unmapped_reads_ff() {
    let mut mem = MemoryBus::new();
    assert_eq!(mem.read_u8(0x50000), 0xFF);
    mem.write_u8(0x50000, 0x12);
    assert_eq!(mem.read_u8(0x50000), 0xFF);
    // Beyond 1MB nothing is mapped either
    assert_eq!(mem.read_u8(0x100000), 0xFF);
}

#[test]
fn test_vram_through_bus() {
    let mut mem = MemoryBus::new();
    mem.write_u8(0xB0000, 0x41);
    mem.write_u8(0xB0001, 0x07);
    assert_eq!(mem.mda().read_vram(0), 0x41);
    assert_eq!(mem.mda().read_vram(1), 0x07);
    assert_eq!(mem.read_u8(0xB0000), 0x41);
}

#[test]
fn test_mda_vram_round_trip() {
    let mut mda = Mda::new();
    mda.write_vram(0x0FFF, 0x99);
    assert_eq!(mda.read_vram(0x0FFF), 0x99);
}

#[test]
fn test_load_at_offset() {
    let mut mem = MemoryBus::new();
    mem.load(&[1, 2, 3], 0x7C00);
    assert_eq!(mem.read_u8(0x7C00), 1);
    assert_eq!(mem.read_u8(0x7C02), 3);
}

#[test]
fn test_io_routing_to_devices() {
    let mut mem = MemoryBus::new();
    mem.register_io_device(IoPeripheral::Pit(Pit::new()));
    // Counter 0, low then high byte, mode 2
    mem.io_write_u8(0x43, 0x34);
    // A word write sends the low byte to 0x40, the high byte to 0x41
    mem.io_write_u16(0x40, 0x1234);
    mem.io_write_u8(0x40, 0x12);
    // Latch counter 0 and read it back low then high
    mem.io_write_u8(0x43, 0x00);
    assert_eq!(mem.io_read_u8(0x40), 0x34);
    assert_eq!(mem.io_read_u8(0x40), 0x12);
    // Unmasking through the PIC data port reads back
    mem.io_write_u16(0x21, 0x00F0);
    assert_eq!(mem.io_read_u8(0x21), 0xF0);
}
