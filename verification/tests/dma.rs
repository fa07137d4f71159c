//! Tests of the dma module

use ezpc::components::dma::{DMA_PAGE_CH0, DMA_PAGE_CH1, DMA_PAGE_CH2, DMA_PAGE_CH3, Dma, DmaChannel, DmaDirection, DmaTransferMode};

#[test]
fn test_dma_new() {
    let dma = Dma::new();
    assert_eq!(dma.command, 0);
    assert!(!dma.flip_flop);
    for ch in &dma.channels {
        assert!(ch.masked);
        assert!(!ch.dreq);
        assert_eq!(ch.current_address, 0);
        assert_eq!(ch.current_count, 0);
    }
}

#[test]
fn test_master_reset() {
    let mut dma = Dma::new();

    // Set some state
    dma.command = 0xFF;
    dma.flip_flop = true;
    dma.channels[0].current_address = 0x1234;
    dma.channels[0].masked = false;
    dma.channels[0].page = 0x12;

    // Reset
    dma.master_reset();

    assert_eq!(dma.command, 0);
    assert!(!dma.flip_flop);
    assert_eq!(dma.channels[0].current_address, 0);
    assert!(dma.channels[0].masked);
    // Page register is NOT reset
    assert_eq!(dma.channels[0].page, 0x12);
}

#[test]
fn test_mode_register_parsing() {
    let mut ch = DmaChannel::new();

    // Mode: Single transfer, Write (device→memory), increment, no auto-init
    // 01 0 0 01 10 = 0x44 + channel
    ch.mode = 0b0100_0100;
    assert_eq!(ch.direction(), DmaDirection::Write);
    assert_eq!(ch.transfer_mode(), DmaTransferMode::Single);
    assert!(ch.address_increment());
    assert!(!ch.auto_init());

    // Mode: Block transfer, Read (memory→device), decrement, auto-init
    // 10 1 1 10 00 = 0xA8 + channel
    ch.mode = 0b1011_1000;
    assert_eq!(ch.direction(), DmaDirection::Read);
    assert_eq!(ch.transfer_mode(), DmaTransferMode::Block);
    assert!(!ch.address_increment());
    assert!(ch.auto_init());
}

#[test]
fn test_address_count_flip_flop() {
    let mut dma = Dma::new();

    // Clear flip-flop
    dma.write_u8(0x0C, 0);
    assert!(!dma.flip_flop);

    // Write address low byte to channel 0
    dma.write_u8(0x00, 0x34);
    assert!(dma.flip_flop);
    assert_eq!(dma.channels[0].current_address, 0x0034);
    assert_eq!(dma.channels[0].base_address, 0x0034);

    // Write address high byte to channel 0
    dma.write_u8(0x00, 0x12);
    assert!(!dma.flip_flop);
    assert_eq!(dma.channels[0].current_address, 0x1234);
    assert_eq!(dma.channels[0].base_address, 0x1234);

    // Write count low byte to channel 0
    dma.write_u8(0x01, 0xFF);
    assert!(dma.flip_flop);

    // Write count high byte to channel 0
    dma.write_u8(0x01, 0x00);
    assert!(!dma.flip_flop);
    assert_eq!(dma.channels[0].current_count, 0x00FF);
}

#[test]
fn test_read_address_count() {
    let mut dma = Dma::new();

    // Set up channel 2
    dma.channels[2].current_address = 0xABCD;
    dma.channels[2].current_count = 0x1234;

    // Clear flip-flop
    dma.write_u8(0x0C, 0);

    // Read address (port 0x04 = channel 2 address)
    let low = dma.read_u8(0x04);
    assert_eq!(low, 0xCD);
    let high = dma.read_u8(0x04);
    assert_eq!(high, 0xAB);

    // Clear flip-flop
    dma.write_u8(0x0C, 0);

    // Read count (port 0x05 = channel 2 count)
    let low = dma.read_u8(0x05);
    assert_eq!(low, 0x34);
    let high = dma.read_u8(0x05);
    assert_eq!(high, 0x12);
}

#[test]
fn test_page_registers() {
    let mut dma = Dma::new();

    dma.write_u8(DMA_PAGE_CH0, 0x01);
    dma.write_u8(DMA_PAGE_CH1, 0x02);
    dma.write_u8(DMA_PAGE_CH2, 0x03);
    dma.write_u8(DMA_PAGE_CH3, 0x04);

    assert_eq!(dma.read_u8(DMA_PAGE_CH0), 0x01);
    assert_eq!(dma.read_u8(DMA_PAGE_CH1), 0x02);
    assert_eq!(dma.read_u8(DMA_PAGE_CH2), 0x03);
    assert_eq!(dma.read_u8(DMA_PAGE_CH3), 0x04);

    assert_eq!(dma.channels[0].page, 0x01);
    assert_eq!(dma.channels[1].page, 0x02);
    assert_eq!(dma.channels[2].page, 0x03);
    assert_eq!(dma.channels[3].page, 0x04);
}

#[test]
fn test_physical_address() {
    let mut ch = DmaChannel::new();
    ch.page = 0x12;
    ch.current_address = 0x3456;

    assert_eq!(ch.physical_address(), 0x12_3456);
}

#[test]
fn test_mask_register() {
    let mut dma = Dma::new();

    // All channels start masked
    assert_eq!(dma.read_u8(0x0A), 0x0F);

    // Unmask channel 2: write 0x02 (bit 2 = 0 means unmask)
    dma.write_u8(0x0A, 0x02);
    assert!(!dma.channels[2].masked);
    assert_eq!(dma.read_u8(0x0A), 0x0B); // 1011 = all masked except ch2

    // Mask channel 2: write 0x06 (bit 2 = 1 means mask)
    dma.write_u8(0x0A, 0x06);
    assert!(dma.channels[2].masked);

    // Unmask all channels (port 0x0E)
    dma.write_u8(0x0E, 0);
    assert_eq!(dma.read_u8(0x0A), 0x00);

    // Mask channels 0 and 3 (port 0x0F)
    dma.write_u8(0x0F, 0x09);
    assert!(dma.channels[0].masked);
    assert!(!dma.channels[1].masked);
    assert!(!dma.channels[2].masked);
    assert!(dma.channels[3].masked);
}

#[test]
fn test_mode_register() {
    let mut dma = Dma::new();

    // Set mode for channel 2: Single, Write, increment, no auto-init
    // 01 0 0 01 10 = 0x46
    dma.write_u8(0x0B, 0x46);
    assert_eq!(dma.channels[2].mode, 0x46);
    assert_eq!(dma.channels[2].direction(), DmaDirection::Write);
    assert_eq!(dma.channels[2].transfer_mode(), DmaTransferMode::Single);
}

#[test]
fn test_status_register() {
    let mut dma = Dma::new();

    // Set TC on channels 0 and 2
    dma.channels[0].terminal_count = true;
    dma.channels[2].terminal_count = true;

    // Set DREQ on channel 1
    dma.channels[1].dreq = true;

    let status = dma.read_u8(0x08);
    assert_eq!(status & 0x0F, 0b0101); // TC bits: channels 0 and 2
    assert_eq!(status & 0xF0, 0b0010_0000); // DREQ bit: channel 1

    // Reading status clears TC flags
    assert!(!dma.channels[0].terminal_count);
    assert!(!dma.channels[2].terminal_count);
}

#[test]
fn test_advance_with_increment() {
    let mut ch = DmaChannel::new();
    ch.current_address = 0x1000;
    ch.current_count = 2;
    ch.mode = 0b0100_0100; // Single, Write, increment

    // First advance: count 2 -> 1
    assert!(!ch.advance());
    assert_eq!(ch.current_address, 0x1001);
    assert_eq!(ch.current_count, 1);

    // Second advance: count 1 -> 0
    assert!(!ch.advance());
    assert_eq!(ch.current_address, 0x1002);
    assert_eq!(ch.current_count, 0);

    // Third advance: count 0 -> underflow = TC
    assert!(ch.advance());
    assert_eq!(ch.current_address, 0x1003);
    assert!(ch.terminal_count);
}

#[test]
fn test_advance_with_decrement() {
    let mut ch = DmaChannel::new();
    ch.current_address = 0x1003;
    ch.current_count = 1;
    ch.mode = 0b0110_0100; // Single, Write, decrement

    // First advance: count 1 -> 0
    assert!(!ch.advance());
    assert_eq!(ch.current_address, 0x1002);
    assert_eq!(ch.current_count, 0);

    // Second advance: TC
    assert!(ch.advance());
    assert_eq!(ch.current_address, 0x1001);
    assert!(ch.terminal_count);
}

#[test]
fn test_auto_init() {
    let mut ch = DmaChannel::new();
    ch.base_address = 0x2000;
    ch.base_count = 0x00FF;
    ch.current_address = 0x20FF;
    ch.current_count = 0;
    ch.mode = 0b0101_0100; // Single, Write, increment, AUTO-INIT

    // Advance to TC
    assert!(ch.advance());
    assert!(ch.terminal_count);

    // Verify auto-init reloaded base values
    assert_eq!(ch.current_address, 0x2000);
    assert_eq!(ch.current_count, 0x00FF);
}

#[test]
fn test_is_channel_active() {
    let mut dma = Dma::new();

    // Channel not active: masked
    assert!(!dma.is_channel_active(2));

    // Unmask channel 2
    dma.channels[2].masked = false;
    assert!(!dma.is_channel_active(2)); // Still not active: no DREQ

    // Set DREQ
    dma.set_dreq(2, true);
    // Still need valid mode
    dma.channels[2].mode = 0b0100_0100; // Single, Write
    assert!(dma.is_channel_active(2));

    // Disable controller
    dma.command = 0b0000_0100;
    assert!(!dma.is_channel_active(2));
}

#[test]
fn test_request_register() {
    let mut dma = Dma::new();

    // Software request for channel 1
    dma.write_u8(0x09, 0b0000_0101); // Set request for channel 1
    assert!(dma.channels[1].dreq);

    // Clear request for channel 1
    dma.write_u8(0x09, 0b0000_0001); // Clear request for channel 1
    assert!(!dma.channels[1].dreq);
}
