//! Tests of the pic module

use ezpc::components::pic::{EOI_COMMAND, PIC_COMMAND_PORT, PIC_DATA_PORT, Pic};

#[test]
fn test_pic_new() {
    let pic = Pic::new(0x08);
    assert_eq!(pic.get_imr(), 0xFF); // All masked
    assert_eq!(pic.get_irr(), 0);
    assert_eq!(pic.get_isr(), 0);
    assert!(!pic.intr_out());
}

#[test]
fn test_edge_triggered_rising_edge() {
    let mut pic = Pic::new(0x08);
    pic.set_imr(0x00); // Enable all interrupts

    // Set IRQ0 low
    pic.set_irq_level(0, false);
    assert_eq!(pic.get_irr(), 0);
    assert!(!pic.intr_out());

    // Rising edge: low -> high
    pic.set_irq_level(0, true);
    assert_eq!(pic.get_irr(), 0x01); // IRQ0 latched
    assert!(pic.intr_out());
}

#[test]
fn test_edge_triggered_no_falling_edge() {
    let mut pic = Pic::new(0x08);
    pic.set_imr(0x00);

    // Set high
    pic.set_irq_level(0, true);
    assert_eq!(pic.get_irr(), 0x01);

    // Falling edge should not trigger
    pic.set_irq_level(0, false);
    assert_eq!(pic.get_irr(), 0x01); // Still latched
}

#[test]
fn test_edge_triggered_repeated_high() {
    let mut pic = Pic::new(0x08);
    pic.set_imr(0x00);

    // First rising edge
    pic.set_irq_level(0, false);
    pic.set_irq_level(0, true);
    assert_eq!(pic.get_irr(), 0x01);

    // Staying high should not re-trigger
    pic.set_irq_level(0, true);
    assert_eq!(pic.get_irr(), 0x01);
}

#[test]
fn test_masked_interrupt() {
    let mut pic = Pic::new(0x08);
    pic.set_imr(0xFF); // All masked

    // Trigger IRQ0 (rising edge)
    pic.set_irq_level(0, false);
    pic.set_irq_level(0, true);

    // IRR should be set but intr_out should be false (masked)
    assert_eq!(pic.get_irr(), 0x01);
    assert!(!pic.intr_out());

    // Unmask IRQ0
    pic.set_imr(0xFE);
    assert!(pic.intr_out());
}

#[test]
fn test_inta_returns_vector() {
    let mut pic = Pic::new(0x08);
    pic.set_imr(0x00);

    // Trigger IRQ3
    pic.set_irq_level(3, false);
    pic.set_irq_level(3, true);

    assert!(pic.intr_out());

    // Acknowledge interrupt
    let vector = pic.inta();
    assert_eq!(vector, 0x08 + 3); // 0x0B

    // Should be moved from IRR to ISR
    assert_eq!(pic.get_irr(), 0);
    assert_eq!(pic.get_isr(), 0x08); // Bit 3 set
    assert!(!pic.intr_out()); // No more pending
}

#[test]
fn test_priority_order() {
    let mut pic = Pic::new(0x08);
    pic.set_imr(0x00);

    // Trigger multiple IRQs
    pic.set_irq_level(5, false);
    pic.set_irq_level(5, true);
    pic.set_irq_level(2, false);
    pic.set_irq_level(2, true);
    pic.set_irq_level(7, false);
    pic.set_irq_level(7, true);

    // IRQ2 should be serviced first (highest priority)
    let vector = pic.inta();
    assert_eq!(vector, 0x08 + 2);

    // Then IRQ5
    let vector = pic.inta();
    assert_eq!(vector, 0x08 + 5);

    // Then IRQ7
    let vector = pic.inta();
    assert_eq!(vector, 0x08 + 7);

    // No more interrupts
    assert!(!pic.intr_out());
}

#[test]
fn test_eoi() {
    let mut pic = Pic::new(0x08);
    pic.set_imr(0x00);

    // Trigger and acknowledge IRQ1
    pic.set_irq_level(1, false);
    pic.set_irq_level(1, true);
    let _vector = pic.inta();

    assert_eq!(pic.get_isr(), 0x02); // Bit 1 set

    // Send EOI
    pic.eoi();
    assert_eq!(pic.get_isr(), 0); // Cleared
}

#[test]
fn test_spurious_interrupt() {
    let mut pic = Pic::new(0x08);
    // No pending interrupts
    let vector = pic.inta();
    // Should return spurious vector (offset + 7)
    assert_eq!(vector, 0x08 + 7);
}

// I/O Port tests
#[test]
fn test_io_port_range() {
    let pic = Pic::new(0x08);
    let range = pic.port_range();
    assert_eq!(*range.start(), 0x20);
    assert_eq!(*range.end(), 0x21);
}

#[test]
fn test_io_write_read_imr() {
    let mut pic = Pic::new(0x08);

    // Write to data port (IMR)
    pic.write_u8(PIC_DATA_PORT, 0xAB);

    // Read back from data port
    let value = pic.read_u8(PIC_DATA_PORT);
    assert_eq!(value, 0xAB);
    assert_eq!(pic.get_imr(), 0xAB);
}

#[test]
fn test_io_eoi_command() {
    let mut pic = Pic::new(0x08);
    pic.set_imr(0x00);

    // Trigger and acknowledge IRQ2
    pic.set_irq_level(2, false);
    pic.set_irq_level(2, true);
    let _vector = pic.inta();

    assert_eq!(pic.get_isr(), 0x04); // Bit 2 set

    // Send EOI via I/O port
    pic.write_u8(PIC_COMMAND_PORT, EOI_COMMAND);

    // ISR should be cleared
    assert_eq!(pic.get_isr(), 0);
}

#[test]
fn test_io_read_command_port_returns_irr() {
    let mut pic = Pic::new(0x08);
    pic.set_imr(0x00);

    // Trigger IRQ0 and IRQ3
    pic.set_irq_level(0, false);
    pic.set_irq_level(0, true);
    pic.set_irq_level(3, false);
    pic.set_irq_level(3, true);

    // Reading command port should return IRR
    let value = pic.read_u8(PIC_COMMAND_PORT);
    assert_eq!(value, 0x09); // Bits 0 and 3 set
}

#[test]
fn test_io_imr_affects_interrupts() {
    let mut pic = Pic::new(0x08);

    // Trigger IRQ1
    pic.set_irq_level(1, false);
    pic.set_irq_level(1, true);

    // Mask IRQ1 via I/O port
    pic.write_u8(PIC_DATA_PORT, 0xFF);
    assert!(!pic.intr_out()); // Should be masked

    // Unmask IRQ1
    pic.write_u8(PIC_DATA_PORT, 0xFD); // All except bit 1
    assert!(pic.intr_out()); // Should now signal interrupt
}

#[test]
fn test_icw_initialization_sequence() {
    let mut pic = Pic::new(0x00); // Initial offset doesn't matter

    // IBM PC BIOS initialization sequence:
    // ICW1: 0x13 = single mode, ICW4 needed
    pic.write_u8(PIC_COMMAND_PORT, 0x13);
    // After ICW1, ISR and IMR should be cleared
    assert_eq!(pic.get_isr(), 0);
    assert_eq!(pic.get_imr(), 0);

    // ICW2: vector offset = 0x08
    pic.write_u8(PIC_DATA_PORT, 0x08);
    // Vector offset should be set
    let vector_offset = pic.vector_offset;
    assert_eq!(vector_offset, 0x08);

    // ICW4: 0x09 = 8086 mode, normal EOI
    pic.write_u8(PIC_DATA_PORT, 0x09);

    // Now in ready state - writes to data port should be IMR
    pic.write_u8(PIC_DATA_PORT, 0xFB); // Mask all except IRQ2
    assert_eq!(pic.get_imr(), 0xFB);

    // Verify interrupt delivery with new vector offset
    pic.set_irq_level(2, false);
    pic.set_irq_level(2, true);
    let vector = pic.inta();
    assert_eq!(vector, 0x08 + 2); // Should be 0x0A
}

#[test]
fn test_icw_reinit_does_not_corrupt_imr() {
    let mut pic = Pic::new(0x08);

    // Set initial IMR
    pic.write_u8(PIC_DATA_PORT, 0x55);
    assert_eq!(pic.get_imr(), 0x55);

    // Start reinitialization - this should clear IMR
    pic.write_u8(PIC_COMMAND_PORT, 0x13);
    assert_eq!(pic.get_imr(), 0); // ICW1 clears IMR

    // Complete initialization sequence
    pic.write_u8(PIC_DATA_PORT, 0x08); // ICW2
    pic.write_u8(PIC_DATA_PORT, 0x09); // ICW4

    // Now write to IMR
    pic.write_u8(PIC_DATA_PORT, 0xAA);
    assert_eq!(pic.get_imr(), 0xAA); // Should update IMR, not something else
}
