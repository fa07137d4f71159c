//! Tests of the ppi module

use ezpc::components::ppi::{DIP_SWITCHES, KeyboardResetState, PPI_PORT_A, PPI_PORT_B, PPI_PORT_C, Ppi};
use ezpc::components::pic::Pic;
use std::sync::{Arc, RwLock};
use std::collections::VecDeque;
use ezpc::components::keyboard::Keyboard;

#[test]
fn test_ppi_new() {
    let queue = Arc::new(RwLock::new(VecDeque::new()));
    let ppi = Ppi::new(queue);
    assert_eq!(ppi.latched_scancode, None);
    assert!(!ppi.interrupt_pending);
    assert_eq!(ppi.dip_switches, DIP_SWITCHES);
}

#[test]
fn test_ppi_port_range() {
    let queue = Arc::new(RwLock::new(VecDeque::new()));
    let ppi = Ppi::new(queue);
    let range = ppi.port_range();
    assert_eq!(*range.start(), 0x60);
    assert_eq!(*range.end(), 0x62);
}

#[test]
fn test_port_60_returns_dip_switches_by_default() {
    let queue = Arc::new(RwLock::new(VecDeque::new()));
    let mut ppi = Ppi::new(queue);
    // Port 0x60 should return DIP switches by default (no scancode latched)
    assert_eq!(ppi.read_u8(PPI_PORT_A), DIP_SWITCHES);
}

#[test]
fn test_port_61_write_bit7_high_returns_dip_switches() {
    let queue = Arc::new(RwLock::new(VecDeque::new()));
    let mut ppi = Ppi::new(queue);

    // Write to port 0x61 with bit 7 = 1 (select DIP switches)
    ppi.write_u8(PPI_PORT_B, 0x80);

    // Port 0x60 should return DIP switches
    assert_eq!(ppi.read_u8(PPI_PORT_A), DIP_SWITCHES);
}

#[test]
fn test_port_61_write_bit7_low_returns_scancode() {
    let queue = Arc::new(RwLock::new(VecDeque::new()));
    let mut ppi = Ppi::new(queue.clone());
    let mut pic = Pic::new(0x08);

    // Add scancode to queue and tick to latch it
    queue.write().unwrap().push_back(0x1E); // 'A' key
    ppi.tick(1, &mut pic);

    // Write to port 0x61 with bit 7 = 0 (select keyboard data)
    ppi.write_u8(PPI_PORT_B, 0x00);

    // Port 0x60 should return the keyboard scancode
    assert_eq!(ppi.read_u8(PPI_PORT_A), 0x1E);
}

#[test]
fn test_reading_scancode_clears_it() {
    let queue = Arc::new(RwLock::new(VecDeque::new()));
    let mut ppi = Ppi::new(queue.clone());
    let mut pic = Pic::new(0x08);
    pic.set_imr(0x00);

    // Add scancode and tick
    queue.write().unwrap().push_back(0x1E);
    ppi.tick(1, &mut pic);

    // Read the scancode
    ppi.write_u8(PPI_PORT_B, 0x00); // Keyboard mode
    let data = ppi.read_u8(PPI_PORT_A);
    assert_eq!(data, 0x1E);

    // Scancode should be cleared
    assert_eq!(ppi.latched_scancode, None);
    assert!(!ppi.interrupt_pending);
}

#[test]
fn test_tick_raises_irq() {
    let queue = Arc::new(RwLock::new(VecDeque::new()));
    let mut ppi = Ppi::new(queue.clone());
    let mut pic = Pic::new(0x08);
    pic.set_imr(0x00);

    // Add scancode to queue
    queue.write().unwrap().push_back(0x1E);

    // Tick should latch scancode and raise IRQ1
    ppi.tick(1, &mut pic);

    assert_eq!(ppi.latched_scancode, Some(0x1E));
    assert!(ppi.interrupt_pending);
    assert!(pic.intr_out());
}

#[test]
fn test_irq_lowered_after_read() {
    let queue = Arc::new(RwLock::new(VecDeque::new()));
    let mut ppi = Ppi::new(queue.clone());
    let mut pic = Pic::new(0x08);
    pic.set_imr(0x00);

    // Add scancode and raise IRQ
    queue.write().unwrap().push_back(0x1E);
    ppi.tick(1, &mut pic);
    assert!(pic.intr_out());

    // Read scancode (clears interrupt_pending)
    let _data = ppi.read_u8(PPI_PORT_A);

    // Acknowledge the interrupt
    let _vector = pic.inta();
    pic.eoi();

    // Next tick should lower IRQ line
    ppi.tick(1, &mut pic);
    assert!(!pic.intr_out());
}

#[test]
fn test_keyboard_reset_basic() {
    let queue = Arc::new(RwLock::new(VecDeque::new()));
    let mut ppi = Ppi::new(queue);
    let mut pic = Pic::new(0x08);
    pic.set_imr(0x00);

    // 1. Assert reset (bit 6 = 1)
    ppi.write_u8(PPI_PORT_B, 0x40);
    assert_eq!(ppi.reset_state, KeyboardResetState::ResetAsserted);

    // 2. Release reset (bit 6 = 0)
    ppi.write_u8(PPI_PORT_B, 0x00);
    assert!(ppi.reset_pending);

    // 3. Tick should call keyboard.reset() and latch 0xAA
    ppi.tick(1, &mut pic);
    assert!(!ppi.reset_pending);
    assert_eq!(ppi.latched_scancode, Some(0xAA));
    assert!(pic.intr_out());

    // 4. Read should return 0xAA
    assert_eq!(ppi.read_u8(PPI_PORT_A), 0xAA);
}

#[test]
fn test_keyboard_reset_clears_pending() {
    let queue = Arc::new(RwLock::new(VecDeque::new()));
    let mut ppi = Ppi::new(queue.clone());
    let mut pic = Pic::new(0x08);
    pic.set_imr(0x00);

    // Add a scancode and latch it
    queue.write().unwrap().push_back(0x1E);
    ppi.tick(1, &mut pic);
    assert_eq!(ppi.latched_scancode, Some(0x1E));

    // Assert reset - should clear the latched scancode
    ppi.write_u8(PPI_PORT_B, 0x40);
    assert_eq!(ppi.latched_scancode, None);

    // Release reset
    ppi.write_u8(PPI_PORT_B, 0x00);

    // Tick should latch 0xAA (from keyboard.reset())
    ppi.tick(1, &mut pic);
    assert_eq!(ppi.read_u8(PPI_PORT_A), 0xAA);
}

#[test]
fn test_keyboard_reset_clears_queue() {
    let queue = Arc::new(RwLock::new(VecDeque::new()));
    let mut ppi = Ppi::new(queue.clone());
    let mut pic = Pic::new(0x08);
    pic.set_imr(0x00);

    // Add multiple scancodes to queue
    queue.write().unwrap().push_back(0x1E);
    queue.write().unwrap().push_back(0x30);
    queue.write().unwrap().push_back(0x2E);

    // Perform reset
    ppi.write_u8(PPI_PORT_B, 0x40);
    ppi.write_u8(PPI_PORT_B, 0x00);

    // Tick - keyboard.reset() clears queue and adds 0xAA
    ppi.tick(1, &mut pic);
    assert_eq!(ppi.read_u8(PPI_PORT_A), 0xAA);

    // Queue should be empty (only 0xAA was there, and we consumed it)
    ppi.tick(1, &mut pic);
    assert_eq!(ppi.latched_scancode, None);
}

#[test]
fn test_multiple_scancodes() {
    let queue = Arc::new(RwLock::new(VecDeque::new()));
    let mut ppi = Ppi::new(queue.clone());
    let mut pic = Pic::new(0x08);
    pic.set_imr(0x00);

    // Add multiple scancodes
    queue.write().unwrap().push_back(0x1E); // 'A' make
    queue.write().unwrap().push_back(0x9E); // 'A' break

    // First tick gets first scancode
    ppi.tick(1, &mut pic);
    assert_eq!(ppi.read_u8(PPI_PORT_A), 0x1E);

    // Second tick gets second scancode
    ppi.tick(1, &mut pic);
    assert_eq!(ppi.read_u8(PPI_PORT_A), 0x9E);
}

#[test]
fn test_port_c_returns_zero() {
    let queue = Arc::new(RwLock::new(VecDeque::new()));
    let mut ppi = Ppi::new(queue);
    assert_eq!(ppi.read_u8(PPI_PORT_C), 0x00);

    // Writes should be ignored
    ppi.write_u8(PPI_PORT_C, 0xFF);
    assert_eq!(ppi.read_u8(PPI_PORT_C), 0x00);
}

#[test]
fn test_port_b_returns_zero() {
    let queue = Arc::new(RwLock::new(VecDeque::new()));
    let mut ppi = Ppi::new(queue);
    assert_eq!(ppi.read_u8(PPI_PORT_B), 0x00);
}

#[test]
fn test_dip_mode_read_does_not_clear_scancode() {
    let queue = Arc::new(RwLock::new(VecDeque::new()));
    let mut ppi = Ppi::new(queue.clone());
    let mut pic = Pic::new(0x08);
    pic.set_imr(0x00);

    // Add and latch scancode
    queue.write().unwrap().push_back(0x1E);
    ppi.tick(1, &mut pic);

    // Switch to DIP mode
    ppi.write_u8(PPI_PORT_B, 0x80);

    // Read DIP switches - should NOT clear the latched scancode
    assert_eq!(ppi.read_u8(PPI_PORT_A), DIP_SWITCHES);
    assert_eq!(ppi.latched_scancode, Some(0x1E)); // Still there

    // Switch back to keyboard mode
    ppi.write_u8(PPI_PORT_B, 0x00);

    // Should still have the scancode
    assert_eq!(ppi.read_u8(PPI_PORT_A), 0x1E);
}

#[test]
fn test_reset_only_on_falling_edge() {
    let queue = Arc::new(RwLock::new(VecDeque::new()));
    let mut ppi = Ppi::new(queue);
    let mut pic = Pic::new(0x08);
    pic.set_imr(0x00);

    // Write bit 6=1 multiple times (no transition after first)
    ppi.write_u8(PPI_PORT_B, 0x40);
    ppi.write_u8(PPI_PORT_B, 0x40);
    ppi.write_u8(PPI_PORT_B, 0x40);

    // Should be in ResetAsserted state
    assert_eq!(ppi.reset_state, KeyboardResetState::ResetAsserted);
    assert!(!ppi.reset_pending);

    // Single falling edge (1→0) should trigger reset
    ppi.write_u8(PPI_PORT_B, 0x00);
    assert!(ppi.reset_pending);

    // Tick should generate exactly one 0xAA
    ppi.tick(1, &mut pic);
    assert_eq!(ppi.read_u8(PPI_PORT_A), 0xAA);

    // Additional writes with bit 6=0 (no transition) should not generate more 0xAA
    ppi.write_u8(PPI_PORT_B, 0x00);
    ppi.write_u8(PPI_PORT_B, 0x00);
    ppi.tick(1, &mut pic);

    // No new scancode should be generated
    assert_eq!(ppi.latched_scancode, None);
}

#[test]
fn test_tick_without_key_keeps_irq1_low() {
    let queue = Arc::new(RwLock::new(VecDeque::new()));
    let mut ppi = Ppi::new(queue.clone());
    let mut pic = Pic::new(0x08);
    pic.set_imr(0x00);

    // Nothing to latch: IRQ1 stays low and no request is posted
    ppi.tick(1, &mut pic);
    assert_eq!(ppi.latched_scancode, None);
    assert!(!ppi.interrupt_pending);
    assert_eq!(pic.irq_prev & 0x02, 0);
    assert_eq!(pic.irr & 0x02, 0);
    assert!(!pic.intr_out());

    // A key arriving later gives a rising edge and a request
    queue.write().unwrap().push_back(0x1E);
    ppi.tick(1, &mut pic);
    assert_eq!(ppi.latched_scancode, Some(0x1E));
    assert_eq!(pic.irq_prev & 0x02, 0x02);
    assert_eq!(pic.irr & 0x02, 0x02);
    assert!(pic.intr_out());
}
