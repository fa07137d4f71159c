//! Tests of the keyboard module

use ezpc::components::keyboard::{Keyboard};
use std::sync::{Arc, RwLock};
use std::collections::VecDeque;

#[test]
fn test_keyboard_new() {
    let queue = Arc::new(RwLock::new(VecDeque::new()));
    let kbd = Keyboard::new(queue);
    assert!(!kbd.has_scancode());
}

#[test]
fn test_keyboard_pop_scancode() {
    let queue = Arc::new(RwLock::new(VecDeque::new()));
    let mut kbd = Keyboard::new(queue.clone());

    // Queue is empty
    assert_eq!(kbd.pop_scancode(), None);

    // Add scancodes
    queue.write().unwrap().push_back(0x1E);
    queue.write().unwrap().push_back(0x9E);

    // Pop in order
    assert_eq!(kbd.pop_scancode(), Some(0x1E));
    assert_eq!(kbd.pop_scancode(), Some(0x9E));
    assert_eq!(kbd.pop_scancode(), None);
}

#[test]
fn test_keyboard_has_scancode() {
    let queue = Arc::new(RwLock::new(VecDeque::new()));
    let kbd = Keyboard::new(queue.clone());

    assert!(!kbd.has_scancode());

    queue.write().unwrap().push_back(0x1E);
    assert!(kbd.has_scancode());
}

#[test]
fn test_keyboard_reset() {
    let queue = Arc::new(RwLock::new(VecDeque::new()));
    let mut kbd = Keyboard::new(queue.clone());

    // Add some scancodes
    queue.write().unwrap().push_back(0x1E);
    queue.write().unwrap().push_back(0x30);
    queue.write().unwrap().push_back(0x2E);

    // Reset clears queue and adds 0xAA
    kbd.reset();

    // Should only have 0xAA
    assert_eq!(kbd.pop_scancode(), Some(0xAA));
    assert_eq!(kbd.pop_scancode(), None);
}

#[test]
fn test_keyboard_scancode_queue() {
    let queue = Arc::new(RwLock::new(VecDeque::new()));
    let kbd = Keyboard::new(queue.clone());

    // Should return the same queue
    let returned_queue = kbd.scancode_queue();
    returned_queue.write().unwrap().push_back(0x1E);

    assert_eq!(queue.read().unwrap().front(), Some(&0x1E));
}
