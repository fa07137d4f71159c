//! Tests of the scancode module

use ezpc::scancode::{KeyCode, keycode_to_scancode};

#[test]
fn test_letters() {
    assert_eq!(keycode_to_scancode(KeyCode::KeyA), Some(0x1E));
    assert_eq!(keycode_to_scancode(KeyCode::KeyZ), Some(0x2C));
    assert_eq!(keycode_to_scancode(KeyCode::KeyM), Some(0x32));
}

#[test]
fn test_numbers() {
    assert_eq!(keycode_to_scancode(KeyCode::Digit1), Some(0x02));
    assert_eq!(keycode_to_scancode(KeyCode::Digit0), Some(0x0B));
}

#[test]
fn test_special_keys() {
    assert_eq!(keycode_to_scancode(KeyCode::Escape), Some(0x01));
    assert_eq!(keycode_to_scancode(KeyCode::Enter), Some(0x1C));
    assert_eq!(keycode_to_scancode(KeyCode::Space), Some(0x39));
}

#[test]
fn test_function_keys() {
    assert_eq!(keycode_to_scancode(KeyCode::F1), Some(0x3B));
    assert_eq!(keycode_to_scancode(KeyCode::F10), Some(0x44));
}

#[test]
fn test_arrow_keys() {
    assert_eq!(keycode_to_scancode(KeyCode::ArrowUp), Some(0x48));
    assert_eq!(keycode_to_scancode(KeyCode::ArrowDown), Some(0x50));
    assert_eq!(keycode_to_scancode(KeyCode::ArrowLeft), Some(0x4B));
    assert_eq!(keycode_to_scancode(KeyCode::ArrowRight), Some(0x4D));
}

#[test]
fn test_modifiers() {
    assert_eq!(keycode_to_scancode(KeyCode::ShiftLeft), Some(0x2A));
    assert_eq!(keycode_to_scancode(KeyCode::ControlLeft), Some(0x1D));
    assert_eq!(keycode_to_scancode(KeyCode::AltLeft), Some(0x38));
}
