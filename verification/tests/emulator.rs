//! Tests of frame pacing and the start-up picture

use ezpc::emulator::{fill_checkerboard, frame_delay_micros, TARGET_FRAME_MICROS};

#[test]
fn test_frame_delay() {
    assert_eq!(TARGET_FRAME_MICROS, 16667);
    assert_eq!(frame_delay_micros(0), 16667);
    assert_eq!(frame_delay_micros(10000), 6667);
    assert_eq!(frame_delay_micros(16667), 0);
    assert_eq!(frame_delay_micros(50000), 0);
}

#[test]
fn test_checkerboard() {
    let (w, h) = (720u32, 350u32);
    let mut fb = vec![0u8; (w * h * 4) as usize];
    fill_checkerboard(&mut fb, w, h);
    let px = |x: u32, y: u32| {
        let i = ((y * w + x) * 4) as usize;
        (fb[i], fb[i + 1], fb[i + 2], fb[i + 3])
    };
    assert_eq!(px(0, 0), (0xFF, 0xFF, 0xFF, 0xFF));
    assert_eq!(px(7, 7), (0xFF, 0xFF, 0xFF, 0xFF));
    assert_eq!(px(8, 0), (0x80, 0x80, 0x80, 0xFF));
    assert_eq!(px(0, 8), (0x80, 0x80, 0x80, 0xFF));
    assert_eq!(px(8, 8), (0xFF, 0xFF, 0xFF, 0xFF));
    assert_eq!(px(719, 349), (0xFF, 0xFF, 0xFF, 0xFF));
    assert_eq!(px(711, 349), (0x80, 0x80, 0x80, 0xFF));
}
