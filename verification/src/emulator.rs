//! Emulator frame pacing and the start-up picture of the display
//!
//! The host window shows a 720x350 RGBA framebuffer (the MDA resolution)
//! and runs the emulator at 60 frames per second. The functions here decide
//! how long a frame waits and what the framebuffer holds before any video
//! output exists; the host does the waiting and the drawing.

use vstd::prelude::*;

verus! {

/// Duration of one frame at 60 frames per second, in microseconds
pub const TARGET_FRAME_MICROS: u64 = 16667;

/// How long to wait after a frame whose work took `elapsed_micros`, so
/// that frames start `TARGET_FRAME_MICROS` apart (no wait when the frame
/// ran over)
pub fn frame_delay_micros(elapsed_micros: u64) -> (r: u64)
    ensures
        elapsed_micros < TARGET_FRAME_MICROS ==> r == TARGET_FRAME_MICROS - elapsed_micros,
        elapsed_micros >= TARGET_FRAME_MICROS ==> r == 0,
{
    if elapsed_micros < TARGET_FRAME_MICROS {
        TARGET_FRAME_MICROS - elapsed_micros
    } else {
        0
    }
}

/// Grey level of the start-up checkerboard at pixel (x, y): 8x8 squares,
/// white where the square coordinates add up to an even number, grey
/// elsewhere
pub open spec fn checker_level(x: int, y: int) -> u8 {
    if (x / 8 + y / 8) % 2 == 0 {
        0xFF
    } else {
        0x80
    }
}

/// The byte at `i` of a `width`-pixel-wide RGBA checkerboard
pub open spec fn checkerboard_byte(width: int, i: int) -> u8 {
    if i % 4 == 3 {
        0xFF
    } else {
        checker_level((i / 4) % width, (i / 4) / width)
    }
}

/// Byte `k` of the pixel at (x, y) sits at index (y * width + x) * 4 + k.
proof fn lemma_pixel_position(width: int, x: int, y: int, k: int)
    requires
        0 <= x < width,
        0 <= y,
        0 <= k < 4,
    ensures
        (((y * width + x) * 4 + k) / 4) % width == x,
        (((y * width + x) * 4 + k) / 4) / width == y,
        ((y * width + x) * 4 + k) % 4 == k,
{
    assert(((y * width + x) * 4 + k) / 4 == y * width + x) by (nonlinear_arith)
        requires
            0 <= k < 4,
    ;
    assert((y * width + x) % width == x && (y * width + x) / width == y) by (nonlinear_arith)
        requires
            0 <= x < width,
            0 <= y,
    ;
    assert(((y * width + x) * 4 + k) % 4 == k) by (nonlinear_arith)
        requires
            0 <= k < 4,
    ;
}

/// Fill an RGBA framebuffer of `width` x `height` pixels with the start-up
/// checkerboard (opaque white and grey 8x8 squares)
pub fn fill_checkerboard(framebuffer: &mut [u8], width: u32, height: u32)
    requires
        old(framebuffer)@.len() == width * height * 4,
        width > 0,
    ensures
        final(framebuffer)@.len() == old(framebuffer)@.len(),
        forall|i: int|
            0 <= i < final(framebuffer)@.len() ==> #[trigger] final(framebuffer)@[i]
                == checkerboard_byte(width as int, i),
{
    let ghost total = width * height * 4;
    let len: usize = framebuffer.len();
    let mut y: u32 = 0;
    while y < height
        invariant
            0 <= y <= height,
            width > 0,
            framebuffer@.len() == total,
            total == width * height * 4,
            total == len,
            forall|i: int|
                0 <= i < y * width * 4 ==> #[trigger] framebuffer@[i] == checkerboard_byte(width as int, i),
        decreases height - y,
    {
        let mut x: u32 = 0;
        while x < width
            invariant
                0 <= y < height,
                0 <= x <= width,
                width > 0,
                framebuffer@.len() == total,
                total == width * height * 4,
                total == len,
                forall|i: int|
                    0 <= i < (y * width + x) * 4 ==> #[trigger] framebuffer@[i] == checkerboard_byte(
                        width as int,
                        i,
                    ),
            decreases width - x,
        {
            let is_white = ((x / 8) + (y / 8)) % 2 == 0;
            let color: u8 = if is_white {
                0xFF
            } else {
                0x80
            };
            proof {
                assert((y * width + x) * 4 + 4 <= total) by (nonlinear_arith)
                    requires
                        y < height,
                        x < width,
                        total == width * height * 4,
                ;
            }
            let idx: usize = ((y as usize) * (width as usize) + (x as usize)) * 4;
            let ghost base = (y * width + x) * 4;
            proof {
                assert(idx == base) by (nonlinear_arith)
                    requires
                        idx == (y * width + x) * 4,
                        base == (y * width + x) * 4,
                ;
                lemma_pixel_position(width as int, x as int, y as int, 0);
                lemma_pixel_position(width as int, x as int, y as int, 1);
                lemma_pixel_position(width as int, x as int, y as int, 2);
                lemma_pixel_position(width as int, x as int, y as int, 3);
            }
            framebuffer[idx] = color;
            framebuffer[idx + 1] = color;
            framebuffer[idx + 2] = color;
            framebuffer[idx + 3] = 0xFF;
            proof {
                assert((y * width + (x + 1)) * 4 == base + 4) by (nonlinear_arith)
                    requires
                        base == (y * width + x) * 4,
                ;
            }
            x = x + 1;
        }
        proof {
            assert((y * width + width) * 4 == (y + 1) * width * 4) by (nonlinear_arith);
        }
        y = y + 1;
    }
    proof {
        assert(height * width * 4 == total) by (nonlinear_arith)
            requires
                total == width * height * 4,
        ;
    }
}

} // verus!
