//! Conversion of the machine's 1-bit display into host pixels.

use vstd::prelude::*;

verus! {

/// Width and height of the display, in pixels.
pub const LCD_SIZE: usize = 32;

/// Pixels in one frame.
pub const FRAME_PIXELS: usize = 1024;

/// Host colour of a pixel whose bit is clear.
pub const PIXEL_ON: u32 = 0xffffff;

/// Host colour of a pixel whose bit is set.
pub const PIXEL_OFF: u32 = 0;

/// The host colour of framebuffer pixel `k` (row `k / 32`, column `k % 32`,
/// the column being the bit index in the row word).
pub open spec fn pixel(fb: Seq<u32>, k: int) -> u32 {
    if (fb[k / 32] >> ((k % 32) as u32)) & 1u32 == 0u32 {
        PIXEL_ON
    } else {
        PIXEL_OFF
    }
}

/// The framebuffer pixel shown at output offset `j`.
pub open spec fn source_offset(j: int, rotate: bool) -> int {
    if rotate {
        FRAME_PIXELS - j - 1
    } else {
        j
    }
}

/// The host frame for a framebuffer, rotated by 180 degrees or not.
pub open spec fn frame_of(fb: Seq<u32>, rotate: bool) -> Seq<u32> {
    Seq::new(FRAME_PIXELS as nat, |j: int| pixel(fb, source_offset(j, rotate)))
}

/// Whether the frame is shown rotated: only when the option allows it and
/// the machine asks for it.
pub open spec fn rotation_applies(rotation_enabled: bool, lcd_rotated: bool) -> bool {
    rotation_enabled && lcd_rotated
}

/// Converts the 32 row words of the display into 1024 host pixels, row
/// after row, rotated by 180 degrees when `rotate` holds.
pub fn convert_framebuffer(fb: &[u32; 32], rotate: bool) -> (r: Vec<u32>)
    ensures
        r@ == frame_of(fb@, rotate),
{
    let mut out: Vec<u32> = vec![PIXEL_OFF; FRAME_PIXELS];
    let mut y: usize = 0;
    while y < LCD_SIZE
        invariant
            y <= LCD_SIZE,
            out@.len() == FRAME_PIXELS,
            forall|j: int|
                0 <= j < FRAME_PIXELS ==> #[trigger] out@[j] == if source_offset(j, rotate) < y
                    * 32 {
                    pixel(fb@, source_offset(j, rotate))
                } else {
                    PIXEL_OFF
                },
        decreases LCD_SIZE - y,
    {
        let row = fb[y];
        let mut x: usize = 0;
        while x < LCD_SIZE
            invariant
                y < LCD_SIZE,
                x <= LCD_SIZE,
                row == fb@[y as int],
                out@.len() == FRAME_PIXELS,
                forall|j: int|
                    0 <= j < FRAME_PIXELS ==> #[trigger] out@[j] == if source_offset(j, rotate)
                        < y * 32 + x {
                        pixel(fb@, source_offset(j, rotate))
                    } else {
                        PIXEL_OFF
                    },
            decreases LCD_SIZE - x,
        {
            let k: usize = y * LCD_SIZE + x;
            assert(k as int / 32 == y && k as int % 32 == x);
            if (row >> (x as u32)) & 1 == 0 {
                let off: usize = if rotate {
                    FRAME_PIXELS - k - 1
                } else {
                    k
                };
                out.set(off, PIXEL_ON);
            }
            x += 1;
        }
        y += 1;
    }
    assert(out@ =~= frame_of(fb@, rotate));
    out
}

/// With the option on and the machine asking for rotation, framebuffer
/// pixel `k` lands at output offset `1024 - k - 1`; with the option off it
/// lands at `k`.
pub proof fn lemma_rotation_placement(fb: Seq<u32>, lcd_rotated: bool, k: int)
    requires
        0 <= k < FRAME_PIXELS,
    ensures
        rotation_applies(true, lcd_rotated) == lcd_rotated,
        frame_of(fb, rotation_applies(true, true))[FRAME_PIXELS - k - 1] == pixel(fb, k),
        frame_of(fb, rotation_applies(false, lcd_rotated))[k] == pixel(fb, k),
{
}

} // verus!
