//! Logic of the front ends: the pixels handed to the web page, and the
//! pacing of the desktop emulation loop.

use vstd::prelude::*;

verus! {

/// Frames per second the desktop loop paces emulation to.
pub const TARGET_FPS: u64 = 60;

/// Red channel of a `0x00RRGGBB` pixel.
pub open spec fn red(color: u32) -> u8 {
    ((color / 0x10000) % 0x100) as u8
}

/// Green channel of a `0x00RRGGBB` pixel.
pub open spec fn green(color: u32) -> u8 {
    ((color / 0x100) % 0x100) as u8
}

/// Blue channel of a `0x00RRGGBB` pixel.
pub open spec fn blue(color: u32) -> u8 {
    (color % 0x100) as u8
}

/// Byte `k` of the RGBA image of a frame: four bytes per pixel, red, green,
/// blue, and an opaque alpha.
pub open spec fn rgba_byte(frame: Seq<u32>, k: int) -> u8 {
    let color = frame[k / 4];
    if k % 4 == 0 {
        red(color)
    } else if k % 4 == 1 {
        green(color)
    } else if k % 4 == 2 {
        blue(color)
    } else {
        0xFF
    }
}

/// The bytes of a pixel's RGBA image, read back as a number, give the pixel
/// without its top byte: red is bits 16-23, green bits 8-15, blue bits 0-7;
/// the alpha byte is 0xFF.
pub proof fn lemma_rgba_pixel_round_trip(frame: Seq<u32>, i: int)
    requires
        0 <= i < frame.len(),
    ensures
        rgba_byte(frame, 4 * i) * 0x10000 + rgba_byte(frame, 4 * i + 1) * 0x100 + rgba_byte(
            frame,
            4 * i + 2,
        ) == frame[i] % 0x1000000,
        rgba_byte(frame, 4 * i) == (frame[i] / 0x10000) % 0x100,
        rgba_byte(frame, 4 * i + 1) == (frame[i] / 0x100) % 0x100,
        rgba_byte(frame, 4 * i + 2) == frame[i] % 0x100,
        rgba_byte(frame, 4 * i + 3) == 0xFF,
{
    let c = frame[i];
    assert((4 * i) / 4 == i && (4 * i) % 4 == 0);
    assert((4 * i + 1) / 4 == i && (4 * i + 1) % 4 == 1);
    assert((4 * i + 2) / 4 == i && (4 * i + 2) % 4 == 2);
    assert((4 * i + 3) / 4 == i && (4 * i + 3) % 4 == 3);
    assert(((c / 0x10000) % 0x100) * 0x10000 + ((c / 0x100) % 0x100) * 0x100 + c % 0x100 == c
        % 0x1000000) by (bit_vector);
}

/// The frame buffer as RGBA bytes.
pub fn frame_rgba(frame: &[u32]) -> (rgba: Vec<u8>)
    requires
        frame@.len() * 4 <= usize::MAX,
    ensures
        rgba@.len() == frame@.len() * 4,
        forall|k: int| 0 <= k < rgba@.len() ==> #[trigger] rgba@[k] == rgba_byte(frame@, k),
        forall|i: int|
            0 <= i < frame@.len() ==> {
                &&& rgba@[4 * i] == (#[trigger] frame@[i] / 0x10000) % 0x100
                &&& rgba@[4 * i + 1] == (frame@[i] / 0x100) % 0x100
                &&& rgba@[4 * i + 2] == frame@[i] % 0x100
                &&& rgba@[4 * i + 3] == 0xFF
                &&& rgba@[4 * i] * 0x10000 + rgba@[4 * i + 1] * 0x100 + rgba@[4 * i + 2]
                    == frame@[i] % 0x1000000
            },
{
    let mut rgba = Vec::with_capacity(frame.len() * 4);
    let mut i: usize = 0;
    while i < frame.len()
        invariant
            i <= frame@.len(),
            frame@.len() * 4 <= usize::MAX,
            rgba@.len() == i * 4,
            forall|k: int| 0 <= k < rgba@.len() ==> #[trigger] rgba@[k] == rgba_byte(frame@, k),
        decreases frame@.len() - i,
    {
        let color = frame[i];
        assert(((color >> 16u32) & 0xFF) == (color / 0x10000) % 0x100) by (bit_vector);
        assert(((color >> 8u32) & 0xFF) == (color / 0x100) % 0x100) by (bit_vector);
        assert((color & 0xFF) == color % 0x100) by (bit_vector);
        rgba.push(((color >> 16) & 0xFF) as u8);
        rgba.push(((color >> 8) & 0xFF) as u8);
        rgba.push((color & 0xFF) as u8);
        rgba.push(0xFF);
        i = i + 1;
    }
    assert forall|i: int| 0 <= i < frame@.len() implies {
        &&& rgba@[4 * i] == (#[trigger] frame@[i] / 0x10000) % 0x100
        &&& rgba@[4 * i + 1] == (frame@[i] / 0x100) % 0x100
        &&& rgba@[4 * i + 2] == frame@[i] % 0x100
        &&& rgba@[4 * i + 3] == 0xFF
        &&& rgba@[4 * i] * 0x10000 + rgba@[4 * i + 1] * 0x100 + rgba@[4 * i + 2] == frame@[i]
            % 0x1000000
    } by {
        lemma_rgba_pixel_round_trip(frame@, i);
        assert(rgba@[4 * i] == rgba_byte(frame@, 4 * i));
        assert(rgba@[4 * i + 1] == rgba_byte(frame@, 4 * i + 1));
        assert(rgba@[4 * i + 2] == rgba_byte(frame@, 4 * i + 2));
        assert(rgba@[4 * i + 3] == rgba_byte(frame@, 4 * i + 3));
    }
    rgba
}

/// Nanoseconds one frame may take at the target rate: a whole number of
/// microseconds, `1_000_000 / TARGET_FPS`.
pub open spec fn target_frame_nanos() -> int {
    (1_000_000int / TARGET_FPS as int) * 1000
}

/// At 60 frames per second a frame may take 16,666 microseconds.
pub proof fn lemma_target_frame_time()
    ensures
        TARGET_FPS == 60,
        target_frame_nanos() == 16_666_000,
{
}

/// How long the emulation loop sleeps after a frame that took `frame_nanos`:
/// the rest of the target frame time, or nothing when the frame ran late.
pub fn frame_delay(frame_nanos: u128) -> (sleep_nanos: Option<u128>)
    ensures
        sleep_nanos == if frame_nanos < target_frame_nanos() {
            Some((target_frame_nanos() - frame_nanos) as u128)
        } else {
            None::<u128>
        },
        frame_nanos < 16_666_000 ==> (sleep_nanos matches Some(n) && frame_nanos + n == 16_666_000),
        frame_nanos >= 16_666_000 ==> sleep_nanos is None,
{
    let target_frame_time: u128 = (1_000_000 / TARGET_FPS as u128) * 1000;
    if frame_nanos < target_frame_time {
        Some(target_frame_time - frame_nanos)
    } else {
        None
    }
}

} // verus!
