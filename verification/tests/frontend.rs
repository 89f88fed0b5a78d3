use gb_emu::frontend::{frame_delay, frame_rgba, TARGET_FPS};

#[test]
fn rgba_bytes_per_pixel() {
    let frame = [0x0012_3456u32, 0xFFAB_CDEF, 0x0000_0000];
    assert_eq!(
        frame_rgba(&frame),
        vec![0x12, 0x34, 0x56, 0xFF, 0xAB, 0xCD, 0xEF, 0xFF, 0x00, 0x00, 0x00, 0xFF]
    );
}

#[test]
fn rgba_of_empty_frame() {
    assert_eq!(frame_rgba(&[]), Vec::<u8>::new());
}

#[test]
fn rgba_of_screen_sized_frame() {
    let frame = vec![0x00E0_F8D0u32; 160 * 144];
    let rgba = frame_rgba(&frame);
    assert_eq!(rgba.len(), 160 * 144 * 4);
    assert_eq!(&rgba[rgba.len() - 4..], &[0xE0, 0xF8, 0xD0, 0xFF]);
}

#[test]
fn delay_fills_the_frame() {
    assert_eq!(TARGET_FPS, 60);
    assert_eq!(frame_delay(0), Some(16_666_000));
    assert_eq!(frame_delay(10), Some(16_665_990));
    assert_eq!(frame_delay(16_665_999), Some(1));
}

#[test]
fn no_delay_after_a_late_frame() {
    assert_eq!(frame_delay(16_666_000), None);
    assert_eq!(frame_delay(40_000_000), None);
}
