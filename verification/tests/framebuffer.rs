use oled_display::framebuffer::{
    FrameBuffer, FRAME_LEN, FRAME_MARKER, HEADER_LEN, HEIGHT, PIXEL_BYTES, WIDTH,
};

fn blank() -> Vec<u8> {
    let mut bytes = vec![0u8; 642];
    bytes[0] = 0x61;
    bytes
}

#[test]
fn constants_describe_the_wire_form() {
    assert_eq!(WIDTH, 128);
    assert_eq!(HEIGHT, 40);
    assert_eq!(HEADER_LEN, 2);
    assert_eq!(PIXEL_BYTES, WIDTH * HEIGHT / 8);
    assert_eq!(FRAME_LEN, HEADER_LEN + PIXEL_BYTES);
    assert_eq!(FRAME_MARKER, 0x61);
}

#[test]
fn new_frame_carries_the_marker() {
    let fb = FrameBuffer::new();
    assert_eq!(fb.as_bytes(), &blank()[..]);
}

#[test]
fn set_pixel_sets_the_documented_bit() {
    for y in 0..40i32 {
        for x in 0..128i32 {
            let mut fb = FrameBuffer::new();
            fb.set_pixel(x, y, true);
            let index = (x + y * 128) as usize;
            let mut expected = blank();
            expected[2 + index / 8] = 1u8 << (7 - index % 8);
            assert_eq!(fb.as_bytes(), &expected[..], "pixel ({}, {})", x, y);
            assert!(fb.get_pixel(x, y));
        }
    }
}

#[test]
fn set_pixel_examples() {
    let mut fb = FrameBuffer::new();
    fb.set_pixel(0, 0, true);
    assert_eq!(fb.as_bytes()[2], 0x80);
    fb.set_pixel(7, 0, true);
    assert_eq!(fb.as_bytes()[2], 0x81);
    fb.set_pixel(8, 0, true);
    assert_eq!(fb.as_bytes()[3], 0x80);
    fb.set_pixel(0, 1, true);
    assert_eq!(fb.as_bytes()[18], 0x80);
    fb.set_pixel(127, 39, true);
    assert_eq!(fb.as_bytes()[641], 0x01);
    fb.set_pixel(10, 10, true);
    assert_eq!(fb.as_bytes()[2 + 161], 0x20);
}

#[test]
fn set_pixel_off_unsets_only_that_pixel() {
    let mut fb = FrameBuffer::new();
    for x in 0..8 {
        fb.set_pixel(x, 3, true);
    }
    assert_eq!(fb.as_bytes()[2 + 48], 0xff);
    fb.set_pixel(2, 3, false);
    assert_eq!(fb.as_bytes()[2 + 48], 0xdf);
    assert!(!fb.get_pixel(2, 3));
    assert!(fb.get_pixel(1, 3));
    assert!(fb.get_pixel(3, 3));
    fb.set_pixel(2, 3, false);
    assert_eq!(fb.as_bytes()[2 + 48], 0xdf);
}

#[test]
fn set_pixel_off_canvas_changes_nothing() {
    let mut fb = FrameBuffer::new();
    fb.set_pixel(5, 5, true);
    let before = fb.as_bytes().to_vec();
    let outside = [
        (128, 0),
        (0, 40),
        (128, 40),
        (-1, 0),
        (0, -1),
        (-1, -1),
        (127, 40),
        (128, 39),
        (1000, 5),
        (5, 1000),
        (i32::MAX, i32::MAX),
        (i32::MIN, i32::MIN),
        (i32::MAX, 0),
        (0, i32::MIN),
    ];
    for (x, y) in outside {
        fb.set_pixel(x, y, true);
        assert_eq!(fb.as_bytes(), &before[..], "write at ({}, {})", x, y);
        fb.set_pixel(x, y, false);
        assert_eq!(fb.as_bytes(), &before[..], "write at ({}, {})", x, y);
        assert!(!fb.get_pixel(x, y));
    }
}

#[test]
fn clear_is_idempotent_and_stamps_the_marker() {
    let mut fb = FrameBuffer::new();
    for i in 0..40 {
        fb.set_pixel(i * 3, i, true);
    }
    fb.clear();
    let once = fb.as_bytes().to_vec();
    fb.clear();
    let twice = fb.as_bytes().to_vec();
    assert_eq!(once, twice);
    assert_eq!(once, blank());
    assert_eq!(once[0], 0x61);
}

#[test]
fn overlay_adds_bits_behind_the_header() {
    let mut fb = FrameBuffer::new();
    fb.set_pixel(0, 0, true);
    let mut layer = vec![0u8; 640];
    layer[0] = 0x01;
    layer[1] = 0xf0;
    layer[639] = 0xaa;
    fb.overlay(&layer);
    let mut expected = blank();
    expected[2] = 0x81;
    expected[3] = 0xf0;
    expected[641] = 0xaa;
    assert_eq!(fb.as_bytes(), &expected[..]);
    assert!(fb.get_pixel(7, 0));
    assert!(fb.get_pixel(8, 0));
    assert!(!fb.get_pixel(12, 0));
}

#[test]
fn overlay_takes_layers_of_any_length() {
    let mut fb = FrameBuffer::new();
    fb.overlay(&[]);
    assert_eq!(fb.as_bytes(), &blank()[..]);
    fb.overlay(&[0xff, 0x0f]);
    let mut expected = blank();
    expected[2] = 0xff;
    expected[3] = 0x0f;
    assert_eq!(fb.as_bytes(), &expected[..]);
    let long = vec![0x10u8; 1000];
    fb.overlay(&long);
    for i in 0..640 {
        expected[2 + i] |= 0x10;
    }
    assert_eq!(fb.as_bytes(), &expected[..]);
}
