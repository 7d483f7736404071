use oled_display::framebuffer::FrameBuffer;
use oled_display::screen::{
    DeviceIdentity, OpenError, Screen, APEX7_TKL, DISPLAY_INTERFACE, STEELSERIES_VENDOR_ID,
};

fn device(vendor_id: u16, product_id: u16, interface_number: i32) -> DeviceIdentity {
    DeviceIdentity { vendor_id, product_id, interface_number }
}

fn display() -> DeviceIdentity {
    device(0x1038, 0x1618, 1)
}

fn blank() -> Vec<u8> {
    let mut bytes = vec![0u8; 642];
    bytes[0] = 0x61;
    bytes
}

#[test]
fn the_display_is_identified_by_three_numbers() {
    assert_eq!(STEELSERIES_VENDOR_ID, 0x1038);
    assert_eq!(APEX7_TKL, 0x1618);
    assert_eq!(DISPLAY_INTERFACE, 1);
}

#[test]
fn locate_finds_nothing_among_no_devices() {
    assert_eq!(Screen::locate(&vec![]), Err(OpenError::DeviceNotFound));
}

#[test]
fn locate_wants_all_three_numbers_to_match() {
    let devices = vec![
        device(0x1038, 0x1618, 0),
        device(0x1038, 0x1618, 2),
        device(0x1038, 0x1619, 1),
        device(0x1039, 0x1618, 1),
        device(0x1618, 0x1038, 1),
        device(0, 0, -1),
    ];
    assert_eq!(Screen::locate(&devices), Err(OpenError::DeviceNotFound));
}

#[test]
fn locate_takes_the_first_match() {
    let devices = vec![
        device(0x046d, 0xc52b, 1),
        device(0x1038, 0x1618, 0),
        display(),
        device(0x1038, 0x1618, 2),
        display(),
    ];
    assert_eq!(Screen::locate(&devices), Ok(2));
    assert_eq!(Screen::locate(&vec![display()]), Ok(0));
}

#[test]
fn open_reports_a_missing_display() {
    let devices = vec![device(0x1038, 0x1618, 0)];
    assert_eq!(Screen::open(&devices, true).err(), Some(OpenError::DeviceNotFound));
    assert_eq!(Screen::open(&devices, false).err(), Some(OpenError::DeviceNotFound));
    assert_eq!(Screen::open(&vec![], false).err(), Some(OpenError::DeviceNotFound));
}

#[test]
fn open_reports_a_failed_claim() {
    let devices = vec![device(1, 2, 3), display()];
    assert_eq!(Screen::open(&devices, false).err(), Some(OpenError::OpenFailed));
}

#[test]
fn open_gives_a_blank_screen() {
    let devices = vec![device(1, 2, 3), display()];
    let screen = Screen::open(&devices, true).ok().unwrap();
    assert_eq!(screen.as_bytes(), &blank()[..]);
}

#[test]
fn screen_draw_takes_the_pixels_and_keeps_its_header() {
    let mut screen = Screen::open(&vec![display()], true).ok().unwrap();
    let mut data = vec![0u8; 642];
    for (i, b) in data.iter_mut().enumerate() {
        *b = (i % 251) as u8;
    }
    screen.draw(&data);
    let mut expected = data.clone();
    expected[0] = 0x61;
    expected[1] = 0x00;
    assert_eq!(screen.as_bytes(), &expected[..]);
}

#[test]
fn screen_draw_shows_a_frame_buffer() {
    let mut screen = Screen::open(&vec![display()], true).ok().unwrap();
    let mut fb = FrameBuffer::new();
    fb.set_pixel(127, 39, true);
    fb.set_pixel(0, 0, true);
    screen.draw(fb.as_bytes());
    assert_eq!(screen.as_bytes(), fb.as_bytes());
    assert_eq!(screen.as_bytes()[641], 0x01);
}

#[test]
fn screen_clear_gives_the_blank_frame() {
    let mut screen = Screen::open(&vec![display()], true).ok().unwrap();
    screen.draw(&vec![0xffu8; 642]);
    assert_eq!(screen.as_bytes()[0], 0x61);
    assert_eq!(screen.as_bytes()[1], 0x00);
    assert_eq!(screen.as_bytes()[2], 0xff);
    screen.clear();
    assert_eq!(screen.as_bytes(), &blank()[..]);
    screen.clear();
    assert_eq!(screen.as_bytes(), &blank()[..]);
}
