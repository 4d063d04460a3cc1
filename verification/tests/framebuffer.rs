use touchbars::oled::{FrameBuffer, FRAME_SIZE, HEIGHT, WIDTH};

fn pixel(fb: &FrameBuffer, x: usize, y: usize) -> bool {
    (fb.0[(y / 8) * WIDTH + x] >> (y % 8)) & 1 == 1
}

#[test]
fn new_is_all_off() {
    assert_eq!(FRAME_SIZE, 1024);
    let fb = FrameBuffer::new();
    assert!(fb.0.iter().all(|&b| b == 0));
    assert!(FrameBuffer::default().0.iter().all(|&b| b == 0));
}

#[test]
fn clear_fills_every_byte() {
    let mut fb = FrameBuffer::new();
    fb.clear(true);
    assert!(fb.0.iter().all(|&b| b == 0xFF));
    fb.clear(false);
    assert!(fb.0.iter().all(|&b| b == 0x00));
}

#[test]
fn set_pixel_uses_page_layout_with_lsb_on_top() {
    let mut fb = FrameBuffer::new();
    fb.set_pixel(0, 0, true);
    assert_eq!(fb.0[0], 0x01);
    fb.set_pixel(0, 7, true);
    assert_eq!(fb.0[0], 0x81);
    fb.set_pixel(5, 8, true);
    assert_eq!(fb.0[WIDTH + 5], 0x01);
    fb.set_pixel(127, 63, true);
    assert_eq!(fb.0[1023], 0x80);
    fb.set_pixel(0, 0, false);
    assert_eq!(fb.0[0], 0x80);
}

#[test]
fn set_pixel_outside_is_ignored() {
    let mut fb = FrameBuffer::new();
    fb.set_pixel(128, 0, true);
    fb.set_pixel(0, 64, true);
    fb.set_pixel(usize::MAX, usize::MAX, true);
    assert!(fb.0.iter().all(|&b| b == 0));
}

#[test]
fn set_pixel_changes_one_pixel() {
    let mut fb = FrameBuffer::new();
    fb.clear(true);
    fb.set_pixel(40, 21, false);
    for y in 0..HEIGHT {
        for x in 0..WIDTH {
            assert_eq!(pixel(&fb, x, y), !(x == 40 && y == 21));
        }
    }
}

#[test]
fn same_pixels_same_bytes() {
    let mut a = FrameBuffer::new();
    let mut b = FrameBuffer::new();
    b.clear(true);
    for y in 0..HEIGHT {
        for x in 0..WIDTH {
            let on = (x * 7 + y * 3) % 5 == 0;
            a.set_pixel(x, y, on);
            b.set_pixel(x, y, on);
        }
    }
    assert!(a.0 == b.0);
}
