use touchbars::bars::draw_bars;
use touchbars::frame::{next_frame, read_frame, Device, FrameAction, ReadStep, Readings};
use touchbars::mpr121::device::Mpr121Error;
use touchbars::oled::{FrameBuffer, HEIGHT, WIDTH};

fn pixel(fb: &FrameBuffer, x: usize, y: usize) -> bool {
    (fb.0[(y / 8) * WIDTH + x] >> (y % 8)) & 1 == 1
}

fn column_height(fb: &FrameBuffer, x: usize, top: bool) -> usize {
    let mut h = 0;
    while h < HEIGHT / 2 && pixel(fb, x, if top { h } else { HEIGHT - 1 - h }) {
        h += 1;
    }
    h
}

const NO_FILTERED: [u16; 12] = [0; 12];
const NO_BASELINE: [u8; 12] = [0; 12];

#[test]
fn untouched_draws_nothing() {
    let mut fb = FrameBuffer::new();
    fb.set_pixel(9, 9, true);
    let filtered = [400u16; 12];
    let baseline = [100u8; 12];
    let before = fb.0;
    draw_bars(&mut fb, &filtered, &baseline, &filtered, &baseline);
    assert!(fb.0 == before);
}

#[test]
fn negative_delta_is_clamped() {
    let mut fb = FrameBuffer::new();
    let filtered = [1023u16; 12];
    draw_bars(&mut fb, &filtered, &NO_BASELINE, &filtered, &NO_BASELINE);
    assert!(fb.0.iter().all(|&b| b == 0));
}

#[test]
fn delta_maps_to_height() {
    // Delta 40 of 80 is half of 32 rows; 41 rounds down; 80 and above is full.
    for (delta, height) in [(4u16, 1usize), (40, 16), (41, 16), (43, 17), (80, 32), (400, 32)] {
        let mut fb = FrameBuffer::new();
        let mut baseline = NO_BASELINE;
        baseline[4] = 100;
        let mut filtered = NO_FILTERED;
        filtered[4] = 400 - delta;
        draw_bars(&mut fb, &filtered, &baseline, &NO_FILTERED, &NO_BASELINE);
        assert_eq!(column_height(&fb, 1, false), height);
        assert_eq!(column_height(&fb, 14, false), height);
        assert_eq!(column_height(&fb, 0, false), 0);
        assert_eq!(column_height(&fb, 15, false), 0);
        assert_eq!(column_height(&fb, 17, false), 0);
        assert_eq!(column_height(&fb, 1, true), 0);
    }
}

#[test]
fn top_device_is_reversed() {
    let mut fb = FrameBuffer::new();
    let mut baseline = NO_BASELINE;
    baseline[11] = 10;
    draw_bars(&mut fb, &NO_FILTERED, &NO_BASELINE, &NO_FILTERED, &baseline);
    // The last electrode of the top device is the leftmost bar.
    assert_eq!(column_height(&fb, 1, true), 16);
    assert_eq!(column_height(&fb, 113, true), 0);
    draw_bars(&mut fb, &NO_FILTERED, &baseline, &NO_FILTERED, &NO_BASELINE);
    // The last electrode of the bottom device is the rightmost bar.
    assert_eq!(column_height(&fb, 113, false), 16);
    assert_eq!(column_height(&fb, 1, false), 0);
}

#[test]
fn electrodes_below_the_bars_are_not_drawn() {
    let mut fb = FrameBuffer::new();
    let mut baseline = NO_BASELINE;
    for b in baseline.iter_mut().take(4) {
        *b = 255;
    }
    draw_bars(&mut fb, &NO_FILTERED, &baseline, &NO_FILTERED, &baseline);
    assert!(fb.0.iter().all(|&b| b == 0));
}

#[test]
fn full_bars_meet_in_the_middle_and_keep_gutters() {
    let mut fb = FrameBuffer::new();
    let baseline = [255u8; 12];
    draw_bars(&mut fb, &NO_FILTERED, &baseline, &NO_FILTERED, &baseline);
    for y in 0..HEIGHT {
        for x in 0..WIDTH {
            assert_eq!(pixel(&fb, x, y), x % 16 != 0 && x % 16 != 15);
        }
    }
}

#[test]
fn drawing_twice_changes_nothing_and_turns_nothing_off() {
    let mut fb = FrameBuffer::new();
    fb.clear(true);
    let baseline = [7u8; 12];
    draw_bars(&mut fb, &NO_FILTERED, &baseline, &NO_FILTERED, &baseline);
    assert!(fb.0.iter().all(|&b| b == 0xFF));
    let mut fb = FrameBuffer::new();
    draw_bars(&mut fb, &NO_FILTERED, &baseline, &NO_FILTERED, &baseline);
    let once = fb.0;
    draw_bars(&mut fb, &NO_FILTERED, &baseline, &NO_FILTERED, &baseline);
    assert!(fb.0 == once);
}

#[test]
fn mirrored_readings_give_mirrored_bars() {
    let mut fb = FrameBuffer::new();
    let a_baseline: [u8; 12] = [0, 0, 0, 0, 1, 3, 5, 7, 9, 11, 13, 15];
    let b_baseline: [u8; 12] = [0, 0, 0, 0, 15, 13, 11, 9, 7, 5, 3, 1];
    draw_bars(&mut fb, &NO_FILTERED, &a_baseline, &NO_FILTERED, &b_baseline);
    for y in 0..HEIGHT {
        for x in 0..WIDTH {
            assert_eq!(pixel(&fb, x, y), pixel(&fb, x, HEIGHT - 1 - y));
        }
    }
    assert_eq!(column_height(&fb, 1, true), 1);
    assert_eq!(column_height(&fb, 113, true), 24);
}

#[test]
fn frame_is_background_with_bars() {
    let mut background = FrameBuffer::new();
    background.set_pixel(0, 0, true);
    let mut fb = FrameBuffer::new();
    fb.clear(true);
    let mut a_baseline = NO_BASELINE;
    a_baseline[4] = 1;
    let readings = Readings {
        a_filtered: NO_FILTERED,
        a_baseline,
        b_filtered: NO_FILTERED,
        b_baseline: NO_BASELINE,
    };
    let action = next_frame::<u8>(&mut fb, &background, Ok(readings));
    assert!(matches!(action, FrameAction::Show));
    for y in 0..HEIGHT {
        for x in 0..WIDTH {
            let expected = (x == 0 && y == 0) || (y == 63 && (1..=14).contains(&x));
            assert_eq!(pixel(&fb, x, y), expected);
        }
    }
}

#[test]
fn failed_read_holds_previous_frame() {
    let background = FrameBuffer::new();
    let mut fb = FrameBuffer::new();
    fb.set_pixel(3, 4, true);
    let before = fb.0;
    let action = next_frame(&mut fb, &background, Err(Mpr121Error::I2c(9u8)));
    assert!(matches!(action, FrameAction::Report(Mpr121Error::I2c(9))));
    assert!(fb.0 == before);
}

fn run_reads(fail_at: Option<usize>) -> (Vec<(Device, bool)>, Result<Readings, Mpr121Error<u8>>) {
    let mut reads = Vec::new();
    let mut step = read_frame::<u8>();
    loop {
        let n = reads.len();
        let fails = fail_at == Some(n);
        step = match step {
            ReadStep::Filtered { device, rest } => {
                reads.push((device, true));
                rest.step(if fails { Err(Mpr121Error::OverCurrent) } else { Ok([n as u16 + 1; 12]) })
            }
            ReadStep::Baseline { device, rest } => {
                reads.push((device, false));
                rest.step(if fails { Err(Mpr121Error::I2c(6)) } else { Ok([n as u8 + 1; 12]) })
            }
            ReadStep::Done(result) => return (reads, result),
        };
    }
}

#[test]
fn frame_reads_both_devices_in_order() {
    let (reads, result) = run_reads(None);
    assert_eq!(
        reads,
        vec![(Device::A, true), (Device::A, false), (Device::B, true), (Device::B, false)]
    );
    let readings = result.ok().unwrap();
    assert_eq!(readings.a_filtered, [1; 12]);
    assert_eq!(readings.a_baseline, [2; 12]);
    assert_eq!(readings.b_filtered, [3; 12]);
    assert_eq!(readings.b_baseline, [4; 12]);
}

#[test]
fn first_failed_read_ends_the_frame() {
    for at in 0..4 {
        let (reads, result) = run_reads(Some(at));
        assert_eq!(reads.len(), at + 1);
        if at % 2 == 0 {
            assert!(matches!(result, Err(Mpr121Error::OverCurrent)));
        } else {
            assert!(matches!(result, Err(Mpr121Error::I2c(6))));
        }
    }
}
