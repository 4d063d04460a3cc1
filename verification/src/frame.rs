//! One frame of the touch display: a background picture with the bars on it.

use crate::mpr121::config::CHANNELS;
use crate::mpr121::device::Mpr121Error;
use crate::oled::FrameBuffer;
use vstd::prelude::*;

verus! {

/// What both sensors read for one frame.
#[derive(Clone, Copy, Debug)]
pub struct Readings {
    pub a_filtered: [u16; CHANNELS],
    pub a_baseline: [u8; CHANNELS],
    pub b_filtered: [u16; CHANNELS],
    pub b_baseline: [u8; CHANNELS],
}

/// One of the two sensors.
#[derive(Clone, Copy, Debug, PartialEq, Eq, Structural)]
pub enum Device {
    /// The sensor whose bars are on the bottom half.
    A,
    /// The sensor whose bars are on the top half.
    B,
}

/// What to read next for a frame.
pub enum ReadStep<E> {
    /// Read the filtered data of the device, then report to `rest`.
    Filtered { device: Device, rest: FilteredRead },
    /// Read the baseline of the device, then report to `rest`.
    Baseline { device: Device, rest: BaselineRead },
    /// Nothing more is to be read: the readings are complete, or a read failed.
    Done(Result<Readings, Mpr121Error<E>>),
}

/// A frame whose next reading is filtered data, with what device A read if that is
/// known already.
pub struct FilteredRead {
    a: Option<([u16; CHANNELS], [u8; CHANNELS])>,
}

/// A frame whose next reading is the baseline that goes with `filtered`, with what
/// device A read if that is known already.
pub struct BaselineRead {
    a: Option<([u16; CHANNELS], [u8; CHANNELS])>,
    filtered: [u16; CHANNELS],
}

/// Whether `step` is what follows when the filtered data were read as `reply`
/// says: the baseline of the same device, or, after a failure, its error.
pub open spec fn is_filtered_step<E>(
    read: FilteredRead,
    reply: Result<[u16; CHANNELS], Mpr121Error<E>>,
    step: ReadStep<E>,
) -> bool {
    match reply {
        Err(e) => step == ReadStep::<E>::Done(Err(e)),
        Ok(filtered) => {
            &&& step matches ReadStep::Baseline { device, rest }
            &&& device == (if read.device_a() is None {
                Device::A
            } else {
                Device::B
            })
            &&& rest.device_a() == read.device_a()
            &&& rest.filtered_data() == filtered
        },
    }
}

/// Whether `step` is what follows when the baseline was read as `reply` says: the
/// filtered data of device B, or, when device B has been read, the complete
/// readings; after a failure, its error.
pub open spec fn is_baseline_step<E>(
    read: BaselineRead,
    reply: Result<[u8; CHANNELS], Mpr121Error<E>>,
    step: ReadStep<E>,
) -> bool {
    match (reply, read.device_a()) {
        (Err(e), _) => step == ReadStep::<E>::Done(Err(e)),
        (Ok(baseline), None) => {
            &&& step matches ReadStep::Filtered { device, rest }
            &&& device == Device::B
            &&& rest.device_a() == Some((read.filtered_data(), baseline))
        },
        (Ok(baseline), Some(a)) => step == ReadStep::<E>::Done(
            Ok(
                Readings {
                    a_filtered: a.0,
                    a_baseline: a.1,
                    b_filtered: read.filtered_data(),
                    b_baseline: baseline,
                },
            ),
        ),
    }
}

impl FilteredRead {
    /// What device A read, if that is known already.
    pub closed spec fn device_a(self) -> Option<([u16; CHANNELS], [u8; CHANNELS])> {
        self.a
    }

    /// What follows the read of filtered data: the baseline of the same device.
    pub fn step<E>(self, reply: Result<[u16; CHANNELS], Mpr121Error<E>>) -> (step: ReadStep<E>)
        ensures
            is_filtered_step(self, reply, step),
    {
        match reply {
            Err(e) => ReadStep::Done(Err(e)),
            Ok(filtered) => {
                let device: Device = match self.a {
                    None => Device::A,
                    Some(_) => Device::B,
                };
                ReadStep::Baseline { device, rest: BaselineRead { a: self.a, filtered } }
            },
        }
    }
}

impl BaselineRead {
    /// What device A read, if that is known already.
    pub closed spec fn device_a(self) -> Option<([u16; CHANNELS], [u8; CHANNELS])> {
        self.a
    }

    /// The filtered data that the baseline goes with.
    pub closed spec fn filtered_data(self) -> [u16; CHANNELS] {
        self.filtered
    }

    /// What follows the read of a baseline: the filtered data of device B, or,
    /// when device B has been read, the complete readings.
    pub fn step<E>(self, reply: Result<[u8; CHANNELS], Mpr121Error<E>>) -> (step: ReadStep<E>)
        ensures
            is_baseline_step(self, reply, step),
    {
        match reply {
            Err(e) => ReadStep::Done(Err(e)),
            Ok(baseline) => match self.a {
                None => ReadStep::Filtered {
                    device: Device::B,
                    rest: FilteredRead { a: Some((self.filtered, baseline)) },
                },
                Some((a_filtered, a_baseline)) => ReadStep::Done(
                    Ok(
                        Readings {
                            a_filtered,
                            a_baseline,
                            b_filtered: self.filtered,
                            b_baseline: baseline,
                        },
                    ),
                ),
            },
        }
    }
}

/// Whether `step` starts a frame: it reads the filtered data of device A.
pub open spec fn is_first_read<E>(step: ReadStep<E>) -> bool {
    step matches ReadStep::Filtered { device, rest } && device == Device::A && rest.device_a()
        is None
}

/// Read both sensors for a frame: filtered data and baseline of device A, then of
/// device B. The first failed read ends it.
pub fn read_frame<E>() -> (step: ReadStep<E>)
    ensures
        is_first_read(step),
{
    ReadStep::Filtered { device: Device::A, rest: FilteredRead { a: None } }
}

/// What to do once the sensors have been read.
pub enum FrameAction<E> {
    /// Show the frame.
    Show,
    /// Report the error; the display keeps the previous frame.
    Report(Mpr121Error<E>),
}

/// Whether `frame` is the background with the bars of the readings on it.
pub open spec fn is_frame(frame: FrameBuffer, background: FrameBuffer, readings: Readings) -> bool {
    crate::bars::bars_overlaid(
        background,
        frame,
        readings.a_filtered@,
        readings.a_baseline@,
        readings.b_filtered@,
        readings.b_baseline@,
    )
}

/// Whether `action` and the change from `before` to `after` are what the outcome of
/// the reads calls for.
pub open spec fn is_next_frame<E>(
    before: FrameBuffer,
    after: FrameBuffer,
    background: FrameBuffer,
    readings: Result<Readings, Mpr121Error<E>>,
    action: FrameAction<E>,
) -> bool {
    match readings {
        Ok(r) => action == FrameAction::<E>::Show && is_frame(after, background, r),
        Err(e) => action == FrameAction::<E>::Report(e) && after == before,
    }
}

/// Make the next frame in `fb`: start from the background, then overlay the touch
/// bars. On a transient bus error, hold the previous frame.
pub fn next_frame<E>(
    fb: &mut FrameBuffer,
    background: &FrameBuffer,
    readings: Result<Readings, Mpr121Error<E>>,
) -> (action: FrameAction<E>)
    ensures
        match readings {
            Ok(r) => {
                &&& action == FrameAction::<E>::Show
                &&& is_frame(*final(fb), *background, r)
            },
            Err(e) => {
                &&& action == FrameAction::<E>::Report(e)
                &&& *final(fb) == *old(fb)
            },
        },
        is_next_frame(*old(fb), *final(fb), *background, readings, action),
{
    match readings {
        Ok(r) => {
            fb.0 = background.0;
            crate::bars::draw_bars(fb, &r.a_filtered, &r.a_baseline, &r.b_filtered, &r.b_baseline);
            FrameAction::Show
        },
        Err(e) => FrameAction::Report(e),
    }
}

/// A frame depends on the background and the readings alone, not on the frame
/// before.
pub proof fn law_frame_ignores_history(
    frame: FrameBuffer,
    other: FrameBuffer,
    background: FrameBuffer,
    readings: Readings,
)
    requires
        is_frame(frame, background, readings),
        is_frame(other, background, readings),
    ensures
        frame.0@ == other.0@,
{
    assert forall|x: int, y: int| crate::oled::on_display(x, y) implies #[trigger] frame.pixel(x, y)
        == other.pixel(x, y) by {
        assert(other.pixel(x, y) == (background.pixel(x, y) || crate::bars::bar_covers(
            readings.a_filtered@,
            readings.a_baseline@,
            readings.b_filtered@,
            readings.b_baseline@,
            x,
            y,
        )));
    }
    crate::oled::law_pixels_determine_frame(frame, other);
}

/// Four reads that go well are filtered data and baseline of device A, then of
/// device B, and make up the readings of the frame.
pub proof fn law_four_reads_make_a_frame<E>(
    first: ReadStep<E>,
    second: ReadStep<E>,
    third: ReadStep<E>,
    fourth: ReadStep<E>,
    last: ReadStep<E>,
    readings: Readings,
)
    requires
        is_first_read(first),
        is_filtered_step(
            first->Filtered_rest,
            Ok::<[u16; CHANNELS], Mpr121Error<E>>(readings.a_filtered),
            second,
        ),
        is_baseline_step(
            second->Baseline_rest,
            Ok::<[u8; CHANNELS], Mpr121Error<E>>(readings.a_baseline),
            third,
        ),
        is_filtered_step(
            third->Filtered_rest,
            Ok::<[u16; CHANNELS], Mpr121Error<E>>(readings.b_filtered),
            fourth,
        ),
        is_baseline_step(
            fourth->Baseline_rest,
            Ok::<[u8; CHANNELS], Mpr121Error<E>>(readings.b_baseline),
            last,
        ),
    ensures
        first matches ReadStep::Filtered { device: Device::A, .. },
        second matches ReadStep::Baseline { device: Device::A, .. },
        third matches ReadStep::Filtered { device: Device::B, .. },
        fourth matches ReadStep::Baseline { device: Device::B, .. },
        last == ReadStep::<E>::Done(Ok(readings)),
{
}

/// A frame, written out on the readings: the bottom half shows device A's own data,
/// the top half device B's own, over the background.
pub proof fn law_frame_follows_readings(
    frame: FrameBuffer,
    background: FrameBuffer,
    readings: Readings,
    x: int,
    y: int,
)
    requires
        is_frame(frame, background, readings),
        0 <= x < 128,
        0 <= y < 64,
    ensures
        y >= 32 ==> frame.pixel(x, y) == (background.pixel(x, y) || (1 <= x % 16 <= 14 && 5 * (64
            - y) <= 2 * (4 * readings.a_baseline@[4 + x / 16] - readings.a_filtered@[4 + x / 16]))),
        y < 32 ==> frame.pixel(x, y) == (background.pixel(x, y) || (1 <= x % 16 <= 14 && 5 * (y + 1)
            <= 2 * (4 * readings.b_baseline@[11 - x / 16] - readings.b_filtered@[11 - x / 16]))),
{
    crate::bars::law_bars_follow_readings(
        background,
        frame,
        readings.a_filtered@,
        readings.a_baseline@,
        readings.b_filtered@,
        readings.b_baseline@,
        x,
        y,
    );
}

/// The top half of a frame depends on the background and device B alone.
pub proof fn law_top_half_depends_on_b_alone(
    frame: FrameBuffer,
    other: FrameBuffer,
    background: FrameBuffer,
    readings: Readings,
    readings2: Readings,
    x: int,
    y: int,
)
    requires
        is_frame(frame, background, readings),
        is_frame(other, background, readings2),
        readings.b_filtered@ == readings2.b_filtered@,
        readings.b_baseline@ == readings2.b_baseline@,
        0 <= x < 128,
        0 <= y < 32,
    ensures
        frame.pixel(x, y) == other.pixel(x, y),
{
    law_frame_follows_readings(frame, background, readings, x, y);
    law_frame_follows_readings(other, background, readings2, x, y);
}

/// The bottom half of a frame depends on the background and device A alone.
pub proof fn law_bottom_half_depends_on_a_alone(
    frame: FrameBuffer,
    other: FrameBuffer,
    background: FrameBuffer,
    readings: Readings,
    readings2: Readings,
    x: int,
    y: int,
)
    requires
        is_frame(frame, background, readings),
        is_frame(other, background, readings2),
        readings.a_filtered@ == readings2.a_filtered@,
        readings.a_baseline@ == readings2.a_baseline@,
        0 <= x < 128,
        32 <= y < 64,
    ensures
        frame.pixel(x, y) == other.pixel(x, y),
{
    law_frame_follows_readings(frame, background, readings, x, y);
    law_frame_follows_readings(other, background, readings2, x, y);
}

/// A failed read ends the frame with its error, whichever of the four it is.
pub proof fn law_failed_read_ends_frame<E>(
    filtered: FilteredRead,
    baseline: BaselineRead,
    e: Mpr121Error<E>,
    after_filtered: ReadStep<E>,
    after_baseline: ReadStep<E>,
)
    requires
        is_filtered_step(filtered, Err::<[u16; CHANNELS], Mpr121Error<E>>(e), after_filtered),
        is_baseline_step(baseline, Err::<[u8; CHANNELS], Mpr121Error<E>>(e), after_baseline),
    ensures
        after_filtered == ReadStep::<E>::Done(Err(e)),
        after_baseline == ReadStep::<E>::Done(Err(e)),
{
}

/// Nothing of the frame before, and nothing but background and bars, is in a frame
/// that is shown; a frame that could not be read leaves every byte as it was and
/// reports the error it failed with.
pub proof fn law_next_frame_shows_or_holds<E>(
    before: FrameBuffer,
    after: FrameBuffer,
    background: FrameBuffer,
    readings: Result<Readings, Mpr121Error<E>>,
    action: FrameAction<E>,
    x: int,
    y: int,
)
    requires
        is_next_frame(before, after, background, readings, action),
        0 <= x < 128,
        0 <= y < 64,
    ensures
        readings is Ok <==> action is Show,
        readings matches Err(e) ==> action == FrameAction::<E>::Report(e) && after.0@ == before.0@,
        readings is Ok && (x % 16 == 0 || x % 16 == 15) ==> after.pixel(x, y) == background.pixel(
            x,
            y,
        ),
        readings matches Ok(r) ==> {
            &&& y >= 32 ==> after.pixel(x, y) == (background.pixel(x, y) || (1 <= x % 16 <= 14 && 5
                * (64 - y) <= 2 * (4 * r.a_baseline@[4 + x / 16] - r.a_filtered@[4 + x / 16])))
            &&& y < 32 ==> after.pixel(x, y) == (background.pixel(x, y) || (1 <= x % 16 <= 14 && 5
                * (y + 1) <= 2 * (4 * r.b_baseline@[11 - x / 16] - r.b_filtered@[11 - x / 16])))
        },
{
    if let Ok(r) = readings {
        law_frame_follows_readings(after, background, r, x, y);
    }
}

} // verus!
