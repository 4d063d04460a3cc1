//! Touch bars: two sensors' readings drawn as opposing bar graphs.
//!
//! Each sensor drives 8 electrodes (ELE4..ELE11) that are rendered as vertical
//! bars. One sensor's bars grow down from the top edge, the other's grow up from
//! the bottom edge, meeting in the middle.

use crate::mpr121::config::CHANNELS;
use crate::oled::FrameBuffer;
use crate::oled::HEIGHT;
use crate::oled::WIDTH;
use vstd::prelude::*;

verus! {

/// Number of electrodes rendered per device.
pub const BARS: usize = 8;

/// First electrode used (channels ELE4..ELE11 are the physical bar traces).
pub const FIRST_ELE: usize = 4;

/// Horizontal pitch of each bar cell (128 / 8 = 16 px).
pub const BAR_STRIDE: usize = WIDTH / BARS;

/// Filled width of a bar within its cell, leaving a 1 px gutter each side.
pub const BAR_WIDTH: usize = BAR_STRIDE - 2;

/// Maximum bar height: each device owns half the panel.
pub const HALF_H: usize = HEIGHT / 2;

/// Fixed full-scale delta (baseline - filtered) that maps to a full-height bar.
/// Tune to taste; smaller = more sensitive.
pub const MAX_DELTA: i32 = 80;

/// If true, autoscale each frame to the largest delta instead of `MAX_DELTA`.
pub const AUTO_SCALE: bool = false;

/// The touch delta behind bar `i`: `(baseline << 2) - filtered` of the bar's
/// electrode, clamped to be non-negative.
///
/// It sits near zero when untouched and grows with proximity and pressure.
pub open spec fn delta(filtered: Seq<u16>, baseline: Seq<u8>, i: int) -> int {
    let d = 4 * baseline[FIRST_ELE + i] - filtered[FIRST_ELE + i];
    if d > 0 {
        d
    } else {
        0
    }
}

/// The larger of two integers.
pub open spec fn larger(a: int, b: int) -> int {
    if a >= b {
        a
    } else {
        b
    }
}

/// The largest delta among the first `n` bars of both devices, and at least 1.
pub open spec fn largest_delta(
    a_filtered: Seq<u16>,
    a_baseline: Seq<u8>,
    b_filtered: Seq<u16>,
    b_baseline: Seq<u8>,
    n: nat,
) -> int
    decreases n,
{
    if n == 0 {
        1
    } else {
        larger(
            larger(
                largest_delta(a_filtered, a_baseline, b_filtered, b_baseline, (n - 1) as nat),
                delta(a_filtered, a_baseline, n - 1),
            ),
            delta(b_filtered, b_baseline, n - 1),
        )
    }
}

/// The delta that maps to a full-height bar.
pub open spec fn full_scale(
    a_filtered: Seq<u16>,
    a_baseline: Seq<u8>,
    b_filtered: Seq<u16>,
    b_baseline: Seq<u8>,
) -> int {
    if AUTO_SCALE {
        largest_delta(a_filtered, a_baseline, b_filtered, b_baseline, BARS as nat)
    } else {
        MAX_DELTA as int
    }
}

/// Height in rows of a bar with the given delta: proportional to the delta, and
/// half the panel from `scale` upward.
pub open spec fn bar_height(delta: int, scale: int) -> int {
    (if delta <= scale {
        delta
    } else {
        scale
    }) * HALF_H / scale
}

/// Whether the bars cover `(x, y)`.
///
/// Device B is on the top half with its channel order reversed, device A on the
/// bottom half. Column `x` belongs to cell `x / BAR_STRIDE`, whose first and last
/// columns are gutter.
pub open spec fn bar_covers(
    a_filtered: Seq<u16>,
    a_baseline: Seq<u8>,
    b_filtered: Seq<u16>,
    b_baseline: Seq<u8>,
    x: int,
    y: int,
) -> bool {
    let scale = full_scale(a_filtered, a_baseline, b_filtered, b_baseline);
    let cell = x / (BAR_STRIDE as int);
    let column = x % (BAR_STRIDE as int);
    &&& 1 <= column <= BAR_WIDTH
    &&& {
        ||| y < bar_height(delta(b_filtered, b_baseline, BARS - 1 - cell), scale)
        ||| HEIGHT - 1 - y < bar_height(delta(a_filtered, a_baseline, cell), scale)
    }
}

/// Whether `after` is `before` with the bars' pixels turned on.
pub open spec fn bars_overlaid(
    before: FrameBuffer,
    after: FrameBuffer,
    a_filtered: Seq<u16>,
    a_baseline: Seq<u8>,
    b_filtered: Seq<u16>,
    b_baseline: Seq<u8>,
) -> bool {
    forall|x: int, y: int|
        crate::oled::on_display(x, y) ==> #[trigger] after.pixel(x, y) == (before.pixel(x, y)
            || bar_covers(a_filtered, a_baseline, b_filtered, b_baseline, x, y))
}

proof fn lemma_bar_height_bounds(delta: int, scale: int)
    requires
        0 <= delta,
        0 < scale,
    ensures
        0 <= bar_height(delta, scale) <= HALF_H,
{
    let m = if delta <= scale {
        delta
    } else {
        scale
    };
    assert(0 <= m * 32 / scale <= 32) by (nonlinear_arith)
        requires
            0 <= m <= scale,
            0 < scale,
    ;
}

/// Turn on the pixels of the rectangle with top-left corner `(x0, y0)`.
fn fill_rect(fb: &mut FrameBuffer, x0: usize, y0: usize, width: usize, height: usize)
    requires
        x0 + width <= WIDTH,
        y0 + height <= HEIGHT,
    ensures
        forall|x: int, y: int|
            crate::oled::on_display(x, y) ==> #[trigger] final(fb).pixel(x, y) == (old(fb).pixel(
                x,
                y,
            ) || (x0 <= x < x0 + width && y0 <= y < y0 + height)),
{
    let mut row: usize = 0;
    while row < height
        invariant
            row <= height,
            x0 + width <= WIDTH,
            y0 + height <= HEIGHT,
            forall|x: int, y: int|
                crate::oled::on_display(x, y) ==> #[trigger] fb.pixel(x, y) == (old(fb).pixel(x, y)
                    || (x0 <= x < x0 + width && y0 <= y < y0 + row)),
        decreases height - row,
    {
        let mut col: usize = 0;
        while col < width
            invariant
                col <= width,
                row < height,
                x0 + width <= WIDTH,
                y0 + height <= HEIGHT,
                forall|x: int, y: int|
                    crate::oled::on_display(x, y) ==> #[trigger] fb.pixel(x, y) == (old(fb).pixel(
                        x,
                        y,
                    ) || (x0 <= x < x0 + width && y0 <= y < y0 + row) || (x0 <= x < x0 + col && y
                        == y0 + row)),
            decreases width - col,
        {
            fb.set_pixel(x0 + col, y0 + row, true);
            col += 1;
        }
        row += 1;
    }
}

/// The touch delta of bar `i`.
fn touch_delta(filtered: &[u16; CHANNELS], baseline: &[u8; CHANNELS], i: usize) -> (d: i32)
    requires
        i < BARS,
    ensures
        d == delta(filtered@, baseline@, i as int),
        0 <= d <= 1020,
{
    let level: i32 = baseline[FIRST_ELE + i] as i32;
    assert(level << 2u32 == 4 * level) by (bit_vector)
        requires
            0 <= level <= 255,
    ;
    let d: i32 = (level << 2u32) - filtered[FIRST_ELE + i] as i32;
    if d > 0 {
        d
    } else {
        0
    }
}

/// Height in rows of a bar with delta `d`.
fn touch_height(d: i32, scale: i32) -> (h: usize)
    requires
        0 <= d <= 1020,
        0 < scale <= 1020,
    ensures
        h == bar_height(d as int, scale as int),
        h <= HALF_H,
{
    let m: i32 = if d <= scale {
        d
    } else {
        scale
    };
    proof {
        lemma_bar_height_bounds(d as int, scale as int);
    }
    (m as u32 * HALF_H as u32 / scale as u32) as usize
}

/// Overlay both devices' touch deltas onto `fb` as opposing bar graphs.
///
/// The caller is responsible for the background already in `fb`; this function
/// only turns bar pixels *on*, leaving the rest intact.
///
/// `*_filtered` / `*_baseline` are the 12-channel reads from each sensor. The
/// per-electrode delta `(baseline << 2) - filtered` sits near zero when
/// untouched and grows with proximity/pressure, independent of trace length.
///
/// Device B is drawn on the top half (bars grow downward from row 0); device A
/// on the bottom half (bars grow upward from the last row). The top device's
/// channel order is reversed so bar position matches the physical touch strip
/// (left touch, left bar) on both boards.
pub fn draw_bars(
    fb: &mut FrameBuffer,
    a_filtered: &[u16; CHANNELS],
    a_baseline: &[u8; CHANNELS],
    b_filtered: &[u16; CHANNELS],
    b_baseline: &[u8; CHANNELS],
)
    ensures
        bars_overlaid(
            *old(fb),
            *final(fb),
            a_filtered@,
            a_baseline@,
            b_filtered@,
            b_baseline@,
        ),
{
    let mut a_delta: [i32; BARS] = [0i32; BARS];
    let mut b_delta: [i32; BARS] = [0i32; BARS];
    let mut max_delta: i32 = 1;
    let mut i: usize = 0;
    while i < BARS
        invariant
            i <= BARS,
            1 <= max_delta <= 1020,
            max_delta == largest_delta(
                a_filtered@,
                a_baseline@,
                b_filtered@,
                b_baseline@,
                i as nat,
            ),
            forall|k: int|
                0 <= k < i ==> #[trigger] a_delta@[k] == delta(a_filtered@, a_baseline@, k) && 0
                    <= a_delta@[k] <= 1020,
            forall|k: int|
                0 <= k < i ==> #[trigger] b_delta@[k] == delta(b_filtered@, b_baseline@, k) && 0
                    <= b_delta@[k] <= 1020,
        decreases BARS - i,
    {
        let ad: i32 = touch_delta(a_filtered, a_baseline, i);
        let bd: i32 = touch_delta(b_filtered, b_baseline, i);
        a_delta[i] = ad;
        b_delta[i] = bd;
        if ad > max_delta {
            max_delta = ad;
        }
        if bd > max_delta {
            max_delta = bd;
        }
        i += 1;
    }
    let scale: i32 = if AUTO_SCALE {
        max_delta
    } else {
        MAX_DELTA
    };

    // Device B: top half, bars grow downward from row 0, reversed.
    i = 0;
    while i < BARS
        invariant
            i <= BARS,
            0 < scale <= 1020,
            forall|k: int|
                0 <= k < BARS ==> #[trigger] b_delta@[k] == delta(b_filtered@, b_baseline@, k) && 0
                    <= b_delta@[k] <= 1020,
            forall|x: int, y: int|
                crate::oled::on_display(x, y) ==> #[trigger] fb.pixel(x, y) == (old(fb).pixel(x, y)
                    || (x / (BAR_STRIDE as int) < i && 1 <= x % (BAR_STRIDE as int) <= BAR_WIDTH && y
                    < bar_height(
                    delta(b_filtered@, b_baseline@, BARS - 1 - x / (BAR_STRIDE as int)),
                    scale as int,
                ))),
        decreases BARS - i,
    {
        let h: usize = touch_height(b_delta[BARS - 1 - i], scale);
        fill_rect(fb, i * BAR_STRIDE + 1, 0, BAR_WIDTH, h);
        i += 1;
    }
    let ghost top = *fb;

    // Device A: bottom half, bars grow upward from the last row.
    i = 0;
    while i < BARS
        invariant
            i <= BARS,
            0 < scale <= 1020,
            forall|k: int|
                0 <= k < BARS ==> #[trigger] a_delta@[k] == delta(a_filtered@, a_baseline@, k) && 0
                    <= a_delta@[k] <= 1020,
            forall|x: int, y: int|
                crate::oled::on_display(x, y) ==> #[trigger] fb.pixel(x, y) == (top.pixel(x, y) || (x
                    / (BAR_STRIDE as int) < i && 1 <= x % (BAR_STRIDE as int) <= BAR_WIDTH && HEIGHT
                    - 1 - y < bar_height(
                    delta(a_filtered@, a_baseline@, x / (BAR_STRIDE as int)),
                    scale as int,
                ))),
        decreases BARS - i,
    {
        let h: usize = touch_height(a_delta[i], scale);
        fill_rect(fb, i * BAR_STRIDE + 1, HEIGHT - h, BAR_WIDTH, h);
        i += 1;
    }
}

/// The full scale is positive.
proof fn lemma_full_scale_positive(
    a_filtered: Seq<u16>,
    a_baseline: Seq<u8>,
    b_filtered: Seq<u16>,
    b_baseline: Seq<u8>,
    n: nat,
)
    ensures
        largest_delta(a_filtered, a_baseline, b_filtered, b_baseline, n) >= 1,
        full_scale(a_filtered, a_baseline, b_filtered, b_baseline) >= 1,
    decreases n,
{
    if n > 0 {
        lemma_full_scale_positive(
            a_filtered,
            a_baseline,
            b_filtered,
            b_baseline,
            (n - 1) as nat,
        );
    }
}

/// The bars only turn pixels on.
pub proof fn law_bars_turn_no_pixel_off(
    before: FrameBuffer,
    after: FrameBuffer,
    a_filtered: Seq<u16>,
    a_baseline: Seq<u8>,
    b_filtered: Seq<u16>,
    b_baseline: Seq<u8>,
    x: int,
    y: int,
)
    requires
        bars_overlaid(before, after, a_filtered, a_baseline, b_filtered, b_baseline),
        crate::oled::on_display(x, y),
        before.pixel(x, y),
    ensures
        after.pixel(x, y),
{
}

/// Drawing the same bars again changes nothing.
pub proof fn law_drawing_bars_twice(
    before: FrameBuffer,
    once: FrameBuffer,
    twice: FrameBuffer,
    a_filtered: Seq<u16>,
    a_baseline: Seq<u8>,
    b_filtered: Seq<u16>,
    b_baseline: Seq<u8>,
)
    requires
        bars_overlaid(before, once, a_filtered, a_baseline, b_filtered, b_baseline),
        bars_overlaid(once, twice, a_filtered, a_baseline, b_filtered, b_baseline),
    ensures
        twice.0@ == once.0@,
{
    assert forall|x: int, y: int| crate::oled::on_display(x, y) implies #[trigger] twice.pixel(x, y)
        == once.pixel(x, y) by {
        assert(once.pixel(x, y) == (before.pixel(x, y) || bar_covers(
            a_filtered,
            a_baseline,
            b_filtered,
            b_baseline,
            x,
            y,
        )));
    }
    crate::oled::law_pixels_determine_frame(twice, once);
}

/// Untouched sensors leave the picture as it is.
pub proof fn law_untouched_draws_nothing(
    before: FrameBuffer,
    after: FrameBuffer,
    a_filtered: Seq<u16>,
    a_baseline: Seq<u8>,
    b_filtered: Seq<u16>,
    b_baseline: Seq<u8>,
)
    requires
        bars_overlaid(before, after, a_filtered, a_baseline, b_filtered, b_baseline),
        forall|i: int|
            0 <= i < BARS ==> #[trigger] delta(a_filtered, a_baseline, i) == 0 && delta(
                b_filtered,
                b_baseline,
                i,
            ) == 0,
    ensures
        after.0@ == before.0@,
{
    lemma_full_scale_positive(a_filtered, a_baseline, b_filtered, b_baseline, BARS as nat);
    let scale = full_scale(a_filtered, a_baseline, b_filtered, b_baseline);
    assert(bar_height(0, scale) == 0) by {
        assert(0int * 32 / scale == 0) by (nonlinear_arith)
            requires
                scale >= 1,
        ;
    }
    assert forall|x: int, y: int| crate::oled::on_display(x, y) implies #[trigger] after.pixel(x, y)
        == before.pixel(x, y) by {
        let cell = x / (BAR_STRIDE as int);
        assert(delta(a_filtered, a_baseline, cell) == 0);
        assert(delta(a_filtered, a_baseline, BARS - 1 - cell) == 0);
    }
    crate::oled::law_pixels_determine_frame(after, before);
}

/// Each device owns half the panel: the bars on the top half are device B's
/// alone, those on the bottom half device A's, and the first and last column of
/// each cell stay free.
pub proof fn law_each_device_owns_half(
    a_filtered: Seq<u16>,
    a_baseline: Seq<u8>,
    b_filtered: Seq<u16>,
    b_baseline: Seq<u8>,
    x: int,
    y: int,
)
    requires
        crate::oled::on_display(x, y),
        bar_covers(a_filtered, a_baseline, b_filtered, b_baseline, x, y),
    ensures
        ({
            let scale = full_scale(a_filtered, a_baseline, b_filtered, b_baseline);
            let cell = x / (BAR_STRIDE as int);
            &&& y < HALF_H ==> y < bar_height(
                delta(b_filtered, b_baseline, BARS - 1 - cell),
                scale,
            )
            &&& y >= HALF_H ==> HEIGHT - 1 - y < bar_height(
                delta(a_filtered, a_baseline, cell),
                scale,
            )
            &&& x % (BAR_STRIDE as int) != 0
            &&& x % (BAR_STRIDE as int) != BAR_STRIDE - 1
        }),
{
    lemma_full_scale_positive(a_filtered, a_baseline, b_filtered, b_baseline, BARS as nat);
    let scale = full_scale(a_filtered, a_baseline, b_filtered, b_baseline);
    let cell = x / (BAR_STRIDE as int);
    lemma_bar_height_bounds(delta(a_filtered, a_baseline, cell), scale);
    lemma_bar_height_bounds(delta(b_filtered, b_baseline, BARS - 1 - cell), scale);
}

/// A larger delta never makes a shorter bar; a delta at full scale or above makes
/// a bar of half the panel.
pub proof fn law_bar_height_grows(small: int, large: int, scale: int)
    requires
        0 <= small <= large,
        0 < scale,
    ensures
        0 <= bar_height(small, scale) <= bar_height(large, scale) <= HALF_H,
        large >= scale ==> bar_height(large, scale) == HALF_H,
{
    lemma_bar_height_bounds(small, scale);
    lemma_bar_height_bounds(large, scale);
    let a = if small <= scale {
        small
    } else {
        scale
    };
    let b = if large <= scale {
        large
    } else {
        scale
    };
    assert(a * 32 / scale <= b * 32 / scale) by (nonlinear_arith)
        requires
            0 <= a <= b,
            0 < scale,
    ;
    assert(scale * 32 / scale == 32) by (nonlinear_arith)
        requires
            0 < scale,
    ;
}

/// Bar position matches the physical touch strip on both boards: when device B's
/// electrodes read, in reverse order, as device A's do, the top bars mirror the
/// bottom bars.
pub proof fn law_top_mirrors_bottom(
    a_filtered: Seq<u16>,
    a_baseline: Seq<u8>,
    b_filtered: Seq<u16>,
    b_baseline: Seq<u8>,
    x: int,
    y: int,
)
    requires
        crate::oled::on_display(x, y),
        forall|i: int|
            0 <= i < BARS ==> #[trigger] delta(a_filtered, a_baseline, i) == delta(
                b_filtered,
                b_baseline,
                BARS - 1 - i,
            ),
    ensures
        bar_covers(a_filtered, a_baseline, b_filtered, b_baseline, x, y) == bar_covers(
            a_filtered,
            a_baseline,
            b_filtered,
            b_baseline,
            x,
            HEIGHT - 1 - y,
        ),
{
    let cell = x / (BAR_STRIDE as int);
    assert(BAR_STRIDE == 16 && 0 <= cell < BARS);
    assert(delta(a_filtered, a_baseline, cell) == delta(b_filtered, b_baseline, BARS - 1 - cell));
}

/// The picture, written out on the readings: the pixel `r` rows away from the edge
/// that its bar grows from is lit when `5 * (r + 1) <= 2 * delta`, so that 80 fills
/// the 32 rows of the half. The bottom bar of cell `c` shows electrode `4 + c` of
/// device A, the top bar electrode `11 - c` of device B.
pub proof fn law_bars_follow_readings(
    before: FrameBuffer,
    after: FrameBuffer,
    a_filtered: Seq<u16>,
    a_baseline: Seq<u8>,
    b_filtered: Seq<u16>,
    b_baseline: Seq<u8>,
    x: int,
    y: int,
)
    requires
        bars_overlaid(before, after, a_filtered, a_baseline, b_filtered, b_baseline),
        0 <= x < 128,
        0 <= y < 64,
    ensures
        y >= 32 ==> after.pixel(x, y) == (before.pixel(x, y) || (1 <= x % 16 <= 14 && 5 * (64 - y)
            <= 2 * (4 * a_baseline[4 + x / 16] - a_filtered[4 + x / 16]))),
        y < 32 ==> after.pixel(x, y) == (before.pixel(x, y) || (1 <= x % 16 <= 14 && 5 * (y + 1)
            <= 2 * (4 * b_baseline[11 - x / 16] - b_filtered[11 - x / 16]))),
{
    assert(BAR_STRIDE == 16 && BAR_WIDTH == 14 && HALF_H == 32);
    let scale = full_scale(a_filtered, a_baseline, b_filtered, b_baseline);
    assert(scale == 80);
    let cell = x / 16;
    let a = delta(a_filtered, a_baseline, cell);
    let b = delta(b_filtered, b_baseline, BARS - 1 - cell);
    assert(crate::oled::on_display(x, y));
    lemma_bar_height_bounds(a, scale);
    lemma_bar_height_bounds(b, scale);
    assert(after.pixel(x, y) == (before.pixel(x, y) || bar_covers(
        a_filtered,
        a_baseline,
        b_filtered,
        b_baseline,
        x,
        y,
    )));
    assert(FIRST_ELE + (BARS - 1 - cell) == 11 - cell);
}

/// Each electrode moves its own bar alone: readings that agree but for electrode `e`
/// of device A give pictures that agree outside the bottom half of cell `e - 4`.
pub proof fn law_electrode_of_a_moves_its_own_bar(
    before: FrameBuffer,
    one: FrameBuffer,
    other: FrameBuffer,
    a_filtered: Seq<u16>,
    a_baseline: Seq<u8>,
    a_filtered2: Seq<u16>,
    a_baseline2: Seq<u8>,
    b_filtered: Seq<u16>,
    b_baseline: Seq<u8>,
    e: int,
    x: int,
    y: int,
)
    requires
        bars_overlaid(before, one, a_filtered, a_baseline, b_filtered, b_baseline),
        bars_overlaid(before, other, a_filtered2, a_baseline2, b_filtered, b_baseline),
        forall|i: int|
            0 <= i < 12 && i != e ==> #[trigger] a_filtered[i] == a_filtered2[i] && a_baseline[i]
                == a_baseline2[i],
        0 <= x < 128,
        0 <= y < 64,
        y < 32 || x / 16 != e - 4,
    ensures
        one.pixel(x, y) == other.pixel(x, y),
{
    law_bars_follow_readings(
        before,
        one,
        a_filtered,
        a_baseline,
        b_filtered,
        b_baseline,
        x,
        y,
    );
    law_bars_follow_readings(
        before,
        other,
        a_filtered2,
        a_baseline2,
        b_filtered,
        b_baseline,
        x,
        y,
    );
    assert(a_filtered[4 + x / 16] == a_filtered[4 + x / 16]);
}

/// Readings that agree but for electrode `e` of device B give pictures that agree
/// outside the top half of cell `11 - e`.
pub proof fn law_electrode_of_b_moves_its_own_bar(
    before: FrameBuffer,
    one: FrameBuffer,
    other: FrameBuffer,
    a_filtered: Seq<u16>,
    a_baseline: Seq<u8>,
    b_filtered: Seq<u16>,
    b_baseline: Seq<u8>,
    b_filtered2: Seq<u16>,
    b_baseline2: Seq<u8>,
    e: int,
    x: int,
    y: int,
)
    requires
        bars_overlaid(before, one, a_filtered, a_baseline, b_filtered, b_baseline),
        bars_overlaid(before, other, a_filtered, a_baseline, b_filtered2, b_baseline2),
        forall|i: int|
            0 <= i < 12 && i != e ==> #[trigger] b_filtered[i] == b_filtered2[i] && b_baseline[i]
                == b_baseline2[i],
        0 <= x < 128,
        0 <= y < 64,
        y >= 32 || x / 16 != 11 - e,
    ensures
        one.pixel(x, y) == other.pixel(x, y),
{
    law_bars_follow_readings(
        before,
        one,
        a_filtered,
        a_baseline,
        b_filtered,
        b_baseline,
        x,
        y,
    );
    law_bars_follow_readings(
        before,
        other,
        a_filtered,
        a_baseline,
        b_filtered2,
        b_baseline2,
        x,
        y,
    );
    assert(b_filtered[11 - x / 16] == b_filtered[11 - x / 16]);
}

/// The autoscale value is the largest of all sixteen deltas, or 1 when none is
/// larger.
pub proof fn law_autoscale_is_largest_delta(
    a_filtered: Seq<u16>,
    a_baseline: Seq<u8>,
    b_filtered: Seq<u16>,
    b_baseline: Seq<u8>,
    n: nat,
)
    ensures
        ({
            let largest = largest_delta(a_filtered, a_baseline, b_filtered, b_baseline, n);
            &&& largest >= 1
            &&& forall|i: int|
                #![trigger a_baseline[4 + i]]
                0 <= i < n ==> 4 * a_baseline[4 + i] - a_filtered[4 + i] <= largest
            &&& forall|i: int|
                #![trigger b_baseline[4 + i]]
                0 <= i < n ==> 4 * b_baseline[4 + i] - b_filtered[4 + i] <= largest
            &&& largest == 1 || exists|i: int|
                #![trigger a_baseline[4 + i]]
                0 <= i < n && (4 * a_baseline[4 + i] - a_filtered[4 + i] == largest || 4
                    * b_baseline[4 + i] - b_filtered[4 + i] == largest)
        }),
    decreases n,
{
    if n > 0 {
        let m = (n - 1) as nat;
        law_autoscale_is_largest_delta(a_filtered, a_baseline, b_filtered, b_baseline, m);
        let before = largest_delta(a_filtered, a_baseline, b_filtered, b_baseline, m);
        let largest = largest_delta(a_filtered, a_baseline, b_filtered, b_baseline, n);
        assert(a_baseline[4 + (n - 1)] == a_baseline[FIRST_ELE + (n - 1)]);
        assert(b_baseline[4 + (n - 1)] == b_baseline[FIRST_ELE + (n - 1)]);
        if largest != 1 {
            if largest == before {
                let i = choose|i: int|
                    #![trigger a_baseline[4 + i]]
                    0 <= i < m && (4 * a_baseline[4 + i] - a_filtered[4 + i] == before || 4
                        * b_baseline[4 + i] - b_filtered[4 + i] == before);
                assert(a_baseline[4 + i] == a_baseline[4 + i] && 0 <= i < n);
            } else {
                let i = n - 1;
                assert(a_baseline[4 + i] == a_baseline[4 + i] && 0 <= i < n);
            }
        }
    }
}

} // verus!
