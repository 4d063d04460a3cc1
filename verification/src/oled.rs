//! The SSD1312 OLED panel: its framebuffer and the byte stream that drives it.
//!
//! The panel is 128x64 pixels at one bit per pixel and is driven over 4-wire
//! SPI. Its `D/C` line tells command bytes from pixel bytes: only pixel data for
//! the panel memory goes out with `D/C` high; command opcodes *and* their
//! argument bytes go out with `D/C` low. [`Transfer`] carries that distinction.

use vstd::prelude::*;

verus! {

/// Display width in pixels.
pub const WIDTH: usize = 128;

/// Display height in pixels.
pub const HEIGHT: usize = 64;

/// Number of 8-pixel-tall pages (the panel memory is page-addressed).
pub const PAGES: usize = HEIGHT / 8;

/// Size of a full packed framebuffer in bytes.
pub const FRAME_SIZE: usize = WIDTH * PAGES;

/// Whether bit `n` of `byte` is set.
pub open spec fn bit(byte: u8, n: int) -> bool {
    (byte >> (n as u8)) & 1u8 == 1u8
}

/// Whether `(x, y)` lies on the display.
pub open spec fn on_display(x: int, y: int) -> bool {
    0 <= x < WIDTH && 0 <= y < HEIGHT
}

/// A packed 1bpp framebuffer for the SSD1312.
///
/// Byte layout matches the panel's page-addressed memory: byte index
/// `page * WIDTH + x` holds an 8-pixel-tall column slice, where bit `n`
/// (LSB = top) is the pixel at row `page * 8 + n`.
pub struct FrameBuffer(pub [u8; FRAME_SIZE]);

/// The pixel at `(x, y)` of a packed frame.
pub open spec fn frame_pixel(frame: Seq<u8>, x: int, y: int) -> bool {
    bit(frame[(y / 8) * WIDTH + x], y % 8)
}

/// The packed frame with every pixel off.
pub open spec fn blank_frame() -> Seq<u8> {
    Seq::new(FRAME_SIZE as nat, |i: int| 0u8)
}

proof fn lemma_set_bit(byte: u8, n: u8, m: u8)
    by (bit_vector)
    requires
        n < 8,
        m < 8,
    ensures
        ((byte | (1u8 << n)) >> n) & 1u8 == 1u8,
        n != m ==> ((byte | (1u8 << n)) >> m) & 1u8 == (byte >> m) & 1u8,
        ((byte & !(1u8 << n)) >> n) & 1u8 == 0u8,
        n != m ==> ((byte & !(1u8 << n)) >> m) & 1u8 == (byte >> m) & 1u8,
{
}

proof fn lemma_uniform_byte(m: u8)
    by (bit_vector)
    requires
        m < 8,
    ensures
        (0xFFu8 >> m) & 1u8 == 1u8,
        (0x00u8 >> m) & 1u8 == 0u8,
{
}

proof fn lemma_byte_from_bits(a: u8, b: u8)
    requires
        forall|n: int| 0 <= n < 8 ==> #[trigger] bit(a, n) == bit(b, n),
    ensures
        a == b,
{
    assert(bit(a, 0) == bit(b, 0) && bit(a, 1) == bit(b, 1) && bit(a, 2) == bit(b, 2));
    assert(bit(a, 3) == bit(b, 3) && bit(a, 4) == bit(b, 4) && bit(a, 5) == bit(b, 5));
    assert(bit(a, 6) == bit(b, 6) && bit(a, 7) == bit(b, 7));
    assert(a == b) by (bit_vector)
        requires
            ((a >> 0u8) & 1u8 == 1u8) == ((b >> 0u8) & 1u8 == 1u8),
            ((a >> 1u8) & 1u8 == 1u8) == ((b >> 1u8) & 1u8 == 1u8),
            ((a >> 2u8) & 1u8 == 1u8) == ((b >> 2u8) & 1u8 == 1u8),
            ((a >> 3u8) & 1u8 == 1u8) == ((b >> 3u8) & 1u8 == 1u8),
            ((a >> 4u8) & 1u8 == 1u8) == ((b >> 4u8) & 1u8 == 1u8),
            ((a >> 5u8) & 1u8 == 1u8) == ((b >> 5u8) & 1u8 == 1u8),
            ((a >> 6u8) & 1u8 == 1u8) == ((b >> 6u8) & 1u8 == 1u8),
            ((a >> 7u8) & 1u8 == 1u8) == ((b >> 7u8) & 1u8 == 1u8),
    ;
}

impl FrameBuffer {
    /// The pixel at `(x, y)`: `true` when it is lit.
    pub open spec fn pixel(&self, x: int, y: int) -> bool {
        frame_pixel(self.0@, x, y)
    }

    /// Create a new, all-pixels-off framebuffer.
    pub fn new() -> (fb: Self)
        ensures
            fb.0@ == blank_frame(),
            forall|x: int, y: int| on_display(x, y) ==> !#[trigger] fb.pixel(x, y),
    {
        let fb = Self([0u8; FRAME_SIZE]);
        proof {
            assert(fb.0@ =~= blank_frame());
            assert forall|x: int, y: int| on_display(x, y) implies !#[trigger] fb.pixel(x, y) by {
                lemma_uniform_byte((y % 8) as u8);
            }
        }
        fb
    }

    /// Turn every pixel off (`false`) or on (`true`).
    pub fn clear(&mut self, on: bool)
        ensures
            forall|i: int|
                0 <= i < FRAME_SIZE ==> #[trigger] final(self).0@[i] == (if on {
                    0xFFu8
                } else {
                    0x00u8
                }),
            forall|x: int, y: int| on_display(x, y) ==> #[trigger] final(self).pixel(x, y) == on,
    {
        let fill: u8 = if on {
            0xFF
        } else {
            0x00
        };
        let mut i: usize = 0;
        while i < FRAME_SIZE
            invariant
                i <= FRAME_SIZE,
                forall|k: int| 0 <= k < i ==> #[trigger] self.0@[k] == fill,
            decreases FRAME_SIZE - i,
        {
            self.0[i] = fill;
            i += 1;
        }
        proof {
            assert forall|x: int, y: int| on_display(x, y) implies #[trigger] self.pixel(x, y)
                == on by {
                lemma_uniform_byte((y % 8) as u8);
                assert(self.0@[(y / 8) * WIDTH + x] == fill);
            }
        }
    }

    /// Whether `after` is `self` with the pixel at `(x, y)` given the value `on`, when
    /// it is on the display.
    pub open spec fn pixel_set(self, after: FrameBuffer, x: int, y: int, on: bool) -> bool {
        &&& !on_display(x, y) ==> after.0@ == self.0@
        &&& on_display(x, y) ==> after.pixel(x, y) == on
        &&& forall|u: int, v: int|
            on_display(u, v) && !(u == x && v == y) ==> #[trigger] after.pixel(u, v) == self.pixel(
                u,
                v,
            )
    }

    /// Set a single pixel. Coordinates outside the display are ignored.
    pub fn set_pixel(&mut self, x: usize, y: usize, on: bool)
        ensures
            !on_display(x as int, y as int) ==> final(self).0@ == old(self).0@,
            on_display(x as int, y as int) ==> final(self).pixel(x as int, y as int) == on,
            forall|u: int, v: int|
                on_display(u, v) && !(u == x && v == y) ==> #[trigger] final(self).pixel(u, v)
                    == old(self).pixel(u, v),
            old(self).pixel_set(*final(self), x as int, y as int, on),
    {
        if x >= WIDTH || y >= HEIGHT {
            return;
        }
        let idx: usize = (y / 8) * WIDTH + x;
        let shift: u8 = (y % 8) as u8;
        let bit: u8 = 1u8 << shift;
        let byte: u8 = self.0[idx];
        let packed: u8 = if on {
            byte | bit
        } else {
            byte & !bit
        };
        self.0[idx] = packed;
        proof {
            lemma_set_bit(byte, shift, shift);
            assert forall|u: int, v: int|
                on_display(u, v) && !(u == x && v == y) implies #[trigger] self.pixel(u, v) == old(
                self,
            ).pixel(u, v) by {
                lemma_set_bit(byte, shift, (v % 8) as u8);
                if (v / 8) * WIDTH + u == idx {
                    assert(v / 8 == y / 8 && u == x);
                    assert(v % 8 != y % 8);
                }
            }
        }
    }
}

impl Default for FrameBuffer {
    fn default() -> (fb: Self)
        ensures
            fb.0@ == blank_frame(),
    {
        Self::new()
    }
}

/// The pixels determine the packed bytes: two frames that show the same picture
/// are the same frame.
pub proof fn law_pixels_determine_frame(a: FrameBuffer, b: FrameBuffer)
    requires
        forall|x: int, y: int| on_display(x, y) ==> #[trigger] a.pixel(x, y) == b.pixel(x, y),
    ensures
        a.0@ == b.0@,
{
    assert forall|i: int| 0 <= i < FRAME_SIZE implies a.0@[i] == b.0@[i] by {
        let x = i % (WIDTH as int);
        let page = i / (WIDTH as int);
        assert(page * WIDTH + x == i);
        assert forall|n: int| 0 <= n < 8 implies #[trigger] bit(a.0@[i], n) == bit(
            b.0@[i],
            n,
        ) by {
            let y = page * 8 + n;
            assert(y / 8 == page && y % 8 == n);
            assert(on_display(x, y));
            assert(a.pixel(x, y) == b.pixel(x, y));
        }
        lemma_byte_from_bits(a.0@[i], b.0@[i]);
    }
    assert(a.0@ =~= b.0@);
}

/// One byte on the panel's SPI bus.
#[derive(Clone, Copy, Debug, PartialEq, Eq, Structural)]
pub enum Transfer {
    /// A command opcode or argument byte, sent with `D/C` low.
    Command(u8),
    /// A pixel byte for the panel memory, sent with `D/C` high.
    Data(u8),
}

/// Transfers that set the page and column address before a page's pixels.
pub const PAGE_HEADER: usize = 3;

/// Transfers per page: the address header, then `WIDTH` pixel bytes.
pub const PAGE_TRANSFERS: usize = PAGE_HEADER + WIDTH;

/// Transfers per full frame.
#[verifier::nonlinear]
pub const FRAME_TRANSFERS: usize = PAGES * PAGE_TRANSFERS;

/// Transfer `j` of the given page: set the page address and column 0, then
/// stream the page's pixel bytes left to right.
pub open spec fn page_transfer(frame: Seq<u8>, page: int, j: int) -> Transfer {
    if j == 0 {
        Transfer::Command((0xB0 + page) as u8)
    } else if j == 1 {
        Transfer::Command(0x00)
    } else if j == 2 {
        Transfer::Command(0x10)
    } else {
        Transfer::Data(frame[page * WIDTH + (j - PAGE_HEADER)])
    }
}

/// Everything that is sent to show `frame`, page by page.
pub open spec fn frame_transfers(frame: Seq<u8>) -> Seq<Transfer> {
    Seq::new(
        FRAME_TRANSFERS as nat,
        |k: int| page_transfer(frame, k / (PAGE_TRANSFERS as int), k % (PAGE_TRANSFERS as int)),
    )
}

/// A frame on its way to the panel.
///
/// The transfers are handed out one at a time; the caller performs each and
/// reports how it went.
pub struct Show<'a> {
    fb: &'a FrameBuffer,
    next: usize,
}

/// What to do next while a frame is being shown.
pub enum ShowStep<'a, E> {
    /// Perform `transfer`, then report its outcome to `rest`.
    Send { transfer: Transfer, rest: Show<'a> },
    /// Nothing more is to be sent: the frame is out, or a transfer failed.
    Done(Result<(), E>),
}

/// Whether `step` is what follows in `show` when the transfer before went as
/// `last` says: the next transfer of the frame, or, when all are out, success;
/// after a failed transfer, its error.
pub open spec fn is_show_step<E>(show: Show, last: Result<(), E>, step: ShowStep<E>) -> bool {
    match last {
        Err(e) => step == ShowStep::<E>::Done(Err(e)),
        Ok(_) => if show.sent() < FRAME_TRANSFERS {
            &&& step matches ShowStep::Send { transfer, rest }
            &&& transfer == frame_transfers(show.frame())[show.sent()]
            &&& rest.frame() == show.frame()
            &&& rest.sent() == show.sent() + 1
        } else {
            step == ShowStep::<E>::Done(Ok(()))
        },
    }
}

impl<'a> Show<'a> {
    /// The packed frame being shown.
    pub closed spec fn frame(self) -> Seq<u8> {
        self.fb.0@
    }

    /// Number of transfers handed out so far.
    pub closed spec fn sent(self) -> int {
        self.next as int
    }

    /// The next transfer of the frame, given the outcome of the one before
    /// (`Ok` on the first call). The first failed transfer ends the frame.
    pub fn step<E>(self, last: Result<(), E>) -> (step: ShowStep<'a, E>)
        ensures
            is_show_step(self, last, step),
    {
        match last {
            Err(e) => ShowStep::Done(Err(e)),
            Ok(_) => {
                if self.next < FRAME_TRANSFERS {
                    let page: usize = self.next / PAGE_TRANSFERS;
                    let j: usize = self.next % PAGE_TRANSFERS;
                    let transfer: Transfer = if j < PAGE_HEADER {
                        Transfer::Command(address_command(page as u8, j))
                    } else {
                        Transfer::Data(self.fb.0[page * WIDTH + (j - PAGE_HEADER)])
                    };
                    ShowStep::Send { transfer, rest: Show { fb: self.fb, next: self.next + 1 } }
                } else {
                    ShowStep::Done(Ok(()))
                }
            },
        }
    }
}

/// Byte `j` of a page's address header.
fn address_command(page: u8, j: usize) -> (byte: u8)
    requires
        page < PAGES,
        j < PAGE_HEADER,
    ensures
        forall|frame: Seq<u8>|
            Transfer::Command(byte) == #[trigger] page_transfer(frame, page as int, j as int),
{
    assert(0xB0u8 | page == 0xB0 + page) by (bit_vector)
        requires
            page < 8u8,
    ;
    if j == 0 {
        0xB0 | page  // set page address
    } else if j == 1 {
        0x00  // lower column = 0
    } else {
        0x10  // upper column = 0
    }
}

/// How many lines the SPI interface uses.
#[derive(Clone, Copy, Debug, PartialEq, Eq, Structural)]
pub enum LineMode {
    /// `CS`, `CLK` and `DAT`; the command/data distinction is a ninth bit.
    ThreeLine,
    /// `CS`, `CLK`, `DAT` and a `D/C` line.
    FourLine,
}

/// Settings of the display controller that drives the panel.
#[derive(Clone, Copy, Debug, PartialEq, Eq, Structural)]
pub struct LcdcSettings {
    /// Width in pixels.
    pub width: u16,
    /// Height in pixels.
    pub height: u16,
    /// How long `RES` is held low during the hardware reset pulse.
    pub reset_lcd_interval_us: u32,
    /// Whether the data cache is cleaned before a transfer.
    pub dcache_clean: bool,
    /// The SPI lines in use.
    pub line_mode: LineMode,
    /// SPI clock divider: SPI clock = controller source clock / divider.
    pub spi_clk_div: u8,
}

/// Length of the panel initialisation sequence.
pub const INIT_LEN: usize = 26;

/// The SSD1312 panel initialisation sequence for a 128x64 panel:
///
/// - contrast `0x7F`
/// - no segment remap (`0xA0`), no COM reversal (`0xC0`)
/// - COM pin config `0x12`
/// - charge pump enabled (`0x8D 0x12`)
/// - normal (non-inverted) display (`0xA6`)
///
/// Every byte is a command-stream byte (sent with `D/C` low), including the
/// argument bytes.
pub open spec fn init_bytes() -> Seq<u8> {
    seq![
        0xAEu8,  // display off
        0xD5, 0x80,  // display clock divide ratio / oscillator frequency
        0xA8, 0x3F,  // multiplex ratio = height - 1 = 63
        0xAD, 0x40,  // IREF selection: external
        0xD3, 0x00,  // display offset = 0
        0x40,  // display start line = 0
        0x8D, 0x12,  // charge pump: enabled
        0x20, 0x02,  // memory addressing mode = page
        0xA0,  // segment remap: off
        0xC0,  // COM output scan direction: normal
        0xDA, 0x12,  // COM pins hardware configuration
        0x81, 0x7F,  // contrast
        0xD9, 0xF1,  // pre-charge period
        0xDB, 0x40,  // VCOMH deselect level
        0xA6,  // normal (non-inverted) display
        0xA4,  // resume display from memory content
    ]
}

/// The panel initialisation sequence.
pub fn init_sequence() -> (bytes: [u8; INIT_LEN])
    ensures
        bytes@ == init_bytes(),
{
    let bytes: [u8; INIT_LEN] = [
        0xAE, 0xD5, 0x80, 0xA8, 0x3F, 0xAD, 0x40, 0xD3, 0x00, 0x40, 0x8D, 0x12, 0x20, 0x02, 0xA0,
        0xC0, 0xDA, 0x12, 0x81, 0x7F, 0xD9, 0xF1, 0xDB, 0x40, 0xA6, 0xA4,
    ];
    assert(bytes@ =~= init_bytes());
    bytes
}

/// Settling time after the reset line is released.
pub const RESET_SETTLE_MS: u64 = 10;

/// Command that turns the display on.
pub const DISPLAY_ON: u8 = 0xAF;

/// One action of the panel start-up.
#[derive(Clone, Copy, Debug, PartialEq, Eq, Structural)]
pub enum StartupAction {
    /// Pulse the reset line.
    ResetLcd,
    /// Wait for the given number of milliseconds.
    DelayMs(u64),
    /// Send one byte to the panel.
    Send(Transfer),
}

/// Index of the first transfer of the blank frame within the start-up.
pub const STARTUP_FRAME: usize = 2 + INIT_LEN;

/// Index of the display-on command within the start-up.
pub const STARTUP_ON: usize = STARTUP_FRAME + FRAME_TRANSFERS;

/// Number of actions in a start-up without failures.
pub const STARTUP_LEN: usize = STARTUP_ON + 1;

/// The whole start-up: pulse reset, let the panel settle, run the initialisation
/// sequence, clear the panel memory (undefined after reset), turn the display on.
pub open spec fn startup_actions() -> Seq<StartupAction> {
    Seq::new(
        STARTUP_LEN as nat,
        |k: int|
            if k == 0 {
                StartupAction::ResetLcd
            } else if k == 1 {
                StartupAction::DelayMs(RESET_SETTLE_MS)
            } else if k < STARTUP_FRAME {
                StartupAction::Send(Transfer::Command(init_bytes()[k - 2]))
            } else if k < STARTUP_ON {
                StartupAction::Send(frame_transfers(blank_frame())[k - STARTUP_FRAME])
            } else {
                StartupAction::Send(Transfer::Command(DISPLAY_ON))
            },
    )
}

/// The action that follows when `done` actions have been handed out and the last
/// of them went well (`ok`) or not.
///
/// A failure while the blank frame is being sent skips the rest of that frame;
/// every other failure is ignored.
pub open spec fn startup_next(done: int, ok: bool) -> int {
    if !ok && STARTUP_FRAME < done <= STARTUP_ON {
        STARTUP_ON as int
    } else {
        done
    }
}

/// A started SSD1312 panel, driven in 4-wire SPI mode.
pub struct Oled {
    settings: LcdcSettings,
}

/// A panel that is being started.
pub struct Startup {
    oled: Oled,
    next: usize,
}

/// What to do next while a panel is being started.
pub enum StartupStep {
    /// Perform `action`, then report to `rest` whether it went well.
    Perform { action: StartupAction, rest: Startup },
    /// The panel is started.
    Ready(Oled),
}

impl Startup {
    /// Number of actions handed out or skipped so far.
    pub closed spec fn done(self) -> int {
        self.next as int
    }

    /// The panel that will be ready.
    pub closed spec fn panel(self) -> Oled {
        self.oled
    }

    /// The settings with which the display controller is to be created.
    pub fn settings(&self) -> (settings: LcdcSettings)
        ensures
            settings == self.panel().lcdc_settings(),
    {
        self.oled.settings
    }

    /// The next action of the start-up. `ok` says whether the action before went
    /// well (`true` on the first call).
    pub fn step(self, ok: bool) -> (step: StartupStep)
        ensures
            ({
                let k = startup_next(self.done(), ok);
                if k < STARTUP_LEN {
                    &&& step matches StartupStep::Perform { action, rest }
                    &&& action == startup_actions()[k]
                    &&& rest.done() == k + 1
                    &&& rest.panel() == self.panel()
                } else {
                    step == StartupStep::Ready(self.panel())
                }
            }),
    {
        let k: usize = if !ok && STARTUP_FRAME < self.next && self.next <= STARTUP_ON {
            STARTUP_ON
        } else {
            self.next
        };
        if k >= STARTUP_LEN {
            return StartupStep::Ready(self.oled);
        }
        let action: StartupAction = if k == 0 {
            StartupAction::ResetLcd
        } else if k == 1 {
            StartupAction::DelayMs(RESET_SETTLE_MS)
        } else if k < STARTUP_FRAME {
            let init: [u8; INIT_LEN] = init_sequence();
            StartupAction::Send(Transfer::Command(init[k - 2]))
        } else if k < STARTUP_ON {
            StartupAction::Send(blank_transfer(k - STARTUP_FRAME))
        } else {
            StartupAction::Send(Transfer::Command(DISPLAY_ON))
        };
        StartupStep::Perform { action, rest: Startup { oled: self.oled, next: k + 1 } }
    }
}

/// Transfer `k` of the blank frame.
fn blank_transfer(k: usize) -> (transfer: Transfer)
    requires
        k < FRAME_TRANSFERS,
    ensures
        transfer == frame_transfers(blank_frame())[k as int],
{
    let page: usize = k / PAGE_TRANSFERS;
    let j: usize = k % PAGE_TRANSFERS;
    if j < PAGE_HEADER {
        Transfer::Command(address_command(page as u8, j))
    } else {
        Transfer::Data(0x00)
    }
}

impl Oled {
    /// The settings that the display controller was created with.
    pub closed spec fn lcdc_settings(self) -> LcdcSettings {
        self.settings
    }

    /// Start the display.
    ///
    /// The display controller is to be created with the settings given; running
    /// the start-up to its end leaves the display on and cleared.
    pub fn new() -> (startup: Startup)
        ensures
            startup.done() == 0,
            startup.panel().lcdc_settings() == (LcdcSettings {
                width: WIDTH as u16,
                height: HEIGHT as u16,
                reset_lcd_interval_us: 10_000,
                dcache_clean: true,
                line_mode: LineMode::FourLine,
                spi_clk_div: 4,
            }),
    {
        Startup {
            oled: Oled {
                settings: LcdcSettings {
                    width: WIDTH as u16,
                    height: HEIGHT as u16,
                    reset_lcd_interval_us: 10_000,
                    dcache_clean: true,
                    line_mode: LineMode::FourLine,
                    spi_clk_div: 4,
                },
            },
            next: 0,
        }
    }

    /// Push a full 128x64 framebuffer to the display, page by page.
    pub fn show<'a>(&self, fb: &'a FrameBuffer) -> (show: Show<'a>)
        ensures
            show.frame() == fb.0@,
            show.sent() == 0,
    {
        Show { fb, next: 0 }
    }
}

/// Whether `states` are the points met while `steps`, all transfers that went
/// well, were taken from the first of them.
pub open spec fn is_show_run<E>(states: Seq<Show>, steps: Seq<ShowStep<E>>) -> bool {
    &&& states.len() == steps.len() + 1
    &&& forall|i: int|
        #![trigger steps[i]]
        0 <= i < steps.len() ==> {
            &&& is_show_step(states[i], Ok::<(), E>(()), steps[i])
            &&& steps[i] matches ShowStep::Send { rest, .. }
            &&& rest == states[i + 1]
        }
}

/// A frame goes out in order, each transfer once; showing succeeds exactly when
/// all of it is out, and fails with the error of the first failed transfer.
pub proof fn law_frame_goes_out_in_order<E>(
    states: Seq<Show>,
    steps: Seq<ShowStep<E>>,
    last: Result<(), E>,
    step: ShowStep<E>,
)
    requires
        is_show_run(states, steps),
        states[0].sent() == 0,
        is_show_step(states.last(), last, step),
    ensures
        steps.len() <= FRAME_TRANSFERS,
        forall|i: int|
            0 <= i < steps.len() ==> {
                &&& #[trigger] steps[i] matches ShowStep::Send { transfer, .. }
                &&& transfer == frame_transfers(states[0].frame())[i]
            },
        step == ShowStep::<E>::Done(Ok(())) <==> last is Ok && steps.len() == FRAME_TRANSFERS,
        step matches ShowStep::Done(Err(e)) ==> last == Err::<(), E>(e),
        last matches Err(e) ==> step == ShowStep::<E>::Done(Err(e)),
        last is Ok && steps.len() < 1048 ==> {
            &&& step matches ShowStep::Send { transfer, .. }
            &&& transfer == frame_transfers(states[0].frame())[steps.len() as int]
        },
        steps.len() <= 1048,
{
    lemma_show_prefix(states, steps, steps.len());
    assert forall|i: int| 0 <= i < steps.len() implies {
        &&& #[trigger] steps[i] matches ShowStep::Send { transfer, .. }
        &&& transfer == frame_transfers(states[0].frame())[i]
    } by {
        lemma_show_prefix(states, steps, i as nat);
    }
}

proof fn lemma_show_prefix<E>(states: Seq<Show>, steps: Seq<ShowStep<E>>, n: nat)
    requires
        is_show_run(states, steps),
        states[0].sent() == 0,
        n <= steps.len(),
    ensures
        n <= FRAME_TRANSFERS,
        states[n as int].sent() == n,
        states[n as int].frame() == states[0].frame(),
    decreases n,
{
    if n > 0 {
        lemma_show_prefix(states, steps, (n - 1) as nat);
        assert(is_show_step(states[n - 1], Ok::<(), E>(()), steps[n - 1]));
    }
}

proof fn lemma_bit_is_quotient(byte: u8, n: int)
    requires
        0 <= n < 8,
    ensures
        bit(byte, n) == (byte as int / vstd::arithmetic::power2::pow2(n as nat) as int % 2 == 1),
{
    let k = n as u8;
    vstd::bits::lemma_u8_shr_is_div(byte, k);
    let shifted = byte >> k;
    assert(shifted & 1u8 == shifted % 2) by (bit_vector);
}

/// The layout of a frame in numbers: the pixel at `(x, y)` is binary digit `y % 8`,
/// the lowest being the topmost, of byte `(y / 8) * 128 + x`.
pub proof fn law_pixel_is_binary_digit(fb: FrameBuffer, x: int, y: int)
    requires
        0 <= x < 128,
        0 <= y < 64,
    ensures
        fb.0@.len() == 1024,
        fb.pixel(x, y) == (fb.0@[(y / 8) * 128 + x] as int
            / vstd::arithmetic::power2::pow2((y % 8) as nat) as int % 2 == 1),
{
    lemma_bit_is_quotient(fb.0@[(y / 8) * 128 + x], y % 8);
}

/// Setting a pixel in numbers: the one byte that holds it grows or shrinks by the
/// weight of its binary digit, or stays when the pixel had the value already; no
/// other byte changes.
pub proof fn law_set_pixel_moves_one_digit(
    before: FrameBuffer,
    after: FrameBuffer,
    x: int,
    y: int,
    on: bool,
)
    requires
        before.pixel_set(after, x, y, on),
        0 <= x < 128,
        0 <= y < 64,
    ensures
        forall|i: int|
            0 <= i < 1024 && i != (y / 8) * 128 + x ==> #[trigger] after.0@[i] == before.0@[i],
        after.0@[(y / 8) * 128 + x] - before.0@[(y / 8) * 128 + x] == ((if on {
            1int
        } else {
            0
        }) - before.0@[(y / 8) * 128 + x] as int / vstd::arithmetic::power2::pow2(
            (y % 8) as nat,
        ) as int % 2) * vstd::arithmetic::power2::pow2((y % 8) as nat) as int,
{
    let idx = (y / 8) * 128 + x;
    assert(on_display(x, y));
    assert forall|i: int| 0 <= i < 1024 && i != idx implies #[trigger] after.0@[i]
        == before.0@[i] by {
        let u = i % 128;
        let page = i / 128;
        assert forall|n: int| 0 <= n < 8 implies #[trigger] bit(after.0@[i], n) == bit(
            before.0@[i],
            n,
        ) by {
            let v = page * 8 + n;
            assert(v / 8 == page && v % 8 == n);
            assert(on_display(u, v) && !(u == x && v == y));
            assert(after.pixel(u, v) == before.pixel(u, v));
        }
        lemma_byte_from_bits(after.0@[i], before.0@[i]);
    }
    let old_byte = before.0@[idx];
    let k = (y % 8) as u8;
    let new_byte: u8 = if on {
        old_byte | (1u8 << k)
    } else {
        old_byte & !(1u8 << k)
    };
    assert forall|n: int| 0 <= n < 8 implies #[trigger] bit(after.0@[idx], n) == bit(
        new_byte,
        n,
    ) by {
        lemma_set_bit(old_byte, k, n as u8);
        let v = (y / 8) * 8 + n;
        assert(v / 8 == y / 8 && v % 8 == n);
        assert(on_display(x, v));
        if v != y {
            assert(after.pixel(x, v) == before.pixel(x, v));
        } else {
            assert(after.pixel(x, y) == on);
        }
    }
    lemma_byte_from_bits(after.0@[idx], new_byte);
    lemma_bit_is_quotient(old_byte, y % 8);
    vstd::arithmetic::power2::lemma2_to64();
    assert((1u8 << k) == vstd::arithmetic::power2::pow2(k as nat)) by {
        assert(k < 8);
        assert(1u8 << 0u8 == 1 && 1u8 << 1u8 == 2 && 1u8 << 2u8 == 4 && 1u8 << 3u8 == 8 && 1u8
            << 4u8 == 16 && 1u8 << 5u8 == 32 && 1u8 << 6u8 == 64 && 1u8 << 7u8 == 128)
            by (bit_vector);
    }
    assert((old_byte | (1u8 << k)) == (if (old_byte >> k) & 1u8 == 1u8 {
        old_byte as int
    } else {
        old_byte + (1u8 << k)
    })) by (bit_vector)
        requires
            k < 8,
    ;
    assert((old_byte & !(1u8 << k)) == (if (old_byte >> k) & 1u8 == 1u8 {
        old_byte - (1u8 << k)
    } else {
        old_byte as int
    })) by (bit_vector)
        requires
            k < 8,
    ;
    let was = old_byte as int / vstd::arithmetic::power2::pow2((y % 8) as nat) as int % 2;
    let weight = vstd::arithmetic::power2::pow2((y % 8) as nat) as int;
    assert(was == 0 || was == 1);
    assert(0 * weight == 0 && 1 * weight == weight && (-1) * weight == -weight)
        by (nonlinear_arith);
}

/// Setting a pixel outside the display changes no byte.
pub proof fn law_outside_pixel_changes_nothing(
    before: FrameBuffer,
    after: FrameBuffer,
    x: int,
    y: int,
    on: bool,
)
    requires
        before.pixel_set(after, x, y, on),
        x >= 128 || y >= 64,
    ensures
        after.0@ == before.0@,
{
}

/// The stream of a frame: page after page a header of three command bytes, which
/// select the page and column 0, and the page's 128 bytes as data.
pub proof fn law_frame_stream_layout(frame: Seq<u8>, page: int, column: int)
    requires
        0 <= page < 8,
        0 <= column < 128,
    ensures
        frame_transfers(frame).len() == 1048,
        frame_transfers(frame)[page * 131] == Transfer::Command((176 + page) as u8),
        frame_transfers(frame)[page * 131 + 1] == Transfer::Command(0),
        frame_transfers(frame)[page * 131 + 2] == Transfer::Command(16),
        frame_transfers(frame)[page * 131 + 3 + column] == Transfer::Data(
            frame[page * 128 + column],
        ),
{
    assert(PAGE_TRANSFERS == 131 && PAGE_HEADER == 3 && FRAME_TRANSFERS == 1048);
    assert((page * 131) / 131 == page && (page * 131) % 131 == 0);
    assert((page * 131 + 1) / 131 == page && (page * 131 + 1) % 131 == 1);
    assert((page * 131 + 2) / 131 == page && (page * 131 + 2) % 131 == 2);
    assert((page * 131 + 3 + column) / 131 == page && (page * 131 + 3 + column) % 131 == 3
        + column);
}

} // verus!
