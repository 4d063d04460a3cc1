//! What the panel makes of the bytes it receives.
//!
//! [`Panel`] models the part of the SSD1312 that the driver relies on: the
//! display switch, the page and column address, and the page-addressed memory.
//! The laws here say what a frame and a start-up leave on the panel.

use crate::oled::FRAME_SIZE;
use crate::oled::FRAME_TRANSFERS;
use crate::oled::INIT_LEN;
use crate::oled::PAGES;
use crate::oled::PAGE_HEADER;
use crate::oled::PAGE_TRANSFERS;
use crate::oled::STARTUP_FRAME;
use crate::oled::STARTUP_LEN;
use crate::oled::STARTUP_ON;
use crate::oled::StartupAction;
use crate::oled::Transfer;
use crate::oled::WIDTH;
use vstd::prelude::*;

verus! {

/// The state of the panel.
pub struct Panel {
    /// Whether the display is switched on.
    pub on: bool,
    /// Whether the next command byte is the argument of the one before.
    pub awaits_argument: bool,
    /// The page that the next pixel byte goes to.
    pub page: int,
    /// The column that the next pixel byte goes to.
    pub column: int,
    /// The memory, by page and column.
    pub ram: Map<(int, int), u8>,
}

/// Whether the opcode is followed by one argument byte.
pub open spec fn takes_argument(opcode: u8) -> bool {
    ||| opcode == 0xD5
    ||| opcode == 0xA8
    ||| opcode == 0xAD
    ||| opcode == 0xD3
    ||| opcode == 0x8D
    ||| opcode == 0x20
    ||| opcode == 0xDA
    ||| opcode == 0x81
    ||| opcode == 0xD9
    ||| opcode == 0xDB
}

impl Panel {
    /// Whether the memory holds a lit pixel at `(x, y)`.
    pub open spec fn lit(self, x: int, y: int) -> bool {
        crate::oled::bit(self.ram[(y / 8, x)], y % 8)
    }

    /// The panel after one command byte.
    pub open spec fn command(self, byte: u8) -> Panel {
        if self.awaits_argument {
            Panel { awaits_argument: false, ..self }
        } else if takes_argument(byte) {
            Panel { awaits_argument: true, ..self }
        } else if byte == 0xAE {
            Panel { on: false, ..self }
        } else if byte == 0xAF {
            Panel { on: true, ..self }
        } else if 0xB0 <= byte < 0xB0 + PAGES {
            Panel { page: byte - 0xB0, ..self }
        } else if byte < 0x10 {
            Panel { column: (self.column / 16) * 16 + byte, ..self }
        } else if byte < 0x20 {
            Panel { column: (byte - 0x10) * 16 + self.column % 16, ..self }
        } else {
            self
        }
    }

    /// The panel after one pixel byte: it is stored, and the column moves on.
    pub open spec fn data(self, byte: u8) -> Panel {
        Panel {
            ram: self.ram.insert((self.page, self.column), byte),
            column: (self.column + 1) % (WIDTH as int),
            ..self
        }
    }

    /// The panel after one transfer.
    pub open spec fn apply(self, transfer: Transfer) -> Panel {
        match transfer {
            Transfer::Command(byte) => self.command(byte),
            Transfer::Data(byte) => self.data(byte),
        }
    }

    /// The panel after the first `n` of the given transfers.
    pub open spec fn receive(self, transfers: Seq<Transfer>, n: nat) -> Panel
        decreases n,
    {
        if n == 0 {
            self
        } else {
            self.receive(transfers, (n - 1) as nat).apply(transfers[n - 1])
        }
    }
}

/// After the first `k` transfers of a frame: the pages already sent and the sent
/// part of the current page are in memory.
proof fn lemma_frame_prefix(panel: Panel, frame: Seq<u8>, k: nat)
    requires
        !panel.awaits_argument,
        k <= FRAME_TRANSFERS,
    ensures
        ({
            let p = panel.receive(crate::oled::frame_transfers(frame), k);
            let page = k as int / (PAGE_TRANSFERS as int);
            let j = k as int % (PAGE_TRANSFERS as int);
            &&& !p.awaits_argument
            &&& p.on == panel.on
            &&& j >= 1 ==> p.page == page
            &&& j == 2 ==> p.column % 16 == 0
            &&& j >= 3 ==> p.column == j - PAGE_HEADER
            &&& forall|q: int, c: int|
                0 <= q && 0 <= c < WIDTH && (q < page || (q == page && c < j - PAGE_HEADER)) ==> (
                #[trigger] p.ram[(q, c)]) == frame[q * WIDTH + c]
            &&& forall|q: int, c: int|
                !(0 <= q < PAGES && 0 <= c < WIDTH) ==> (#[trigger] p.ram[(q, c)])
                    == panel.ram[(q, c)]
        }),
    decreases k,
{
    if k > 0 {
        lemma_frame_prefix(panel, frame, (k - 1) as nat);
        let before = panel.receive(crate::oled::frame_transfers(frame), (k - 1) as nat);
        let page = (k - 1) / (PAGE_TRANSFERS as int);
        let j = (k - 1) % (PAGE_TRANSFERS as int);
        let transfer = crate::oled::page_transfer(frame, page, j);
        assert(crate::oled::frame_transfers(frame)[k - 1] == transfer);
        let after = before.apply(transfer);
        assert(after == panel.receive(crate::oled::frame_transfers(frame), k));
        assert(0 <= page < PAGES);
        if j == 0 {
            assert(after == before.command((0xB0 + page) as u8));
            assert(after.page == page);
        } else if j == 1 {
            assert(after == before.command(0x00));
        } else if j == 2 {
            assert(after == before.command(0x10));
        } else {
            assert(after == before.data(frame[page * WIDTH + (j - PAGE_HEADER)]));
        }
    }
}

/// Showing a frame puts exactly its picture on the panel, wherever the panel's
/// address was before, and leaves the display switch alone.
pub proof fn law_show_displays_frame(panel: Panel, frame: Seq<u8>)
    requires
        !panel.awaits_argument,
        frame.len() == FRAME_SIZE,
    ensures
        ({
            let shown = panel.receive(
                crate::oled::frame_transfers(frame),
                crate::oled::frame_transfers(frame).len(),
            );
            &&& shown.on == panel.on
            &&& !shown.awaits_argument
            &&& forall|x: int, y: int|
                crate::oled::on_display(x, y) ==> #[trigger] shown.lit(x, y)
                    == crate::oled::frame_pixel(frame, x, y)
            &&& forall|page: int, column: int|
                0 <= page < 8 && 0 <= column < 128 ==> (#[trigger] shown.ram[(page, column)])
                    == frame[page * 128 + column]
        }),
{
    let n = FRAME_TRANSFERS as nat;
    lemma_frame_prefix(panel, frame, n);
    let shown = panel.receive(crate::oled::frame_transfers(frame), n);
    assert forall|x: int, y: int| crate::oled::on_display(x, y) implies #[trigger] shown.lit(x, y)
        == crate::oled::frame_pixel(frame, x, y) by {
        assert(shown.ram[(y / 8, x)] == frame[(y / 8) * WIDTH + x]);
    }
}

/// The bytes that a start-up without failures sends to the panel.
pub open spec fn startup_transfers() -> Seq<Transfer> {
    Seq::new(
        (STARTUP_LEN - 2) as nat,
        |k: int| crate::oled::startup_actions()[k + 2]->Send_0,
    )
}

/// Whether the panel awaits an argument after `k` bytes of the initialisation
/// sequence.
spec fn init_awaits(k: int) -> bool {
    ||| k == 2 || k == 4 || k == 6 || k == 8
    ||| k == 11 || k == 13
    ||| k == 17 || k == 19 || k == 21 || k == 23
}

proof fn lemma_init_prefix(panel: Panel, k: nat)
    requires
        !panel.awaits_argument,
        k <= INIT_LEN,
    ensures
        panel.receive(startup_transfers(), k).awaits_argument == init_awaits(k as int),
    decreases k,
{
    if k > 0 {
        lemma_init_prefix(panel, (k - 1) as nat);
        assert(startup_transfers()[k - 1] == Transfer::Command(crate::oled::init_bytes()[k - 1]));
    }
}

proof fn lemma_receive_after(panel: Panel, all: Seq<Transfer>, start: nat, part: Seq<Transfer>, n: nat)
    requires
        start + n <= all.len(),
        n <= part.len(),
        forall|i: int| 0 <= i < n ==> #[trigger] part[i] == all[start + i],
    ensures
        panel.receive(all, start + n) == panel.receive(all, start).receive(part, n),
    decreases n,
{
    if n > 0 {
        lemma_receive_after(panel, all, start, part, (n - 1) as nat);
        assert(part[n - 1] == all[start + (n - 1)]);
    }
}

/// A start-up without failures leaves the display on and cleared.
pub proof fn law_startup_leaves_panel_on_and_cleared(panel: Panel)
    requires
        !panel.awaits_argument,
    ensures
        ({
            let started = panel.receive(startup_transfers(), startup_transfers().len());
            &&& started.on
            &&& !started.awaits_argument
            &&& forall|x: int, y: int|
                crate::oled::on_display(x, y) ==> !#[trigger] started.lit(x, y)
        }),
{
    let all = startup_transfers();
    let frame = crate::oled::blank_frame();
    let init = panel.receive(all, INIT_LEN as nat);
    lemma_init_prefix(panel, INIT_LEN as nat);
    assert forall|i: int| 0 <= i < FRAME_TRANSFERS implies (
    #[trigger] crate::oled::frame_transfers(frame)[i]) == all[INIT_LEN + i] by {
        assert(all[INIT_LEN + i] == crate::oled::startup_actions()[STARTUP_FRAME + i]->Send_0);
    }
    lemma_receive_after(
        panel,
        all,
        INIT_LEN as nat,
        crate::oled::frame_transfers(frame),
        FRAME_TRANSFERS as nat,
    );
    law_show_displays_frame(init, frame);
    let cleared = panel.receive(all, (INIT_LEN + FRAME_TRANSFERS) as nat);
    assert(all[INIT_LEN + FRAME_TRANSFERS] == Transfer::Command(0xAF)) by {
        assert(crate::oled::startup_actions()[STARTUP_ON as int] == StartupAction::Send(
            Transfer::Command(0xAF),
        ));
    }
    let started = panel.receive(all, all.len());
    assert(started == cleared.command(0xAF));
    assert forall|x: int, y: int| crate::oled::on_display(x, y) implies !#[trigger] started.lit(
        x,
        y,
    ) by {
        assert(cleared.lit(x, y) == crate::oled::frame_pixel(frame, x, y));
        let n = (y % 8) as u8;
        assert((0x00u8 >> n) & 1u8 == 0u8) by (bit_vector);
    }
}

/// The index of the `n`th action that a start-up performs, when action `i` of those
/// performed goes well just if `oks[i]`.
pub open spec fn startup_index(oks: Seq<bool>, n: nat) -> int
    decreases n,
{
    if n == 0 {
        crate::oled::startup_next(0, true)
    } else {
        crate::oled::startup_next(startup_index(oks, (n - 1) as nat) + 1, oks[n - 1])
    }
}

/// Whatever fails, a start-up turns the display on as its last action: `n` is when.
pub proof fn law_startup_always_turns_display_on(oks: Seq<bool>) -> (n: nat)
    ensures
        n <= STARTUP_ON,
        startup_index(oks, n) == STARTUP_ON,
        crate::oled::startup_actions()[startup_index(oks, n)] == StartupAction::Send(
            Transfer::Command(crate::oled::DISPLAY_ON),
        ),
        crate::oled::startup_next(startup_index(oks, n) + 1, oks[n as int]) == STARTUP_LEN,
{
    lemma_startup_reaches_on(oks, 0)
}

proof fn lemma_startup_reaches_on(oks: Seq<bool>, k: nat) -> (n: nat)
    requires
        k <= startup_index(oks, k) <= STARTUP_ON,
    ensures
        k <= n <= STARTUP_ON,
        startup_index(oks, n) == STARTUP_ON,
    decreases STARTUP_ON - startup_index(oks, k),
{
    if startup_index(oks, k) == STARTUP_ON {
        k
    } else {
        lemma_startup_reaches_on(oks, k + 1)
    }
}

/// Whatever fails, a start-up begins with the reset, the settling time and the
/// whole initialisation sequence.
pub proof fn law_startup_always_initialises(oks: Seq<bool>, n: nat)
    requires
        n <= STARTUP_FRAME,
    ensures
        startup_index(oks, n) == n,
    decreases n,
{
    if n > 0 {
        law_startup_always_initialises(oks, (n - 1) as nat);
    }
}

/// Only pixel bytes go out with `D/C` high: all but the blank frame's pixel bytes
/// of a start-up are commands.
pub proof fn law_startup_init_is_all_commands(k: int)
    requires
        0 <= k < STARTUP_LEN,
        crate::oled::startup_actions()[k] matches StartupAction::Send(Transfer::Data(_)),
    ensures
        STARTUP_FRAME <= k < STARTUP_ON,
{
}

/// A start-up in numbers: reset, 10 ms, 26 initialisation bytes, the 1048 transfers
/// of a frame whose every data byte is zero, and the display-on command.
pub proof fn law_startup_layout(k: int)
    requires
        0 <= k < 1077,
    ensures
        crate::oled::startup_actions().len() == 1077,
        k == 0 ==> crate::oled::startup_actions()[k] == StartupAction::ResetLcd,
        k == 1 ==> crate::oled::startup_actions()[k] == StartupAction::DelayMs(10),
        2 <= k < 28 ==> crate::oled::startup_actions()[k] == StartupAction::Send(
            Transfer::Command(crate::oled::init_bytes()[k - 2]),
        ),
        28 <= k < 1076 && (k - 28) % 131 == 0 ==> crate::oled::startup_actions()[k]
            == StartupAction::Send(Transfer::Command((176 + (k - 28) / 131) as u8)),
        28 <= k < 1076 && (k - 28) % 131 == 1 ==> crate::oled::startup_actions()[k]
            == StartupAction::Send(Transfer::Command(0)),
        28 <= k < 1076 && (k - 28) % 131 == 2 ==> crate::oled::startup_actions()[k]
            == StartupAction::Send(Transfer::Command(16)),
        28 <= k < 1076 && (k - 28) % 131 >= 3 ==> crate::oled::startup_actions()[k]
            == StartupAction::Send(Transfer::Data(0)),
        k == 1076 ==> crate::oled::startup_actions()[k] == StartupAction::Send(
            Transfer::Command(175),
        ),
{
    assert(STARTUP_FRAME == 28 && STARTUP_ON == 1076 && STARTUP_LEN == 1077);
    assert(PAGE_TRANSFERS == 131);
}

/// What a failure does to a start-up: among the actions of the blank frame (28 up to
/// 1075) it leads straight to the display-on command; anywhere else, and after every
/// success, the next action follows.
pub proof fn law_startup_failure_leads_to_display_on(done: int, ok: bool)
    requires
        0 <= done,
    ensures
        !ok && 28 <= done - 1 <= 1075 ==> crate::oled::startup_next(done, ok) == 1076,
        ok || done - 1 < 28 || done - 1 > 1075 ==> crate::oled::startup_next(done, ok) == done,
{
    assert(STARTUP_FRAME == 28 && STARTUP_ON == 1076);
}

/// What a stream of bytes means to the panel, as far as a frame relies on it: the
/// page commands select pages, the column commands set the two halves of the column,
/// data bytes are stored and move the column on.
pub proof fn law_panel_addressing(panel: Panel, page: int, low: int, high: int, byte: u8)
    requires
        !panel.awaits_argument,
        0 <= page < 8,
        0 <= low < 16,
        0 <= high < 8,
    ensures
        ({
            let addressed = panel.apply(Transfer::Command((176 + page) as u8)).apply(
                Transfer::Command(low as u8),
            ).apply(Transfer::Command((16 + high) as u8));
            let written = addressed.apply(Transfer::Data(byte));
            &&& addressed.page == page
            &&& addressed.column == 16 * high + low
            &&& addressed.ram == panel.ram
            &&& addressed.on == panel.on
            &&& written.ram == panel.ram.insert((page, 16 * high + low), byte)
            &&& written.page == page
            &&& written.column == (16 * high + low + 1) % 128
        }),
{
}

} // verus!
