use touchbars::oled::{
    init_sequence, FrameBuffer, LineMode, Oled, Show, ShowStep, StartupAction, StartupStep, Transfer,
    WIDTH,
};

fn start() -> Oled {
    let mut startup = Oled::new();
    loop {
        match startup.step(true) {
            StartupStep::Perform { rest, .. } => startup = rest,
            StartupStep::Ready(oled) => return oled,
        }
    }
}

fn run_show(mut show: Show, fail_at: Option<usize>) -> (Vec<Transfer>, Result<(), u8>) {
    let mut sent = Vec::new();
    let mut last: Result<(), u8> = Ok(());
    loop {
        match show.step(last) {
            ShowStep::Send { transfer, rest } => {
                last = if fail_at == Some(sent.len()) { Err(5) } else { Ok(()) };
                sent.push(transfer);
                show = rest;
            }
            ShowStep::Done(result) => return (sent, result),
        }
    }
}

fn run_startup(fails: impl Fn(usize) -> bool) -> Vec<StartupAction> {
    let mut startup = Oled::new();
    let mut actions = Vec::new();
    let mut ok = true;
    loop {
        match startup.step(ok) {
            StartupStep::Perform { action, rest } => {
                ok = !fails(actions.len());
                actions.push(action);
                startup = rest;
            }
            StartupStep::Ready(_) => return actions,
        }
    }
}

/// A panel in page addressing mode.
struct Panel {
    page: usize,
    column: usize,
    ram: [u8; 1024],
}

impl Panel {
    fn apply(&mut self, t: Transfer) {
        match t {
            Transfer::Command(c) if (0xB0..=0xB7).contains(&c) => self.page = (c - 0xB0) as usize,
            Transfer::Command(c) if c < 0x10 => self.column = self.column & 0xF0 | c as usize,
            Transfer::Command(c) if c < 0x20 => {
                self.column = self.column & 0x0F | ((c - 0x10) as usize) << 4
            }
            Transfer::Command(_) => {}
            Transfer::Data(b) => {
                self.ram[self.page * WIDTH + self.column] = b;
                self.column = (self.column + 1) % WIDTH;
            }
        }
    }
}

#[test]
fn init_sequence_bytes() {
    assert_eq!(
        init_sequence(),
        [
            0xAE, 0xD5, 0x80, 0xA8, 0x3F, 0xAD, 0x40, 0xD3, 0x00, 0x40, 0x8D, 0x12, 0x20, 0x02,
            0xA0, 0xC0, 0xDA, 0x12, 0x81, 0x7F, 0xD9, 0xF1, 0xDB, 0x40, 0xA6, 0xA4,
        ]
    );
}

#[test]
fn settings_of_the_display_controller() {
    let settings = Oled::new().settings();
    assert_eq!(settings.width, 128);
    assert_eq!(settings.height, 64);
    assert_eq!(settings.reset_lcd_interval_us, 10_000);
    assert!(settings.dcache_clean);
    assert_eq!(settings.line_mode, LineMode::FourLine);
    assert_eq!(settings.spi_clk_div, 4);
}

#[test]
fn show_sends_pages_with_headers() {
    let mut fb = FrameBuffer::new();
    for (i, b) in fb.0.iter_mut().enumerate() {
        *b = (i * 31 % 251) as u8;
    }
    let (sent, result) = run_show(start().show(&fb), None);
    assert_eq!(result, Ok(()));
    assert_eq!(sent.len(), 8 * 131);
    for page in 0..8 {
        let part = &sent[page * 131..(page + 1) * 131];
        assert_eq!(part[0], Transfer::Command(0xB0 + page as u8));
        assert_eq!(part[1], Transfer::Command(0x00));
        assert_eq!(part[2], Transfer::Command(0x10));
        for x in 0..WIDTH {
            assert_eq!(part[3 + x], Transfer::Data(fb.0[page * WIDTH + x]));
        }
    }
    let mut panel = Panel { page: 3, column: 77, ram: [0xAA; 1024] };
    for t in sent {
        panel.apply(t);
    }
    assert!(panel.ram == fb.0);
}

#[test]
fn show_stops_at_first_failure() {
    let fb = FrameBuffer::new();
    let oled = start();
    for at in [0usize, 2, 3, 500, 1047] {
        let (sent, result) = run_show(oled.show(&fb), Some(at));
        assert_eq!(result, Err(5));
        assert_eq!(sent.len(), at + 1);
    }
}

#[test]
fn startup_without_failures() {
    let actions = run_startup(|_| false);
    assert_eq!(actions.len(), 2 + 26 + 1048 + 1);
    assert_eq!(actions[0], StartupAction::ResetLcd);
    assert_eq!(actions[1], StartupAction::DelayMs(10));
    for (k, b) in init_sequence().iter().enumerate() {
        assert_eq!(actions[2 + k], StartupAction::Send(Transfer::Command(*b)));
    }
    let mut panel = Panel { page: 0, column: 0, ram: [0xAA; 1024] };
    for action in &actions[28..1076] {
        match action {
            StartupAction::Send(t) => panel.apply(*t),
            _ => panic!("the blank frame is all transfers"),
        }
    }
    assert!(panel.ram.iter().all(|&b| b == 0));
    assert_eq!(actions[1076], StartupAction::Send(Transfer::Command(0xAF)));
}

#[test]
fn startup_ignores_failures_outside_the_blank_frame() {
    let all = run_startup(|_| false);
    let actions = run_startup(|k| k < 28 || k >= 1076);
    assert!(actions == all);
}

#[test]
fn startup_failure_in_the_blank_frame_skips_its_rest() {
    let all = run_startup(|_| false);
    for at in [28usize, 31, 700] {
        let actions = run_startup(|k| k == at);
        assert_eq!(actions.len(), at + 2);
        assert!(actions[..at + 1] == all[..at + 1]);
        assert_eq!(actions[at + 1], StartupAction::Send(Transfer::Command(0xAF)));
    }
    let actions = run_startup(|k| k == 1075);
    assert!(actions == all);
}
