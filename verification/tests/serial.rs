use touchbars::serial::{
    usart_init, usart_write_bytes, usart_write_hex, usart_write_str, usart_write_u32, Transmission,
    UsartAction, UsartStep,
};

const READY: u32 = 0xC0;

fn run(mut t: Transmission, mut port: impl FnMut(UsartAction) -> u32) -> Vec<UsartAction> {
    let mut actions = Vec::new();
    let mut word = 0;
    loop {
        match t.step(word) {
            UsartStep::Perform { action, rest } => {
                word = port(action);
                actions.push(action);
                t = rest;
            }
            UsartStep::Done => return actions,
        }
    }
}

fn bytes(t: Transmission) -> Vec<u8> {
    run(t, |_| READY)
        .iter()
        .filter_map(|a| match a {
            UsartAction::WriteTdr(w) => Some(*w as u8),
            _ => None,
        })
        .collect()
}

#[test]
fn init_words() {
    let setup = usart_init();
    assert_eq!(setup.brr, 0x30);
    let mut cr1 = sifli_pac::usart::regs::Cr1(0);
    cr1.set_m(sifli_pac::usart::vals::M::Bit8);
    cr1.set_ue(true);
    cr1.set_te(true);
    assert_eq!(setup.cr1, cr1.0);
    assert_eq!(setup.cr1, 0x1000_0009);
}

#[test]
fn ready_port_gets_lock_bytes_and_unlock() {
    let actions = run(usart_write_bytes(b"ok"), |_| READY);
    assert_eq!(
        actions,
        vec![
            UsartAction::ReadExr,
            UsartAction::ReadIsr,
            UsartAction::WriteTdr(b'o' as u32),
            UsartAction::ReadIsr,
            UsartAction::WriteTdr(b'k' as u32),
            UsartAction::ReadIsr,
            UsartAction::WriteExr(1),
        ]
    );
}

#[test]
fn empty_message_still_takes_and_gives_back_the_lock() {
    let actions = run(usart_write_bytes(b""), |_| READY);
    assert_eq!(
        actions,
        vec![UsartAction::ReadExr, UsartAction::ReadIsr, UsartAction::WriteExr(1)]
    );
}

#[test]
fn waits_for_each_flag() {
    // Busy twice, no room three times, not drained once.
    let exr = [1u32, 1, 0];
    let isr = [0u32, 0x40, 0x7F, 0x80, 0x80, 0x40];
    let mut e = 0;
    let mut i = 0;
    let actions = run(usart_write_bytes(b"x"), |a| match a {
        UsartAction::ReadExr => {
            e += 1;
            exr[e - 1]
        }
        UsartAction::ReadIsr => {
            i += 1;
            isr[i - 1]
        }
        _ => 0xFFFF_FFFF,
    });
    assert_eq!(
        actions,
        vec![
            UsartAction::ReadExr,
            UsartAction::ReadExr,
            UsartAction::ReadExr,
            UsartAction::ReadIsr,
            UsartAction::ReadIsr,
            UsartAction::ReadIsr,
            UsartAction::ReadIsr,
            UsartAction::WriteTdr(b'x' as u32),
            UsartAction::ReadIsr,
            UsartAction::ReadIsr,
            UsartAction::WriteExr(1),
        ]
    );
}

#[test]
fn flags_are_those_of_the_register_types() {
    assert!(sifli_pac::usart::regs::Isr(0x80).txe());
    assert!(sifli_pac::usart::regs::Isr(0x40).tc());
    assert!(sifli_pac::usart::regs::Exr(0x01).busy());
    assert!(!sifli_pac::usart::regs::Isr(!0x80).txe());
    assert!(!sifli_pac::usart::regs::Isr(!0x40).tc());
    assert!(!sifli_pac::usart::regs::Exr(!0x01).busy());
}

#[test]
fn text_goes_out_as_utf8() {
    assert_eq!(bytes(usart_write_str("hi")), b"hi".to_vec());
    assert_eq!(bytes(usart_write_str("\u{b5}")), vec![0xC2, 0xB5]);
    assert_eq!(bytes(usart_write_str("")), Vec::<u8>::new());
}

#[test]
fn decimal_numbers() {
    for v in [0u32, 1, 9, 10, 42, 1000, 1_000_000, 999_999_999, u32::MAX] {
        assert_eq!(bytes(usart_write_u32(v)), v.to_string().into_bytes());
    }
    assert_eq!(bytes(usart_write_u32(u32::MAX)), b"4294967295".to_vec());
}

#[test]
fn hexadecimal_numbers() {
    for v in [0u32, 1, 9, 10, 15, 16, 0xDEAD_BEEF, 0x0102_0304, u32::MAX] {
        let (prefix, digits) = usart_write_hex(v);
        assert_eq!(bytes(prefix), b"0x".to_vec());
        assert_eq!(bytes(digits), format!("{:x}", v).into_bytes());
    }
    assert_eq!(bytes(usart_write_hex(0xDEAD_BEEF).1), b"deadbeef".to_vec());
}

#[test]
fn numerals_read_back() {
    for v in [0u32, 7, 80, 12345, u32::MAX] {
        let text = String::from_utf8(bytes(usart_write_u32(v))).unwrap();
        assert_eq!(text.parse::<u32>().unwrap(), v);
        let text = String::from_utf8(bytes(usart_write_hex(v).1)).unwrap();
        assert_eq!(u32::from_str_radix(&text, 16).unwrap(), v);
    }
}
