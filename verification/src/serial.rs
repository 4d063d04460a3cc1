//! The debug serial port (USART1): its set-up, and the transmission of bytes,
//! text and numbers.
//!
//! The port is shared: its mutual-exclusion register (EXR) is a lock that has to
//! be held while bytes go out. [`Transmission`] decides which register is read or
//! written next; the caller performs the access and hands back the word read.

use vstd::prelude::*;

verus! {

/// Whether bit `n` of a register word is set.
pub open spec fn bit_set(word: u32, n: u32) -> bool {
    (word >> n) & 1u32 == 1u32
}

/// The register word with bit `n` set or cleared.
pub open spec fn with_bit(word: u32, n: u32, val: bool) -> u32 {
    if val {
        word | (1u32 << n)
    } else {
        word & !(1u32 << n)
    }
}

/// Length of a packet on the line, parity included, stop bits not included.
#[derive(Clone, Copy, Debug)]
pub enum PacketLength {
    Bit6,
    Bit7,
    Bit8,
    Bit9,
}

impl PacketLength {
    /// The field value in the control register.
    pub open spec fn code(self) -> u32 {
        match self {
            PacketLength::Bit6 => 0,
            PacketLength::Bit7 => 1,
            PacketLength::Bit8 => 2,
            PacketLength::Bit9 => 3,
        }
    }
}

/// Calls `sifli_pac::usart::regs::Isr::txe`, trusted to return bit 7 of the
/// status word.
#[verifier::external_body]
fn isr_txe(word: u32) -> (txe: bool)
    ensures
        txe == bit_set(word, 7),
{
    sifli_pac::usart::regs::Isr(word).txe()
}

/// Calls `sifli_pac::usart::regs::Isr::tc`, trusted to return bit 6 of the status
/// word.
#[verifier::external_body]
fn isr_tc(word: u32) -> (tc: bool)
    ensures
        tc == bit_set(word, 6),
{
    sifli_pac::usart::regs::Isr(word).tc()
}

/// Calls `sifli_pac::usart::regs::Exr::busy`, trusted to return bit 0 of the
/// mutual-exclusion word.
#[verifier::external_body]
fn exr_busy(word: u32) -> (busy: bool)
    ensures
        busy == bit_set(word, 0),
{
    sifli_pac::usart::regs::Exr(word).busy()
}

/// Calls `sifli_pac::usart::regs::Exr::set_busy`, trusted to give bit 0 of the
/// mutual-exclusion word the value and leave the other bits alone.
#[verifier::external_body]
fn exr_set_busy(word: u32, val: bool) -> (r: u32)
    ensures
        r == with_bit(word, 0, val),
{
    let mut exr = sifli_pac::usart::regs::Exr(word);
    exr.set_busy(val);
    exr.0
}

/// Calls `sifli_pac::usart::regs::Cr1::set_ue`, trusted to give bit 0 of the
/// control word the value and leave the other bits alone.
#[verifier::external_body]
fn cr1_set_ue(word: u32, val: bool) -> (r: u32)
    ensures
        r == with_bit(word, 0, val),
{
    let mut cr1 = sifli_pac::usart::regs::Cr1(word);
    cr1.set_ue(val);
    cr1.0
}

/// Calls `sifli_pac::usart::regs::Cr1::set_te`, trusted to give bit 3 of the
/// control word the value and leave the other bits alone.
#[verifier::external_body]
fn cr1_set_te(word: u32, val: bool) -> (r: u32)
    ensures
        r == with_bit(word, 3, val),
{
    let mut cr1 = sifli_pac::usart::regs::Cr1(word);
    cr1.set_te(val);
    cr1.0
}

/// Calls `sifli_pac::usart::regs::Cr1::set_m`, trusted to give bits [28:27] of the
/// control word the code of the packet length and leave the other bits alone.
#[verifier::external_body]
fn cr1_set_m(word: u32, m: PacketLength) -> (r: u32)
    ensures
        r == (word & !(3u32 << 27u32)) | (m.code() << 27u32),
{
    let mut cr1 = sifli_pac::usart::regs::Cr1(word);
    cr1.set_m(match m {
        PacketLength::Bit6 => sifli_pac::usart::vals::M::Bit6,
        PacketLength::Bit7 => sifli_pac::usart::vals::M::Bit7,
        PacketLength::Bit8 => sifli_pac::usart::vals::M::Bit8,
        PacketLength::Bit9 => sifli_pac::usart::vals::M::Bit9,
    });
    cr1.0
}

/// The words that set up the port, to be written in this order.
#[derive(Clone, Copy, Debug, PartialEq, Eq, Structural)]
pub struct UsartSetup {
    /// The baud rate register.
    pub brr: u32,
    /// The control register 1.
    pub cr1: u32,
}

/// Set up the port: 1 Mbaud from the 48 MHz clock, 8-bit packets, port and
/// transmitter enabled, everything else off.
pub fn usart_init() -> (setup: UsartSetup)
    ensures
        setup.brr == 48_000_000int / 1_000_000,
        setup.cr1 == 0x1000_0009,
{
    let cr1: u32 = cr1_set_m(0, PacketLength::Bit8);
    assert((0u32 & !(3u32 << 27u32)) | (2u32 << 27u32) == 0x1000_0000u32) by (bit_vector);
    assert((0x1000_0000u32 | (1u32 << 0u32)) | (1u32 << 3u32) == 0x1000_0009u32) by (bit_vector);
    let cr1: u32 = cr1_set_ue(cr1, true);
    let cr1: u32 = cr1_set_te(cr1, true);
    // BRR = 48MHz / 1000000 = 48 (0x30)
    UsartSetup { brr: 0x30, cr1 }
}

/// One access to the port.
#[derive(Clone, Copy, Debug, PartialEq, Eq, Structural)]
pub enum UsartAction {
    /// Read the mutual-exclusion register. Reading it with BUSY clear takes the
    /// lock.
    ReadExr,
    /// Read the status register.
    ReadIsr,
    /// Write a word to the transmit data register.
    WriteTdr(u32),
    /// Write a word to the mutual-exclusion register. BUSY set gives the lock
    /// back.
    WriteExr(u32),
}

/// How far a transmission is.
#[derive(Clone, Copy, Debug, PartialEq, Eq, Structural)]
pub enum Phase {
    /// Nothing has been done.
    Start,
    /// Waiting for the lock: the mutual-exclusion register is being read.
    Lock,
    /// Waiting for room for a byte: the status register is being read.
    Room,
    /// A byte is being written.
    Byte,
    /// Waiting for the last byte to leave: the status register is being read.
    Drain,
    /// The lock is being given back.
    Unlock,
}

/// A point in a transmission: the phase, and the number of bytes written.
pub struct Point {
    pub phase: Phase,
    pub sent: int,
}

/// Where a transmission of `len` bytes goes on once it holds the lock or has
/// written a byte: to the next byte, or to the wait for the last to leave.
pub open spec fn next_byte(len: int, sent: int) -> Point {
    Point {
        phase: if sent < len {
            Phase::Room
        } else {
            Phase::Drain
        },
        sent,
    }
}

/// The point after `at`, when the access made there gave `word`; `None` when the
/// transmission is over.
///
/// A wait repeats until its flag allows to go on.
pub open spec fn next_point(len: int, at: Point, word: u32) -> Option<Point> {
    match at.phase {
        Phase::Start => Some(Point { phase: Phase::Lock, sent: at.sent }),
        Phase::Lock => if bit_set(word, 0) {
            Some(at)
        } else {
            Some(next_byte(len, at.sent))
        },
        Phase::Room => if bit_set(word, 7) {
            Some(Point { phase: Phase::Byte, sent: at.sent + 1 })
        } else {
            Some(at)
        },
        Phase::Byte => Some(next_byte(len, at.sent)),
        Phase::Drain => if bit_set(word, 6) {
            Some(Point { phase: Phase::Unlock, sent: at.sent })
        } else {
            Some(at)
        },
        Phase::Unlock => None,
    }
}

/// The access that is made at a point other than the start.
pub open spec fn point_action(msg: Seq<u8>, at: Point) -> UsartAction {
    match at.phase {
        Phase::Start => UsartAction::ReadExr,
        Phase::Lock => UsartAction::ReadExr,
        Phase::Room => UsartAction::ReadIsr,
        Phase::Byte => UsartAction::WriteTdr(msg[at.sent - 1] as u32),
        Phase::Drain => UsartAction::ReadIsr,
        Phase::Unlock => UsartAction::WriteExr(1),
    }
}

/// Bytes on their way out of the port, under one hold of its lock.
pub struct Transmission {
    msg: Vec<u8>,
    sent: usize,
    phase: Phase,
}

/// What to do next in a [`Transmission`].
pub enum UsartStep {
    /// Make the access, then hand the word read to `rest` (any word after a
    /// write).
    Perform { action: UsartAction, rest: Transmission },
    /// The transmission is over.
    Done,
}

impl Transmission {
    #[verifier::type_invariant]
    spec fn wf(self) -> bool {
        &&& self.sent <= self.msg@.len()
        &&& self.phase == Phase::Room ==> self.sent < self.msg@.len()
    }

    /// The bytes to transmit.
    pub closed spec fn message(self) -> Seq<u8> {
        self.msg@
    }

    /// How far the transmission is.
    pub closed spec fn point(self) -> Point {
        Point { phase: self.phase, sent: self.sent as int }
    }

    /// The next access to the port. `word` is the word that the access before
    /// read (any word on the first call and after a write).
    pub fn step(self, word: u32) -> (step: UsartStep)
        ensures
            match next_point(self.message().len() as int, self.point(), word) {
                Some(point) => {
                    &&& step matches UsartStep::Perform { action, rest }
                    &&& action == point_action(self.message(), point)
                    &&& rest.message() == self.message()
                    &&& rest.point() == point
                },
                None => step is Done,
            },
    {
        proof {
            use_type_invariant(&self);
        }
        let len: usize = self.msg.len();
        let phase: Phase = match self.phase {
            Phase::Start => Phase::Lock,
            Phase::Lock => if exr_busy(word) {
                Phase::Lock
            } else if self.sent < len {
                Phase::Room
            } else {
                Phase::Drain
            },
            Phase::Room => if isr_txe(word) {
                Phase::Byte
            } else {
                Phase::Room
            },
            Phase::Byte => if self.sent < len {
                Phase::Room
            } else {
                Phase::Drain
            },
            Phase::Drain => if isr_tc(word) {
                Phase::Unlock
            } else {
                Phase::Drain
            },
            Phase::Unlock => {
                return UsartStep::Done;
            },
        };
        let mut sent: usize = self.sent;
        let action: UsartAction = match phase {
            Phase::Start => UsartAction::ReadExr,
            Phase::Lock => UsartAction::ReadExr,
            Phase::Room => UsartAction::ReadIsr,
            Phase::Byte => {
                let byte: u8 = self.msg[sent];
                sent += 1;
                UsartAction::WriteTdr(byte as u32)
            },
            Phase::Drain => UsartAction::ReadIsr,
            Phase::Unlock => {
                assert(0u32 | (1u32 << 0u32) == 1u32) by (bit_vector);
                UsartAction::WriteExr(exr_set_busy(0, true))
            },
        };
        UsartStep::Perform { action, rest: Transmission { msg: self.msg, sent, phase } }
    }
}

/// Transmit bytes, under one hold of the port's lock.
pub fn usart_write_bytes(msg: &[u8]) -> (transmission: Transmission)
    ensures
        transmission.message() == msg@,
        transmission.point() == (Point { phase: Phase::Start, sent: 0 }),
{
    Transmission { msg: vstd::slice::slice_to_vec(msg), sent: 0, phase: Phase::Start }
}

/// Transmit text, as its UTF-8 bytes.
pub fn usart_write_str(msg: &str) -> (transmission: Transmission)
    ensures
        transmission.message() == vstd::utf8::encode_utf8(msg@),
        transmission.point() == (Point { phase: Phase::Start, sent: 0 }),
{
    usart_write_bytes(msg.as_bytes())
}

/// The ASCII digit of a value below 16, in lower case.
pub open spec fn digit_char(digit: int) -> u8 {
    if digit < 10 {
        (0x30 + digit) as u8
    } else {
        (0x61 + digit - 10) as u8
    }
}

/// The digits of `val` in the given base, most significant first, without leading
/// zeros; none for zero.
pub open spec fn digits(val: nat, base: nat) -> Seq<u8>
    decreases val,
{
    if val == 0 || base < 2 {
        seq![]
    } else {
        proof {
            assert(val / base < val) by (nonlinear_arith)
                requires
                    0 < val,
                    2 <= base,
            ;
        }
        digits(val / base, base).push(digit_char((val % base) as int))
    }
}

/// `val` written in the given base.
pub open spec fn numeral(val: nat, base: nat) -> Seq<u8> {
    if val == 0 {
        seq![0x30u8]
    } else {
        digits(val, base)
    }
}

/// `base` to the power of `n`.
pub open spec fn power(base: nat, n: nat) -> nat
    decreases n,
{
    if n == 0 {
        1
    } else {
        base * power(base, (n - 1) as nat)
    }
}

/// Copy the tail of a buffer, from index `start` on.
fn tail<const N: usize>(buf: &[u8; N], start: usize) -> (bytes: Vec<u8>)
    requires
        start <= N,
    ensures
        bytes@ == buf@.skip(start as int),
{
    let mut bytes: Vec<u8> = Vec::new();
    let mut i: usize = start;
    while i < N
        invariant
            start <= i <= N,
            bytes@ == buf@.subrange(start as int, i as int),
        decreases N - i,
    {
        bytes.push(buf[i]);
        i += 1;
        assert(bytes@ =~= buf@.subrange(start as int, i as int));
    }
    assert(bytes@ =~= buf@.skip(start as int));
    bytes
}

/// Transmit a number in decimal.
pub fn usart_write_u32(val: u32) -> (transmission: Transmission)
    ensures
        transmission.message() == numeral(val as nat, 10),
        crate::line::value(transmission.message(), 10) == val,
        transmission.point() == (Point { phase: Phase::Start, sent: 0 }),
{
    proof {
        crate::line::law_numeral_reads_back(val as nat, 10);
    }
    if val == 0 {
        let zero: [u8; 1] = [0x30];
        assert(zero@ =~= numeral(0, 10));
        return usart_write_bytes(zero.as_slice());
    }
    let mut buf: [u8; 10] = [0u8; 10];
    let mut i: usize = 10;
    let mut rest: u32 = val;
    proof {
        reveal_with_fuel(power, 11);
        assert(digits(val as nat, 10) =~= digits(rest as nat, 10) + buf@.skip(i as int));
    }
    while rest > 0 && i > 0
        invariant
            i <= 10,
            rest < power(10, i as nat),
            digits(val as nat, 10) == digits(rest as nat, 10) + buf@.skip(i as int),
        decreases i,
    {
        let ghost before = buf@;
        i -= 1;
        buf[i] = 0x30 + (rest % 10) as u8;
        proof {
            assert(buf@.skip(i as int) =~= seq![digit_char((rest % 10) as int)] + before.skip(i + 1));
            assert(digits(rest as nat, 10) == digits((rest / 10) as nat, 10).push(
                digit_char((rest % 10) as int),
            ));
            assert(digits(val as nat, 10) =~= digits((rest / 10) as nat, 10) + buf@.skip(i as int));
        }
        rest = rest / 10;
    }
    let msg: Vec<u8> = tail(&buf, i);
    assert(msg@ =~= numeral(val as nat, 10));
    usart_write_bytes(msg.as_slice())
}

/// Transmit a number in hexadecimal: the prefix `0x`, then the digits.
///
/// The two go out one after the other, each under its own hold of the port's
/// lock.
pub fn usart_write_hex(val: u32) -> (transmissions: (Transmission, Transmission))
    ensures
        transmissions.0.message() == seq![0x30u8, 0x78u8],
        transmissions.0.point() == (Point { phase: Phase::Start, sent: 0 }),
        transmissions.1.message() == numeral(val as nat, 16),
        crate::line::value(transmissions.1.message(), 16) == val,
        transmissions.1.point() == (Point { phase: Phase::Start, sent: 0 }),
{
    proof {
        crate::line::law_numeral_reads_back(val as nat, 16);
    }
    let prefix: [u8; 2] = [0x30, 0x78];
    assert(prefix@ =~= seq![0x30u8, 0x78u8]);
    let prefix: Transmission = usart_write_bytes(prefix.as_slice());
    if val == 0 {
        let zero: [u8; 1] = [0x30];
        assert(zero@ =~= numeral(0, 16));
        return (prefix, usart_write_bytes(zero.as_slice()));
    }
    let mut buf: [u8; 8] = [0u8; 8];
    let mut i: usize = 8;
    let mut rest: u32 = val;
    proof {
        reveal_with_fuel(power, 9);
        assert(digits(val as nat, 16) =~= digits(rest as nat, 16) + buf@.skip(i as int));
    }
    while rest > 0 && i > 0
        invariant
            i <= 8,
            rest < power(16, i as nat),
            digits(val as nat, 16) == digits(rest as nat, 16) + buf@.skip(i as int),
        decreases i,
    {
        let ghost before = buf@;
        i -= 1;
        assert(rest & 0xF == rest % 16) by (bit_vector);
        assert(rest >> 4u32 == rest / 16) by (bit_vector);
        let nib: u8 = (rest & 0xF) as u8;
        buf[i] =
        if nib < 10 {
            0x30 + nib
        } else {
            0x61 + nib - 10
        };
        proof {
            assert(buf@.skip(i as int) =~= seq![digit_char((rest % 16) as int)] + before.skip(i + 1));
            assert(digits(rest as nat, 16) == digits((rest / 16) as nat, 16).push(
                digit_char((rest % 16) as int),
            ));
            assert(digits(val as nat, 16) =~= digits((rest / 16) as nat, 16) + buf@.skip(i as int));
        }
        rest = rest >> 4u32;
    }
    let msg: Vec<u8> = tail(&buf, i);
    assert(msg@ =~= numeral(val as nat, 16));
    (prefix, usart_write_bytes(msg.as_slice()))
}

} // verus!
