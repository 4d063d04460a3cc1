//! What goes over the serial line: the laws of transmissions and numerals.

use crate::serial::Phase;
use crate::serial::Point;
use vstd::prelude::*;

verus! {

/// Where a transmission of `len` bytes is after `n` steps, when step `i` is handed
/// `words[i]`; `None` when it is over.
pub open spec fn run(len: int, words: Seq<u32>, n: nat) -> Option<Point>
    decreases n,
{
    if n == 0 {
        Some(Point { phase: Phase::Start, sent: 0 })
    } else {
        match run(len, words, (n - 1) as nat) {
            None => None,
            Some(at) => crate::serial::next_point(len, at, words[n - 1]),
        }
    }
}

/// The words written to the transmit data register in the first `n` steps.
pub open spec fn transmitted(msg: Seq<u8>, words: Seq<u32>, n: nat) -> Seq<u32>
    decreases n,
{
    if n == 0 {
        seq![]
    } else {
        let before = transmitted(msg, words, (n - 1) as nat);
        match run(msg.len() as int, words, n) {
            None => before,
            Some(at) => match crate::serial::point_action(msg, at) {
                crate::serial::UsartAction::WriteTdr(word) => before.push(word),
                _ => before,
            },
        }
    }
}

/// Bytes as the words that the transmit data register takes.
pub open spec fn as_words(bytes: Seq<u8>) -> Seq<u32> {
    Seq::new(bytes.len(), |i: int| bytes[i] as u32)
}

/// Whatever the port answers, the bytes go out in order, each once: after any
/// number of steps a prefix of the message has been written, and when the
/// transmission is over, all of it.
pub proof fn law_bytes_go_out_in_order(msg: Seq<u8>, words: Seq<u32>, n: nat)
    ensures
        match run(msg.len() as int, words, n) {
            Some(at) => {
                &&& 0 <= at.sent <= msg.len()
                &&& transmitted(msg, words, n) == as_words(msg.take(at.sent))
                &&& (at.phase == Phase::Room ==> at.sent < msg.len())
                &&& (at.phase == Phase::Drain || at.phase == Phase::Unlock ==> at.sent == msg.len())
                &&& (at.phase == Phase::Start || at.phase == Phase::Lock ==> at.sent == 0)
            },
            None => transmitted(msg, words, n) == as_words(msg),
        },
    decreases n,
{
    let len = msg.len() as int;
    if n == 0 {
        assert(as_words(msg.take(0)) =~= seq![]);
    } else {
        law_bytes_go_out_in_order(msg, words, (n - 1) as nat);
        assert(msg.take(len) =~= msg);
        match run(len, words, (n - 1) as nat) {
            None => {},
            Some(before) => {
                if before.phase == Phase::Room && crate::serial::bit_set(words[n - 1], 7) {
                    assert(as_words(msg.take(before.sent + 1)) =~= as_words(
                        msg.take(before.sent),
                    ).push(msg[before.sent] as u32));
                }
            },
        }
    }
}

/// A byte is written only when the status just read said that there is room
/// (TXE).
pub proof fn law_byte_needs_room(msg: Seq<u8>, words: Seq<u32>, n: nat)
    requires
        run(msg.len() as int, words, n) matches Some(at) && at.phase == Phase::Byte,
    ensures
        n > 0,
        run(msg.len() as int, words, (n - 1) as nat) matches Some(before) && before.phase
            == Phase::Room,
        crate::serial::bit_set(words[n - 1], 7),
{
}

/// The lock is given back only when the whole message has been written and the
/// status just read said that it has left the port (TC).
pub proof fn law_unlock_needs_drained_port(msg: Seq<u8>, words: Seq<u32>, n: nat)
    requires
        run(msg.len() as int, words, n) matches Some(at) && at.phase == Phase::Unlock,
    ensures
        n > 0,
        crate::serial::bit_set(words[n - 1], 6),
        transmitted(msg, words, n) == as_words(msg),
{
    law_bytes_go_out_in_order(msg, words, n);
    assert(msg.take(msg.len() as int) =~= msg);
}

/// Nothing past the wait for the lock happens before the lock register has been
/// read with BUSY clear.
pub proof fn law_lock_is_held(len: int, words: Seq<u32>, n: nat) -> (k: nat)
    requires
        run(len, words, n) matches Some(at) && at.phase != Phase::Start && at.phase != Phase::Lock,
    ensures
        k < n,
        run(len, words, k) matches Some(at) && at.phase == Phase::Lock,
        !crate::serial::bit_set(words[k as int], 0),
    decreases n,
{
    let before = run(len, words, (n - 1) as nat)->Some_0;
    if before.phase == Phase::Lock {
        (n - 1) as nat
    } else {
        law_lock_is_held(len, words, (n - 1) as nat)
    }
}

/// On a port that is always free, with room and drained, a transmission of `len`
/// bytes takes `2 * len + 3` accesses and is then over.
pub proof fn law_ready_port_never_waits(len: int, words: Seq<u32>)
    requires
        0 <= len,
        forall|i: int|
            #![trigger words[i]]
            0 <= i < 2 * len + 4 ==> !crate::serial::bit_set(words[i], 0)
                && crate::serial::bit_set(words[i], 6) && crate::serial::bit_set(words[i], 7),
    ensures
        run(len, words, (2 * len + 3) as nat) == Some(Point { phase: Phase::Unlock, sent: len }),
        run(len, words, (2 * len + 4) as nat) is None,
{
    lemma_ready_port(len, words, len);
    assert(run(len, words, (2 * len + 2) as nat) == Some(crate::serial::next_byte(len, len)));
    let n = (2 * len + 3) as nat;
    assert(crate::serial::bit_set(words[n - 1], 6));
}

proof fn lemma_ready_port(len: int, words: Seq<u32>, sent: int)
    requires
        0 <= sent <= len,
        forall|i: int|
            #![trigger words[i]]
            0 <= i < 2 * len + 4 ==> !crate::serial::bit_set(words[i], 0)
                && crate::serial::bit_set(words[i], 6) && crate::serial::bit_set(words[i], 7),
    ensures
        run(len, words, (2 * sent + 2) as nat) == Some(crate::serial::next_byte(len, sent)),
    decreases sent,
{
    if sent == 0 {
        reveal_with_fuel(run, 3);
        assert(!crate::serial::bit_set(words[1], 0));
    } else {
        lemma_ready_port(len, words, sent - 1);
        let n = (2 * sent) as nat;
        assert(crate::serial::bit_set(words[n as int], 7));
        assert(run(len, words, n) == Some(Point { phase: Phase::Room, sent: sent - 1 }));
        assert(run(len, words, (n + 1) as nat) == Some(Point { phase: Phase::Byte, sent }));
    }
}

/// The value of one ASCII digit, in lower case; -1 for any other byte.
pub open spec fn digit_value(c: u8) -> int {
    if 0x30 <= c <= 0x39 {
        c - 0x30
    } else if 0x61 <= c <= 0x66 {
        c - 0x61 + 10
    } else {
        -1
    }
}

/// The number that a sequence of digits stands for.
pub open spec fn value(text: Seq<u8>, base: nat) -> int
    decreases text.len(),
{
    if text.len() == 0 {
        0
    } else {
        value(text.drop_last(), base) * base + digit_value(text.last())
    }
}

/// A numeral reads back as the number that was written.
pub proof fn law_numeral_reads_back(val: nat, base: nat)
    requires
        2 <= base <= 16,
    ensures
        value(crate::serial::numeral(val, base), base) == val,
{
    if val == 0 {
        let text = crate::serial::numeral(val, base);
        assert(text.drop_last() =~= seq![]);
        assert(value(seq![], base) == 0);
        assert(0 * base == 0);
    } else {
        lemma_digits_read_back(val, base);
    }
}

proof fn lemma_digits_read_back(val: nat, base: nat)
    requires
        2 <= base <= 16,
    ensures
        value(crate::serial::digits(val, base), base) == val,
    decreases val,
{
    if val > 0 {
        assert(val / base < val) by (nonlinear_arith)
            requires
                0 < val,
                2 <= base,
        ;
        assert((val / base) * base + val % base == val && 0 <= val % base < base)
            by (nonlinear_arith)
            requires
                2 <= base,
        ;
        lemma_digits_read_back(val / base, base);
        let text = crate::serial::digits(val, base);
        assert(text.drop_last() =~= crate::serial::digits(val / base, base));
    }
}

/// A numeral is never empty and never longer than `n` digits for a number below
/// `base` to the `n`; it starts with a zero only if the number is zero.
pub proof fn law_numeral_is_shortest(val: nat, base: nat, n: nat)
    requires
        2 <= base <= 16,
        0 < n,
        val < crate::serial::power(base, n),
    ensures
        1 <= crate::serial::numeral(val, base).len() <= n,
        crate::serial::numeral(val, base)[0] == 0x30 <==> val == 0,
{
    if val > 0 {
        lemma_digits_shortest(val, base, n);
    }
}

proof fn lemma_digits_shortest(val: nat, base: nat, n: nat)
    requires
        2 <= base <= 16,
        0 < val < crate::serial::power(base, n),
    ensures
        1 <= crate::serial::digits(val, base).len() <= n,
        crate::serial::digits(val, base)[0] != 0x30,
    decreases n,
{
    assert(n > 0);
    let next = crate::serial::power(base, (n - 1) as nat);
    assert(val / base < next) by (nonlinear_arith)
        requires
            2 <= base,
            val < base * next,
    ;
    assert(0 <= val % base < base);
    if val / base == 0 {
        assert(val % base == val) by (nonlinear_arith)
            requires
                2 <= base,
                val / base == 0,
        ;
        assert(crate::serial::digits(0, base) =~= seq![]);
    } else {
        lemma_digits_shortest(val / base, base, (n - 1) as nat);
    }
}

proof fn lemma_digit_places(val: nat, base: nat, k: nat)
    requires
        2 <= base <= 16,
        k < crate::serial::digits(val, base).len(),
    ensures
        ({
            let text = crate::serial::digits(val, base);
            let d = val as int / vstd::arithmetic::power::pow(base as int, k) % base as int;
            &&& 0 <= d < base
            &&& text[text.len() - 1 - k] == crate::serial::digit_char(d)
        }),
    decreases k,
{
    let b = base as int;
    let text = crate::serial::digits(val, base);
    let rest = (val / base) as nat;
    reveal(vstd::arithmetic::power::pow);
    vstd::arithmetic::power::lemma_pow_positive(b, k);
    assert(text == crate::serial::digits(rest, base).push(
        crate::serial::digit_char((val % base) as int),
    ));
    if k == 0 {
        assert(val as int / 1 == val);
    } else {
        let p = vstd::arithmetic::power::pow(b, (k - 1) as nat);
        vstd::arithmetic::power::lemma_pow_positive(b, (k - 1) as nat);
        lemma_digit_places(rest, base, (k - 1) as nat);
        vstd::arithmetic::div_mod::lemma_div_denominator(val as int, b, p);
    }
    let q = val as int / vstd::arithmetic::power::pow(b, k);
    assert(0 <= q % b < b) by (nonlinear_arith)
        requires
            b >= 2,
    ;
}

/// The character at place `k` of a numeral, counted from the right, is that of the
/// digit of weight `base^k` of the number: `0` to `9`, then `a` to `f`.
pub proof fn law_numeral_places(val: nat, base: nat, k: nat)
    requires
        2 <= base <= 16,
        k < crate::serial::numeral(val, base).len(),
    ensures
        ({
            let text = crate::serial::numeral(val, base);
            let c = text[text.len() - 1 - k];
            let d = val as int / vstd::arithmetic::power::pow(base as int, k) % base as int;
            &&& 0 <= d < base
            &&& d < 10 ==> c == 0x30 + d
            &&& d >= 10 ==> c == 0x61 + (d - 10)
        }),
{
    if val == 0 {
        reveal(vstd::arithmetic::power::pow);
        assert(0int % base as int == 0) by (nonlinear_arith)
            requires
                base >= 2,
        ;
    } else {
        lemma_digit_places(val, base, k);
    }
}

/// Every byte of a numeral is an ASCII digit of the base: `0` to `9`, or a lower-case
/// letter from `a` on whose value is below the base.
pub proof fn law_numeral_characters(val: nat, base: nat, i: int)
    requires
        2 <= base <= 16,
        0 <= i < crate::serial::numeral(val, base).len(),
    ensures
        ({
            let c = crate::serial::numeral(val, base)[i];
            0x30 <= c <= 0x39 && c - 0x30 < base || 0x61 <= c <= 0x66 && c - 0x61 + 10 < base
        }),
{
    law_numeral_places(
        val,
        base,
        (crate::serial::numeral(val, base).len() - 1 - i) as nat,
    );
}

/// A number other than zero has as many characters as it has digits: a numeral of
/// `n + 1` characters stands for a number of at least `base^n` and below
/// `base^(n + 1)`.
pub proof fn law_numeral_length(val: nat, base: nat)
    requires
        2 <= base <= 16,
        val > 0,
    ensures
        ({
            let n = crate::serial::numeral(val, base).len();
            &&& n >= 1
            &&& vstd::arithmetic::power::pow(base as int, (n - 1) as nat) <= val
            &&& val < vstd::arithmetic::power::pow(base as int, n)
        }),
    decreases val,
{
    let b = base as int;
    let rest = (val / base) as nat;
    let n = crate::serial::numeral(val, base).len();
    let m = crate::serial::digits(rest, base).len();
    reveal(vstd::arithmetic::power::pow);
    assert(n == m + 1);
    assert(rest < val && rest * b <= val < (rest + 1) * b) by (nonlinear_arith)
        requires
            b == base,
            rest == val / base,
            2 <= base,
            0 < val,
    ;
    if rest == 0 {
        vstd::arithmetic::power::lemma_pow0(b);
        vstd::arithmetic::power::lemma_pow1(b);
        assert(val < b) by (nonlinear_arith)
            requires
                rest == 0,
                val < (rest + 1) * b,
        ;
    } else {
        law_numeral_length(rest, base);
        let p = vstd::arithmetic::power::pow(b, (m - 1) as nat);
        let q = vstd::arithmetic::power::pow(b, m);
        assert(q == b * p);
        assert(vstd::arithmetic::power::pow(b, n) == b * q);
        assert(b * p <= rest * b && (rest + 1) * b <= b * q) by (nonlinear_arith)
            requires
                p <= rest,
                rest < q,
                2 <= b,
        ;
    }
}

/// Numbers that are written alike are the same.
pub proof fn law_numerals_tell_numbers_apart(a: nat, b: nat, base: nat)
    requires
        2 <= base <= 16,
        crate::serial::numeral(a, base) == crate::serial::numeral(b, base),
    ensures
        a == b,
{
    law_numeral_reads_back(a, base);
    law_numeral_reads_back(b, base);
}

/// A flag of a register word is the binary digit of its weight.
pub proof fn law_flag_is_binary_digit(word: u32, n: u32)
    requires
        n < 32,
    ensures
        crate::serial::bit_set(word, n) <==> word as int / vstd::arithmetic::power2::pow2(
            n as nat,
        ) as int % 2 == 1,
{
    vstd::bits::lemma_u32_shr_is_div(word, n);
    let shifted = word >> n;
    assert(shifted & 1u32 == shifted % 2) by (bit_vector);
}

/// Each wait goes on exactly when its flag allows it, and stays where it is otherwise:
/// the lock while BUSY (weight 1) is set, the room for a byte while TXE (weight 128) is
/// clear, the end while TC (weight 64) is clear.
pub proof fn law_waits_follow_their_flags(len: int, at: Point, word: u32)
    ensures
        at.phase == Phase::Lock ==> (crate::serial::next_point(len, at, word) == Some(at)
            <==> word as int % 2 == 1),
        at.phase == Phase::Room ==> (crate::serial::next_point(len, at, word) == Some(at)
            <==> word as int / 128 % 2 == 0),
        at.phase == Phase::Drain ==> (crate::serial::next_point(len, at, word) == Some(at)
            <==> word as int / 64 % 2 == 0),
        !(at.phase == Phase::Lock || at.phase == Phase::Room || at.phase == Phase::Drain)
            ==> crate::serial::next_point(len, at, word) != Some(at),
{
    law_flag_is_binary_digit(word, 0);
    law_flag_is_binary_digit(word, 6);
    law_flag_is_binary_digit(word, 7);
    vstd::arithmetic::power2::lemma2_to64();
}

/// Which register is accessed when: the lock register (EXR) while waiting for the
/// lock, the status register (ISR) while waiting for room or for the end, the data
/// register (TDR) for a byte, which goes out unaltered; BUSY is written to the lock
/// register at the end.
pub proof fn law_accesses_of_phases(msg: Seq<u8>, at: Point)
    ensures
        ({
            let action = crate::serial::point_action(msg, at);
            &&& action == crate::serial::UsartAction::ReadExr <==> (at.phase == Phase::Start
                || at.phase == Phase::Lock)
            &&& action == crate::serial::UsartAction::ReadIsr <==> (at.phase == Phase::Room
                || at.phase == Phase::Drain)
            &&& action is WriteTdr <==> at.phase == Phase::Byte
            &&& action matches crate::serial::UsartAction::WriteTdr(word) ==> word
                == msg[at.sent - 1]
            &&& action is WriteExr <==> at.phase == Phase::Unlock
            &&& action matches crate::serial::UsartAction::WriteExr(word) ==> word == 1
        }),
{
}

/// Every step that moves on counts at most one byte, and counts it exactly when a byte
/// is written.
pub proof fn law_bytes_are_counted(len: int, at: Point, word: u32)
    ensures
        crate::serial::next_point(len, at, word) matches Some(next) ==> next.sent == at.sent + (
        if next.phase == Phase::Byte {
            1int
        } else {
            0
        }),
        crate::serial::next_point(len, at, word) is None <==> at.phase == Phase::Unlock,
{
}

} // verus!
