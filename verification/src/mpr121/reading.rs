//! What the sensor's replies mean, in numbers: the laws of the reply decoders.

use crate::mpr121::device::BlockRead;
use crate::mpr121::device::Mpr121;
use vstd::prelude::*;

verus! {

/// A 16-bit value that is read low byte first has the low byte as its remainder by
/// 256 and the high byte as its quotient.
pub proof fn law_word_holds_both_bytes(low: u8, high: u8)
    ensures
        crate::mpr121::device::word(low, high) % 256 == low,
        crate::mpr121::device::word(low, high) / 256 == high,
        0 <= crate::mpr121::device::word(low, high) < 65536,
{
}

/// Bit `n` of a 16-bit value is its binary digit of weight `2^n`.
pub proof fn law_word_bit_is_binary_digit(value: u16, n: int)
    requires
        0 <= n < 16,
    ensures
        crate::mpr121::device::word_bit(value, n) == (value as int
            / vstd::arithmetic::power2::pow2(n as nat) as int % 2 == 1),
{
    let k = n as u16;
    vstd::bits::lemma_u16_shr_is_div(value, k);
    let shifted = value >> k;
    assert(shifted & 1u16 == shifted % 2) by (bit_vector);
}

/// An over-current fault is the top bit of the second raw byte, whatever the other
/// bits are.
pub proof fn law_over_current_is_top_bit(raw: [u8; 2])
    ensures
        crate::mpr121::device::over_current(raw) <==> raw@[1] >= 128,
{
}

/// Electrodes 0 to 7 are the binary digits of the first raw byte, electrodes 8 to 11
/// the four lowest of the second; there are no others.
pub proof fn law_touched_is_raw_digit(raw: [u8; 2], n: int)
    requires
        0 <= n < 16,
    ensures
        n < 8 ==> crate::mpr121::device::touched(raw, n) == (raw@[0] as int
            / vstd::arithmetic::power2::pow2(n as nat) as int % 2 == 1),
        8 <= n < 12 ==> crate::mpr121::device::touched(raw, n) == (raw@[1] as int
            / vstd::arithmetic::power2::pow2((n - 8) as nat) as int % 2 == 1),
        n >= 12 ==> !crate::mpr121::device::touched(raw, n),
{
    let low = raw@[0] as u16;
    let high = raw@[1] as u16;
    let k = n as u16;
    let above = (n - 8) as u16;
    let value = (high * 256 + low) as u16;
    assert(value == crate::mpr121::device::word(raw@[0], raw@[1]));
    if n < 8 {
        assert((value >> k) & 1u16 == (low >> k) & 1u16) by (bit_vector)
            requires
                low < 256,
                high < 256,
                k < 8,
                value == high * 256 + low,
        ;
        law_word_bit_is_binary_digit(low, n);
    } else if n < 12 {
        assert((value >> k) & 1u16 == (high >> above) & 1u16) by (bit_vector)
            requires
                low < 256,
                high < 256,
                8 <= k < 12,
                above == k - 8,
                value == high * 256 + low,
        ;
        law_word_bit_is_binary_digit(high, n - 8);
    }
}

/// A touch status holds the first raw byte whole, above it the low half of the
/// second, and nothing else; so each of its twelve digits is that electrode's.
pub proof fn law_status_holds_both_bytes(raw: [u8; 2], status: u16, n: int)
    requires
        crate::mpr121::device::status_of(raw, status),
        0 <= n < 12,
    ensures
        status as int % 256 == raw@[0],
        status as int / 256 == raw@[1] as int % 16,
        (status as int / vstd::arithmetic::power2::pow2(n as nat) as int % 2 == 1) == (if n < 8 {
            raw@[0] as int / vstd::arithmetic::power2::pow2(n as nat) as int % 2 == 1
        } else {
            raw@[1] as int / vstd::arithmetic::power2::pow2((n - 8) as nat) as int % 2 == 1
        }),
{
    law_word_holds_both_bytes(raw@[0], raw@[1]);
    law_touched_is_raw_digit(raw, n);
    law_word_bit_is_binary_digit(status, n);
    assert(crate::mpr121::device::word_bit(status, n) == crate::mpr121::device::touched(raw, n));
}

/// The filtered value of each enabled electrode is made of its own two raw bytes, low
/// byte first; the other channels are zero.
pub proof fn law_filtered_holds_own_bytes(count: int, raw: Seq<u8>, out: Seq<u16>, i: int)
    requires
        crate::mpr121::device::filtered_of(count, raw, out),
        0 <= i < 12,
    ensures
        i < count ==> out[i] as int % 256 == raw[2 * i] && out[i] as int / 256 == raw[2 * i + 1],
        i >= count ==> out[i] == 0,
{
    if i < count {
        law_word_holds_both_bytes(raw[i * 2], raw[i * 2 + 1]);
    }
    assert(out[i] == out[i]);
}

/// Raw bytes that give the same filtered data are the same, as far as electrodes are
/// enabled: nothing that the sensor sent is lost.
pub proof fn law_filtered_loses_nothing(
    count: int,
    raw: Seq<u8>,
    raw2: Seq<u8>,
    out: Seq<u16>,
    k: int,
)
    requires
        crate::mpr121::device::filtered_of(count, raw, out),
        crate::mpr121::device::filtered_of(count, raw2, out),
        count <= 12,
        0 <= k < 2 * count,
    ensures
        raw[k] == raw2[k],
{
    let i = k / 2;
    law_filtered_holds_own_bytes(count, raw, out, i);
    law_filtered_holds_own_bytes(count, raw2, out, i);
    assert(k == 2 * i || k == 2 * i + 1);
}

/// The baseline of each enabled electrode is its own raw byte; the other channels are
/// zero.
pub proof fn law_baseline_is_own_byte(count: int, raw: Seq<u8>, out: Seq<u8>, i: int)
    requires
        crate::mpr121::device::baseline_of(count, raw, out),
        0 <= i < 12,
    ensures
        i < count ==> out[i] == raw[i],
        i >= count ==> out[i] == 0,
{
    assert(out[i] == out[i]);
}

/// The blocks that are read: the touch status is the two registers from 0x00, the
/// filtered data two for each enabled electrode from 0x04, the baseline one for each
/// from 0x1E, all of the device's own address; nothing is read of no electrodes.
pub proof fn law_blocks_read(device: Mpr121)
    requires
        device.configuration().electrode.electrode_count <= 12,
    ensures
        ({
            let count = device.configuration().electrode.electrode_count as int;
            &&& device.status_read() == Some(
                BlockRead { address: device.address(), start_reg: 0x00, len: 2 },
            )
            &&& device.filtered_read() is None <==> count == 0
            &&& device.filtered_read() matches Some(read) ==> read.address == device.address()
                && read.start_reg == 0x04 && read.len == 2 * count
            &&& device.baseline_read() is None <==> count == 0
            &&& device.baseline_read() matches Some(read) ==> read.address == device.address()
                && read.start_reg == 0x1E && read.len == count
        }),
{
}

} // verus!
