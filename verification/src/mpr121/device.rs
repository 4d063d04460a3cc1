//! The MPR121 driver: what goes over the bus, and what the replies mean.

use crate::mpr121::config::Mpr121Config;
use crate::mpr121::config::CHANNELS;
use crate::mpr121::registers::RegisterWrite;
use crate::mpr121::registers::REG_BASELINE_BASE;
use crate::mpr121::registers::REG_ECR;
use crate::mpr121::registers::REG_FILTERED_DATA_BASE;
use crate::mpr121::registers::REG_SOFT_RESET;
use crate::mpr121::registers::REG_TOUCH_STATUS_L;
use crate::mpr121::registers::REG_TOUCH_THRESHOLD_BASE;
use crate::mpr121::registers::SOFT_RESET_MAGIC;
use vstd::prelude::*;

verus! {

/// Default 7-bit I2C address (ADDR pin tied to VSS).
pub const DEFAULT_ADDRESS: u8 = 0x5A;

/// An error from the MPR121 driver, over a bus whose transfers fail with `E`.
#[derive(Debug, Copy, Clone, PartialEq, Eq)]
pub enum Mpr121Error<E> {
    /// The underlying I2C transfer failed.
    I2c(E),
    /// A configured electrode count exceeded [`CHANNELS`].
    InvalidElectrodeCount,
    /// The touch-status register reported an over-current fault (bit 15).
    OverCurrent,
}

impl<E> From<E> for Mpr121Error<E> {
    fn from(e: E) -> (error: Self) {
        Mpr121Error::I2c(e)
    }
}

impl<E> vstd::std_specs::convert::FromSpecImpl<E> for Mpr121Error<E> {
    open spec fn obeys_from_spec() -> bool {
        true
    }

    open spec fn from_spec(e: E) -> Self {
        Mpr121Error::I2c(e)
    }
}

/// Register writes that are made one after the other, with `T` as what the whole
/// sequence yields.
///
/// The writes are handed out one at a time; the caller performs each and reports
/// how it went.
pub struct WriteSequence<T> {
    address: u8,
    writes: Vec<RegisterWrite>,
    next: usize,
    outcome: T,
}

/// What to do next in a [`WriteSequence`].
pub enum WriteStep<T, E> {
    /// Write `bytes` to `address`, then report the outcome to `rest`.
    Write { address: u8, bytes: [u8; 2], rest: WriteSequence<T> },
    /// Nothing more is to be written: all writes are done, or one failed.
    Done(Result<T, Mpr121Error<E>>),
}

/// Whether `step` is what follows in `sequence` when the write before went as
/// `last` says: the first pending write, or, when none is pending, the outcome;
/// after a failed write, its error.
pub open spec fn is_step<T, E>(
    sequence: WriteSequence<T>,
    last: Result<(), E>,
    step: WriteStep<T, E>,
) -> bool {
    match last {
        Err(e) => step == WriteStep::<T, E>::Done(Err(Mpr121Error::I2c(e))),
        Ok(_) => if sequence.pending().len() == 0 {
            step == WriteStep::<T, E>::Done(Ok(sequence.outcome()))
        } else {
            &&& step matches WriteStep::Write { address, bytes, rest }
            &&& address == sequence.address()
            &&& bytes@ == seq![sequence.pending()[0].reg, sequence.pending()[0].val]
            &&& rest.address() == sequence.address()
            &&& rest.pending() == sequence.pending().drop_first()
            &&& rest.outcome() == sequence.outcome()
        },
    }
}

impl<T> WriteSequence<T> {
    #[verifier::type_invariant]
    spec fn wf(self) -> bool {
        self.next <= self.writes@.len()
    }

    /// The bus address that is written to.
    pub closed spec fn address(self) -> u8 {
        self.address
    }

    /// The writes that have not been handed out yet.
    pub closed spec fn pending(self) -> Seq<RegisterWrite> {
        self.writes@.skip(self.next as int)
    }

    /// What the sequence yields when all writes succeed.
    pub closed spec fn outcome(self) -> T {
        self.outcome
    }

    fn start(address: u8, writes: Vec<RegisterWrite>, outcome: T) -> (sequence: Self)
        ensures
            sequence.address() == address,
            sequence.pending() == writes@,
            sequence.outcome() == outcome,
    {
        assert(writes@.skip(0) =~= writes@);
        WriteSequence { address, writes, next: 0, outcome }
    }

    /// The next write, given the outcome of the one before (`Ok` on the first
    /// call). The first failed write ends the sequence.
    pub fn step<E>(self, last: Result<(), E>) -> (step: WriteStep<T, E>)
        ensures
            is_step(self, last, step),
    {
        proof {
            use_type_invariant(&self);
        }
        match last {
            Err(e) => WriteStep::Done(Err(Mpr121Error::from(e))),
            Ok(_) => {
                if self.next == self.writes.len() {
                    return WriteStep::Done(Ok(self.outcome));
                }
                let w: RegisterWrite = self.writes[self.next];
                let bytes: [u8; 2] = [w.reg, w.val];
                assert(bytes@ =~= seq![self.pending()[0].reg, self.pending()[0].val]);
                assert(self.pending().drop_first() =~= self.writes@.skip(self.next + 1));
                WriteStep::Write {
                    address: self.address,
                    bytes,
                    rest: WriteSequence {
                        address: self.address,
                        writes: self.writes,
                        next: self.next + 1,
                        outcome: self.outcome,
                    },
                }
            },
        }
    }
}

/// A read of a contiguous register block, using register auto-increment: write
/// the start register, then read `len` bytes.
#[derive(Debug, Copy, Clone, PartialEq, Eq, Structural)]
pub struct BlockRead {
    /// The bus address.
    pub address: u8,
    /// The first register.
    pub start_reg: u8,
    /// Number of bytes to read.
    pub len: usize,
}

/// Number of raw bytes that the filtered data of all channels takes.
pub const FILTERED_BYTES: usize = CHANNELS * 2;

/// A 16-bit value read low byte first.
pub open spec fn word(low: u8, high: u8) -> int {
    high * 256 + low
}

/// Whether bit `n` of a 16-bit value is set.
pub open spec fn word_bit(value: u16, n: int) -> bool {
    (value >> (n as u16)) & 1u16 == 1u16
}

/// Whether the raw touch status reports an over-current fault (bit 15).
pub open spec fn over_current(raw: [u8; 2]) -> bool {
    word(raw@[0], raw@[1]) >= 0x8000
}

/// Whether the raw touch status reports the electrode as touched.
pub open spec fn touched(raw: [u8; 2], electrode: int) -> bool {
    electrode < CHANNELS && word_bit(word(raw@[0], raw@[1]) as u16, electrode)
}

/// Whether `status` is the touch status that the raw bytes hold.
pub open spec fn status_of(raw: [u8; 2], status: u16) -> bool {
    &&& status == word(raw@[0], raw@[1]) % 4096
    &&& forall|n: int| 0 <= n < 16 ==> #[trigger] word_bit(status, n) == touched(raw, n)
}

/// Whether `out` is the filtered data that the raw bytes hold for `count` enabled
/// electrodes.
pub open spec fn filtered_of(count: int, raw: Seq<u8>, out: Seq<u16>) -> bool {
    forall|i: int|
        0 <= i < CHANNELS ==> #[trigger] out[i] == (if i < count {
            word(raw[i * 2], raw[i * 2 + 1])
        } else {
            0
        })
}

/// Whether `out` is the baseline that the raw bytes hold for `count` enabled
/// electrodes.
pub open spec fn baseline_of(count: int, raw: Seq<u8>, out: Seq<u8>) -> bool {
    forall|i: int|
        0 <= i < CHANNELS ==> #[trigger] out[i] == (if i < count {
            raw[i]
        } else {
            0
        })
}

/// An MPR121 on an I2C bus.
pub struct Mpr121 {
    address: u8,
    config: Mpr121Config,
}

impl Mpr121 {
    #[verifier::type_invariant]
    spec fn wf(self) -> bool {
        self.config.electrode.electrode_count <= CHANNELS
    }

    /// The bus address of the device.
    pub closed spec fn address(self) -> u8 {
        self.address
    }

    /// The configuration of the device.
    pub closed spec fn configuration(self) -> Mpr121Config {
        self.config
    }

    /// Create and configure an MPR121 at [`DEFAULT_ADDRESS`].
    ///
    /// Runs a soft reset followed by the full configuration sequence, leaving
    /// the device in run mode.
    pub fn new<E>(config: Mpr121Config) -> (r: Result<WriteSequence<Mpr121>, Mpr121Error<E>>)
        ensures
            config.electrode.electrode_count > CHANNELS <==> r is Err,
            r matches Err(e) ==> e == Mpr121Error::<E>::InvalidElectrodeCount,
            r matches Ok(sequence) ==> {
                &&& sequence.address() == DEFAULT_ADDRESS
                &&& sequence.pending() == config.writes()
                &&& sequence.outcome().address() == DEFAULT_ADDRESS
                &&& sequence.outcome().configuration() == config
            },
    {
        Self::new_with_address(DEFAULT_ADDRESS, config)
    }

    /// Create and configure an MPR121 at an explicit I2C address.
    pub fn new_with_address<E>(address: u8, config: Mpr121Config) -> (r: Result<
        WriteSequence<Mpr121>,
        Mpr121Error<E>,
    >)
        ensures
            config.electrode.electrode_count > CHANNELS <==> r is Err,
            r matches Err(e) ==> e == Mpr121Error::<E>::InvalidElectrodeCount,
            r matches Ok(sequence) ==> {
                &&& sequence.address() == address
                &&& sequence.pending() == config.writes()
                &&& sequence.outcome().address() == address
                &&& sequence.outcome().configuration() == config
            },
    {
        if config.electrode.electrode_count > CHANNELS as u8 {
            return Err(Mpr121Error::InvalidElectrodeCount);
        }
        let writes: Vec<RegisterWrite> = config.configuration_writes();
        Ok(WriteSequence::start(address, writes, Mpr121 { address, config }))
    }

    /// Soft-reset the device (returns it to stop mode with default registers).
    pub fn soft_reset(&self) -> (sequence: WriteSequence<()>)
        ensures
            sequence.address() == self.address(),
            sequence.pending() == seq![
                RegisterWrite { reg: REG_SOFT_RESET, val: SOFT_RESET_MAGIC },
            ],
    {
        let mut writes: Vec<RegisterWrite> = Vec::new();
        writes.push(RegisterWrite::new(REG_SOFT_RESET, SOFT_RESET_MAGIC));
        assert(writes@ =~= seq![RegisterWrite { reg: REG_SOFT_RESET, val: SOFT_RESET_MAGIC }]);
        WriteSequence::start(self.address, writes, ())
    }

    /// Run-mode ECR value derived from the electrode config.
    fn run_ecr(&self) -> (ecr: u8)
        ensures
            ecr == self.configuration().electrode.ecr(),
    {
        self.config.electrode.run_ecr()
    }

    /// The read of the touch status.
    pub open spec fn status_read(self) -> Option<BlockRead> {
        Some(BlockRead { address: self.address(), start_reg: REG_TOUCH_STATUS_L, len: 2 })
    }

    /// The read of the filtered data: two bytes for each enabled electrode.
    pub open spec fn filtered_read(self) -> Option<BlockRead> {
        let count = self.configuration().electrode.electrode_count;
        if count == 0 {
            None
        } else {
            Some(
                BlockRead {
                    address: self.address(),
                    start_reg: REG_FILTERED_DATA_BASE,
                    len: (count * 2) as usize,
                },
            )
        }
    }

    /// The read of the baseline: one byte for each enabled electrode.
    pub open spec fn baseline_read(self) -> Option<BlockRead> {
        let count = self.configuration().electrode.electrode_count;
        if count == 0 {
            None
        } else {
            Some(
                BlockRead {
                    address: self.address(),
                    start_reg: REG_BASELINE_BASE,
                    len: count as usize,
                },
            )
        }
    }

    /// Read a contiguous register block. An empty block needs no transfer.
    fn read_block(&self, start_reg: u8, len: usize) -> (request: Option<BlockRead>)
        ensures
            request == (if len == 0 {
                None
            } else {
                Some(BlockRead { address: self.address(), start_reg, len })
            }),
    {
        if len == 0 {
            return None;
        }
        Some(BlockRead { address: self.address, start_reg, len })
    }

    /// The read that [`Self::touch_status`] and [`Self::is_touched`] take the
    /// reply of.
    pub fn touch_status_request(&self) -> (request: Option<BlockRead>)
        ensures
            request == Some(
                BlockRead { address: self.address(), start_reg: REG_TOUCH_STATUS_L, len: 2 },
            ),
            request == self.status_read(),
    {
        self.read_block(REG_TOUCH_STATUS_L, 2)
    }

    /// The touch-status bitmask (bit `N` = electrode `N` touched), from the reply
    /// to [`Self::touch_status_request`].
    ///
    /// Returns [`Mpr121Error::OverCurrent`] if the over-current fault bit is set.
    pub fn touch_status<E>(&self, reply: Result<[u8; 2], E>) -> (r: Result<u16, Mpr121Error<E>>)
        ensures
            match reply {
                Err(e) => r == Err::<u16, Mpr121Error<E>>(Mpr121Error::I2c(e)),
                Ok(raw) => if over_current(raw) {
                    r == Err::<u16, Mpr121Error<E>>(Mpr121Error::OverCurrent)
                } else {
                    &&& r matches Ok(status)
                    &&& status == word(raw@[0], raw@[1]) % 4096
                    &&& forall|n: int| 0 <= n < 16 ==> #[trigger] word_bit(status, n) == touched(raw, n)
                },
            },
            reply matches Ok(raw) ==> (raw@[1] >= 128 <==> r is Err),
            reply matches Ok(raw) ==> (r matches Ok(status) ==> status_of(raw, status) && status == (
            raw@[1] as int % 16) * 256 + raw@[0]),
    {
        match reply {
            Err(e) => Err(Mpr121Error::from(e)),
            Ok(raw) => {
                let low: u16 = raw[0] as u16;
                let high: u16 = raw[1] as u16;
                let status: u16 = (high << 8u16) | low;
                assert((high << 8u16) | low == high * 256 + low) by (bit_vector)
                    requires
                        low < 256,
                        high < 256,
                ;
                assert((status & (1u16 << 15u16) != 0) == (status >= 0x8000)) by (bit_vector);
                if status & (1u16 << 15u16) != 0 {
                    return Err(Mpr121Error::OverCurrent);
                }
                assert(status & 0x0FFF == status % 4096) by (bit_vector);
                assert forall|n: int| 0 <= n < 16 implies #[trigger] word_bit(status & 0x0FFF, n)
                    == touched(raw, n) by {
                    let k = n as u16;
                    assert(((status & 0x0FFF) >> k) & 1u16 == (if k < 12 {
                        (status >> k) & 1u16
                    } else {
                        0u16
                    })) by (bit_vector)
                        requires
                            k < 16,
                    ;
                }
                Ok(status & 0x0FFF)
            },
        }
    }

    /// Convenience wrapper: is a specific electrode currently touched?
    pub fn is_touched<E>(&self, electrode: u8, reply: Result<[u8; 2], E>) -> (r: Result<
        bool,
        Mpr121Error<E>,
    >)
        requires
            electrode < 16 || reply is Err || over_current(reply->Ok_0),
        ensures
            match reply {
                Err(e) => r == Err::<bool, Mpr121Error<E>>(Mpr121Error::I2c(e)),
                Ok(raw) => if over_current(raw) {
                    r == Err::<bool, Mpr121Error<E>>(Mpr121Error::OverCurrent)
                } else {
                    r == Ok::<bool, Mpr121Error<E>>(touched(raw, electrode as int))
                },
            },
    {
        match self.touch_status(reply) {
            Err(e) => Err(e),
            Ok(status) => {
                let n: u16 = electrode as u16;
                assert((status & (1u16 << n) != 0) == ((status >> n) & 1u16 == 1u16))
                    by (bit_vector)
                    requires
                        n < 16,
                ;
                assert(word_bit(status, electrode as int) == touched(reply->Ok_0, electrode as int));
                Ok(status & (1u16 << n) != 0)
            },
        }
    }

    /// The read that [`Self::read_filtered`] takes the reply of; none when no
    /// electrode is enabled.
    pub fn read_filtered_request(&self) -> (request: Option<BlockRead>)
        ensures
            ({
                let count = self.configuration().electrode.electrode_count;
                request == (if count == 0 {
                    None
                } else {
                    Some(
                        BlockRead {
                            address: self.address(),
                            start_reg: REG_FILTERED_DATA_BASE,
                            len: (count * 2) as usize,
                        },
                    )
                })
            }),
            request matches Some(read) ==> read.len <= FILTERED_BYTES,
            request == self.filtered_read(),
    {
        proof {
            use_type_invariant(self);
        }
        self.read_block(REG_FILTERED_DATA_BASE, self.config.electrode.electrode_count as usize * 2)
    }

    /// The 10-bit filtered electrode data for all [`CHANNELS`] channels, from the
    /// reply to [`Self::read_filtered_request`].
    ///
    /// Only the enabled electrodes are read from the device; unread channels
    /// are left as `0`.
    pub fn read_filtered<E>(&self, reply: Result<[u8; FILTERED_BYTES], E>) -> (r: Result<
        [u16; CHANNELS],
        Mpr121Error<E>,
    >)
        ensures
            match reply {
                Err(e) => r == Err::<[u16; CHANNELS], Mpr121Error<E>>(Mpr121Error::I2c(e)),
                Ok(raw) => {
                    &&& r matches Ok(out)
                    &&& forall|i: int|
                        0 <= i < CHANNELS ==> #[trigger] out@[i] == (if i
                            < self.configuration().electrode.electrode_count {
                            word(raw@[i * 2], raw@[i * 2 + 1])
                        } else {
                            0
                        })
                },
            },
            reply matches Ok(raw) ==> filtered_of(
                self.configuration().electrode.electrode_count as int,
                raw@,
                r->Ok_0@,
            ),
    {
        proof {
            use_type_invariant(self);
        }
        match reply {
            Err(e) => Err(Mpr121Error::from(e)),
            Ok(raw) => {
                let count: usize = self.config.electrode.electrode_count as usize;
                let mut out: [u16; CHANNELS] = [0u16; CHANNELS];
                let mut i: usize = 0;
                while i < count
                    invariant
                        i <= count <= CHANNELS,
                        forall|k: int|
                            0 <= k < CHANNELS ==> #[trigger] out@[k] == (if k < i {
                                word(raw@[k * 2], raw@[k * 2 + 1])
                            } else {
                                0
                            }),
                    decreases count - i,
                {
                    let lo: u16 = raw[i * 2] as u16;
                    let hi: u16 = raw[i * 2 + 1] as u16;
                    assert((hi << 8u16) | lo == hi * 256 + lo) by (bit_vector)
                        requires
                            lo < 256,
                            hi < 256,
                    ;
                    out[i] = (hi << 8u16) | lo;
                    i += 1;
                }
                Ok(out)
            },
        }
    }

    /// The read that [`Self::read_baseline`] takes the reply of; none when no
    /// electrode is enabled.
    pub fn read_baseline_request(&self) -> (request: Option<BlockRead>)
        ensures
            ({
                let count = self.configuration().electrode.electrode_count;
                request == (if count == 0 {
                    None
                } else {
                    Some(
                        BlockRead {
                            address: self.address(),
                            start_reg: REG_BASELINE_BASE,
                            len: count as usize,
                        },
                    )
                })
            }),
            request matches Some(read) ==> read.len <= CHANNELS,
            request == self.baseline_read(),
    {
        proof {
            use_type_invariant(self);
        }
        self.read_block(REG_BASELINE_BASE, self.config.electrode.electrode_count as usize)
    }

    /// The 8-bit baseline values for all [`CHANNELS`] channels, from the reply to
    /// [`Self::read_baseline_request`].
    ///
    /// Left-shift a baseline value by 2 to compare it against 10-bit filtered
    /// data. Only enabled electrodes are read; the rest stay `0`.
    pub fn read_baseline<E>(&self, reply: Result<[u8; CHANNELS], E>) -> (r: Result<
        [u8; CHANNELS],
        Mpr121Error<E>,
    >)
        ensures
            match reply {
                Err(e) => r == Err::<[u8; CHANNELS], Mpr121Error<E>>(Mpr121Error::I2c(e)),
                Ok(raw) => {
                    &&& r matches Ok(out)
                    &&& forall|i: int|
                        0 <= i < CHANNELS ==> #[trigger] out@[i] == (if i
                            < self.configuration().electrode.electrode_count {
                            raw@[i]
                        } else {
                            0
                        })
                },
            },
            reply matches Ok(raw) ==> baseline_of(
                self.configuration().electrode.electrode_count as int,
                raw@,
                r->Ok_0@,
            ),
    {
        proof {
            use_type_invariant(self);
        }
        match reply {
            Err(e) => Err(Mpr121Error::from(e)),
            Ok(raw) => {
                let count: usize = self.config.electrode.electrode_count as usize;
                let mut out: [u8; CHANNELS] = [0u8; CHANNELS];
                let mut i: usize = 0;
                while i < count
                    invariant
                        i <= count <= CHANNELS,
                        forall|k: int|
                            0 <= k < CHANNELS ==> #[trigger] out@[k] == (if k < i {
                                raw@[k]
                            } else {
                                0
                            }),
                    decreases count - i,
                {
                    out[i] = raw[i];
                    i += 1;
                }
                Ok(out)
            },
        }
    }

    /// The writes that set one electrode's thresholds.
    pub open spec fn threshold_writes(self, electrode: int, touch: u8, release: u8) -> Seq<
        RegisterWrite,
    > {
        seq![
            RegisterWrite { reg: REG_ECR, val: 0x00 },
            RegisterWrite { reg: (REG_TOUCH_THRESHOLD_BASE + 2 * electrode) as u8, val: touch },
            RegisterWrite {
                reg: (REG_TOUCH_THRESHOLD_BASE + 2 * electrode + 1) as u8,
                val: release,
            },
            RegisterWrite { reg: REG_ECR, val: self.configuration().electrode.ecr() as u8 },
        ]
    }

    /// Set per-electrode touch/release thresholds, overriding the global config.
    ///
    /// The device is briefly returned to stop mode (required to write config
    /// registers) and then back to run mode.
    pub fn set_threshold<E>(&self, electrode: u8, touch: u8, release: u8) -> (r: Result<
        WriteSequence<()>,
        Mpr121Error<E>,
    >)
        ensures
            electrode >= self.configuration().electrode.electrode_count <==> r is Err,
            r matches Err(e) ==> e == Mpr121Error::<E>::InvalidElectrodeCount,
            r matches Ok(sequence) ==> {
                &&& sequence.address() == self.address()
                &&& sequence.pending() == self.threshold_writes(electrode as int, touch, release)
            },
    {
        proof {
            use_type_invariant(self);
        }
        if electrode >= self.config.electrode.electrode_count {
            return Err(Mpr121Error::InvalidElectrodeCount);
        }
        let mut writes: Vec<RegisterWrite> = Vec::new();
        // Config registers can only be written in stop mode.
        writes.push(RegisterWrite::new(REG_ECR, 0x00));
        let base: u8 = REG_TOUCH_THRESHOLD_BASE + electrode * 2;
        writes.push(RegisterWrite::new(base, touch));
        writes.push(RegisterWrite::new(base + 1, release));
        // Re-enter run mode.
        writes.push(RegisterWrite::new(REG_ECR, self.run_ecr()));
        assert(writes@ =~= self.threshold_writes(electrode as int, touch, release));
        Ok(WriteSequence::start(self.address, writes, ()))
    }

    /// Soft-reset and reapply the original configuration.
    pub fn reset(&self) -> (sequence: WriteSequence<()>)
        ensures
            sequence.address() == self.address(),
            sequence.pending() == self.configuration().writes(),
    {
        proof {
            use_type_invariant(self);
        }
        let writes: Vec<RegisterWrite> = self.config.configuration_writes();
        WriteSequence::start(self.address, writes, ())
    }

    /// The configuration this device was initialised with.
    pub fn config(&self) -> (config: &Mpr121Config)
        ensures
            *config == self.configuration(),
    {
        &self.config
    }
}

/// Whether `states` are the sequences met while `steps`, all writes that went
/// well, were taken from the first of them.
pub open spec fn is_run<T, E>(states: Seq<WriteSequence<T>>, steps: Seq<WriteStep<T, E>>) -> bool {
    &&& states.len() == steps.len() + 1
    &&& forall|i: int|
        #![trigger steps[i]]
        0 <= i < steps.len() ==> {
            &&& is_step(states[i], Ok::<(), E>(()), steps[i])
            &&& steps[i] matches WriteStep::Write { rest, .. }
            &&& rest == states[i + 1]
        }
}

/// The writes of a sequence go out in order, each once and to its address, and
/// the sequence succeeds exactly when all of them have.
pub proof fn law_writes_go_out_in_order<T, E>(
    states: Seq<WriteSequence<T>>,
    steps: Seq<WriteStep<T, E>>,
    last: Result<(), E>,
    step: WriteStep<T, E>,
)
    requires
        is_run(states, steps),
        is_step(states.last(), last, step),
    ensures
        steps.len() <= states[0].pending().len(),
        forall|i: int|
            0 <= i < steps.len() ==> {
                &&& #[trigger] steps[i] matches WriteStep::Write { address, bytes, .. }
                &&& address == states[0].address()
                &&& bytes@ == seq![states[0].pending()[i].reg, states[0].pending()[i].val]
            },
        (step matches WriteStep::Done(Ok(_))) <==> last is Ok && steps.len()
            == states[0].pending().len(),
        step matches WriteStep::Done(Ok(outcome)) ==> outcome == states[0].outcome(),
        step matches WriteStep::Done(Err(e)) ==> last is Err && e == Mpr121Error::I2c(
            last->Err_0,
        ),
        last matches Err(e) ==> step == WriteStep::<T, E>::Done(Err(Mpr121Error::I2c(e))),
        last is Ok && steps.len() < states[0].pending().len() ==> {
            let w = states[0].pending()[steps.len() as int];
            &&& step matches WriteStep::Write { address, bytes, .. }
            &&& address == states[0].address()
            &&& bytes@[0] == w.reg
            &&& bytes@[1] == w.val
        },
{
    lemma_run_prefix(states, steps, steps.len());
    assert forall|i: int| 0 <= i < steps.len() implies {
        &&& #[trigger] steps[i] matches WriteStep::Write { address, bytes, .. }
        &&& address == states[0].address()
        &&& bytes@ == seq![states[0].pending()[i].reg, states[0].pending()[i].val]
    } by {
        lemma_run_prefix(states, steps, i as nat);
    }
}

proof fn lemma_run_prefix<T, E>(
    states: Seq<WriteSequence<T>>,
    steps: Seq<WriteStep<T, E>>,
    n: nat,
)
    requires
        is_run(states, steps),
        n <= steps.len(),
    ensures
        n <= states[0].pending().len(),
        states[n as int].pending() == states[0].pending().skip(n as int),
        states[n as int].address() == states[0].address(),
        states[n as int].outcome() == states[0].outcome(),
    decreases n,
{
    if n == 0 {
        assert(states[0].pending().skip(0) =~= states[0].pending());
    } else {
        lemma_run_prefix(states, steps, (n - 1) as nat);
        assert(is_step(states[n - 1], Ok::<(), E>(()), steps[n - 1]));
        assert(states[0].pending().skip(n - 1).drop_first() =~= states[0].pending().skip(n as int));
    }
}

} // verus!
