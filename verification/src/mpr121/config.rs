//! Configuration of an MPR121.

use vstd::prelude::*;

verus! {

/// Number of physical electrode channels.
pub const CHANNELS: usize = 12;

/// Baseline filter parameters for rising, falling, and touched scenarios
/// (registers 0x2B-0x35).
///
/// Controls how the MPR121 tracks slow background capacitance drift.
#[derive(Clone, Copy, Debug)]
pub struct BaselineFilter {
    /// Max half delta, rising (1-63)
    pub mhd_rising: u8,
    /// Noise half delta amount, rising (1-63)
    pub nhd_rising: u8,
    /// Noise count limit, rising (0-255)
    pub ncl_rising: u8,
    /// Filter delay count limit, rising (0-255)
    pub fdl_rising: u8,
    /// Max half delta, falling (1-63)
    pub mhd_falling: u8,
    /// Noise half delta amount, falling (1-63)
    pub nhd_falling: u8,
    /// Noise count limit, falling (0-255)
    pub ncl_falling: u8,
    /// Filter delay count limit, falling (0-255)
    pub fdl_falling: u8,
    /// Noise half delta amount, touched (1-63)
    pub nhd_touched: u8,
    /// Noise count limit, touched (0-255)
    pub ncl_touched: u8,
    /// Filter delay count limit, touched (0-255)
    pub fdl_touched: u8,
}

impl BaselineFilter {
    /// The values that the datasheet recommends.
    pub open spec fn datasheet_values() -> Self {
        BaselineFilter {
            mhd_rising: 0x01,
            nhd_rising: 0x01,
            ncl_rising: 0x0E,
            fdl_rising: 0x00,
            mhd_falling: 0x01,
            nhd_falling: 0x05,
            ncl_falling: 0x01,
            fdl_falling: 0x00,
            nhd_touched: 0x01,
            ncl_touched: 0x00,
            fdl_touched: 0x00,
        }
    }

    /// Datasheet-recommended defaults.
    pub fn default() -> (filter: Self)
        ensures
            filter == Self::datasheet_values(),
    {
        Self {
            mhd_rising: 0x01,
            nhd_rising: 0x01,
            ncl_rising: 0x0E,
            fdl_rising: 0x00,
            mhd_falling: 0x01,
            nhd_falling: 0x05,
            ncl_falling: 0x01,
            fdl_falling: 0x00,
            nhd_touched: 0x01,
            ncl_touched: 0x00,
            fdl_touched: 0x00,
        }
    }
}

/// Global touch/release thresholds applied to all enabled electrodes.
///
/// Touch fires when `baseline - filtered > touch`; release fires when
/// `baseline - filtered < release`. Typical range: touch 4-16, release
/// slightly less than touch.
#[derive(Clone, Copy, Debug)]
pub struct ThresholdConfig {
    pub touch: u8,
    pub release: u8,
}

impl ThresholdConfig {
    pub fn new(touch: u8, release: u8) -> (thresholds: Self)
        ensures
            thresholds.touch == touch,
            thresholds.release == release,
    {
        Self { touch, release }
    }
}

/// Consecutive detections required before a touch/release status change takes
/// effect. Higher values reject noise at the cost of latency
/// (`delay = ESI x SFI x debounce`).
#[derive(Clone, Copy, Debug)]
pub enum Debounce {
    Off,
    Count1,
    Count2,
    Count3,
    Count4,
    Count5,
    Count6,
    Count7,
}

impl Debounce {
    /// The register field.
    pub open spec fn code(self) -> u8 {
        match self {
            Debounce::Off => 0,
            Debounce::Count1 => 1,
            Debounce::Count2 => 2,
            Debounce::Count3 => 3,
            Debounce::Count4 => 4,
            Debounce::Count5 => 5,
            Debounce::Count6 => 6,
            Debounce::Count7 => 7,
        }
    }

    /// The register field.
    pub fn bits(self) -> (bits: u8)
        ensures
            bits == self.code(),
    {
        match self {
            Debounce::Off => 0,
            Debounce::Count1 => 1,
            Debounce::Count2 => 2,
            Debounce::Count3 => 3,
            Debounce::Count4 => 4,
            Debounce::Count5 => 5,
            Debounce::Count6 => 6,
            Debounce::Count7 => 7,
        }
    }
}

/// Separate debounce counts for touch and release transitions.
#[derive(Clone, Copy, Debug)]
pub struct DebounceConfig {
    pub touch: Debounce,
    pub release: Debounce,
}

impl DebounceConfig {
    pub fn off() -> (debounce: Self)
        ensures
            debounce.touch == Debounce::Off,
            debounce.release == Debounce::Off,
    {
        Self { touch: Debounce::Off, release: Debounce::Off }
    }
}

/// First filter iterations: number of ADC samples averaged in the first-level
/// filter (register 0x5C bits [7:6]).
#[derive(Clone, Copy, Debug)]
pub enum FirstFilterIterations {
    Samples6,
    Samples10,
    Samples18,
    Samples34,
}

impl FirstFilterIterations {
    /// The register field.
    pub open spec fn code(self) -> u8 {
        match self {
            FirstFilterIterations::Samples6 => 0,
            FirstFilterIterations::Samples10 => 1,
            FirstFilterIterations::Samples18 => 2,
            FirstFilterIterations::Samples34 => 3,
        }
    }

    /// The register field.
    pub fn bits(self) -> (bits: u8)
        ensures
            bits == self.code(),
    {
        match self {
            FirstFilterIterations::Samples6 => 0,
            FirstFilterIterations::Samples10 => 1,
            FirstFilterIterations::Samples18 => 2,
            FirstFilterIterations::Samples34 => 3,
        }
    }
}

/// Global charge/discharge time per measurement (register 0x5D bits [7:5]).
/// Time = `2^(n-2)` us for field value `n`.
#[derive(Clone, Copy, Debug)]
pub enum ChargeDischargeTime {
    Disabled,
    Us0_5,
    Us1,
    Us2,
    Us4,
    Us8,
    Us16,
    Us32,
}

impl ChargeDischargeTime {
    /// The charge/discharge time in units of half a microsecond; 0 when disabled.
    pub open spec fn half_micros(self) -> nat {
        match self {
            ChargeDischargeTime::Disabled => 0,
            ChargeDischargeTime::Us0_5 => 1,
            ChargeDischargeTime::Us1 => 2,
            ChargeDischargeTime::Us2 => 4,
            ChargeDischargeTime::Us4 => 8,
            ChargeDischargeTime::Us8 => 16,
            ChargeDischargeTime::Us16 => 32,
            ChargeDischargeTime::Us32 => 64,
        }
    }

    /// The register field.
    pub open spec fn code(self) -> u8 {
        match self {
            ChargeDischargeTime::Disabled => 0,
            ChargeDischargeTime::Us0_5 => 1,
            ChargeDischargeTime::Us1 => 2,
            ChargeDischargeTime::Us2 => 3,
            ChargeDischargeTime::Us4 => 4,
            ChargeDischargeTime::Us8 => 5,
            ChargeDischargeTime::Us16 => 6,
            ChargeDischargeTime::Us32 => 7,
        }
    }

    /// The register field.
    pub fn bits(self) -> (bits: u8)
        ensures
            bits == self.code(),
    {
        match self {
            ChargeDischargeTime::Disabled => 0,
            ChargeDischargeTime::Us0_5 => 1,
            ChargeDischargeTime::Us1 => 2,
            ChargeDischargeTime::Us2 => 3,
            ChargeDischargeTime::Us4 => 4,
            ChargeDischargeTime::Us8 => 5,
            ChargeDischargeTime::Us16 => 6,
            ChargeDischargeTime::Us32 => 7,
        }
    }
}

/// Second filter iterations: number of samples for the second-level filter
/// (register 0x5D bits [4:3]).
#[derive(Clone, Copy, Debug)]
pub enum SecondFilterIterations {
    Samples4,
    Samples6,
    Samples10,
    Samples18,
}

impl SecondFilterIterations {
    /// The register field.
    pub open spec fn code(self) -> u8 {
        match self {
            SecondFilterIterations::Samples4 => 0,
            SecondFilterIterations::Samples6 => 1,
            SecondFilterIterations::Samples10 => 2,
            SecondFilterIterations::Samples18 => 3,
        }
    }

    /// The register field.
    pub fn bits(self) -> (bits: u8)
        ensures
            bits == self.code(),
    {
        match self {
            SecondFilterIterations::Samples4 => 0,
            SecondFilterIterations::Samples6 => 1,
            SecondFilterIterations::Samples10 => 2,
            SecondFilterIterations::Samples18 => 3,
        }
    }
}

/// Electrode sample interval: period between second-level filter samples
/// (register 0x5D bits [2:0]). Period = `2^n` ms for field value `n`.
#[derive(Clone, Copy, Debug)]
pub enum SampleInterval {
    Ms1,
    Ms2,
    Ms4,
    Ms8,
    Ms16,
    Ms32,
    Ms64,
    Ms128,
}

impl SampleInterval {
    /// The period in milliseconds.
    pub open spec fn millis(self) -> nat {
        match self {
            SampleInterval::Ms1 => 1,
            SampleInterval::Ms2 => 2,
            SampleInterval::Ms4 => 4,
            SampleInterval::Ms8 => 8,
            SampleInterval::Ms16 => 16,
            SampleInterval::Ms32 => 32,
            SampleInterval::Ms64 => 64,
            SampleInterval::Ms128 => 128,
        }
    }

    /// The register field.
    pub open spec fn code(self) -> u8 {
        match self {
            SampleInterval::Ms1 => 0,
            SampleInterval::Ms2 => 1,
            SampleInterval::Ms4 => 2,
            SampleInterval::Ms8 => 3,
            SampleInterval::Ms16 => 4,
            SampleInterval::Ms32 => 5,
            SampleInterval::Ms64 => 6,
            SampleInterval::Ms128 => 7,
        }
    }

    /// The register field.
    pub fn bits(self) -> (bits: u8)
        ensures
            bits == self.code(),
    {
        match self {
            SampleInterval::Ms1 => 0,
            SampleInterval::Ms2 => 1,
            SampleInterval::Ms4 => 2,
            SampleInterval::Ms8 => 3,
            SampleInterval::Ms16 => 4,
            SampleInterval::Ms32 => 5,
            SampleInterval::Ms64 => 6,
            SampleInterval::Ms128 => 7,
        }
    }
}

/// Analog front-end and digital filter configuration.
#[derive(Clone, Copy, Debug)]
pub struct AfeConfig {
    /// First-level filter sample count
    pub ffi: FirstFilterIterations,
    /// Global charge/discharge current in uA (0 = disabled, 1-63)
    pub cdc: u8,
    /// Global charge/discharge time
    pub cdt: ChargeDischargeTime,
    /// Second-level filter sample count
    pub sfi: SecondFilterIterations,
    /// Electrode sample interval
    pub esi: SampleInterval,
}

impl AfeConfig {
    /// The values used unless a configuration says otherwise.
    pub open spec fn standard_values() -> Self {
        AfeConfig {
            ffi: FirstFilterIterations::Samples34,
            cdc: 63,
            cdt: ChargeDischargeTime::Us0_5,
            sfi: SecondFilterIterations::Samples10,
            esi: SampleInterval::Ms8,
        }
    }

    pub fn default() -> (afe: Self)
        ensures
            afe == Self::standard_values(),
    {
        Self {
            ffi: FirstFilterIterations::Samples34,
            cdc: 63,
            cdt: ChargeDischargeTime::Us0_5,
            sfi: SecondFilterIterations::Samples10,
            esi: SampleInterval::Ms8,
        }
    }
}

/// Controls baseline tracking and how the initial baseline value is loaded on
/// entering run mode (ECR bits [7:6]).
#[derive(Clone, Copy, Debug)]
pub enum CalibrationLock {
    /// Tracking enabled, initial = current baseline register value
    TrackingCurrent,
    /// Baseline tracking disabled
    Disabled,
    /// Tracking enabled, initial = 5 high bits of first electrode read
    TrackingFast,
    /// Tracking enabled, initial = full 10 bits of first electrode read
    TrackingFull,
}

impl CalibrationLock {
    /// The register field.
    pub open spec fn code(self) -> u8 {
        match self {
            CalibrationLock::TrackingCurrent => 0,
            CalibrationLock::Disabled => 1,
            CalibrationLock::TrackingFast => 2,
            CalibrationLock::TrackingFull => 3,
        }
    }

    /// The register field.
    pub fn bits(self) -> (bits: u8)
        ensures
            bits == self.code(),
    {
        match self {
            CalibrationLock::TrackingCurrent => 0,
            CalibrationLock::Disabled => 1,
            CalibrationLock::TrackingFast => 2,
            CalibrationLock::TrackingFull => 3,
        }
    }
}

/// Proximity detection mode: which electrodes are combined for the 13th
/// proximity channel (ECR bits [5:4]).
#[derive(Clone, Copy, Debug)]
pub enum ProximityMode {
    Disabled,
    Ele0To1,
    Ele0To3,
    Ele0To11,
}

impl ProximityMode {
    /// The register field.
    pub open spec fn code(self) -> u8 {
        match self {
            ProximityMode::Disabled => 0,
            ProximityMode::Ele0To1 => 1,
            ProximityMode::Ele0To3 => 2,
            ProximityMode::Ele0To11 => 3,
        }
    }

    /// The register field.
    pub fn bits(self) -> (bits: u8)
        ensures
            bits == self.code(),
    {
        match self {
            ProximityMode::Disabled => 0,
            ProximityMode::Ele0To1 => 1,
            ProximityMode::Ele0To3 => 2,
            ProximityMode::Ele0To11 => 3,
        }
    }
}

/// Electrode configuration register fields.
#[derive(Clone, Copy, Debug)]
pub struct ElectrodeConfig {
    /// Baseline tracking mode
    pub calibration: CalibrationLock,
    /// Proximity detection mode
    pub proximity: ProximityMode,
    /// Number of electrodes to enable (0-12)
    pub electrode_count: u8,
}

impl ElectrodeConfig {
    pub fn new(count: u8) -> (electrode: Self)
        ensures
            electrode == (ElectrodeConfig {
                calibration: CalibrationLock::TrackingFast,
                proximity: ProximityMode::Disabled,
                electrode_count: count,
            }),
    {
        Self {
            calibration: CalibrationLock::TrackingFast,
            proximity: ProximityMode::Disabled,
            electrode_count: count,
        }
    }
}

/// Number of retries for auto-config before the out-of-range flag is set
/// (register 0x7B bits [3:2]).
#[derive(Clone, Copy, Debug)]
pub enum AutoConfigRetry {
    NoRetry,
    Retry2,
    Retry4,
    Retry8,
}

impl AutoConfigRetry {
    /// The register field.
    pub open spec fn code(self) -> u8 {
        match self {
            AutoConfigRetry::NoRetry => 0,
            AutoConfigRetry::Retry2 => 1,
            AutoConfigRetry::Retry4 => 2,
            AutoConfigRetry::Retry8 => 3,
        }
    }

    /// The register field.
    pub fn bits(self) -> (bits: u8)
        ensures
            bits == self.code(),
    {
        match self {
            AutoConfigRetry::NoRetry => 0,
            AutoConfigRetry::Retry2 => 1,
            AutoConfigRetry::Retry4 => 2,
            AutoConfigRetry::Retry8 => 3,
        }
    }
}

/// Auto-configuration settings (registers 0x7B-0x7F).
///
/// When enabled, the MPR121 automatically searches for optimal CDC/CDT values
/// per channel on each stop-to-run transition.
#[derive(Clone, Copy, Debug)]
pub struct AutoConfig {
    /// Enable auto-configuration on stop-to-run transition
    pub enabled: u8,
    /// Enable auto-reconfiguration for out-of-range channels
    pub reconfig_enabled: u8,
    /// Skip charge-time (CDT) search
    pub skip_charge_time: u8,
    /// Retry count on failure
    pub retry: AutoConfigRetry,
    /// Upper side limit (8 MSB of 10-bit target, typ. (VDD-0.7)/VDD x 256)
    pub upper_limit: u8,
    /// Target level (typ. USL x 0.9)
    pub target_level: u8,
    /// Lower side limit (typ. USL x 0.65)
    pub lower_limit: u8,
}

/// Upper side limit for a supply voltage in millivolts:
/// `(VDD - 0.7) / VDD x 256`, rounded down.
pub open spec fn upper_side_limit(vdd_mv: int) -> int {
    (vdd_mv - 700) * 256 / vdd_mv
}

impl AutoConfig {
    /// No auto-configuration: every field is zero.
    pub open spec fn disabled_values() -> Self {
        AutoConfig {
            enabled: 0,
            reconfig_enabled: 0,
            skip_charge_time: 0,
            retry: AutoConfigRetry::NoRetry,
            upper_limit: 0,
            target_level: 0,
            lower_limit: 0,
        }
    }

    pub fn disabled() -> (auto_config: Self)
        ensures
            auto_config == Self::disabled_values(),
    {
        Self {
            enabled: 0,
            reconfig_enabled: 0,
            skip_charge_time: 0,
            retry: AutoConfigRetry::NoRetry,
            upper_limit: 0,
            target_level: 0,
            lower_limit: 0,
        }
    }

    /// Whether these are the standard settings for a supply voltage in millivolts.
    pub open spec fn suits_supply(self, vdd_mv: int) -> bool {
        &&& self.enabled == 1
        &&& self.reconfig_enabled == 0
        &&& self.skip_charge_time == 0
        &&& self.retry == AutoConfigRetry::Retry2
        &&& self.upper_limit == upper_side_limit(vdd_mv)
        &&& self.target_level == self.upper_limit as int * 9 / 10
        &&& self.lower_limit == self.upper_limit as int * 65 / 100
    }

    /// Standard auto-config for a given supply voltage, which is at least 0.7 V.
    ///
    /// `USL = (VDD - 0.7) / VDD x 256`, `TL = USL x 0.9`, `LSL = USL x 0.65`,
    /// each rounded down.
    /// Auto-reconfig (ARE) is disabled: disconnected/out-of-range electrodes are
    /// left as-is after the initial search rather than triggering continuous
    /// retries.
    pub fn for_vdd_mv(vdd_mv: u16) -> (auto_config: Self)
        requires
            vdd_mv >= 700,
        ensures
            auto_config.enabled == 1,
            auto_config.reconfig_enabled == 0,
            auto_config.skip_charge_time == 0,
            auto_config.retry == AutoConfigRetry::Retry2,
            auto_config.upper_limit == upper_side_limit(vdd_mv as int),
            auto_config.target_level == auto_config.upper_limit as int * 9 / 10,
            auto_config.lower_limit == auto_config.upper_limit as int * 65 / 100,
            auto_config.suits_supply(vdd_mv as int),
    {
        proof {
            let v = vdd_mv as int;
            assert(0 <= (v - 700) * 256 / v < 256) by (nonlinear_arith)
                requires
                    v >= 700,
            ;
        }
        let usl: u8 = ((vdd_mv as u32 - 700) * 256 / vdd_mv as u32) as u8;
        let tl: u8 = (usl as u16 * 9 / 10) as u8;
        let lsl: u8 = (usl as u16 * 65 / 100) as u8;
        Self {
            enabled: 1,
            reconfig_enabled: 0,
            skip_charge_time: 0,
            retry: AutoConfigRetry::Retry2,
            upper_limit: usl,
            target_level: tl,
            lower_limit: lsl,
        }
    }
}

/// A complete MPR121 configuration.
#[derive(Clone, Copy, Debug)]
pub struct Mpr121Config {
    pub thresholds: ThresholdConfig,
    pub baseline: BaselineFilter,
    pub debounce: DebounceConfig,
    pub afe: AfeConfig,
    pub electrode: ElectrodeConfig,
    pub auto_config: AutoConfig,
}

impl Mpr121Config {
    /// All 12 electrodes enabled, manual (no auto-config) charge settings.
    pub fn default_12ch() -> (config: Self)
        ensures
            config.thresholds == (ThresholdConfig { touch: 2, release: 1 }),
            config.baseline == BaselineFilter::datasheet_values(),
            config.debounce == (DebounceConfig { touch: Debounce::Off, release: Debounce::Off }),
            config.afe == AfeConfig::standard_values(),
            config.electrode == (ElectrodeConfig {
                calibration: CalibrationLock::TrackingFast,
                proximity: ProximityMode::Disabled,
                electrode_count: 12,
            }),
            config.auto_config == AutoConfig::disabled_values(),
    {
        Self {
            thresholds: ThresholdConfig::new(2, 1),
            baseline: BaselineFilter::default(),
            debounce: DebounceConfig::off(),
            afe: AfeConfig::default(),
            electrode: ElectrodeConfig::new(12),
            auto_config: AutoConfig::disabled(),
        }
    }

    /// All 12 electrodes enabled with 3.3 V auto-configuration.
    pub fn auto_12ch_3v3() -> (config: Self)
        ensures
            config.thresholds == (ThresholdConfig { touch: 2, release: 1 }),
            config.baseline == BaselineFilter::datasheet_values(),
            config.debounce == (DebounceConfig { touch: Debounce::Off, release: Debounce::Off }),
            config.afe == AfeConfig::standard_values(),
            config.electrode == (ElectrodeConfig {
                calibration: CalibrationLock::TrackingFast,
                proximity: ProximityMode::Disabled,
                electrode_count: 12,
            }),
            config.auto_config == (AutoConfig {
                enabled: 1,
                reconfig_enabled: 0,
                skip_charge_time: 0,
                retry: AutoConfigRetry::Retry2,
                upper_limit: 201,
                target_level: 180,
                lower_limit: 130,
            }),
    {
        Self {
            thresholds: ThresholdConfig::new(2, 1),
            baseline: BaselineFilter::default(),
            debounce: DebounceConfig::off(),
            afe: AfeConfig::default(),
            electrode: ElectrodeConfig::new(12),
            auto_config: AutoConfig::for_vdd_mv(3300),
        }
    }
}

/// The auto-config limits are ordered: lower limit, target level, upper limit.
pub proof fn law_auto_config_limits_ordered(upper_limit: int)
    requires
        0 <= upper_limit,
    ensures
        upper_limit * 65 / 100 <= upper_limit * 9 / 10 <= upper_limit,
{
}

/// A higher supply voltage never lowers the upper side limit, and the limit
/// stays within its register.
pub proof fn law_upper_limit_grows_with_supply(low_mv: int, high_mv: int)
    requires
        700 <= low_mv <= high_mv,
    ensures
        0 <= upper_side_limit(low_mv) <= upper_side_limit(high_mv) < 256,
{
    let a = upper_side_limit(low_mv);
    let b = upper_side_limit(high_mv);
    assert(0 <= a && a * low_mv <= (low_mv - 700) * 256) by (nonlinear_arith)
        requires
            low_mv >= 700,
            a == (low_mv - 700) * 256 / low_mv,
    ;
    assert(b < 256 && (high_mv - 700) * 256 < (b + 1) * high_mv) by (nonlinear_arith)
        requires
            high_mv >= 700,
            b == (high_mv - 700) * 256 / high_mv,
    ;
    assert(a <= b) by (nonlinear_arith)
        requires
            700 <= low_mv <= high_mv,
            0 <= a,
            a * low_mv <= (low_mv - 700) * 256,
            b < 256,
            (high_mv - 700) * 256 < (b + 1) * high_mv,
    ;
}

/// Field value `n` of the sample interval stands for a period of `2^n` ms.
pub proof fn law_sample_interval_is_power_of_two(esi: SampleInterval)
    ensures
        esi.millis() == vstd::arithmetic::power2::pow2(esi.code() as nat),
        vstd::arithmetic::power2::pow2(esi.code() as nat) == (match esi {
            SampleInterval::Ms1 => 1nat,
            SampleInterval::Ms2 => 2,
            SampleInterval::Ms4 => 4,
            SampleInterval::Ms8 => 8,
            SampleInterval::Ms16 => 16,
            SampleInterval::Ms32 => 32,
            SampleInterval::Ms64 => 64,
            SampleInterval::Ms128 => 128,
        }),
        esi.code() < 8,
{
    vstd::arithmetic::power2::lemma2_to64();
}

/// Field value `n` of an enabled charge/discharge time stands for `2^(n-2)` us,
/// that is, `2^(n-1)` half microseconds.
pub proof fn law_charge_time_is_power_of_two(cdt: ChargeDischargeTime)
    requires
        cdt != ChargeDischargeTime::Disabled,
    ensures
        cdt.half_micros() == vstd::arithmetic::power2::pow2((cdt.code() - 1) as nat),
        1 <= cdt.code() < 8,
        vstd::arithmetic::power2::pow2((cdt.code() - 1) as nat) == (match cdt {
            ChargeDischargeTime::Disabled => 0nat,
            ChargeDischargeTime::Us0_5 => 1,
            ChargeDischargeTime::Us1 => 2,
            ChargeDischargeTime::Us2 => 4,
            ChargeDischargeTime::Us4 => 8,
            ChargeDischargeTime::Us8 => 16,
            ChargeDischargeTime::Us16 => 32,
            ChargeDischargeTime::Us32 => 64,
        }),
{
    vstd::arithmetic::power2::lemma2_to64();
}

/// The charge/discharge time field is zero exactly when charging is disabled.
pub proof fn law_charge_time_zero_is_disabled(cdt: ChargeDischargeTime)
    ensures
        cdt.code() == 0 <==> cdt == ChargeDischargeTime::Disabled,
{
}

/// The debounce field is the count that the variant names.
pub proof fn law_debounce_field_is_count(debounce: Debounce)
    ensures
        debounce.code() == (match debounce {
            Debounce::Off => 0u8,
            Debounce::Count1 => 1,
            Debounce::Count2 => 2,
            Debounce::Count3 => 3,
            Debounce::Count4 => 4,
            Debounce::Count5 => 5,
            Debounce::Count6 => 6,
            Debounce::Count7 => 7,
        }),
{
}

/// Field value `n` of the first filter stands for `2^(n+2) + 2` samples.
pub proof fn law_first_filter_samples(ffi: FirstFilterIterations)
    ensures
        ffi.code() < 4,
        vstd::arithmetic::power2::pow2((ffi.code() + 2) as nat) + 2 == (match ffi {
            FirstFilterIterations::Samples6 => 6nat,
            FirstFilterIterations::Samples10 => 10,
            FirstFilterIterations::Samples18 => 18,
            FirstFilterIterations::Samples34 => 34,
        }),
{
    vstd::arithmetic::power2::lemma2_to64();
}

/// Field value `n` of the second filter stands for `2^(n+1) + 2` samples.
pub proof fn law_second_filter_samples(sfi: SecondFilterIterations)
    ensures
        sfi.code() < 4,
        vstd::arithmetic::power2::pow2((sfi.code() + 1) as nat) + 2 == (match sfi {
            SecondFilterIterations::Samples4 => 4nat,
            SecondFilterIterations::Samples6 => 6,
            SecondFilterIterations::Samples10 => 10,
            SecondFilterIterations::Samples18 => 18,
        }),
{
    vstd::arithmetic::power2::lemma2_to64();
}

/// Field value `n` of the retry count stands for `2^n` retries, and 0 for none.
pub proof fn law_retry_field_is_logarithm(retry: AutoConfigRetry)
    ensures
        retry.code() == 0 <==> retry == AutoConfigRetry::NoRetry,
        retry != AutoConfigRetry::NoRetry ==> vstd::arithmetic::power2::pow2(retry.code() as nat)
            == (match retry {
            AutoConfigRetry::NoRetry => 0nat,
            AutoConfigRetry::Retry2 => 2,
            AutoConfigRetry::Retry4 => 4,
            AutoConfigRetry::Retry8 => 8,
        }),
        retry.code() < 4,
{
    vstd::arithmetic::power2::lemma2_to64();
}

/// The calibration field: 1 switches tracking off; of the others, which all track,
/// 0 keeps the current baseline, 2 loads the high bits and 3 all bits of the first
/// reading.
pub proof fn law_calibration_field(calibration: CalibrationLock)
    ensures
        calibration.code() == 1 <==> calibration == CalibrationLock::Disabled,
        calibration.code() == 0 <==> calibration == CalibrationLock::TrackingCurrent,
        calibration.code() == 2 <==> calibration == CalibrationLock::TrackingFast,
        calibration.code() == 3 <==> calibration == CalibrationLock::TrackingFull,
{
}

/// The proximity field grows with the number of electrodes that are combined.
pub proof fn law_proximity_field(proximity: ProximityMode)
    ensures
        proximity.code() == 0 <==> proximity == ProximityMode::Disabled,
        proximity.code() == 1 <==> proximity == ProximityMode::Ele0To1,
        proximity.code() == 2 <==> proximity == ProximityMode::Ele0To3,
        proximity.code() == 3 <==> proximity == ProximityMode::Ele0To11,
{
}

/// The standard settings for a supply voltage `V` in millivolts: the upper limit is
/// the largest whole number with `upper * V <= (V - 700) * 256`, the target level the
/// largest with `10 * target <= 9 * upper`, the lower limit the largest with
/// `100 * lower <= 65 * upper`; the search is on, with two retries, and neither
/// repeated nor cut short.
pub proof fn law_supply_settings_round_down(auto_config: AutoConfig, vdd_mv: int)
    requires
        auto_config.suits_supply(vdd_mv),
        vdd_mv >= 700,
    ensures
        auto_config.upper_limit * vdd_mv <= (vdd_mv - 700) * 256,
        (vdd_mv - 700) * 256 < (auto_config.upper_limit + 1) * vdd_mv,
        10 * auto_config.target_level <= 9 * auto_config.upper_limit,
        9 * auto_config.upper_limit < 10 * (auto_config.target_level + 1),
        100 * auto_config.lower_limit <= 65 * auto_config.upper_limit,
        65 * auto_config.upper_limit < 100 * (auto_config.lower_limit + 1),
        auto_config.enabled == 1,
        auto_config.reconfig_enabled == 0,
        auto_config.skip_charge_time == 0,
        auto_config.retry == AutoConfigRetry::Retry2,
{
    let u = auto_config.upper_limit as int;
    assert(u * vdd_mv <= (vdd_mv - 700) * 256 < (u + 1) * vdd_mv) by (nonlinear_arith)
        requires
            vdd_mv >= 700,
            u == (vdd_mv - 700) * 256 / vdd_mv,
    ;
}

/// Switched-off auto-configuration asks for nothing: every field is zero.
pub proof fn law_disabled_auto_config_is_zero()
    ensures
        ({
            let ac = AutoConfig::disabled_values();
            &&& ac.enabled == 0
            &&& ac.reconfig_enabled == 0
            &&& ac.skip_charge_time == 0
            &&& ac.retry == AutoConfigRetry::NoRetry
            &&& ac.upper_limit == 0
            &&& ac.target_level == 0
            &&& ac.lower_limit == 0
        }),
{
}

/// The default front end: the longest first filter, the full charge current of 63 uA
/// for half a microsecond, ten samples, one every 8 ms.
pub proof fn law_standard_front_end()
    ensures
        ({
            let afe = AfeConfig::standard_values();
            &&& afe.ffi == FirstFilterIterations::Samples34
            &&& afe.cdc == 63
            &&& afe.cdt == ChargeDischargeTime::Us0_5
            &&& afe.sfi == SecondFilterIterations::Samples10
            &&& afe.esi == SampleInterval::Ms8
        }),
{
}

/// The default baseline filter, register by register: the half deltas, which lie in
/// their range of 1 to 63, and the noise count and filter delay limits.
pub proof fn law_default_baseline_filter()
    ensures
        ({
            let bl = BaselineFilter::datasheet_values();
            &&& bl.mhd_rising == 1 && bl.mhd_falling == 1
            &&& bl.nhd_rising == 1 && bl.nhd_falling == 5 && bl.nhd_touched == 1
            &&& bl.ncl_rising == 14 && bl.ncl_falling == 1 && bl.ncl_touched == 0
            &&& bl.fdl_rising == 0 && bl.fdl_falling == 0 && bl.fdl_touched == 0
        }),
{
}

} // verus!
