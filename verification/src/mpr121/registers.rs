//! The MPR121 register map, and the register values that a configuration packs.

use crate::mpr121::config::AfeConfig;
use crate::mpr121::config::AutoConfig;
use crate::mpr121::config::CalibrationLock;
use crate::mpr121::config::DebounceConfig;
use crate::mpr121::config::ElectrodeConfig;
use crate::mpr121::config::FirstFilterIterations;
use crate::mpr121::config::Mpr121Config;
use vstd::prelude::*;

verus! {

pub const REG_TOUCH_STATUS_L: u8 = 0x00;

pub const REG_FILTERED_DATA_BASE: u8 = 0x04;

pub const REG_BASELINE_BASE: u8 = 0x1E;

pub const REG_MHD_RISING: u8 = 0x2B;

pub const REG_NHD_RISING: u8 = 0x2C;

pub const REG_NCL_RISING: u8 = 0x2D;

pub const REG_FDL_RISING: u8 = 0x2E;

pub const REG_MHD_FALLING: u8 = 0x2F;

pub const REG_NHD_FALLING: u8 = 0x30;

pub const REG_NCL_FALLING: u8 = 0x31;

pub const REG_FDL_FALLING: u8 = 0x32;

pub const REG_NHD_TOUCHED: u8 = 0x33;

pub const REG_NCL_TOUCHED: u8 = 0x34;

pub const REG_FDL_TOUCHED: u8 = 0x35;

pub const REG_TOUCH_THRESHOLD_BASE: u8 = 0x41;

pub const REG_DEBOUNCE: u8 = 0x5B;

pub const REG_AFE_CONFIG1: u8 = 0x5C;

pub const REG_AFE_CONFIG2: u8 = 0x5D;

pub const REG_ECR: u8 = 0x5E;

pub const REG_AUTOCONFIG0: u8 = 0x7B;

pub const REG_AUTOCONFIG1: u8 = 0x7C;

pub const REG_AUTOCONFIG_USL: u8 = 0x7D;

pub const REG_AUTOCONFIG_LSL: u8 = 0x7E;

pub const REG_AUTOCONFIG_TL: u8 = 0x7F;

pub const REG_SOFT_RESET: u8 = 0x80;

/// Soft-reset magic value written to [`REG_SOFT_RESET`].
pub const SOFT_RESET_MAGIC: u8 = 0x63;

/// One register write.
#[derive(Clone, Copy, Debug, PartialEq, Eq, Structural)]
pub struct RegisterWrite {
    /// The register.
    pub reg: u8,
    /// The value that it gets.
    pub val: u8,
}

impl RegisterWrite {
    /// Write `val` to `reg`.
    pub fn new(reg: u8, val: u8) -> (w: Self)
        ensures
            w.reg == reg,
            w.val == val,
    {
        Self { reg, val }
    }
}

impl ElectrodeConfig {
    /// The run-mode ECR value: CL [7:6] | ELEPROX_EN [5:4] | ELE_EN [3:0].
    pub open spec fn ecr(self) -> int {
        self.calibration.code() * 64 + self.proximity.code() * 16 + self.electrode_count as int % 16
    }

    /// The run-mode ECR value.
    pub fn run_ecr(&self) -> (ecr: u8)
        ensures
            ecr == self.ecr(),
    {
        let cl: u8 = self.calibration.bits();
        let prox: u8 = self.proximity.bits();
        let count: u8 = self.electrode_count;
        assert((cl << 6u8) | (prox << 4u8) | (count & 0x0F) == cl * 64 + prox * 16 + count % 16)
            by (bit_vector)
            requires
                cl < 4,
                prox < 4,
        ;
        (cl << 6u8) | (prox << 4u8) | (count & 0x0F)
    }
}

impl DebounceConfig {
    /// The debounce register: DR [6:4] | DT [2:0].
    pub open spec fn register(self) -> int {
        self.release.code() * 16 + self.touch.code()
    }

    /// The debounce register.
    pub fn register_value(&self) -> (val: u8)
        ensures
            val == self.register(),
    {
        let release: u8 = self.release.bits();
        let touch: u8 = self.touch.bits();
        assert((release << 4u8) | touch == release * 16 + touch) by (bit_vector)
            requires
                release < 8,
                touch < 8,
        ;
        (release << 4u8) | touch
    }
}

impl AfeConfig {
    /// Register 0x5C: FFI [7:6] | CDC [5:0].
    pub open spec fn register1(self) -> int {
        self.ffi.code() * 64 + self.cdc as int % 64
    }

    /// Register 0x5D: CDT [7:5] | SFI [4:3] | ESI [2:0].
    pub open spec fn register2(self) -> int {
        self.cdt.code() * 32 + self.sfi.code() * 8 + self.esi.code()
    }

    /// Register 0x5C.
    pub fn register1_value(&self) -> (val: u8)
        ensures
            val == self.register1(),
    {
        let ffi: u8 = self.ffi.bits();
        let cdc: u8 = self.cdc;
        assert((ffi << 6u8) | (cdc & 0x3F) == ffi * 64 + cdc % 64) by (bit_vector)
            requires
                ffi < 4,
        ;
        (ffi << 6u8) | (cdc & 0x3F)
    }

    /// Register 0x5D.
    pub fn register2_value(&self) -> (val: u8)
        ensures
            val == self.register2(),
    {
        let cdt: u8 = self.cdt.bits();
        let sfi: u8 = self.sfi.bits();
        let esi: u8 = self.esi.bits();
        assert((cdt << 5u8) | (sfi << 3u8) | esi == cdt * 32 + sfi * 8 + esi) by (bit_vector)
            requires
                cdt < 8,
                sfi < 4,
                esi < 8,
        ;
        (cdt << 5u8) | (sfi << 3u8) | esi
    }
}

impl AutoConfig {
    /// Register 0x7B:
    /// FFI [7:6] | BVA (=CL) [5:4] | RETRY [3:2] | ARE [1] | ACE [0].
    ///
    /// This follows the field position that [`AutoConfigRetry`] documents for the
    /// retry count; the calibration code takes the two bits left between it and
    /// FFI.
    ///
    /// [`AutoConfigRetry`]: crate::mpr121::config::AutoConfigRetry
    pub open spec fn register0(
        self,
        ffi: FirstFilterIterations,
        calibration: CalibrationLock,
    ) -> int {
        ffi.code() * 64 + calibration.code() * 16 + self.retry.code() * 4 + (
        self.reconfig_enabled as int % 2) * 2 + self.enabled as int % 2
    }

    /// Register 0x7C: SCTS [7].
    pub open spec fn register1(self) -> int {
        (self.skip_charge_time as int % 2) * 128
    }

    /// Register 0x7B.
    pub fn register0_value(&self, ffi: FirstFilterIterations, calibration: CalibrationLock) -> (val:
        u8)
        ensures
            val == self.register0(ffi, calibration),
    {
        let ffi: u8 = ffi.bits();
        let retry: u8 = self.retry.bits();
        let bva: u8 = calibration.bits();
        let are: u8 = self.reconfig_enabled;
        let ace: u8 = self.enabled;
        assert((ffi << 6u8) | (bva << 4u8) | (retry << 2u8) | ((are & 1) << 1u8) | (ace & 1) == ffi
            * 64 + bva * 16 + retry * 4 + (are % 2) * 2 + ace % 2) by (bit_vector)
            requires
                ffi < 4,
                bva < 4,
                retry < 4,
        ;
        (ffi << 6u8) | (bva << 4u8) | (retry << 2u8) | ((are & 1) << 1u8) | (ace & 1)
    }

    /// Register 0x7C.
    pub fn register1_value(&self) -> (val: u8)
        ensures
            val == self.register1(),
    {
        let scts: u8 = self.skip_charge_time;
        assert((scts & 1) << 7u8 == (scts % 2) * 128) by (bit_vector);
        (scts & 1) << 7u8
    }
}

impl Mpr121Config {
    /// The baseline filter registers.
    pub open spec fn baseline_writes(self) -> Seq<RegisterWrite> {
        let bl = self.baseline;
        seq![
            RegisterWrite { reg: REG_MHD_RISING, val: bl.mhd_rising },
            RegisterWrite { reg: REG_NHD_RISING, val: bl.nhd_rising },
            RegisterWrite { reg: REG_NCL_RISING, val: bl.ncl_rising },
            RegisterWrite { reg: REG_FDL_RISING, val: bl.fdl_rising },
            RegisterWrite { reg: REG_MHD_FALLING, val: bl.mhd_falling },
            RegisterWrite { reg: REG_NHD_FALLING, val: bl.nhd_falling },
            RegisterWrite { reg: REG_NCL_FALLING, val: bl.ncl_falling },
            RegisterWrite { reg: REG_FDL_FALLING, val: bl.fdl_falling },
            RegisterWrite { reg: REG_NHD_TOUCHED, val: bl.nhd_touched },
            RegisterWrite { reg: REG_NCL_TOUCHED, val: bl.ncl_touched },
            RegisterWrite { reg: REG_FDL_TOUCHED, val: bl.fdl_touched },
        ]
    }

    /// The touch and release thresholds of the first `n` electrodes.
    pub open spec fn threshold_writes(self, n: int) -> Seq<RegisterWrite> {
        Seq::new(
            (2 * n) as nat,
            |k: int|
                RegisterWrite {
                    reg: (REG_TOUCH_THRESHOLD_BASE + k) as u8,
                    val: if k % 2 == 0 {
                        self.thresholds.touch
                    } else {
                        self.thresholds.release
                    },
                },
        )
    }

    /// The debounce and analog front-end registers.
    pub open spec fn filter_writes(self) -> Seq<RegisterWrite> {
        seq![
            RegisterWrite { reg: REG_DEBOUNCE, val: self.debounce.register() as u8 },
            RegisterWrite { reg: REG_AFE_CONFIG1, val: self.afe.register1() as u8 },
            RegisterWrite { reg: REG_AFE_CONFIG2, val: self.afe.register2() as u8 },
        ]
    }

    /// The auto-configuration registers, when auto-configuration is enabled.
    pub open spec fn auto_config_writes(self) -> Seq<RegisterWrite> {
        let ac = self.auto_config;
        if ac.enabled != 0 {
            seq![
                RegisterWrite {
                    reg: REG_AUTOCONFIG0,
                    val: ac.register0(self.afe.ffi, self.electrode.calibration) as u8,
                },
                RegisterWrite { reg: REG_AUTOCONFIG1, val: ac.register1() as u8 },
                RegisterWrite { reg: REG_AUTOCONFIG_USL, val: ac.upper_limit },
                RegisterWrite { reg: REG_AUTOCONFIG_LSL, val: ac.lower_limit },
                RegisterWrite { reg: REG_AUTOCONFIG_TL, val: ac.target_level },
            ]
        } else {
            seq![]
        }
    }

    /// Everything that applies the configuration, in order: soft reset, all
    /// registers in stop mode, then run mode via ECR.
    pub open spec fn writes(self) -> Seq<RegisterWrite> {
        seq![RegisterWrite { reg: REG_SOFT_RESET, val: SOFT_RESET_MAGIC }] + self.baseline_writes()
            + self.threshold_writes(self.electrode.electrode_count as int) + self.filter_writes()
            + self.auto_config_writes() + seq![
            RegisterWrite { reg: REG_ECR, val: self.electrode.ecr() as u8 },
        ]
    }

    /// The writes that apply the configuration.
    pub(crate) fn configuration_writes(&self) -> (writes: Vec<RegisterWrite>)
        requires
            self.electrode.electrode_count <= crate::mpr121::config::CHANNELS,
        ensures
            writes@ == self.writes(),
    {
        let mut writes: Vec<RegisterWrite> = Vec::new();
        writes.push(RegisterWrite::new(REG_SOFT_RESET, SOFT_RESET_MAGIC));

        // After reset, ECR defaults to 0x00 (stop mode). All configuration must
        // happen in stop mode.
        writes.push(RegisterWrite::new(REG_MHD_RISING, self.baseline.mhd_rising));
        writes.push(RegisterWrite::new(REG_NHD_RISING, self.baseline.nhd_rising));
        writes.push(RegisterWrite::new(REG_NCL_RISING, self.baseline.ncl_rising));
        writes.push(RegisterWrite::new(REG_FDL_RISING, self.baseline.fdl_rising));
        writes.push(RegisterWrite::new(REG_MHD_FALLING, self.baseline.mhd_falling));
        writes.push(RegisterWrite::new(REG_NHD_FALLING, self.baseline.nhd_falling));
        writes.push(RegisterWrite::new(REG_NCL_FALLING, self.baseline.ncl_falling));
        writes.push(RegisterWrite::new(REG_FDL_FALLING, self.baseline.fdl_falling));
        writes.push(RegisterWrite::new(REG_NHD_TOUCHED, self.baseline.nhd_touched));
        writes.push(RegisterWrite::new(REG_NCL_TOUCHED, self.baseline.ncl_touched));
        writes.push(RegisterWrite::new(REG_FDL_TOUCHED, self.baseline.fdl_touched));
        let ghost head = seq![RegisterWrite { reg: REG_SOFT_RESET, val: SOFT_RESET_MAGIC }]
            + self.baseline_writes();
        assert(writes@ =~= head);

        let count: u8 = self.electrode.electrode_count;
        let mut ele: u8 = 0;
        while ele < count
            invariant
                ele <= count <= crate::mpr121::config::CHANNELS,
                writes@ == head + self.threshold_writes(ele as int),
            decreases count - ele,
        {
            let base: u8 = REG_TOUCH_THRESHOLD_BASE + ele * 2;
            writes.push(RegisterWrite::new(base, self.thresholds.touch));
            writes.push(RegisterWrite::new(base + 1, self.thresholds.release));
            ele += 1;
            assert(writes@ =~= head + self.threshold_writes(ele as int));
        }
        let ghost middle = head + self.threshold_writes(count as int);

        writes.push(RegisterWrite::new(REG_DEBOUNCE, self.debounce.register_value()));
        writes.push(RegisterWrite::new(REG_AFE_CONFIG1, self.afe.register1_value()));
        writes.push(RegisterWrite::new(REG_AFE_CONFIG2, self.afe.register2_value()));
        assert(writes@ =~= middle + self.filter_writes());

        if self.auto_config.enabled != 0 {
            writes.push(
                RegisterWrite::new(
                    REG_AUTOCONFIG0,
                    self.auto_config.register0_value(self.afe.ffi, self.electrode.calibration),
                ),
            );
            writes.push(RegisterWrite::new(REG_AUTOCONFIG1, self.auto_config.register1_value()));
            writes.push(RegisterWrite::new(REG_AUTOCONFIG_USL, self.auto_config.upper_limit));
            writes.push(RegisterWrite::new(REG_AUTOCONFIG_LSL, self.auto_config.lower_limit));
            writes.push(RegisterWrite::new(REG_AUTOCONFIG_TL, self.auto_config.target_level));
        }
        assert(writes@ =~= middle + self.filter_writes() + self.auto_config_writes());

        // Writing ECR enters run mode.
        writes.push(RegisterWrite::new(REG_ECR, self.electrode.run_ecr()));
        assert(writes@ =~= self.writes());
        writes
    }
}

} // verus!
