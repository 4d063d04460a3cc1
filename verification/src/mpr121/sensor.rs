//! What register writes do to the sensor, and the laws of the driver.
//!
//! [`Sensor`] models the device as far as the driver relies on it: a register
//! file in which a write sticks, and a soft reset after which only the electrode
//! configuration register (ECR) is known, being `0x00` (stop mode).

use crate::mpr121::config::AfeConfig;
use crate::mpr121::config::AutoConfig;
use crate::mpr121::config::CalibrationLock;
use crate::mpr121::config::DebounceConfig;
use crate::mpr121::config::ElectrodeConfig;
use crate::mpr121::config::FirstFilterIterations;
use crate::mpr121::config::Mpr121Config;
use crate::mpr121::config::ProximityMode;
use crate::mpr121::config::CHANNELS;
use crate::mpr121::device::Mpr121;
use crate::mpr121::registers::RegisterWrite;
use crate::mpr121::registers::REG_ECR;
use crate::mpr121::registers::REG_SOFT_RESET;
use crate::mpr121::registers::SOFT_RESET_MAGIC;
use vstd::prelude::*;

verus! {

/// The registers whose contents are known.
pub struct Sensor {
    pub regs: Map<u8, u8>,
}

impl Sensor {
    /// The sensor after one register write.
    pub open spec fn write(self, w: RegisterWrite) -> Sensor {
        if w.reg == REG_SOFT_RESET && w.val == SOFT_RESET_MAGIC {
            Sensor { regs: map![REG_ECR => 0x00u8] }
        } else {
            Sensor { regs: self.regs.insert(w.reg, w.val) }
        }
    }

    /// The sensor after the first `n` of the given writes.
    pub open spec fn after(self, writes: Seq<RegisterWrite>, n: nat) -> Sensor
        decreases n,
    {
        if n == 0 {
            self
        } else {
            self.after(writes, (n - 1) as nat).write(writes[n - 1])
        }
    }

    /// The sensor after all of the given writes.
    pub open spec fn after_all(self, writes: Seq<RegisterWrite>) -> Sensor {
        self.after(writes, writes.len())
    }

    /// Whether the sensor is known to be in stop mode.
    pub open spec fn stopped(self) -> bool {
        self.regs.contains_key(REG_ECR) && self.regs[REG_ECR] == 0x00
    }
}

/// Apart from the soft reset that starts it and the ECR write that ends it, a
/// configuration writes neither register, and it writes no register twice.
proof fn lemma_writes_shape(config: Mpr121Config)
    requires
        config.electrode.electrode_count <= CHANNELS,
    ensures
        ({
            let ws = config.writes();
            let n = ws.len() as int;
            &&& n >= 2
            &&& ws[0] == RegisterWrite { reg: REG_SOFT_RESET, val: SOFT_RESET_MAGIC }
            &&& ws[n - 1] == RegisterWrite { reg: REG_ECR, val: config.electrode.ecr() as u8 }
            &&& forall|i: int, j: int|
                0 <= i < j < n ==> (#[trigger] ws[i]).reg != (#[trigger] ws[j]).reg
        }),
{
    let ws = config.writes();
    let n = ws.len() as int;
    let count = config.electrode.electrode_count as int;
    assert(n == 16 + 2 * count + config.auto_config_writes().len());
    assert forall|i: int| 1 <= i < 12 implies (#[trigger] ws[i]).reg == 0x2A + i by {
        assert(ws[i] == config.baseline_writes()[i - 1]);
    }
    assert forall|i: int| 12 <= i < 12 + 2 * count implies (#[trigger] ws[i]).reg == 0x41 + (i
        - 12) by {
        assert(ws[i] == config.threshold_writes(count)[i - 12]);
    }
    let base = 12 + 2 * count;
    assert forall|i: int| base <= i < base + 3 implies (#[trigger] ws[i]).reg == 0x5B + (i - base) by {
        assert(ws[i] == config.filter_writes()[i - base]);
    }
    assert forall|i: int| base + 3 <= i < n - 1 implies (#[trigger] ws[i]).reg == 0x7B + (i - base
        - 3) by {
        assert(ws[i] == config.auto_config_writes()[i - base - 3]);
    }
}

/// After a soft reset and some of the configuration: what the sensor held before
/// does not matter, and every register written since holds its value.
proof fn lemma_configuration_prefix(config: Mpr121Config, sensor: Sensor, other: Sensor, n: nat)
    requires
        config.electrode.electrode_count <= CHANNELS,
        1 <= n <= config.writes().len(),
    ensures
        sensor.after(config.writes(), n) == other.after(config.writes(), n),
        n < config.writes().len() ==> sensor.after(config.writes(), n).stopped(),
        forall|i: int|
            1 <= i < n ==> {
                let w = #[trigger] config.writes()[i];
                &&& sensor.after(config.writes(), n).regs.contains_key(w.reg)
                &&& sensor.after(config.writes(), n).regs[w.reg] == w.val
            },
    decreases n,
{
    lemma_writes_shape(config);
    let ws = config.writes();
    if n == 1 {
        assert(sensor.after(ws, 0).write(ws[0]) == sensor.after(ws, 1));
        assert(other.after(ws, 0).write(ws[0]) == other.after(ws, 1));
    } else {
        lemma_configuration_prefix(config, sensor, other, (n - 1) as nat);
        let before = sensor.after(ws, (n - 1) as nat);
        assert(ws[0].reg != ws[n - 1].reg);
        assert(sensor.after(ws, n).regs == before.regs.insert(ws[n - 1].reg, ws[n - 1].val));
        assert forall|i: int| 1 <= i < n implies {
            let w = #[trigger] ws[i];
            &&& sensor.after(ws, n).regs.contains_key(w.reg)
            &&& sensor.after(ws, n).regs[w.reg] == w.val
        } by {
            if i < n - 1 {
                assert(ws[i].reg != ws[n - 1].reg);
            }
        }
        if n < ws.len() {
            assert(ws[n - 1].reg != ws[ws.len() - 1].reg);
        }
    }
}

/// A soft reset puts the sensor into stop mode.
pub proof fn law_soft_reset_stops(sensor: Sensor)
    ensures
        sensor.after_all(
            seq![RegisterWrite { reg: REG_SOFT_RESET, val: SOFT_RESET_MAGIC }],
        ).stopped(),
{
    reveal_with_fuel(Sensor::after, 2);
}

/// All configuration happens in stop mode: from the soft reset up to the write
/// that enters run mode, the sensor is in stop mode before each write.
pub proof fn law_configured_in_stop_mode(config: Mpr121Config, sensor: Sensor, n: nat)
    requires
        config.electrode.electrode_count <= CHANNELS,
        1 <= n < config.writes().len(),
    ensures
        sensor.after(config.writes(), n).stopped(),
{
    lemma_configuration_prefix(config, sensor, sensor, n);
}

/// A configured sensor holds, in every register that the configuration gives a
/// value, that value; its ECR is the run-mode value of the electrode config.
pub proof fn law_configuration_sticks(config: Mpr121Config, sensor: Sensor)
    requires
        config.electrode.electrode_count <= CHANNELS,
    ensures
        forall|i: int|
            1 <= i < config.writes().len() ==> {
                let w = #[trigger] config.writes()[i];
                &&& sensor.after_all(config.writes()).regs.contains_key(w.reg)
                &&& sensor.after_all(config.writes()).regs[w.reg] == w.val
            },
        sensor.after_all(config.writes()).regs.contains_key(REG_ECR),
        sensor.after_all(config.writes()).regs[REG_ECR] == config.electrode.ecr(),
{
    lemma_writes_shape(config);
    let ws = config.writes();
    lemma_configuration_prefix(config, sensor, sensor, ws.len());
    law_electrode_fields_recoverable(config.electrode);
    assert(ws[ws.len() - 1].reg == REG_ECR);
}

/// Applying a configuration gives the same registers whatever the sensor held
/// before.
pub proof fn law_configuration_ignores_history(config: Mpr121Config, a: Sensor, b: Sensor)
    requires
        config.electrode.electrode_count <= CHANNELS,
    ensures
        a.after_all(config.writes()) == b.after_all(config.writes()),
{
    lemma_writes_shape(config);
    lemma_configuration_prefix(config, a, b, config.writes().len());
}

/// Setting one electrode's thresholds on a running sensor changes those two
/// registers and no other, and the sensor runs again with its ECR as before.
pub proof fn law_set_threshold_changes_only_thresholds(
    device: Mpr121,
    sensor: Sensor,
    electrode: int,
    touch: u8,
    release: u8,
)
    requires
        0 <= electrode < CHANNELS,
        sensor.regs.contains_key(REG_ECR),
        sensor.regs[REG_ECR] == device.configuration().electrode.ecr(),
    ensures
        sensor.after_all(device.threshold_writes(electrode, touch, release)).regs
            == sensor.regs.insert((0x41 + 2 * electrode) as u8, touch).insert(
            (0x42 + 2 * electrode) as u8,
            release,
        ),
{
    let ws = device.threshold_writes(electrode, touch, release);
    reveal_with_fuel(Sensor::after, 5);
    assert(sensor.after(ws, 4).regs =~= sensor.regs.insert(
        (0x41 + 2 * electrode) as u8,
        touch,
    ).insert((0x42 + 2 * electrode) as u8, release));
}

/// Thresholds are set in stop mode.
pub proof fn law_thresholds_set_in_stop_mode(
    device: Mpr121,
    sensor: Sensor,
    electrode: int,
    touch: u8,
    release: u8,
    n: nat,
)
    requires
        0 <= electrode < CHANNELS,
        1 <= n < device.threshold_writes(electrode, touch, release).len(),
    ensures
        sensor.after(device.threshold_writes(electrode, touch, release), n).stopped(),
{
    reveal_with_fuel(Sensor::after, 4);
}

/// Resetting a device undoes a threshold change: the sensor is as it was when it
/// was first configured.
pub proof fn law_reset_undoes_set_threshold(
    device: Mpr121,
    sensor: Sensor,
    electrode: int,
    touch: u8,
    release: u8,
)
    requires
        device.configuration().electrode.electrode_count <= CHANNELS,
    ensures
        ({
            let configured = sensor.after_all(device.configuration().writes());
            let changed = configured.after_all(device.threshold_writes(electrode, touch, release));
            changed.after_all(device.configuration().writes()) == configured
        }),
{
    let configured = sensor.after_all(device.configuration().writes());
    let changed = configured.after_all(device.threshold_writes(electrode, touch, release));
    law_configuration_ignores_history(device.configuration(), changed, sensor);
}

/// The ECR fields do not overlap: each can be read back from the register.
pub proof fn law_electrode_fields_recoverable(electrode: ElectrodeConfig)
    requires
        electrode.electrode_count <= CHANNELS,
    ensures
        0 <= electrode.ecr() < 256,
        electrode.ecr() / 64 == electrode.calibration.code(),
        electrode.ecr() / 16 % 4 == electrode.proximity.code(),
        electrode.ecr() % 16 == electrode.electrode_count,
{
}

/// A configuration that enables an electrode or proximity detection leaves the
/// sensor in run mode.
pub proof fn law_configured_sensor_runs(config: Mpr121Config, sensor: Sensor)
    requires
        config.electrode.electrode_count <= CHANNELS,
        config.electrode.electrode_count > 0 || config.electrode.proximity
            != ProximityMode::Disabled,
    ensures
        sensor.after_all(config.writes()).regs[REG_ECR] as int % 64 != 0,
        !sensor.after_all(config.writes()).stopped(),
{
    law_configuration_sticks(config, sensor);
}

/// The debounce fields do not overlap.
pub proof fn law_debounce_fields_recoverable(debounce: DebounceConfig)
    ensures
        0 <= debounce.register() < 256,
        debounce.register() / 16 == debounce.release.code(),
        debounce.register() % 16 == debounce.touch.code(),
{
}

/// The analog front-end fields do not overlap: the charge current is stored modulo
/// its six bits, and a larger one never reaches the filter field.
pub proof fn law_afe_fields_recoverable(afe: AfeConfig)
    ensures
        0 <= afe.register1() < 256,
        afe.register1() / 64 == afe.ffi.code(),
        afe.register1() % 64 == afe.cdc as int % 64,
        0 <= afe.register2() < 256,
        afe.register2() / 32 == afe.cdt.code(),
        afe.register2() / 8 % 4 == afe.sfi.code(),
        afe.register2() % 8 == afe.esi.code(),
{
}

/// The auto-config fields do not overlap.
pub proof fn law_auto_config_fields_recoverable(
    auto_config: AutoConfig,
    ffi: FirstFilterIterations,
    calibration: CalibrationLock,
)
    ensures
        0 <= auto_config.register0(ffi, calibration) < 256,
        auto_config.register0(ffi, calibration) / 64 == ffi.code(),
        auto_config.register0(ffi, calibration) / 16 % 4 == calibration.code(),
        auto_config.register0(ffi, calibration) / 4 % 4 == auto_config.retry.code(),
        auto_config.register0(ffi, calibration) / 2 % 2 == auto_config.reconfig_enabled as int % 2,
        auto_config.register0(ffi, calibration) % 2 == auto_config.enabled as int % 2,
        0 <= auto_config.register1() < 256,
        auto_config.register1() / 128 == auto_config.skip_charge_time as int % 2,
{
    let f = ffi.code() as int;
    let c = calibration.code() as int;
    let r = auto_config.retry.code() as int;
    let low = (auto_config.reconfig_enabled as int % 2) * 2 + auto_config.enabled as int % 2;
    let packed = auto_config.register0(ffi, calibration);
    assert(0 <= f < 4 && 0 <= c < 4 && 0 <= r < 4 && 0 <= low < 4);
    assert(packed == 64 * f + 16 * c + 4 * r + low);
    assert(packed / 4 == 16 * f + 4 * c + r);
    assert(packed / 16 == 4 * f + c);
}

/// The registers that a configuration has written since the soft reset, and ECR, are
/// those that are known.
proof fn lemma_known_registers(config: Mpr121Config, sensor: Sensor, n: nat, r: u8)
    requires
        config.electrode.electrode_count <= CHANNELS,
        1 <= n <= config.writes().len(),
    ensures
        sensor.after(config.writes(), n).regs.contains_key(r) <==> (r == REG_ECR || exists|i: int|
            1 <= i < n && #[trigger] config.writes()[i].reg == r),
    decreases n,
{
    lemma_writes_shape(config);
    let ws = config.writes();
    if n > 1 {
        lemma_known_registers(config, sensor, (n - 1) as nat, r);
        let before = sensor.after(ws, (n - 1) as nat);
        assert(ws[0].reg != ws[n - 1].reg);
        assert(sensor.after(ws, n).regs == before.regs.insert(ws[n - 1].reg, ws[n - 1].val));
        if ws[n - 1].reg == r {
            assert(1 <= n - 1 < n && ws[n - 1].reg == r);
        }
        if before.regs.contains_key(r) && r != REG_ECR {
            let i = choose|i: int| 1 <= i < n - 1 && #[trigger] ws[i].reg == r;
            assert(1 <= i < n && ws[i].reg == r);
        }
    } else {
        assert(sensor.after(ws, 0).write(ws[0]) == sensor.after(ws, 1));
    }
}

/// Every enabled electrode of a configured sensor has the configured thresholds: touch
/// in register `0x41 + 2 * e`, release in the one after it.
pub proof fn law_configured_thresholds(config: Mpr121Config, sensor: Sensor, e: int)
    requires
        config.electrode.electrode_count <= 12,
        0 <= e < config.electrode.electrode_count,
    ensures
        ({
            let regs = sensor.after_all(config.writes()).regs;
            &&& regs[(0x41 + 2 * e) as u8] == config.thresholds.touch
            &&& regs[(0x42 + 2 * e) as u8] == config.thresholds.release
        }),
{
    law_configuration_sticks(config, sensor);
    let ws = config.writes();
    let count = config.electrode.electrode_count as int;
    assert(ws[12 + 2 * e] == config.threshold_writes(count)[2 * e]);
    assert(ws[12 + 2 * e + 1] == config.threshold_writes(count)[2 * e + 1]);
    assert(ws[12 + 2 * e].reg == (0x41 + 2 * e) as u8);
    assert(ws[12 + 2 * e + 1].reg == (0x42 + 2 * e) as u8);
}

/// What a configured sensor holds besides thresholds, stated on the fields of the
/// configuration.
pub proof fn law_configured_filters(config: Mpr121Config, sensor: Sensor)
    requires
        config.electrode.electrode_count <= 12,
    ensures
        ({
            let regs = sensor.after_all(config.writes()).regs;
            let bl = config.baseline;
            &&& regs[0x2B] == bl.mhd_rising
            &&& regs[0x2C] == bl.nhd_rising
            &&& regs[0x2D] == bl.ncl_rising
            &&& regs[0x2E] == bl.fdl_rising
            &&& regs[0x2F] == bl.mhd_falling
            &&& regs[0x30] == bl.nhd_falling
            &&& regs[0x31] == bl.ncl_falling
            &&& regs[0x32] == bl.fdl_falling
            &&& regs[0x33] == bl.nhd_touched
            &&& regs[0x34] == bl.ncl_touched
            &&& regs[0x35] == bl.fdl_touched
            &&& regs[0x5B] as int / 16 == config.debounce.release.code()
            &&& regs[0x5B] as int % 16 == config.debounce.touch.code()
            &&& regs[0x5C] as int / 64 == config.afe.ffi.code()
            &&& regs[0x5C] as int % 64 == config.afe.cdc as int % 64
            &&& regs[0x5D] as int / 32 == config.afe.cdt.code()
            &&& regs[0x5D] as int / 8 % 4 == config.afe.sfi.code()
            &&& regs[0x5D] as int % 8 == config.afe.esi.code()
            &&& regs[0x5E] as int / 64 == config.electrode.calibration.code()
            &&& regs[0x5E] as int / 16 % 4 == config.electrode.proximity.code()
            &&& regs[0x5E] as int % 16 == config.electrode.electrode_count
        }),
{
    law_configuration_sticks(config, sensor);
    law_electrode_fields_recoverable(config.electrode);
    law_debounce_fields_recoverable(config.debounce);
    law_afe_fields_recoverable(config.afe);
    let ws = config.writes();
    let count = config.electrode.electrode_count as int;
    let base = 12 + 2 * count;
    assert forall|i: int| 1 <= i < 12 implies #[trigger] ws[i] == config.baseline_writes()[i
        - 1] by {}
    assert(ws[1].reg == 0x2B && ws[2].reg == 0x2C && ws[3].reg == 0x2D);
    assert(ws[4].reg == 0x2E && ws[5].reg == 0x2F && ws[6].reg == 0x30);
    assert(ws[7].reg == 0x31 && ws[8].reg == 0x32 && ws[9].reg == 0x33);
    assert(ws[10].reg == 0x34 && ws[11].reg == 0x35);
    assert(ws[base] == config.filter_writes()[0] && ws[base].reg == 0x5B);
    assert(ws[base + 1] == config.filter_writes()[1] && ws[base + 1].reg == 0x5C);
    assert(ws[base + 2] == config.filter_writes()[2] && ws[base + 2].reg == 0x5D);
}

/// What a configured sensor holds when auto-configuration is enabled, stated on the
/// fields of the configuration.
pub proof fn law_configured_auto_config(config: Mpr121Config, sensor: Sensor)
    requires
        config.electrode.electrode_count <= 12,
        config.auto_config.enabled != 0,
    ensures
        ({
            let regs = sensor.after_all(config.writes()).regs;
            let ac = config.auto_config;
            &&& regs[0x7B] as int / 64 == config.afe.ffi.code()
            &&& regs[0x7B] as int / 16 % 4 == config.electrode.calibration.code()
            &&& regs[0x7B] as int / 4 % 4 == ac.retry.code()
            &&& regs[0x7B] as int / 2 % 2 == ac.reconfig_enabled as int % 2
            &&& regs[0x7B] as int % 2 == ac.enabled as int % 2
            &&& regs[0x7C] as int == 128 * (ac.skip_charge_time as int % 2)
            &&& regs[0x7D] == ac.upper_limit
            &&& regs[0x7E] == ac.lower_limit
            &&& regs[0x7F] == ac.target_level
        }),
{
    law_configuration_sticks(config, sensor);
    law_auto_config_fields_recoverable(
        config.auto_config,
        config.afe.ffi,
        config.electrode.calibration,
    );
    let ws = config.writes();
    let base = 15 + 2 * config.electrode.electrode_count as int;
    let auto_writes = config.auto_config_writes();
    assert(ws[base] == auto_writes[0] && ws[base].reg == 0x7B);
    assert(ws[base + 1] == auto_writes[1] && ws[base + 1].reg == 0x7C);
    assert(ws[base + 2] == auto_writes[2] && ws[base + 2].reg == 0x7D);
    assert(ws[base + 3] == auto_writes[3] && ws[base + 3].reg == 0x7E);
    assert(ws[base + 4] == auto_writes[4] && ws[base + 4].reg == 0x7F);
}

/// A configuration touches no other register: what is known of a configured sensor is
/// exactly the registers that it gives a value.
pub proof fn law_configuration_touches_no_other_register(
    config: Mpr121Config,
    sensor: Sensor,
    r: u8,
)
    requires
        config.electrode.electrode_count <= 12,
    ensures
        sensor.after_all(config.writes()).regs.contains_key(r) <==> {
            ||| 0x2B <= r <= 0x35
            ||| 0x41 <= r < 0x41 + 2 * config.electrode.electrode_count
            ||| 0x5B <= r <= 0x5E
            ||| config.auto_config.enabled != 0 && 0x7B <= r <= 0x7F
        },
{
    let ws = config.writes();
    let n = ws.len() as int;
    let count = config.electrode.electrode_count as int;
    let base = 12 + 2 * count;
    lemma_writes_shape(config);
    lemma_known_registers(config, sensor, ws.len(), r);
    assert(n == 16 + 2 * count + config.auto_config_writes().len());
    assert forall|i: int| 1 <= i < 12 implies (#[trigger] ws[i]).reg == 0x2A + i by {
        assert(ws[i] == config.baseline_writes()[i - 1]);
    }
    assert forall|i: int| 12 <= i < base implies (#[trigger] ws[i]).reg == 0x41 + (i - 12) by {
        assert(ws[i] == config.threshold_writes(count)[i - 12]);
    }
    assert forall|i: int| base <= i < base + 3 implies (#[trigger] ws[i]).reg == 0x5B + (i - base) by {
        assert(ws[i] == config.filter_writes()[i - base]);
    }
    assert forall|i: int| base + 3 <= i < n - 1 implies (#[trigger] ws[i]).reg == 0x7B + (i - base
        - 3) by {
        assert(ws[i] == config.auto_config_writes()[i - base - 3]);
    }
    if 0x2B <= r <= 0x35 {
        assert(ws[r - 0x2A].reg == r);
    } else if 0x41 <= r < 0x41 + 2 * count {
        assert(ws[12 + (r - 0x41)].reg == r);
    } else if 0x5B <= r <= 0x5D {
        assert(ws[base + (r - 0x5B)].reg == r);
    } else if config.auto_config.enabled != 0 && 0x7B <= r <= 0x7F {
        assert(ws[base + 3 + (r - 0x7B)].reg == r);
    }
}

/// A configuration starts with the soft reset, which it makes once, and ends with the
/// electrode configuration register, which it writes once.
pub proof fn law_configuration_from_reset_to_run(config: Mpr121Config, k: int)
    requires
        config.electrode.electrode_count <= 12,
        0 <= k < config.writes().len(),
    ensures
        config.writes()[0] == (RegisterWrite { reg: 0x80, val: 0x63 }),
        config.writes()[k].reg == 0x80 <==> k == 0,
        config.writes()[k].reg == 0x5E <==> k == config.writes().len() - 1,
{
    lemma_writes_shape(config);
    let ws = config.writes();
    if k != 0 {
        assert(ws[0].reg != ws[k].reg);
    }
    if k != ws.len() - 1 {
        assert(ws[k].reg != ws[ws.len() - 1].reg);
    }
}

/// Configurations that leave a sensor with the same registers agree on thresholds,
/// baseline filter and electrode count: each of these shows in the registers.
pub proof fn law_registers_tell_configurations_apart(
    config: Mpr121Config,
    other: Mpr121Config,
    sensor: Sensor,
)
    requires
        0 < config.electrode.electrode_count <= 12,
        0 < other.electrode.electrode_count <= 12,
        sensor.after_all(config.writes()) == sensor.after_all(other.writes()),
    ensures
        config.thresholds == other.thresholds,
        config.baseline == other.baseline,
        config.electrode.electrode_count == other.electrode.electrode_count,
{
    law_configured_thresholds(config, sensor, 0);
    law_configured_thresholds(other, sensor, 0);
    law_configured_filters(config, sensor);
    law_configured_filters(other, sensor);
}

/// Setting thresholds takes four writes: ECR is cleared, the touch and the release
/// threshold are written in that order, and ECR gets back all its fields.
pub proof fn law_set_threshold_stops_and_restarts(
    device: Mpr121,
    electrode: int,
    touch: u8,
    release: u8,
)
    requires
        0 <= electrode < 12,
        device.configuration().electrode.electrode_count <= 12,
    ensures
        ({
            let ws = device.threshold_writes(electrode, touch, release);
            let electrodes = device.configuration().electrode;
            &&& ws.len() == 4
            &&& ws[0] == (RegisterWrite { reg: 0x5E, val: 0 })
            &&& ws[1].reg == 0x41 + 2 * electrode && ws[1].val == touch
            &&& ws[2].reg == 0x42 + 2 * electrode && ws[2].val == release
            &&& ws[3].reg == 0x5E
            &&& ws[3].val as int / 64 == electrodes.calibration.code()
            &&& ws[3].val as int / 16 % 4 == electrodes.proximity.code()
            &&& ws[3].val as int % 16 == electrodes.electrode_count
        }),
{
    law_electrode_fields_recoverable(device.configuration().electrode);
}

} // verus!
