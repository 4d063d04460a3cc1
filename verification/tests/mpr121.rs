use touchbars::mpr121::{
    AfeConfig, AutoConfig, AutoConfigRetry, BaselineFilter, CalibrationLock, ChargeDischargeTime,
    Debounce, DebounceConfig, ElectrodeConfig, FirstFilterIterations, Mpr121Config, ProximityMode,
    Mpr121, Mpr121Error, SampleInterval, SecondFilterIterations, ThresholdConfig, CHANNELS,
    DEFAULT_ADDRESS,
};
use touchbars::mpr121::device::{BlockRead, WriteSequence, WriteStep};

fn run<T>(
    mut sequence: WriteSequence<T>,
    fail_at: Option<usize>,
) -> (Vec<(u8, [u8; 2])>, Result<T, Mpr121Error<u8>>) {
    let mut sent = Vec::new();
    let mut last: Result<(), u8> = Ok(());
    loop {
        match sequence.step(last) {
            WriteStep::Write { address, bytes, rest } => {
                last = if fail_at == Some(sent.len()) { Err(7) } else { Ok(()) };
                sent.push((address, bytes));
                sequence = rest;
            }
            WriteStep::Done(result) => return (sent, result),
        }
    }
}

fn device(config: Mpr121Config) -> Mpr121 {
    match Mpr121::new::<u8>(config) {
        Ok(sequence) => match run(sequence, None).1 {
            Ok(device) => device,
            Err(_) => panic!("no write fails"),
        },
        Err(_) => panic!("the electrode count is valid"),
    }
}

fn with_count(count: u8) -> Mpr121Config {
    let mut config = Mpr121Config::default_12ch();
    config.electrode.electrode_count = count;
    config
}

#[test]
fn default_values() {
    let b = BaselineFilter::default();
    assert_eq!(
        [
            b.mhd_rising, b.nhd_rising, b.ncl_rising, b.fdl_rising, b.mhd_falling, b.nhd_falling,
            b.ncl_falling, b.fdl_falling, b.nhd_touched, b.ncl_touched, b.fdl_touched
        ],
        [1, 1, 0x0E, 0, 1, 5, 1, 0, 1, 0, 0]
    );
    let a = AfeConfig::default();
    assert_eq!(a.cdc, 63);
    assert_eq!(a.register1_value(), 0xFF);
    assert_eq!(a.register2_value(), 0x33);
    let e = ElectrodeConfig::new(12);
    assert_eq!(e.run_ecr(), 0x8C);
    let t = ThresholdConfig::new(9, 4);
    assert_eq!((t.touch, t.release), (9, 4));
    assert_eq!(DebounceConfig::off().register_value(), 0);
    let off = AutoConfig::disabled();
    assert_eq!((off.enabled, off.upper_limit, off.target_level, off.lower_limit), (0, 0, 0, 0));
}

#[test]
fn field_codes() {
    assert_eq!(Debounce::Count5.bits(), 5);
    assert_eq!(FirstFilterIterations::Samples18.bits(), 2);
    assert_eq!(ChargeDischargeTime::Us32.bits(), 7);
    assert_eq!(SecondFilterIterations::Samples6.bits(), 1);
    assert_eq!(SampleInterval::Ms64.bits(), 6);
    assert_eq!(CalibrationLock::TrackingFull.bits(), 3);
    assert_eq!(ProximityMode::Ele0To3.bits(), 2);
    assert_eq!(AutoConfigRetry::NoRetry.bits(), 0);
    assert_eq!(AutoConfigRetry::Retry8.bits(), 3);
}

#[test]
fn register_packing() {
    let e = ElectrodeConfig {
        calibration: CalibrationLock::TrackingFull,
        proximity: ProximityMode::Ele0To1,
        electrode_count: 5,
    };
    assert_eq!(e.run_ecr(), 0xD5);
    let d = DebounceConfig { touch: Debounce::Count3, release: Debounce::Count6 };
    assert_eq!(d.register_value(), 0x63);
    let a = AfeConfig {
        ffi: FirstFilterIterations::Samples10,
        cdc: 0xFF,
        cdt: ChargeDischargeTime::Us8,
        sfi: SecondFilterIterations::Samples18,
        esi: SampleInterval::Ms2,
    };
    assert_eq!(a.register1_value(), 0x7F);
    assert_eq!(a.register2_value(), 0xB9);
    let mut ac = AutoConfig::for_vdd_mv(3300);
    ac.reconfig_enabled = 1;
    ac.skip_charge_time = 3;
    assert_eq!(
        ac.register0_value(FirstFilterIterations::Samples34, CalibrationLock::TrackingFast),
        0xE7
    );
    assert_eq!(ac.register1_value(), 0x80);
}

#[test]
fn auto_config_for_supply_voltage() {
    let ac = AutoConfig::for_vdd_mv(3300);
    assert_eq!((ac.upper_limit, ac.target_level, ac.lower_limit), (201, 180, 130));
    let ac = AutoConfig::for_vdd_mv(1800);
    assert_eq!((ac.upper_limit, ac.target_level, ac.lower_limit), (156, 140, 101));
    let ac = AutoConfig::for_vdd_mv(700);
    assert_eq!((ac.upper_limit, ac.target_level, ac.lower_limit), (0, 0, 0));
    let ac = AutoConfig::for_vdd_mv(u16::MAX);
    assert_eq!((ac.upper_limit, ac.target_level, ac.lower_limit), (253, 227, 164));
    assert_eq!((ac.enabled, ac.reconfig_enabled, ac.skip_charge_time), (1, 0, 0));
    let mut previous = 0;
    for mv in (700..=5500).step_by(50) {
        let ac = AutoConfig::for_vdd_mv(mv);
        assert!(ac.upper_limit >= previous);
        assert!(ac.lower_limit <= ac.target_level && ac.target_level <= ac.upper_limit);
        previous = ac.upper_limit;
    }
}

#[test]
fn manual_configuration_sequence() {
    let sequence = Mpr121::new::<u8>(Mpr121Config::default_12ch()).ok().unwrap();
    let (sent, result) = run(sequence, None);
    assert!(result.is_ok());
    let mut expected: Vec<[u8; 2]> = vec![
        [0x80, 0x63], [0x2B, 0x01], [0x2C, 0x01], [0x2D, 0x0E], [0x2E, 0x00], [0x2F, 0x01],
        [0x30, 0x05], [0x31, 0x01], [0x32, 0x00], [0x33, 0x01], [0x34, 0x00], [0x35, 0x00],
    ];
    for ele in 0..12u8 {
        expected.push([0x41 + 2 * ele, 2]);
        expected.push([0x42 + 2 * ele, 1]);
    }
    expected.extend([[0x5B, 0x00], [0x5C, 0xFF], [0x5D, 0x33], [0x5E, 0x8C]]);
    assert_eq!(sent.len(), expected.len());
    for (k, (address, bytes)) in sent.iter().enumerate() {
        assert_eq!(*address, DEFAULT_ADDRESS);
        assert_eq!(*bytes, expected[k]);
    }
}

#[test]
fn auto_configuration_sequence() {
    let sequence = Mpr121::new_with_address::<u8>(0x5C, Mpr121Config::auto_12ch_3v3()).ok().unwrap();
    let (sent, result) = run(sequence, None);
    assert!(result.is_ok());
    assert_eq!(sent.len(), 45);
    assert!(sent.iter().all(|(address, _)| *address == 0x5C));
    let tail: Vec<[u8; 2]> = sent[39..].iter().map(|(_, bytes)| *bytes).collect();
    assert_eq!(
        tail,
        vec![[0x7B, 0xE5], [0x7C, 0x00], [0x7D, 201], [0x7E, 130], [0x7F, 180], [0x5E, 0x8C]]
    );
}

#[test]
fn too_many_electrodes_are_refused_before_any_write() {
    for count in [13u8, 15, 16, 255] {
        assert!(matches!(
            Mpr121::new::<u8>(with_count(count)),
            Err(Mpr121Error::InvalidElectrodeCount)
        ));
    }
    assert!(Mpr121::new::<u8>(with_count(12)).is_ok());
    assert!(Mpr121::new::<u8>(with_count(0)).is_ok());
}

#[test]
fn first_failed_write_ends_the_configuration() {
    for at in [0usize, 1, 20, 39] {
        let sequence = Mpr121::new::<u8>(Mpr121Config::default_12ch()).ok().unwrap();
        let (sent, result) = run(sequence, Some(at));
        assert_eq!(sent.len(), at + 1);
        assert!(matches!(result, Err(Mpr121Error::I2c(7))));
    }
}

#[test]
fn only_enabled_electrodes_get_thresholds() {
    let sequence = Mpr121::new::<u8>(with_count(3)).ok().unwrap();
    let (sent, _) = run(sequence, None);
    let regs: Vec<u8> = sent.iter().map(|(_, b)| b[0]).filter(|r| (0x41..0x5B).contains(r)).collect();
    assert_eq!(regs, vec![0x41, 0x42, 0x43, 0x44, 0x45, 0x46]);
}

#[test]
fn configuration_runs_in_stop_mode() {
    let sequence = Mpr121::new::<u8>(Mpr121Config::auto_12ch_3v3()).ok().unwrap();
    let (sent, _) = run(sequence, None);
    assert_eq!(sent[0].1, [0x80, 0x63]);
    let ecr: Vec<usize> = (0..sent.len()).filter(|k| sent[*k].1[0] == 0x5E).collect();
    assert_eq!(ecr, vec![sent.len() - 1]);
}

#[test]
fn soft_reset_and_reset() {
    let dev = device(Mpr121Config::default_12ch());
    let (sent, result) = run(dev.soft_reset(), None);
    assert_eq!(sent, vec![(0x5A, [0x80, 0x63])]);
    assert!(result.is_ok());
    let first = run(Mpr121::new::<u8>(Mpr121Config::default_12ch()).ok().unwrap(), None).0;
    let (again, result) = run(dev.reset(), None);
    assert!(result.is_ok());
    assert_eq!(again, first);
    assert_eq!(dev.config().electrode.electrode_count, 12);
    assert_eq!(dev.config().thresholds.touch, 2);
}

#[test]
fn thresholds_of_one_electrode() {
    let dev = device(with_count(8));
    let (sent, result) = run(dev.set_threshold::<u8>(7, 12, 6).ok().unwrap(), None);
    assert!(result.is_ok());
    let bytes: Vec<[u8; 2]> = sent.iter().map(|(_, b)| *b).collect();
    assert_eq!(bytes, vec![[0x5E, 0x00], [0x4F, 12], [0x50, 6], [0x5E, 0x88]]);
    assert!(matches!(dev.set_threshold::<u8>(8, 12, 6), Err(Mpr121Error::InvalidElectrodeCount)));
    let (sent, result) = run(dev.set_threshold::<u8>(0, 1, 1).ok().unwrap(), Some(1));
    assert_eq!(sent.len(), 2);
    assert!(matches!(result, Err(Mpr121Error::I2c(7))));
}

#[test]
fn touch_status_replies() {
    let dev = device(Mpr121Config::default_12ch());
    assert_eq!(
        dev.touch_status_request(),
        Some(BlockRead { address: 0x5A, start_reg: 0x00, len: 2 })
    );
    assert_eq!(dev.touch_status::<u8>(Ok([0x05, 0x08])), Ok(0x0805));
    assert_eq!(dev.touch_status::<u8>(Ok([0xFF, 0x7F])), Ok(0x0FFF));
    assert_eq!(dev.touch_status::<u8>(Ok([0xFF, 0x80])), Err(Mpr121Error::OverCurrent));
    assert_eq!(dev.touch_status::<u8>(Err(3)), Err(Mpr121Error::I2c(3)));
}

#[test]
fn touched_electrodes() {
    let dev = device(Mpr121Config::default_12ch());
    let raw = [0x01, 0x18];
    assert_eq!(dev.is_touched::<u8>(0, Ok(raw)), Ok(true));
    assert_eq!(dev.is_touched::<u8>(1, Ok(raw)), Ok(false));
    assert_eq!(dev.is_touched::<u8>(11, Ok(raw)), Ok(true));
    // Bit 12 is not an electrode.
    assert_eq!(dev.is_touched::<u8>(12, Ok(raw)), Ok(false));
    assert_eq!(dev.is_touched::<u8>(15, Ok(raw)), Ok(false));
    assert_eq!(dev.is_touched::<u8>(0, Ok([0x01, 0x80])), Err(Mpr121Error::OverCurrent));
    assert_eq!(dev.is_touched::<u8>(200, Err(4)), Err(Mpr121Error::I2c(4)));
}

#[test]
fn filtered_data() {
    let mut raw = [0u8; 24];
    for (i, b) in raw.iter_mut().enumerate() {
        *b = i as u8 + 1;
    }
    let dev = device(Mpr121Config::default_12ch());
    assert_eq!(
        dev.read_filtered_request(),
        Some(BlockRead { address: 0x5A, start_reg: 0x04, len: 24 })
    );
    let out = dev.read_filtered::<u8>(Ok(raw)).unwrap();
    for i in 0..CHANNELS {
        assert_eq!(out[i], (2 * i + 1) as u16 + 256 * (2 * i + 2) as u16);
    }
    let dev = device(with_count(2));
    assert_eq!(dev.read_filtered_request().map(|r| r.len), Some(4));
    let out = dev.read_filtered::<u8>(Ok(raw)).unwrap();
    assert_eq!(out, [0x0201, 0x0403, 0, 0, 0, 0, 0, 0, 0, 0, 0, 0]);
    assert_eq!(dev.read_filtered::<u8>(Err(1)), Err(Mpr121Error::I2c(1)));
    assert_eq!(device(with_count(0)).read_filtered_request(), None);
}

#[test]
fn baseline_data() {
    let raw: [u8; 12] = [10, 11, 12, 13, 14, 15, 16, 17, 18, 19, 20, 21];
    let dev = device(Mpr121Config::default_12ch());
    assert_eq!(
        dev.read_baseline_request(),
        Some(BlockRead { address: 0x5A, start_reg: 0x1E, len: 12 })
    );
    assert_eq!(dev.read_baseline::<u8>(Ok(raw)), Ok(raw));
    let dev = device(with_count(3));
    assert_eq!(dev.read_baseline::<u8>(Ok(raw)), Ok([10, 11, 12, 0, 0, 0, 0, 0, 0, 0, 0, 0]));
    assert_eq!(dev.read_baseline::<u8>(Err(2)), Err(Mpr121Error::I2c(2)));
    assert_eq!(device(with_count(0)).read_baseline_request(), None);
}

#[test]
fn bus_error_converts() {
    assert_eq!(Mpr121Error::from(5u8), Mpr121Error::I2c(5u8));
}

/// The register file of a sensor, with every register known.
fn apply(regs: &mut [u8; 256], sent: &[(u8, [u8; 2])]) {
    for (_, [reg, val]) in sent {
        if *reg == 0x80 && *val == 0x63 {
            *regs = [0; 256];
        } else {
            regs[*reg as usize] = *val;
        }
    }
}

#[test]
fn reset_undoes_a_threshold_change() {
    let dev = device(Mpr121Config::auto_12ch_3v3());
    let mut regs = [0xEEu8; 256];
    apply(&mut regs, &run(dev.reset(), None).0);
    let configured = regs;
    assert_eq!(configured[0x5E], 0x8C);
    assert!(configured[0x5E] & 0x3F != 0);
    apply(&mut regs, &run(dev.set_threshold::<u8>(4, 40, 20).ok().unwrap(), None).0);
    for reg in 0..256 {
        let expected = match reg {
            0x49 => 40,
            0x4A => 20,
            _ => configured[reg],
        };
        assert_eq!(regs[reg], expected);
    }
    apply(&mut regs, &run(dev.soft_reset(), None).0);
    assert_eq!(regs[0x5E], 0x00);
    apply(&mut regs, &run(dev.reset(), None).0);
    assert!(regs == configured);
}

#[test]
fn no_register_is_configured_twice() {
    let dev = device(Mpr121Config::auto_12ch_3v3());
    let (sent, _) = run(dev.reset(), None);
    let mut regs: Vec<u8> = sent.iter().map(|(_, b)| b[0]).collect();
    regs.sort();
    regs.dedup();
    assert_eq!(regs.len(), sent.len());
}

#[test]
fn half_delta_defaults_are_in_range() {
    let b = BaselineFilter::default();
    for v in [b.mhd_rising, b.nhd_rising, b.mhd_falling, b.nhd_falling, b.nhd_touched] {
        assert!((1..=63).contains(&v));
    }
}

#[test]
fn retry_count_stands_in_bits_three_and_two() {
    let mut ac = AutoConfig::for_vdd_mv(3300);
    for (retry, code) in [
        (AutoConfigRetry::NoRetry, 0),
        (AutoConfigRetry::Retry2, 1),
        (AutoConfigRetry::Retry4, 2),
        (AutoConfigRetry::Retry8, 3),
    ] {
        ac.retry = retry;
        let v = ac.register0_value(FirstFilterIterations::Samples6, CalibrationLock::TrackingFast);
        assert_eq!((v >> 2) & 3, code);
        assert_eq!((v >> 4) & 3, 2);
    }
}

#[test]
fn large_charge_current_does_not_reach_the_filter_field() {
    let mut afe = AfeConfig::default();
    afe.ffi = FirstFilterIterations::Samples6;
    afe.cdc = 0xC5;
    assert_eq!(afe.register1_value(), 0x05);
}
