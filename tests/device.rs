use emc230x::chip_registers::{ProductId, PwmOutputConfig};
use emc230x::conversion::convert_tach;
use emc230x::device::{Emc230x, FanControl, RegisterWrite};
use emc230x::fan_config::{Edges, FanConfiguration1, Range};
use emc230x::fan_registers::{FanDriveSetting, FanMinimumDrive};
use emc230x::tach::TachReading;
use emc230x::{fan_register_address, Error, FanRegister, FanSelect, Register};

fn device(product_id: u8) -> Emc230x {
    Emc230x::probe(0x2F, product_id).unwrap()
}

#[test]
fn fan_counts_of_the_family() {
    assert_eq!(ProductId::Emc2301.num_fans(), 1);
    assert_eq!(ProductId::Emc2302.num_fans(), 2);
    assert_eq!(ProductId::Emc2303.num_fans(), 3);
    assert_eq!(ProductId::Emc2305.num_fans(), 5);
    assert_eq!(device(0x37).count(), 1);
    assert_eq!(device(0x36).count(), 2);
    assert_eq!(device(0x35).count(), 3);
    assert_eq!(device(0x34).count(), 5);
}

#[test]
fn probe_rejects_unknown_identifier() {
    assert_eq!(Emc230x::probe(0x2F, 0x00).err(), Some(Error::InvalidDeviceId));
    assert_eq!(Emc230x::probe(0x2F, 0x38).err(), Some(Error::InvalidDeviceId));
    assert_eq!(Emc230x::probe(0x2F, 0x33).err(), Some(Error::InvalidDeviceId));
    assert_eq!(ProductId::from_raw(0xFF), Err(Error::InvalidDeviceId));
}

#[test]
fn probe_keeps_address_and_default_poles() {
    let dev = device(0x35);
    assert_eq!(dev.address(), 0x2F);
    assert_eq!(dev.product_id(), ProductId::Emc2303);
    for fan in 1..=3 {
        assert_eq!(dev.fan_poles(FanSelect::Fan(fan)), Ok(2));
    }
}

#[test]
fn initialization_sequence() {
    let dev = device(0x36);
    let configs = vec![FanConfiguration1(0x2B), FanConfiguration1(0xEB)];
    let writes = dev.initialization(&configs);
    assert_eq!(writes.len(), 3);
    assert_eq!(writes[0], RegisterWrite { register: PwmOutputConfig::ADDRESS, value: 0b11 });
    assert_eq!(writes[1], RegisterWrite { register: 0x32, value: 0x0B });
    assert_eq!(writes[2], RegisterWrite { register: 0x42, value: 0x8B });
    assert_eq!(FanConfiguration1(writes[2].value).rngx(), Range::Rpm500);
    let out = PwmOutputConfig(writes[0].value);
    assert!(out.push_pull_enabled(1));
    assert!(out.push_pull_enabled(2));
    assert!(!out.push_pull_enabled(3));
}

#[test]
fn invalid_fans_are_rejected() {
    let dev = device(0x36);
    let cfg = FanConfiguration1(0x2B);
    for fan in [0_u8, 3, 5, 6, 255] {
        let sel = FanSelect::Fan(fan);
        assert_eq!(dev.valid_fan(sel), Err(Error::InvalidFan));
        assert_eq!(dev.fan_register(sel, FanRegister::Setting), Err(Error::InvalidFan));
        assert_eq!(dev.fan_poles(sel), Err(Error::InvalidFan));
        assert_eq!(dev.duty_cycle(sel, FanDriveSetting(0)), Err(Error::InvalidFan));
        assert_eq!(dev.set_duty_cycle(sel, 50), Err(Error::InvalidFan));
        assert_eq!(dev.min_duty(sel, FanMinimumDrive(0)), Err(Error::InvalidFan));
        assert_eq!(dev.set_min_duty(sel, 50), Err(Error::InvalidFan));
        assert_eq!(dev.rpm(sel, TachReading::from(0x1000), cfg), Err(Error::InvalidFan));
        assert_eq!(dev.set_rpm(sel, 1000, cfg), Err(Error::InvalidFan));
        assert_eq!(dev.set_mode(sel, FanControl::DutyCycle(50), cfg), Err(Error::InvalidFan));
        assert_eq!(dev.set_mode(sel, FanControl::Rpm(1000), cfg), Err(Error::InvalidFan));
    }
    let mut dev = dev;
    assert_eq!(dev.set_fan_poles(FanSelect::Fan(3), 4), Err(Error::InvalidFan));
}

#[test]
fn set_fan_poles_changes_one_fan() {
    let mut dev = device(0x34);
    assert_eq!(dev.set_fan_poles(FanSelect::Fan(5), 4), Ok(()));
    assert_eq!(dev.fan_poles(FanSelect::Fan(5)), Ok(4));
    assert_eq!(dev.fan_poles(FanSelect::Fan(4)), Ok(2));
}

#[test]
fn register_address_derivation() {
    assert_eq!(fan_register_address(FanSelect::Fan(3), 0x05), Ok(0x55));
    assert_eq!(fan_register_address(FanSelect::Fan(1), 0x00), Ok(0x30));
    assert_eq!(fan_register_address(FanSelect::Fan(5), 0x0F), Ok(0x7F));
    assert_eq!(fan_register_address(FanSelect::Fan(0), 0x00), Err(Error::InvalidFan));
    assert_eq!(fan_register_address(FanSelect::Fan(6), 0x00), Err(Error::InvalidFan));
    assert_eq!(fan_register_address(FanSelect::Fan(1), 0x04), Err(Error::InvalidRegister));
    assert_eq!(fan_register_address(FanSelect::Fan(5), 0x90), Err(Error::InvalidRegister));
    let dev = device(0x35);
    assert_eq!(dev.fan_register(FanSelect::Fan(3), FanRegister::Gain), Ok(0x55));
}

#[test]
fn register_catalog_lookup() {
    assert_eq!(Register::from_address(0x55), Some(Register::Fan(3, FanRegister::Gain)));
    assert_eq!(Register::from_address(0xFD), Some(Register::ProductId));
    assert_eq!(Register::from_address(0x34), None);
    assert_eq!(Register::from_address(0x00), None);
    assert_eq!(Register::Fan(2, FanRegister::TachReadingLow).address(), 0x4F);
    assert_eq!(Register::PwmOutputConfig.address(), 0x2B);
    assert_eq!(FanRegister::Configuration1.default_value(), 0x2B);
}

#[test]
fn duty_cycle_operations() {
    let dev = device(0x37);
    let fan = FanSelect::Fan(1);
    assert_eq!(dev.set_duty_cycle(fan, 75), Ok(RegisterWrite { register: 0x30, value: 0xBF }));
    assert_eq!(dev.set_duty_cycle(fan, 101), Err(Error::SpeedOutOfRange));
    assert_eq!(dev.duty_cycle(fan, FanDriveSetting(0xBF)), Ok(75));
    assert_eq!(dev.set_min_duty(fan, 20), Ok(RegisterWrite { register: 0x38, value: 51 }));
    assert_eq!(dev.set_min_duty(fan, 200), Err(Error::SpeedOutOfRange));
    assert_eq!(dev.min_duty(fan, FanMinimumDrive(0x66)), Ok(40));
}

#[test]
fn rpm_conversion_values() {
    // 2 poles, 5 edges, multiplier 2: 4 * 2 * 32768 * 60 / 2 = 7864320 / rpm
    assert_eq!(convert_tach(2, Edges::Sample5, Range::Rpm1000, 1000), Ok(7864));
    assert_eq!(convert_tach(2, Edges::Sample5, Range::Rpm1000, 7864), Ok(1000));
    assert_eq!(convert_tach(2, Edges::Sample5, Range::Rpm500, 500), Ok(7864));
    assert_eq!(convert_tach(2, Edges::Sample5, Range::Rpm1000, 0), Err(Error::SpeedOutOfRange));
    assert_eq!(convert_tach(0, Edges::Sample5, Range::Rpm1000, 10), Err(Error::SpeedOutOfRange));
}

#[test]
fn rpm_round_trip_within_one() {
    for rpm in [1000_u16, 1500, 2000, 2500, 2800] {
        let raw = convert_tach(2, Edges::Sample5, Range::Rpm1000, rpm).unwrap();
        let back = convert_tach(2, Edges::Sample5, Range::Rpm1000, raw as u16).unwrap();
        assert!(back + 1 >= rpm as u64 && back <= rpm as u64 + 1);
    }
}

#[test]
fn rpm_reads_the_tachometer() {
    let dev = device(0x37);
    let fan = FanSelect::Fan(1);
    let cfg = FanConfiguration1(0x2B); // 5 edges, 1000 RPM range
    assert_eq!(dev.rpm(fan, TachReading::from(7864), cfg), Ok(1000));
    assert_eq!(dev.rpm(fan, TachReading::from(0), cfg), Err(Error::SpeedOutOfRange));
}

#[test]
fn set_rpm_writes_the_target() {
    let dev = device(0x37);
    let fan = FanSelect::Fan(1);
    let cfg = FanConfiguration1(0x2B);
    let writes = dev.set_rpm(fan, 1000, cfg).unwrap();
    // 7864 = 0b1_1110_1011_1000
    assert_eq!(
        writes,
        vec![
            RegisterWrite { register: 0x3C, value: 0b1100_0000 },
            RegisterWrite { register: 0x3D, value: 0b1111_0101 },
        ]
    );
    assert_eq!(dev.set_rpm(fan, 0, cfg), Err(Error::SpeedOutOfRange));
    // 7864320 / 900 is 8738, above the 13-bit count
    assert_eq!(dev.set_rpm(fan, 900, cfg), Err(Error::SpeedOutOfRange));
}

#[test]
fn set_mode_switches_closed_loop() {
    let dev = device(0x36);
    let fan = FanSelect::Fan(2);
    let cfg = FanConfiguration1(0x2B);
    let writes = dev.set_mode(fan, FanControl::Rpm(1000), cfg).unwrap();
    assert_eq!(writes.len(), 3);
    assert_eq!(writes[2].register, 0x42);
    assert!(FanConfiguration1(writes[2].value).enagx());
    assert_eq!(writes[2].value, 0xAB);

    let writes = dev.set_mode(fan, FanControl::DutyCycle(50), FanConfiguration1(0xAB)).unwrap();
    assert_eq!(
        writes,
        vec![
            RegisterWrite { register: 0x42, value: 0x2B },
            RegisterWrite { register: 0x40, value: 0x80 },
        ]
    );
    assert!(!FanConfiguration1(writes[0].value).enagx());
    assert_eq!(
        dev.set_mode(fan, FanControl::DutyCycle(150), cfg),
        Err(Error::SpeedOutOfRange)
    );
    assert_eq!(dev.set_mode(fan, FanControl::Rpm(0), cfg), Err(Error::SpeedOutOfRange));
}

#[test]
fn snapshot_lists_every_register() {
    let dev = device(0x36);
    let registers = dev.dump_info();
    assert_eq!(registers.len(), 13 + 2 * 15);
    assert_eq!(registers[0], Register::SoftwareLock);
    assert_eq!(registers[12], Register::PwmBaseF123);
    assert_eq!(registers[13], Register::Fan(1, FanRegister::Setting));
    assert_eq!(registers[42], Register::Fan(2, FanRegister::TachReadingLow));
}

#[test]
fn register_reset_values() {
    assert_eq!(Register::Configuration.default_value(), Some(0x40));
    assert_eq!(Register::Fan(4, FanRegister::ValidTachCount).default_value(), Some(0xF5));
    assert_eq!(Register::ManufacturerId.default_value(), Some(0x5D));
    assert_eq!(Register::ProductId.default_value(), None);
    assert_eq!(Register::FanStatus.default_value(), Some(0x00));
}
