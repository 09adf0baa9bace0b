use emc230x::fan_config::{Edges, FanConfiguration1, Range, UpdateTime};
use emc230x::fan_registers::{FanDriveSetting, FanMinimumDrive};
use emc230x::tach::{
    DriveFailBand, TachReading, TachReadingHigh, TachReadingLow, TachTarget, TachTargetHigh,
    TachTargetLow,
};

#[test]
fn drive_fail_band() {
    let drive_fail_band = DriveFailBand::from(0x1FFF);

    assert_eq!(drive_fail_band.low.0, 0b1111_1000);
    assert_eq!(drive_fail_band.high.0, 0b1111_1111);
    assert_eq!(u16::from(drive_fail_band), 0x1FFF);
}

#[test]
fn fan_duty_cycle() {
    let expected_duty = 75_u8;
    let expected_raw = 191_u8;
    let test_value = FanDriveSetting::from_duty_cycle(expected_duty);
    assert_eq!(expected_duty, test_value.duty_cycle());
    assert_eq!(expected_raw, test_value.0);
}

#[test]
fn tach_reading() {
    let tach_reading = TachReading::from(0x1FFF);
    assert_eq!(tach_reading.low.0, 0b1111_1000);
    assert_eq!(tach_reading.high.0, 0b1111_1111);
    assert_eq!(u16::from(tach_reading), 0x1FFF);

    let tach_reading = TachReading::from(0x0F99);
    assert_eq!(tach_reading.low.0, 0b1100_1000);
    assert_eq!(tach_reading.high.0, 0b0111_1100);
    assert_eq!(u16::from(tach_reading), 0x0F99);
}

#[test]
fn tach_target() {
    let tach_target = TachTarget::from(0x1FFF);

    assert_eq!(tach_target.low.0, 0b1111_1000);
    assert_eq!(tach_target.high.0, 0b1111_1111);
    assert_eq!(u16::from(tach_target), 0x1FFF);
}

#[test]
fn duty_cycle_fixed_points() {
    let cases = [(0_u8, 0x00_u8), (50, 0x80), (75, 0xBF), (100, 0xFF)];
    for (duty, raw) in cases {
        let setting = FanDriveSetting::from_duty_cycle(duty);
        assert_eq!(setting.0, raw);
        assert_eq!(FanDriveSetting(raw).duty_cycle(), duty);
        let minimum = FanMinimumDrive::from_duty_cycle(duty);
        assert_eq!(minimum.0, raw);
        assert_eq!(minimum.duty_cycle(), duty);
    }
}

#[test]
fn duty_cycle_rounds_half_up() {
    // 10% of 255 is 25.5
    assert_eq!(FanDriveSetting::from_duty_cycle(10).0, 26);
    // 1 of 255 is 0.39%
    assert_eq!(FanDriveSetting(1).duty_cycle(), 0);
    // 2 of 255 is 0.78%
    assert_eq!(FanDriveSetting(2).duty_cycle(), 1);
}

#[test]
fn tach_reading_parts_and_mid_range_round_trip() {
    let reading = TachReading::from(0x0F99);
    assert_eq!(reading.low(), 0b11001);
    assert_eq!(reading.high(), 0b0111_1100);
    assert_eq!(reading.raw_low(), 0b1100_1000);
    assert_eq!(reading.raw_high(), 0b0111_1100);
    let target = TachTarget::from(0x0F99);
    assert_eq!(target.raw_low(), 0b1100_1000);
    assert_eq!(target.raw_high(), 0b0111_1100);
    assert_eq!(u16::from(target), 0x0F99);
}

#[test]
fn composite_drops_top_bits() {
    assert_eq!(u16::from(TachReading::from(0xFFFF)), 0x1FFF);
    assert_eq!(u16::from(TachTarget::from(0x2001)), 0x0001);
    assert_eq!(u16::from(DriveFailBand::from(0)), 0);
}

#[test]
fn fan_configuration1_fields() {
    let mut cfg = FanConfiguration1(FanConfiguration1::DEFAULT);
    assert!(!cfg.enagx());
    assert_eq!(cfg.rngx(), Range::Rpm1000);
    assert_eq!(cfg.edgx(), Edges::Sample5);
    assert_eq!(cfg.udtx(), UpdateTime::UpdateTime400ms);
    cfg.set_enagx(true);
    assert_eq!(cfg.0, 0xAB);
    cfg.set_rngx(Range::Rpm500);
    assert_eq!(cfg.0, 0x8B);
    cfg.set_edgx(Edges::Sample9);
    assert_eq!(cfg.0, 0x9B);
    cfg.set_udtx(UpdateTime::UpdateTime1600ms);
    assert_eq!(cfg.0, 0x9F);
    assert!(cfg.enagx());
    assert_eq!(cfg.rngx(), Range::Rpm500);
    assert_eq!(cfg.edgx(), Edges::Sample9);
    assert_eq!(cfg.udtx(), UpdateTime::UpdateTime1600ms);
}

#[test]
fn configuration_enum_values() {
    assert_eq!(Range::Rpm500.min_rpm(), 500);
    assert_eq!(Range::Rpm4000.min_rpm(), 4000);
    assert_eq!(Range::Rpm500.tach_count_multiplier(), 1);
    assert_eq!(Range::Rpm2000.tach_count_multiplier(), 4);
    assert_eq!(Edges::Sample3.num_edges(), 3);
    assert_eq!(Edges::Sample9.num_edges(), 9);
    assert_eq!(Edges::Sample7.poles(), 3);
    assert_eq!(Edges::Sample5.poles(), 2);
    assert_eq!(UpdateTime::UpdateTime100ms.millis(), 100);
    assert_eq!(UpdateTime::UpdateTime1200ms.millis(), 1200);
    assert_eq!(Range::from_bits(7), Range::Rpm1000);
    assert_eq!(UpdateTime::from_bits(0xFF), UpdateTime::UpdateTime400ms);
}

#[test]
fn composite_register_pairs() {
    let reading = TachReading::from((TachReadingLow(0b1100_1111), TachReadingHigh(0x7C)));
    assert_eq!(u16::from(reading), 0x0F99);
    let (low, high): (TachReadingLow, TachReadingHigh) = reading.into();
    assert_eq!(low.0, 0b1100_1111);
    assert_eq!(high.0, 0x7C);
    let (low, high): (TachTargetLow, TachTargetHigh) = TachTarget::from_count(0x0F99).into();
    assert_eq!(low.fxtt(), 0b11001);
    assert_eq!(high.fxtt(), 0x7C);
}
