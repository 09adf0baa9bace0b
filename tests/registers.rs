use emc230x::bits::{bit, field, set_bit, set_field};
use emc230x::chip_registers::{ProductId, PwmOutputConfig};
use emc230x::chip_status::{
    Configuration, FanDriveFailStatus, FanInterruptEnable, FanSpinStatus, FanStallStatus,
    FanStatus, ManufacturerId, ProductFeatures, PwmBase123, PwmBase45, PwmBaseFrequencyKhz,
    PwmPolarityConfig, SiliconRevision, SoftwareLock,
};
use emc230x::fan_tuning::{
    DerivativeOptions, DriveFailCount, ErrorWindow, FanConfiguration2, FanSpinUpConfig,
    MaxStepSize, PidGain, PidGainMultiplier, PwmDivide, SpinUpLevel, SpinUpTimeMs,
    ValidTachCount,
};
use emc230x::Error;

#[test]
fn field_helpers() {
    assert_eq!(field(0b1011_0110, 5, 2), 0b01);
    assert_eq!(field(0b1011_0110, 0, 8), 0b1011_0110);
    assert_eq!(set_field(0b1111_1111, 3, 2, 0), 0b1110_0111);
    assert_eq!(set_field(0, 3, 2, 0xFF), 0b0001_1000);
    assert!(bit(0x80, 7));
    assert!(!bit(0x7F, 7));
    assert_eq!(set_bit(0x00, 2, true), 0x04);
    assert_eq!(set_bit(0xFF, 0, false), 0xFE);
}

#[test]
fn product_identifiers() {
    assert_eq!(ProductId::from_raw(0x34), Ok(ProductId::Emc2305));
    assert_eq!(ProductId::from_raw(0x37), Ok(ProductId::Emc2301));
    assert_eq!(ProductId::from_raw(0x30), Err(Error::InvalidDeviceId));
    assert_eq!(ProductId::Emc2302.raw(), 0x36);
    assert_eq!(ProductId::Emc2303.name(), "EMC2303");
    assert_eq!(ProductId::ADDRESS, 0xFD);
}

#[test]
fn pwm_output_config() {
    let mut out = PwmOutputConfig::new();
    out.push_pull(1);
    out.push_pull(5);
    assert_eq!(out.0, 0b1_0001);
    assert!(out.push_pull_enabled(5));
    out.open_drain(1);
    assert_eq!(out.0, 0b1_0000);
}

#[test]
fn configuration_register() {
    let mut cfg = Configuration(Configuration::DEFAULT);
    assert!(cfg.dis_to());
    assert!(!cfg.mask());
    cfg.set_mask(true);
    cfg.set_useck(true);
    assert_eq!(cfg.0, 0xC1);
    assert!(cfg.useck());
    assert!(!cfg.dreck());
    assert!(!cfg.wd_en());
}

#[test]
fn status_registers() {
    let status = FanStatus(0b1000_0101);
    assert!(status.watch());
    assert!(status.dvfail());
    assert!(!status.fnspin());
    assert!(status.fnstl());
    let stall = FanStallStatus(0b1_0010);
    assert!(stall.f5stl());
    assert!(stall.f2stl());
    assert!(!stall.f1stl());
    assert!(stall.stalled(5));
    assert!(!stall.stalled(3));
    let spin = FanSpinStatus(0b0_0100);
    assert!(spin.f3spin());
    assert!(spin.spin_failed(3));
    let drive = FanDriveFailStatus(0b0_1000);
    assert!(drive.drvf4());
    assert!(drive.drive_failed(4));
    let mut irq = FanInterruptEnable(0);
    irq.set_interrupt_enabled(2, true);
    assert_eq!(irq.0, 0b10);
    assert!(irq.f2iten());
    assert!(irq.interrupt_enabled(2));
}

#[test]
fn polarity_and_base_frequency() {
    let mut pol = PwmPolarityConfig(0);
    pol.set_plrity3(true);
    pol.set_inverted(5, true);
    assert_eq!(pol.0, 0b1_0100);
    assert!(pol.plrity5());
    assert!(pol.inverted(3));
    let mut base = PwmBase123(0);
    base.set_pmb3(PwmBaseFrequencyKhz::Pwm2_441);
    base.set_pmb1(PwmBaseFrequencyKhz::Pwm19_53);
    assert_eq!(base.0, 0b11_00_01);
    assert_eq!(base.pmb2(), PwmBaseFrequencyKhz::Pwm26_00);
    assert_eq!(base.pmb3(), PwmBaseFrequencyKhz::Pwm2_441);
    let mut base45 = PwmBase45(0);
    base45.set_pmb5(PwmBaseFrequencyKhz::Pwm4_882);
    assert_eq!(base45.0, 0b10_00);
    assert_eq!(base45.pmb5(), PwmBaseFrequencyKhz::Pwm4_882);
    assert_eq!(base45.pmb4(), PwmBaseFrequencyKhz::Pwm26_00);
}

#[test]
fn identification_registers() {
    assert_eq!(ManufacturerId(ManufacturerId::DEFAULT).mfg_id(), 0x5D);
    assert_eq!(SiliconRevision(SiliconRevision::DEFAULT).revision(), 0x80);
    let features = ProductFeatures(0b0010_1101);
    assert_eq!(features.adr(), 0b101);
    assert_eq!(features.fsp(), 0b101);
    let mut lock = SoftwareLock(0);
    lock.set_lock(1);
    assert_eq!(lock.lock(), 1);
    assert_eq!(lock.0, 1);
}

#[test]
fn fan_configuration2_register() {
    let mut cfg = FanConfiguration2(FanConfiguration2::DEFAULT);
    assert!(cfg.ghenx());
    assert!(!cfg.enrcx());
    assert_eq!(cfg.dptx(), DerivativeOptions::Basic);
    assert_eq!(cfg.ergx(), ErrorWindow::Rpm0);
    cfg.set_ergx(ErrorWindow::Rpm200);
    cfg.set_dptx(DerivativeOptions::Off);
    assert_eq!(cfg.0, 0x26);
}

#[test]
fn gain_register() {
    let gain = PidGain(PidGain::DEFAULT);
    assert_eq!(gain.gdex(), 0b10);
    assert_eq!(gain.ginx(), 0b10);
    assert_eq!(gain.gprx(), 0b10);
    assert_eq!(gain.proportional(), PidGainMultiplier::X4);
    let mut gain = gain;
    gain.set_gprx(0b11);
    assert_eq!(gain.proportional(), PidGainMultiplier::X8);
    assert_eq!(gain.0, 0x2B);
}

#[test]
fn spin_up_register() {
    let mut spin = FanSpinUpConfig(FanSpinUpConfig::DEFAULT);
    assert_eq!(spin.dfcx(), DriveFailCount::Disabled);
    assert!(!spin.nkckx());
    assert_eq!(spin.splvx(), SpinUpLevel::Level60);
    assert_eq!(spin.spltx(), SpinUpTimeMs::Time500);
    assert_eq!(spin.splvx().percent(), 60);
    assert_eq!(spin.spltx().millis(), 500);
    spin.set_dfcx(DriveFailCount::UpdatePeriod64Ms);
    spin.set_nkckx(true);
    spin.set_splvx(SpinUpLevel::Level30);
    spin.set_spltx(SpinUpTimeMs::Time2000);
    assert_eq!(spin.0, 0b11_1_000_11);
    assert_eq!(SpinUpLevel::Level65.percent(), 65);
}

#[test]
fn single_byte_tuning_registers() {
    assert_eq!(ValidTachCount(ValidTachCount::DEFAULT).max_tach_count(), 0xF5 << 5);
    assert_eq!(ValidTachCount(0xFF).max_tach_count(), 0x1FE0);
    let mut step = MaxStepSize(MaxStepSize::DEFAULT);
    assert_eq!(step.stpx(), 0x10);
    step.set_stpx(0x3F);
    assert_eq!(step.0, 0x3F);
    let mut divide = PwmDivide(PwmDivide::DEFAULT);
    assert_eq!(divide.pwm_divide(), 1);
    divide.set_pwm_divide(4);
    assert_eq!(divide.0, 4);
}

#[test]
fn error_messages() {
    assert_eq!(Error::BusError.message(), "I2C bus error");
    assert_eq!(Error::InvalidDeviceId.message(), "Invalid device identifier");
    assert_eq!(Error::InvalidManufacturerId.message(), "Invalid manufacturer identifier");
    assert_eq!(Error::InvalidFan.message(), "Invalid fan number");
    assert_eq!(Error::InvalidRegister.message(), "Invalid register address");
    assert_eq!(
        Error::RegisterTypeConversion.message(),
        "Failed to convert register value to specific type"
    );
    assert_eq!(Error::SpeedOutOfRange.message(), "Speed out of range");
}
