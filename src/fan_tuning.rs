//! The per-fan tuning registers: PWM divide, Fan Configuration 2, PID
//! gains, spin-up, step size and valid tachometer count.
use vstd::prelude::*;

use crate::bits::{bit, bit_of, field, field_of, set_bit, set_field, with_bit, with_field};

verus! {

/// The PWM Divide register of one fan (offset 0x01): the drive frequency
/// is divided by this value; 0 counts as 1.
#[derive(Clone, Copy, Debug, PartialEq, Eq, Structural)]
pub struct PwmDivide(pub u8);

impl PwmDivide {
    /// Offset of the register in a fan's block.
    pub const OFFSET: u8 = 0x01;
    /// Value after power-on.
    pub const DEFAULT: u8 = 0x01;

    /// The divisor.
    pub fn pwm_divide(&self) -> (r: u8)
        ensures
            r == self.0,
    {
        self.0
    }

    /// Sets the divisor.
    pub fn set_pwm_divide(&mut self, value: u8)
        ensures
            final(self).0 == value,
    {
        self.0 = value;
    }
}

/// The derivative term of the closed-loop speed control.
#[derive(Clone, Copy, Debug, PartialEq, Eq, Structural)]
pub enum DerivativeOptions {
    /// No derivative.
    Off,
    /// Basic derivative.
    Basic,
    /// Step derivative.
    Step,
    /// Both basic and step.
    Both,
}

impl DerivativeOptions {
    /// The value that a 2-bit field encodes; other values give the
    /// reset default, `Off`.
    pub open spec fn decode(bits: u8) -> DerivativeOptions {
        match bits {
            1 => DerivativeOptions::Basic,
            2 => DerivativeOptions::Step,
            3 => DerivativeOptions::Both,
            _ => DerivativeOptions::Off,
        }
    }

    /// The 2-bit field value.
    pub open spec fn encode(self) -> u8 {
        match self {
            DerivativeOptions::Off => 0,
            DerivativeOptions::Basic => 1,
            DerivativeOptions::Step => 2,
            DerivativeOptions::Both => 3,
        }
    }

    /// The value that a 2-bit field encodes.
    pub fn from_bits(bits: u8) -> (r: DerivativeOptions)
        ensures
            r == DerivativeOptions::decode(bits),
    {
        match bits {
            1 => DerivativeOptions::Basic,
            2 => DerivativeOptions::Step,
            3 => DerivativeOptions::Both,
            _ => DerivativeOptions::Off,
        }
    }

    /// The 2-bit field value.
    pub fn bits(&self) -> (r: u8)
        ensures
            r == self.encode(),
            r < 4,
            DerivativeOptions::decode(r) == *self,
    {
        match self {
            DerivativeOptions::Off => 0,
            DerivativeOptions::Basic => 1,
            DerivativeOptions::Step => 2,
            DerivativeOptions::Both => 3,
        }
    }
}

/// The speed error below which the closed-loop control holds the drive.
#[derive(Clone, Copy, Debug, PartialEq, Eq, Structural)]
pub enum ErrorWindow {
    /// 0 RPM.
    Rpm0,
    /// 50 RPM.
    Rpm50,
    /// 100 RPM.
    Rpm100,
    /// 200 RPM.
    Rpm200,
}

impl ErrorWindow {
    /// The value that a 2-bit field encodes; other values give the
    /// reset default, `Rpm0`.
    pub open spec fn decode(bits: u8) -> ErrorWindow {
        match bits {
            1 => ErrorWindow::Rpm50,
            2 => ErrorWindow::Rpm100,
            3 => ErrorWindow::Rpm200,
            _ => ErrorWindow::Rpm0,
        }
    }

    /// The 2-bit field value.
    pub open spec fn encode(self) -> u8 {
        match self {
            ErrorWindow::Rpm0 => 0,
            ErrorWindow::Rpm50 => 1,
            ErrorWindow::Rpm100 => 2,
            ErrorWindow::Rpm200 => 3,
        }
    }

    /// The value that a 2-bit field encodes.
    pub fn from_bits(bits: u8) -> (r: ErrorWindow)
        ensures
            r == ErrorWindow::decode(bits),
    {
        match bits {
            1 => ErrorWindow::Rpm50,
            2 => ErrorWindow::Rpm100,
            3 => ErrorWindow::Rpm200,
            _ => ErrorWindow::Rpm0,
        }
    }

    /// The 2-bit field value.
    pub fn bits(&self) -> (r: u8)
        ensures
            r == self.encode(),
            r < 4,
            ErrorWindow::decode(r) == *self,
    {
        match self {
            ErrorWindow::Rpm0 => 0,
            ErrorWindow::Rpm50 => 1,
            ErrorWindow::Rpm100 => 2,
            ErrorWindow::Rpm200 => 3,
        }
    }
}

/// The Fan Configuration 2 register of one fan (offset 0x03): ramp
/// rate control, glitch filter, derivative options and error window.
#[derive(Clone, Copy, Debug, PartialEq, Eq, Structural)]
pub struct FanConfiguration2(pub u8);

impl FanConfiguration2 {
    /// Offset of the register in a fan's block.
    pub const OFFSET: u8 = 0x03;
    /// Value after power-on.
    pub const DEFAULT: u8 = 0x28;

    /// Whether ramp rate control is on.
    pub fn enrcx(&self) -> (r: bool)
        ensures
            r == bit_of(self.0, 6),
    {
        bit(self.0, 6)
    }

    /// Sets whether ramp rate control is on.
    pub fn set_enrcx(&mut self, on: bool)
        ensures
            final(self).0 == with_bit(old(self).0, 6, on),
    {
        self.0 = set_bit(self.0, 6, on);
    }

    /// Whether the tachometer glitch filter is on.
    pub fn ghenx(&self) -> (r: bool)
        ensures
            r == bit_of(self.0, 5),
    {
        bit(self.0, 5)
    }

    /// Sets whether the tachometer glitch filter is on.
    pub fn set_ghenx(&mut self, on: bool)
        ensures
            final(self).0 == with_bit(old(self).0, 5, on),
    {
        self.0 = set_bit(self.0, 5, on);
    }

    /// The derivative options.
    pub fn dptx(&self) -> (r: DerivativeOptions)
        ensures
            r == DerivativeOptions::decode(field_of(self.0, 3, 2)),
    {
        DerivativeOptions::from_bits(field(self.0, 3, 2))
    }

    /// Sets the derivative options.
    pub fn set_dptx(&mut self, value: DerivativeOptions)
        ensures
            final(self).0 == with_field(old(self).0, 3, 2, value.encode()),
    {
        self.0 = set_field(self.0, 3, 2, value.bits());
    }

    /// The error window.
    pub fn ergx(&self) -> (r: ErrorWindow)
        ensures
            r == ErrorWindow::decode(field_of(self.0, 1, 2)),
    {
        ErrorWindow::from_bits(field(self.0, 1, 2))
    }

    /// Sets the error window.
    pub fn set_ergx(&mut self, value: ErrorWindow)
        ensures
            final(self).0 == with_field(old(self).0, 1, 2, value.encode()),
    {
        self.0 = set_field(self.0, 1, 2, value.bits());
    }
}

/// A gain of the closed-loop speed control.
#[derive(Clone, Copy, Debug, PartialEq, Eq, Structural)]
pub enum PidGainMultiplier {
    /// Gain 1.
    X1,
    /// Gain 2.
    X2,
    /// Gain 4.
    X4,
    /// Gain 8.
    X8,
}

impl PidGainMultiplier {
    /// The value that a 2-bit field encodes; other values give the
    /// reset default, `X4`.
    pub open spec fn decode(bits: u8) -> PidGainMultiplier {
        match bits {
            0 => PidGainMultiplier::X1,
            1 => PidGainMultiplier::X2,
            3 => PidGainMultiplier::X8,
            _ => PidGainMultiplier::X4,
        }
    }

    /// The 2-bit field value.
    pub open spec fn encode(self) -> u8 {
        match self {
            PidGainMultiplier::X1 => 0,
            PidGainMultiplier::X2 => 1,
            PidGainMultiplier::X4 => 2,
            PidGainMultiplier::X8 => 3,
        }
    }

    /// The value that a 2-bit field encodes.
    pub fn from_bits(bits: u8) -> (r: PidGainMultiplier)
        ensures
            r == PidGainMultiplier::decode(bits),
    {
        match bits {
            0 => PidGainMultiplier::X1,
            1 => PidGainMultiplier::X2,
            3 => PidGainMultiplier::X8,
            _ => PidGainMultiplier::X4,
        }
    }

    /// The 2-bit field value.
    pub fn bits(&self) -> (r: u8)
        ensures
            r == self.encode(),
            r < 4,
            PidGainMultiplier::decode(r) == *self,
    {
        match self {
            PidGainMultiplier::X1 => 0,
            PidGainMultiplier::X2 => 1,
            PidGainMultiplier::X4 => 2,
            PidGainMultiplier::X8 => 3,
        }
    }
}

/// The Gain register of one fan (offset 0x05): the derivative, integral
/// and proportional gains, 2 bits each.
#[derive(Clone, Copy, Debug, PartialEq, Eq, Structural)]
pub struct PidGain(pub u8);

impl PidGain {
    /// Offset of the register in a fan's block.
    pub const OFFSET: u8 = 0x05;
    /// Value after power-on.
    pub const DEFAULT: u8 = 0x2A;

    /// The derivative gain field.
    pub fn gdex(&self) -> (r: u8)
        ensures
            r == field_of(self.0, 4, 2),
    {
        field(self.0, 4, 2)
    }

    /// Sets the derivative gain field from the low bits of `value`.
    pub fn set_gdex(&mut self, value: u8)
        ensures
            final(self).0 == with_field(old(self).0, 4, 2, value),
    {
        self.0 = set_field(self.0, 4, 2, value);
    }

    /// The integral gain field.
    pub fn ginx(&self) -> (r: u8)
        ensures
            r == field_of(self.0, 2, 2),
    {
        field(self.0, 2, 2)
    }

    /// Sets the integral gain field from the low bits of `value`.
    pub fn set_ginx(&mut self, value: u8)
        ensures
            final(self).0 == with_field(old(self).0, 2, 2, value),
    {
        self.0 = set_field(self.0, 2, 2, value);
    }

    /// The proportional gain field.
    pub fn gprx(&self) -> (r: u8)
        ensures
            r == field_of(self.0, 0, 2),
    {
        field(self.0, 0, 2)
    }

    /// Sets the proportional gain field from the low bits of `value`.
    pub fn set_gprx(&mut self, value: u8)
        ensures
            final(self).0 == with_field(old(self).0, 0, 2, value),
    {
        self.0 = set_field(self.0, 0, 2, value);
    }

    /// The derivative gain.
    pub fn derivative(&self) -> (r: PidGainMultiplier)
        ensures
            r == PidGainMultiplier::decode(field_of(self.0, 4, 2)),
    {
        PidGainMultiplier::from_bits(field(self.0, 4, 2))
    }

    /// The integral gain.
    pub fn integral(&self) -> (r: PidGainMultiplier)
        ensures
            r == PidGainMultiplier::decode(field_of(self.0, 2, 2)),
    {
        PidGainMultiplier::from_bits(field(self.0, 2, 2))
    }

    /// The proportional gain.
    pub fn proportional(&self) -> (r: PidGainMultiplier)
        ensures
            r == PidGainMultiplier::decode(field_of(self.0, 0, 2)),
    {
        PidGainMultiplier::from_bits(field(self.0, 0, 2))
    }
}

/// How many update periods a fan may miss its target at full drive
/// before it counts as failing.
#[derive(Clone, Copy, Debug, PartialEq, Eq, Structural)]
pub enum DriveFailCount {
    /// Detection off.
    Disabled,
    /// 16 update periods.
    UpdatePeriod16Ms,
    /// 32 update periods.
    UpdatePeriod32Ms,
    /// 64 update periods.
    UpdatePeriod64Ms,
}

impl DriveFailCount {
    /// The value that a 2-bit field encodes; other values give the
    /// reset default, `Disabled`.
    pub open spec fn decode(bits: u8) -> DriveFailCount {
        match bits {
            1 => DriveFailCount::UpdatePeriod16Ms,
            2 => DriveFailCount::UpdatePeriod32Ms,
            3 => DriveFailCount::UpdatePeriod64Ms,
            _ => DriveFailCount::Disabled,
        }
    }

    /// The 2-bit field value.
    pub open spec fn encode(self) -> u8 {
        match self {
            DriveFailCount::Disabled => 0,
            DriveFailCount::UpdatePeriod16Ms => 1,
            DriveFailCount::UpdatePeriod32Ms => 2,
            DriveFailCount::UpdatePeriod64Ms => 3,
        }
    }

    /// The value that a 2-bit field encodes.
    pub fn from_bits(bits: u8) -> (r: DriveFailCount)
        ensures
            r == DriveFailCount::decode(bits),
    {
        match bits {
            1 => DriveFailCount::UpdatePeriod16Ms,
            2 => DriveFailCount::UpdatePeriod32Ms,
            3 => DriveFailCount::UpdatePeriod64Ms,
            _ => DriveFailCount::Disabled,
        }
    }

    /// The 2-bit field value.
    pub fn bits(&self) -> (r: u8)
        ensures
            r == self.encode(),
            r < 4,
            DriveFailCount::decode(r) == *self,
    {
        match self {
            DriveFailCount::Disabled => 0,
            DriveFailCount::UpdatePeriod16Ms => 1,
            DriveFailCount::UpdatePeriod32Ms => 2,
            DriveFailCount::UpdatePeriod64Ms => 3,
        }
    }
}

/// The drive applied during spin-up, in percent.
#[derive(Clone, Copy, Debug, PartialEq, Eq, Structural)]
pub enum SpinUpLevel {
    /// 30%.
    Level30,
    /// 35%.
    Level35,
    /// 40%.
    Level40,
    /// 45%.
    Level45,
    /// 50%.
    Level50,
    /// 55%.
    Level55,
    /// 60%.
    Level60,
    /// 65%.
    Level65,
}

impl SpinUpLevel {
    /// The value that a 3-bit field encodes; other values give the
    /// reset default, `Level60`.
    pub open spec fn decode(bits: u8) -> SpinUpLevel {
        match bits {
            0 => SpinUpLevel::Level30,
            1 => SpinUpLevel::Level35,
            2 => SpinUpLevel::Level40,
            3 => SpinUpLevel::Level45,
            4 => SpinUpLevel::Level50,
            5 => SpinUpLevel::Level55,
            7 => SpinUpLevel::Level65,
            _ => SpinUpLevel::Level60,
        }
    }

    /// The 3-bit field value.
    pub open spec fn encode(self) -> u8 {
        match self {
            SpinUpLevel::Level30 => 0,
            SpinUpLevel::Level35 => 1,
            SpinUpLevel::Level40 => 2,
            SpinUpLevel::Level45 => 3,
            SpinUpLevel::Level50 => 4,
            SpinUpLevel::Level55 => 5,
            SpinUpLevel::Level60 => 6,
            SpinUpLevel::Level65 => 7,
        }
    }

    /// The value that a 3-bit field encodes.
    pub fn from_bits(bits: u8) -> (r: SpinUpLevel)
        ensures
            r == SpinUpLevel::decode(bits),
    {
        match bits {
            0 => SpinUpLevel::Level30,
            1 => SpinUpLevel::Level35,
            2 => SpinUpLevel::Level40,
            3 => SpinUpLevel::Level45,
            4 => SpinUpLevel::Level50,
            5 => SpinUpLevel::Level55,
            7 => SpinUpLevel::Level65,
            _ => SpinUpLevel::Level60,
        }
    }

    /// The 3-bit field value.
    pub fn bits(&self) -> (r: u8)
        ensures
            r == self.encode(),
            r < 8,
            SpinUpLevel::decode(r) == *self,
    {
        match self {
            SpinUpLevel::Level30 => 0,
            SpinUpLevel::Level35 => 1,
            SpinUpLevel::Level40 => 2,
            SpinUpLevel::Level45 => 3,
            SpinUpLevel::Level50 => 4,
            SpinUpLevel::Level55 => 5,
            SpinUpLevel::Level60 => 6,
            SpinUpLevel::Level65 => 7,
        }
    }

    /// The spin-up drive in percent.
    pub fn percent(&self) -> (r: u8)
        ensures
            r == 30 + 5 * self.encode(),
    {
        30 + 5 * self.bits()
    }
}

/// How long the spin-up routine drives the fan.
#[derive(Clone, Copy, Debug, PartialEq, Eq, Structural)]
pub enum SpinUpTimeMs {
    /// 250 ms.
    Time250,
    /// 500 ms.
    Time500,
    /// 1000 ms.
    Time1000,
    /// 2000 ms.
    Time2000,
}

impl SpinUpTimeMs {
    /// The value that a 2-bit field encodes; other values give the
    /// reset default, `Time500`.
    pub open spec fn decode(bits: u8) -> SpinUpTimeMs {
        match bits {
            0 => SpinUpTimeMs::Time250,
            2 => SpinUpTimeMs::Time1000,
            3 => SpinUpTimeMs::Time2000,
            _ => SpinUpTimeMs::Time500,
        }
    }

    /// The 2-bit field value.
    pub open spec fn encode(self) -> u8 {
        match self {
            SpinUpTimeMs::Time250 => 0,
            SpinUpTimeMs::Time500 => 1,
            SpinUpTimeMs::Time1000 => 2,
            SpinUpTimeMs::Time2000 => 3,
        }
    }

    /// The value that a 2-bit field encodes.
    pub fn from_bits(bits: u8) -> (r: SpinUpTimeMs)
        ensures
            r == SpinUpTimeMs::decode(bits),
    {
        match bits {
            0 => SpinUpTimeMs::Time250,
            2 => SpinUpTimeMs::Time1000,
            3 => SpinUpTimeMs::Time2000,
            _ => SpinUpTimeMs::Time500,
        }
    }

    /// The 2-bit field value.
    pub fn bits(&self) -> (r: u8)
        ensures
            r == self.encode(),
            r < 4,
            SpinUpTimeMs::decode(r) == *self,
    {
        match self {
            SpinUpTimeMs::Time250 => 0,
            SpinUpTimeMs::Time500 => 1,
            SpinUpTimeMs::Time1000 => 2,
            SpinUpTimeMs::Time2000 => 3,
        }
    }

    /// The spin-up time in milliseconds.
    pub fn millis(&self) -> (r: u16)
        ensures
            self == SpinUpTimeMs::Time250 ==> r == 250,
            self == SpinUpTimeMs::Time500 ==> r == 500,
            self == SpinUpTimeMs::Time1000 ==> r == 1000,
            self == SpinUpTimeMs::Time2000 ==> r == 2000,
    {
        match self {
            SpinUpTimeMs::Time250 => 250,
            SpinUpTimeMs::Time500 => 500,
            SpinUpTimeMs::Time1000 => 1000,
            SpinUpTimeMs::Time2000 => 2000,
        }
    }
}

/// The Fan Spin Up Configuration register of one fan (offset 0x06).
#[derive(Clone, Copy, Debug, PartialEq, Eq, Structural)]
pub struct FanSpinUpConfig(pub u8);

impl FanSpinUpConfig {
    /// Offset of the register in a fan's block.
    pub const OFFSET: u8 = 0x06;
    /// Value after power-on.
    pub const DEFAULT: u8 = 0x19;

    /// The drive fail count.
    pub fn dfcx(&self) -> (r: DriveFailCount)
        ensures
            r == DriveFailCount::decode(field_of(self.0, 6, 2)),
    {
        DriveFailCount::from_bits(field(self.0, 6, 2))
    }

    /// Sets the drive fail count.
    pub fn set_dfcx(&mut self, value: DriveFailCount)
        ensures
            final(self).0 == with_field(old(self).0, 6, 2, value.encode()),
    {
        self.0 = set_field(self.0, 6, 2, value.bits());
    }

    /// Whether spin-up skips the kick to 100% drive.
    pub fn nkckx(&self) -> (r: bool)
        ensures
            r == bit_of(self.0, 5),
    {
        bit(self.0, 5)
    }

    /// Sets whether spin-up skips the kick to 100% drive.
    pub fn set_nkckx(&mut self, on: bool)
        ensures
            final(self).0 == with_bit(old(self).0, 5, on),
    {
        self.0 = set_bit(self.0, 5, on);
    }

    /// The spin-up level.
    pub fn splvx(&self) -> (r: SpinUpLevel)
        ensures
            r == SpinUpLevel::decode(field_of(self.0, 2, 3)),
    {
        SpinUpLevel::from_bits(field(self.0, 2, 3))
    }

    /// Sets the spin-up level.
    pub fn set_splvx(&mut self, value: SpinUpLevel)
        ensures
            final(self).0 == with_field(old(self).0, 2, 3, value.encode()),
    {
        self.0 = set_field(self.0, 2, 3, value.bits());
    }

    /// The spin-up time.
    pub fn spltx(&self) -> (r: SpinUpTimeMs)
        ensures
            r == SpinUpTimeMs::decode(field_of(self.0, 0, 2)),
    {
        SpinUpTimeMs::from_bits(field(self.0, 0, 2))
    }

    /// Sets the spin-up time.
    pub fn set_spltx(&mut self, value: SpinUpTimeMs)
        ensures
            final(self).0 == with_field(old(self).0, 0, 2, value.encode()),
    {
        self.0 = set_field(self.0, 0, 2, value.bits());
    }
}

/// The Fan Max Step register of one fan (offset 0x07): the largest
/// change of drive per update.
#[derive(Clone, Copy, Debug, PartialEq, Eq, Structural)]
pub struct MaxStepSize(pub u8);

impl MaxStepSize {
    /// Offset of the register in a fan's block.
    pub const OFFSET: u8 = 0x07;
    /// Value after power-on.
    pub const DEFAULT: u8 = 0x10;

    /// The maximum step.
    pub fn stpx(&self) -> (r: u8)
        ensures
            r == self.0,
    {
        self.0
    }

    /// Sets the maximum step.
    pub fn set_stpx(&mut self, value: u8)
        ensures
            final(self).0 == value,
    {
        self.0 = value;
    }
}

/// The Valid TACH Count register of one fan (offset 0x09): bits 12-5 of
/// the largest tachometer count that still counts as spinning.
#[derive(Clone, Copy, Debug, PartialEq, Eq, Structural)]
pub struct ValidTachCount(pub u8);

impl ValidTachCount {
    /// Offset of the register in a fan's block.
    pub const OFFSET: u8 = 0x09;
    /// Value after power-on.
    pub const DEFAULT: u8 = 0xF5;

    /// Bits 12-5 of the valid count.
    pub fn fxvt(&self) -> (r: u8)
        ensures
            r == self.0,
    {
        self.0
    }

    /// Sets bits 12-5 of the valid count.
    pub fn set_fxvt(&mut self, value: u8)
        ensures
            final(self).0 == value,
    {
        self.0 = value;
    }

    /// The largest tachometer count that still counts as spinning.
    pub fn max_tach_count(&self) -> (r: u16)
        ensures
            r == self.0 as int * 32,
    {
        let raw = self.0 as u16;
        assert((raw << 5u16) == raw * 32) by (bit_vector)
            requires
                raw < 256,
        ;
        raw << 5u16
    }
}

} // verus!
