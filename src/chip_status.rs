//! The chip-wide status, configuration and identification registers.
use vstd::prelude::*;

use crate::bits::{bit, bit_of, field, field_of, set_bit, set_field, with_bit, with_field};

verus! {

/// The Configuration register (0x20): alert masking, bus time-out,
/// watchdog and tachometer clock source. It is software locked.
#[derive(Clone, Copy, Debug, PartialEq, Eq, Structural)]
pub struct Configuration(pub u8);

impl Configuration {
    /// Address of the register.
    pub const ADDRESS: u8 = 0x20;
    /// Value after power-on.
    pub const DEFAULT: u8 = 0x40;

    /// Whether the ALERT pin is kept from asserting.
    pub fn mask(&self) -> (r: bool)
        ensures
            r == bit_of(self.0, 7),
    {
        bit(self.0, 7)
    }

    /// Sets whether the ALERT pin is kept from asserting.
    pub fn set_mask(&mut self, on: bool)
        ensures
            final(self).0 == with_bit(old(self).0, 7, on),
    {
        self.0 = set_bit(self.0, 7, on);
    }

    /// Whether the SMBus time-out is disabled, for full I2C compliance.
    pub fn dis_to(&self) -> (r: bool)
        ensures
            r == bit_of(self.0, 6),
    {
        bit(self.0, 6)
    }

    /// Sets whether the SMBus time-out is disabled, for full I2C compliance.
    pub fn set_dis_to(&mut self, on: bool)
        ensures
            final(self).0 == with_bit(old(self).0, 6, on),
    {
        self.0 = set_bit(self.0, 6, on);
    }

    /// Whether the watchdog timer runs continuously.
    pub fn wd_en(&self) -> (r: bool)
        ensures
            r == bit_of(self.0, 5),
    {
        bit(self.0, 5)
    }

    /// Sets whether the watchdog timer runs continuously.
    pub fn set_wd_en(&mut self, on: bool)
        ensures
            final(self).0 == with_bit(old(self).0, 5, on),
    {
        self.0 = set_bit(self.0, 5, on);
    }

    /// Whether the CLK pin drives the internal tachometer clock out.
    pub fn dreck(&self) -> (r: bool)
        ensures
            r == bit_of(self.0, 1),
    {
        bit(self.0, 1)
    }

    /// Sets whether the CLK pin drives the internal tachometer clock out.
    pub fn set_dreck(&mut self, on: bool)
        ensures
            final(self).0 == with_bit(old(self).0, 1, on),
    {
        self.0 = set_bit(self.0, 1, on);
    }

    /// Whether the CLK pin is used as the tachometer clock.
    pub fn useck(&self) -> (r: bool)
        ensures
            r == bit_of(self.0, 0),
    {
        bit(self.0, 0)
    }

    /// Sets whether the CLK pin is used as the tachometer clock.
    pub fn set_useck(&mut self, on: bool)
        ensures
            final(self).0 == with_bit(old(self).0, 0, on),
    {
        self.0 = set_bit(self.0, 0, on);
    }
}

/// The Fan Status register (0x24): summary of stall, spin-up and drive
/// failures, and watchdog expiry.
#[derive(Clone, Copy, Debug, PartialEq, Eq, Structural)]
pub struct FanStatus(pub u8);

impl FanStatus {
    /// Address of the register.
    pub const ADDRESS: u8 = 0x24;
    /// Value after power-on.
    pub const DEFAULT: u8 = 0x00;

    /// Whether the watchdog timer has expired.
    pub fn watch(&self) -> (r: bool)
        ensures
            r == bit_of(self.0, 7),
    {
        bit(self.0, 7)
    }

    /// Whether a fan cannot reach its target speed at full drive.
    pub fn dvfail(&self) -> (r: bool)
        ensures
            r == bit_of(self.0, 2),
    {
        bit(self.0, 2)
    }

    /// Whether a fan failed to spin up.
    pub fn fnspin(&self) -> (r: bool)
        ensures
            r == bit_of(self.0, 1),
    {
        bit(self.0, 1)
    }

    /// Whether a fan is stalled.
    pub fn fnstl(&self) -> (r: bool)
        ensures
            r == bit_of(self.0, 0),
    {
        bit(self.0, 0)
    }
}

/// The Fan Stall Status register (0x25): bit `n - 1` is set while fan
/// `n`'s tachometer count exceeds the valid count.
#[derive(Clone, Copy, Debug, PartialEq, Eq, Structural)]
pub struct FanStallStatus(pub u8);

impl FanStallStatus {
    /// Address of the register.
    pub const ADDRESS: u8 = 0x25;
    /// Value after power-on.
    pub const DEFAULT: u8 = 0x00;

    /// Whether fan 5 is stalled.
    pub fn f5stl(&self) -> (r: bool)
        ensures
            r == bit_of(self.0, 4),
    {
        bit(self.0, 4)
    }

    /// Whether fan 4 is stalled.
    pub fn f4stl(&self) -> (r: bool)
        ensures
            r == bit_of(self.0, 3),
    {
        bit(self.0, 3)
    }

    /// Whether fan 3 is stalled.
    pub fn f3stl(&self) -> (r: bool)
        ensures
            r == bit_of(self.0, 2),
    {
        bit(self.0, 2)
    }

    /// Whether fan 2 is stalled.
    pub fn f2stl(&self) -> (r: bool)
        ensures
            r == bit_of(self.0, 1),
    {
        bit(self.0, 1)
    }

    /// Whether fan 1 is stalled.
    pub fn f1stl(&self) -> (r: bool)
        ensures
            r == bit_of(self.0, 0),
    {
        bit(self.0, 0)
    }

    /// Whether fan `fan` is stalled.
    pub fn stalled(&self, fan: u8) -> (r: bool)
        requires
            1 <= fan <= 5,
        ensures
            r == bit_of(self.0, (fan - 1) as u8),
    {
        bit(self.0, fan - 1)
    }
}

/// The Fan Spin Status register (0x26): bit `n - 1` is set when fan
/// `n`'s spin-up routine failed.
#[derive(Clone, Copy, Debug, PartialEq, Eq, Structural)]
pub struct FanSpinStatus(pub u8);

impl FanSpinStatus {
    /// Address of the register.
    pub const ADDRESS: u8 = 0x26;
    /// Value after power-on.
    pub const DEFAULT: u8 = 0x00;

    /// Whether fan 5 failed to spin up.
    pub fn f5spin(&self) -> (r: bool)
        ensures
            r == bit_of(self.0, 4),
    {
        bit(self.0, 4)
    }

    /// Whether fan 4 failed to spin up.
    pub fn f4spin(&self) -> (r: bool)
        ensures
            r == bit_of(self.0, 3),
    {
        bit(self.0, 3)
    }

    /// Whether fan 3 failed to spin up.
    pub fn f3spin(&self) -> (r: bool)
        ensures
            r == bit_of(self.0, 2),
    {
        bit(self.0, 2)
    }

    /// Whether fan 2 failed to spin up.
    pub fn f2spin(&self) -> (r: bool)
        ensures
            r == bit_of(self.0, 1),
    {
        bit(self.0, 1)
    }

    /// Whether fan 1 failed to spin up.
    pub fn f1spin(&self) -> (r: bool)
        ensures
            r == bit_of(self.0, 0),
    {
        bit(self.0, 0)
    }

    /// Whether fan `fan` failed to spin up.
    pub fn spin_failed(&self, fan: u8) -> (r: bool)
        requires
            1 <= fan <= 5,
        ensures
            r == bit_of(self.0, (fan - 1) as u8),
    {
        bit(self.0, fan - 1)
    }
}

/// The Fan Drive Fail Status register (0x27): bit `n - 1` is set when
/// fan `n` cannot reach its target speed at full drive.
#[derive(Clone, Copy, Debug, PartialEq, Eq, Structural)]
pub struct FanDriveFailStatus(pub u8);

impl FanDriveFailStatus {
    /// Address of the register.
    pub const ADDRESS: u8 = 0x27;
    /// Value after power-on.
    pub const DEFAULT: u8 = 0x00;

    /// Whether fan 5 cannot reach its target speed.
    pub fn drvf5(&self) -> (r: bool)
        ensures
            r == bit_of(self.0, 4),
    {
        bit(self.0, 4)
    }

    /// Whether fan 4 cannot reach its target speed.
    pub fn drvf4(&self) -> (r: bool)
        ensures
            r == bit_of(self.0, 3),
    {
        bit(self.0, 3)
    }

    /// Whether fan 3 cannot reach its target speed.
    pub fn drvf3(&self) -> (r: bool)
        ensures
            r == bit_of(self.0, 2),
    {
        bit(self.0, 2)
    }

    /// Whether fan 2 cannot reach its target speed.
    pub fn drvf2(&self) -> (r: bool)
        ensures
            r == bit_of(self.0, 1),
    {
        bit(self.0, 1)
    }

    /// Whether fan 1 cannot reach its target speed.
    pub fn drvf1(&self) -> (r: bool)
        ensures
            r == bit_of(self.0, 0),
    {
        bit(self.0, 0)
    }

    /// Whether fan `fan` cannot reach its target speed.
    pub fn drive_failed(&self, fan: u8) -> (r: bool)
        requires
            1 <= fan <= 5,
        ensures
            r == bit_of(self.0, (fan - 1) as u8),
    {
        bit(self.0, fan - 1)
    }
}

/// The Fan Interrupt Enable register (0x29): bit `n - 1` lets fan `n`
/// assert the ALERT pin on an error.
#[derive(Clone, Copy, Debug, PartialEq, Eq, Structural)]
pub struct FanInterruptEnable(pub u8);

impl FanInterruptEnable {
    /// Address of the register.
    pub const ADDRESS: u8 = 0x29;
    /// Value after power-on.
    pub const DEFAULT: u8 = 0x00;

    /// Whether fan 5 may assert the ALERT pin.
    pub fn f5iten(&self) -> (r: bool)
        ensures
            r == bit_of(self.0, 4),
    {
        bit(self.0, 4)
    }

    /// Whether fan 4 may assert the ALERT pin.
    pub fn f4iten(&self) -> (r: bool)
        ensures
            r == bit_of(self.0, 3),
    {
        bit(self.0, 3)
    }

    /// Whether fan 3 may assert the ALERT pin.
    pub fn f3iten(&self) -> (r: bool)
        ensures
            r == bit_of(self.0, 2),
    {
        bit(self.0, 2)
    }

    /// Whether fan 2 may assert the ALERT pin.
    pub fn f2iten(&self) -> (r: bool)
        ensures
            r == bit_of(self.0, 1),
    {
        bit(self.0, 1)
    }

    /// Whether fan 1 may assert the ALERT pin.
    pub fn f1iten(&self) -> (r: bool)
        ensures
            r == bit_of(self.0, 0),
    {
        bit(self.0, 0)
    }

    /// Whether fan `fan` may assert the ALERT pin.
    pub fn interrupt_enabled(&self, fan: u8) -> (r: bool)
        requires
            1 <= fan <= 5,
        ensures
            r == bit_of(self.0, (fan - 1) as u8),
    {
        bit(self.0, fan - 1)
    }

    /// Sets whether fan `fan` may assert the ALERT pin.
    pub fn set_interrupt_enabled(&mut self, fan: u8, on: bool)
        requires
            1 <= fan <= 5,
        ensures
            final(self).0 == with_bit(old(self).0, (fan - 1) as u8, on),
    {
        self.0 = set_bit(self.0, fan - 1, on);
    }
}

/// The PWM Polarity Config register (0x2A): bit `n - 1` inverts fan
/// `n`'s PWM output, so that a drive of 0x00 gives 100% duty cycle.
#[derive(Clone, Copy, Debug, PartialEq, Eq, Structural)]
pub struct PwmPolarityConfig(pub u8);

impl PwmPolarityConfig {
    /// Address of the register.
    pub const ADDRESS: u8 = 0x2A;
    /// Value after power-on.
    pub const DEFAULT: u8 = 0x00;

    /// Whether fan 5's PWM output is inverted.
    pub fn plrity5(&self) -> (r: bool)
        ensures
            r == bit_of(self.0, 4),
    {
        bit(self.0, 4)
    }

    /// Sets whether fan 5's PWM output is inverted.
    pub fn set_plrity5(&mut self, on: bool)
        ensures
            final(self).0 == with_bit(old(self).0, 4, on),
    {
        self.0 = set_bit(self.0, 4, on);
    }

    /// Whether fan 4's PWM output is inverted.
    pub fn plrity4(&self) -> (r: bool)
        ensures
            r == bit_of(self.0, 3),
    {
        bit(self.0, 3)
    }

    /// Sets whether fan 4's PWM output is inverted.
    pub fn set_plrity4(&mut self, on: bool)
        ensures
            final(self).0 == with_bit(old(self).0, 3, on),
    {
        self.0 = set_bit(self.0, 3, on);
    }

    /// Whether fan 3's PWM output is inverted.
    pub fn plrity3(&self) -> (r: bool)
        ensures
            r == bit_of(self.0, 2),
    {
        bit(self.0, 2)
    }

    /// Sets whether fan 3's PWM output is inverted.
    pub fn set_plrity3(&mut self, on: bool)
        ensures
            final(self).0 == with_bit(old(self).0, 2, on),
    {
        self.0 = set_bit(self.0, 2, on);
    }

    /// Whether fan 2's PWM output is inverted.
    pub fn plrity2(&self) -> (r: bool)
        ensures
            r == bit_of(self.0, 1),
    {
        bit(self.0, 1)
    }

    /// Sets whether fan 2's PWM output is inverted.
    pub fn set_plrity2(&mut self, on: bool)
        ensures
            final(self).0 == with_bit(old(self).0, 1, on),
    {
        self.0 = set_bit(self.0, 1, on);
    }

    /// Whether fan 1's PWM output is inverted.
    pub fn plrity1(&self) -> (r: bool)
        ensures
            r == bit_of(self.0, 0),
    {
        bit(self.0, 0)
    }

    /// Sets whether fan 1's PWM output is inverted.
    pub fn set_plrity1(&mut self, on: bool)
        ensures
            final(self).0 == with_bit(old(self).0, 0, on),
    {
        self.0 = set_bit(self.0, 0, on);
    }

    /// Whether fan `fan`'s PWM output is inverted.
    pub fn inverted(&self, fan: u8) -> (r: bool)
        requires
            1 <= fan <= 5,
        ensures
            r == bit_of(self.0, (fan - 1) as u8),
    {
        bit(self.0, fan - 1)
    }

    /// Sets whether fan `fan`'s PWM output is inverted.
    pub fn set_inverted(&mut self, fan: u8, on: bool)
        requires
            1 <= fan <= 5,
        ensures
            final(self).0 == with_bit(old(self).0, (fan - 1) as u8, on),
    {
        self.0 = set_bit(self.0, fan - 1, on);
    }
}

/// Base frequency of a PWM output.
#[derive(Clone, Copy, Debug, PartialEq, Eq, Structural)]
pub enum PwmBaseFrequencyKhz {
    /// 26.00 kHz.
    Pwm26_00,
    /// 19.53 kHz.
    Pwm19_53,
    /// 4.882 kHz.
    Pwm4_882,
    /// 2.441 kHz.
    Pwm2_441,
}

impl PwmBaseFrequencyKhz {
    /// The value that a 2-bit field encodes; other values give the
    /// reset default, `Pwm26_00`.
    pub open spec fn decode(bits: u8) -> PwmBaseFrequencyKhz {
        match bits {
            1 => PwmBaseFrequencyKhz::Pwm19_53,
            2 => PwmBaseFrequencyKhz::Pwm4_882,
            3 => PwmBaseFrequencyKhz::Pwm2_441,
            _ => PwmBaseFrequencyKhz::Pwm26_00,
        }
    }

    /// The 2-bit field value.
    pub open spec fn encode(self) -> u8 {
        match self {
            PwmBaseFrequencyKhz::Pwm26_00 => 0,
            PwmBaseFrequencyKhz::Pwm19_53 => 1,
            PwmBaseFrequencyKhz::Pwm4_882 => 2,
            PwmBaseFrequencyKhz::Pwm2_441 => 3,
        }
    }

    /// The value that a 2-bit field encodes.
    pub fn from_bits(bits: u8) -> (r: PwmBaseFrequencyKhz)
        ensures
            r == PwmBaseFrequencyKhz::decode(bits),
    {
        match bits {
            1 => PwmBaseFrequencyKhz::Pwm19_53,
            2 => PwmBaseFrequencyKhz::Pwm4_882,
            3 => PwmBaseFrequencyKhz::Pwm2_441,
            _ => PwmBaseFrequencyKhz::Pwm26_00,
        }
    }

    /// The 2-bit field value.
    pub fn bits(&self) -> (r: u8)
        ensures
            r == self.encode(),
            r < 4,
            PwmBaseFrequencyKhz::decode(r) == *self,
    {
        match self {
            PwmBaseFrequencyKhz::Pwm26_00 => 0,
            PwmBaseFrequencyKhz::Pwm19_53 => 1,
            PwmBaseFrequencyKhz::Pwm4_882 => 2,
            PwmBaseFrequencyKhz::Pwm2_441 => 3,
        }
    }
}

/// The PWM Base Frequency register of fans 4 and 5 (0x2C).
#[derive(Clone, Copy, Debug, PartialEq, Eq, Structural)]
pub struct PwmBase45(pub u8);

impl PwmBase45 {
    /// Address of the register.
    pub const ADDRESS: u8 = 0x2C;
    /// Value after power-on.
    pub const DEFAULT: u8 = 0x00;

    /// Base frequency of fan 5's PWM output.
    pub fn pmb5(&self) -> (r: PwmBaseFrequencyKhz)
        ensures
            r == PwmBaseFrequencyKhz::decode(field_of(self.0, 2, 2)),
    {
        PwmBaseFrequencyKhz::from_bits(field(self.0, 2, 2))
    }

    /// Sets base frequency of fan 5's PWM output.
    pub fn set_pmb5(&mut self, value: PwmBaseFrequencyKhz)
        ensures
            final(self).0 == with_field(old(self).0, 2, 2, value.encode()),
    {
        self.0 = set_field(self.0, 2, 2, value.bits());
    }

    /// Base frequency of fan 4's PWM output.
    pub fn pmb4(&self) -> (r: PwmBaseFrequencyKhz)
        ensures
            r == PwmBaseFrequencyKhz::decode(field_of(self.0, 0, 2)),
    {
        PwmBaseFrequencyKhz::from_bits(field(self.0, 0, 2))
    }

    /// Sets base frequency of fan 4's PWM output.
    pub fn set_pmb4(&mut self, value: PwmBaseFrequencyKhz)
        ensures
            final(self).0 == with_field(old(self).0, 0, 2, value.encode()),
    {
        self.0 = set_field(self.0, 0, 2, value.bits());
    }
}

/// The PWM Base Frequency register of fans 1 to 3 (0x2D).
#[derive(Clone, Copy, Debug, PartialEq, Eq, Structural)]
pub struct PwmBase123(pub u8);

impl PwmBase123 {
    /// Address of the register.
    pub const ADDRESS: u8 = 0x2D;
    /// Value after power-on.
    pub const DEFAULT: u8 = 0x00;

    /// Base frequency of fan 3's PWM output.
    pub fn pmb3(&self) -> (r: PwmBaseFrequencyKhz)
        ensures
            r == PwmBaseFrequencyKhz::decode(field_of(self.0, 4, 2)),
    {
        PwmBaseFrequencyKhz::from_bits(field(self.0, 4, 2))
    }

    /// Sets base frequency of fan 3's PWM output.
    pub fn set_pmb3(&mut self, value: PwmBaseFrequencyKhz)
        ensures
            final(self).0 == with_field(old(self).0, 4, 2, value.encode()),
    {
        self.0 = set_field(self.0, 4, 2, value.bits());
    }

    /// Base frequency of fan 2's PWM output.
    pub fn pmb2(&self) -> (r: PwmBaseFrequencyKhz)
        ensures
            r == PwmBaseFrequencyKhz::decode(field_of(self.0, 2, 2)),
    {
        PwmBaseFrequencyKhz::from_bits(field(self.0, 2, 2))
    }

    /// Sets base frequency of fan 2's PWM output.
    pub fn set_pmb2(&mut self, value: PwmBaseFrequencyKhz)
        ensures
            final(self).0 == with_field(old(self).0, 2, 2, value.encode()),
    {
        self.0 = set_field(self.0, 2, 2, value.bits());
    }

    /// Base frequency of fan 1's PWM output.
    pub fn pmb1(&self) -> (r: PwmBaseFrequencyKhz)
        ensures
            r == PwmBaseFrequencyKhz::decode(field_of(self.0, 0, 2)),
    {
        PwmBaseFrequencyKhz::from_bits(field(self.0, 0, 2))
    }

    /// Sets base frequency of fan 1's PWM output.
    pub fn set_pmb1(&mut self, value: PwmBaseFrequencyKhz)
        ensures
            final(self).0 == with_field(old(self).0, 0, 2, value.encode()),
    {
        self.0 = set_field(self.0, 0, 2, value.bits());
    }
}

/// The Software Lock register (0xEF): once set, the locked registers
/// stay read-only until power is cycled.
#[derive(Clone, Copy, Debug, PartialEq, Eq, Structural)]
pub struct SoftwareLock(pub u8);

impl SoftwareLock {
    /// Address of the register.
    pub const ADDRESS: u8 = 0xEF;
    /// Value after power-on.
    pub const DEFAULT: u8 = 0xF8;

    /// The lock bit.
    pub fn lock(&self) -> (r: u8)
        ensures
            r == field_of(self.0, 0, 1),
    {
        field(self.0, 0, 1)
    }

    /// Sets the lock bit from the low bits of `value`.
    pub fn set_lock(&mut self, value: u8)
        ensures
            final(self).0 == with_field(old(self).0, 0, 1, value),
    {
        self.0 = set_field(self.0, 0, 1, value);
    }
}

/// The Product Features register (0xFC): the address and fan-speed
/// pin configuration.
#[derive(Clone, Copy, Debug, PartialEq, Eq, Structural)]
pub struct ProductFeatures(pub u8);

impl ProductFeatures {
    /// Address of the register.
    pub const ADDRESS: u8 = 0xFC;
    /// Value after power-on.
    pub const DEFAULT: u8 = 0x00;

    /// The address selection decoded from the ADDR_SEL pin.
    pub fn adr(&self) -> (r: u8)
        ensures
            r == field_of(self.0, 3, 3),
    {
        field(self.0, 3, 3)
    }

    /// Sets the address selection decoded from the ADDR_SEL pin from the low bits of `value`.
    pub fn set_adr(&mut self, value: u8)
        ensures
            final(self).0 == with_field(old(self).0, 3, 3, value),
    {
        self.0 = set_field(self.0, 3, 3, value);
    }

    /// The fan speed configuration pin decode.
    pub fn fsp(&self) -> (r: u8)
        ensures
            r == field_of(self.0, 0, 3),
    {
        field(self.0, 0, 3)
    }

    /// Sets the fan speed configuration pin decode from the low bits of `value`.
    pub fn set_fsp(&mut self, value: u8)
        ensures
            final(self).0 == with_field(old(self).0, 0, 3, value),
    {
        self.0 = set_field(self.0, 0, 3, value);
    }
}

/// The Manufacturer ID register (0xFE).
#[derive(Clone, Copy, Debug, PartialEq, Eq, Structural)]
pub struct ManufacturerId(pub u8);

impl ManufacturerId {
    /// Address of the register.
    pub const ADDRESS: u8 = 0xFE;
    /// Value after power-on.
    pub const DEFAULT: u8 = 0x5D;

    /// The manufacturer identifier.
    pub fn mfg_id(&self) -> (r: u8)
        ensures
            r == self.0,
    {
        self.0
    }
}

/// The Revision register (0xFF).
#[derive(Clone, Copy, Debug, PartialEq, Eq, Structural)]
pub struct SiliconRevision(pub u8);

impl SiliconRevision {
    /// Address of the register.
    pub const ADDRESS: u8 = 0xFF;
    /// Value after power-on.
    pub const DEFAULT: u8 = 0x80;

    /// The silicon revision.
    pub fn revision(&self) -> (r: u8)
        ensures
            r == self.0,
    {
        self.0
    }
}

} // verus!
