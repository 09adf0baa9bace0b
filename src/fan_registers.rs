//! The per-fan drive registers, read and written in duty-cycle percent:
//! the drive setting and the minimum drive.
use vstd::prelude::*;

use crate::conversion::{duty_from_raw, duty_to_raw, raw_from_duty, raw_to_duty};

verus! {

/// The Fan Setting register of one fan (offset 0x00): the PWM drive, 0 to
/// 255 for 0% to 100% duty cycle.
#[derive(Clone, Copy, Debug, PartialEq, Eq, Structural)]
pub struct FanDriveSetting(pub u8);

impl FanDriveSetting {
    /// Offset of the register in a fan's block.
    pub const OFFSET: u8 = 0x00;
    /// Value after power-on.
    pub const DEFAULT: u8 = 0x00;

    /// The duty cycle in percent, rounded half up.
    pub fn duty_cycle(&self) -> (r: u8)
        ensures
            r == raw_to_duty(self.0 as int),
            r <= 100,
    {
        duty_from_raw(self.0)
    }

    /// The drive for a duty cycle of `duty` percent, rounded half up.
    pub fn from_duty_cycle(duty: u8) -> (r: FanDriveSetting)
        requires
            duty <= 100,
        ensures
            r.0 == duty_to_raw(duty as int),
    {
        FanDriveSetting(raw_from_duty(duty))
    }
}

/// The Fan Minimum Drive register of one fan (offset 0x08): the lowest PWM
/// drive that the closed-loop control applies.
#[derive(Clone, Copy, Debug, PartialEq, Eq, Structural)]
pub struct FanMinimumDrive(pub u8);

impl FanMinimumDrive {
    /// Offset of the register in a fan's block.
    pub const OFFSET: u8 = 0x08;
    /// Value after power-on.
    pub const DEFAULT: u8 = 0x66;

    /// The minimum drive byte.
    pub fn min_drive(&self) -> (r: u8)
        ensures
            r == self.0,
    {
        self.0
    }

    /// Sets the minimum drive byte.
    pub fn set_min_drive(&mut self, value: u8)
        ensures
            final(self).0 == value,
    {
        self.0 = value;
    }

    /// The minimum duty cycle in percent, rounded half up.
    pub fn duty_cycle(&self) -> (r: u8)
        ensures
            r == raw_to_duty(self.0 as int),
            r <= 100,
    {
        duty_from_raw(self.0)
    }

    /// The minimum drive for a duty cycle of `duty` percent, rounded half up.
    pub fn from_duty_cycle(duty: u8) -> (r: FanMinimumDrive)
        requires
            duty <= 100,
        ensures
            r.0 == duty_to_raw(duty as int),
    {
        FanMinimumDrive(raw_from_duty(duty))
    }
}

} // verus!
