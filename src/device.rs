//! The device model: the chip variant found by probing, the per-fan pole
//! counts kept in software, and the fan operations.
//!
//! The model does not own the bus. An operation that needs register values
//! takes them as arguments, as read from the device, and an operation that
//! changes the device returns the register writes to perform, in order.
//! Every fan operation checks the fan selector first: for a fan that the
//! chip does not have it fails with `InvalidFan`, and yields no address to
//! read and no write.
use vstd::prelude::*;

use crate::bits::{low_mask, mask_of_width, with_bit, with_field};
use crate::chip_registers::{ProductId, PwmOutputConfig};
use crate::conversion::{convert_tach, duty_to_raw, raw_to_duty, tach_conversion, MAX_TACH_COUNT};
use crate::error::Error;
use crate::fan_config::{FanConfiguration1, Range, ENAG_BIT, RNG_LSB};
use crate::fan_registers::{FanDriveSetting, FanMinimumDrive};
use crate::registers::{
    fan_base,
    fan_register_address,
    lemma_register_address_round_trip,
    FanRegister,
    FanSelect,
    Register,
};
use crate::tach::{high_of_count, low_of_count, split_count, TachReading};

verus! {

/// Pole count assumed for every fan until it is set: the common fan.
pub const DEFAULT_POLES: u8 = 2;

/// How a fan is driven.
#[derive(Clone, Copy, Debug, PartialEq, Eq, Structural)]
pub enum FanControl {
    /// Open loop: the PWM duty cycle in percent.
    DutyCycle(u8),
    /// Closed loop: the target speed in RPM.
    Rpm(u16),
}

/// One register write: the register's address and the byte to store.
#[derive(Clone, Copy, Debug, PartialEq, Eq, Structural)]
pub struct RegisterWrite {
    pub register: u8,
    pub value: u8,
}

/// The write of `value` to the register at `register`.
pub open spec fn write_of(register: u8, value: u8) -> RegisterWrite {
    RegisterWrite { register, value }
}

/// Address of register `reg` in fan `fan`'s block.
pub open spec fn fan_address(fan: u8, reg: FanRegister) -> u8 {
    (fan_base(fan) + reg.offset_of()) as u8
}

/// The writes that set a fan's tachometer target to `count`: low register
/// first, then high.
pub open spec fn target_writes(fan: u8, count: u16) -> Seq<RegisterWrite> {
    seq![
        write_of(fan_address(fan, FanRegister::TachTargetLow), low_of_count(count)),
        write_of(fan_address(fan, FanRegister::TachTargetHigh), high_of_count(count)),
    ]
}

/// The chip-wide registers of the diagnostic snapshot, in the order read.
pub open spec fn chip_snapshot() -> Seq<Register> {
    seq![
        Register::SoftwareLock,
        Register::ProductFeatures,
        Register::ProductId,
        Register::Configuration,
        Register::FanStatus,
        Register::FanStallStatus,
        Register::FanSpinStatus,
        Register::DriveFailStatus,
        Register::FanInterruptEnable,
        Register::PwmPolarityConfig,
        Register::PwmOutputConfig,
        Register::PwmBaseF45,
        Register::PwmBaseF123,
    ]
}

/// Fan `fan`'s registers in the diagnostic snapshot, in the order read.
pub open spec fn fan_snapshot(fan: u8) -> Seq<Register> {
    seq![
        Register::Fan(fan, FanRegister::Setting),
        Register::Fan(fan, FanRegister::PwmDivide),
        Register::Fan(fan, FanRegister::Configuration1),
        Register::Fan(fan, FanRegister::Configuration2),
        Register::Fan(fan, FanRegister::Gain),
        Register::Fan(fan, FanRegister::SpinUpConfiguration),
        Register::Fan(fan, FanRegister::MaxStep),
        Register::Fan(fan, FanRegister::MinimumDrive),
        Register::Fan(fan, FanRegister::ValidTachCount),
        Register::Fan(fan, FanRegister::DriveFailBandLow),
        Register::Fan(fan, FanRegister::DriveFailBandHigh),
        Register::Fan(fan, FanRegister::TachTargetLow),
        Register::Fan(fan, FanRegister::TachTargetHigh),
        Register::Fan(fan, FanRegister::TachReadingHigh),
        Register::Fan(fan, FanRegister::TachReadingLow),
    ]
}

/// The registers of the diagnostic snapshot of a chip with `count` fans:
/// the chip-wide ones, then each fan's block from fan 1 up.
pub open spec fn snapshot(count: u8) -> Seq<Register>
    decreases count,
{
    if count == 0 {
        chip_snapshot()
    } else {
        snapshot((count - 1) as u8) + fan_snapshot(count)
    }
}

/// A probed fan controller.
pub struct Emc230x {
    /// Bus address of the device.
    address: u8,
    /// The chip variant.
    pid: ProductId,
    /// Pole count of each fan, fan 1 first.
    poles: [u8; 5],
}

impl Emc230x {
    /// Bus address of the device.
    pub closed spec fn bus_address(self) -> u8 {
        self.address
    }

    /// The chip variant.
    pub closed spec fn product(self) -> ProductId {
        self.pid
    }

    /// Pole count of fan `fan` (`1..=5`).
    pub closed spec fn pole_count(self, fan: u8) -> u8 {
        self.poles@[fan - 1]
    }

    /// Number of fans of the chip.
    pub open spec fn fan_count(self) -> u8 {
        self.product().fan_count()
    }

    /// Whether the chip has the selected fan.
    pub open spec fn fan_valid(self, sel: FanSelect) -> bool {
        1 <= sel.number() <= self.fan_count()
    }

    /// The tachometer formula applied to `value` for the selected fan with
    /// the edge count and range of `config`.
    pub open spec fn tach_value(self, sel: FanSelect, config: FanConfiguration1, value: int) -> int {
        tach_conversion(
            self.pole_count(sel.number()) as int,
            config.edges().count() as int,
            config.range().multiplier() as int,
            value,
        )
    }

    /// Whether a speed of `rpm` converts to a tachometer count that the
    /// target registers hold, from 1 to 0x1FFF.
    pub open spec fn speed_representable(
        self,
        sel: FanSelect,
        config: FanConfiguration1,
        rpm: u16,
    ) -> bool {
        &&& self.pole_count(sel.number()) != 0
        &&& rpm != 0
        &&& 1 <= self.tach_value(sel, config, rpm as int) <= MAX_TACH_COUNT
    }

    /// The device at bus address `address` whose product identifier
    /// register reads `product_id`, with every fan's pole count at 2.
    /// Fails with `InvalidDeviceId` when the byte names no chip variant.
    pub fn probe(address: u8, product_id: u8) -> (r: Result<Emc230x, Error>)
        ensures
            ProductId::decode(product_id) is None ==> r == Err::<Emc230x, Error>(
                Error::InvalidDeviceId,
            ),
            ProductId::decode(product_id) matches Some(p) ==> r matches Ok(dev) && dev.product()
                == p && dev.bus_address() == address && forall|fan: u8|
                1 <= fan <= 5 ==> #[trigger] dev.pole_count(fan) == DEFAULT_POLES,
    {
        let pid = match ProductId::from_raw(product_id) {
            Ok(pid) => pid,
            Err(e) => {
                return Err(e);
            },
        };
        Ok(Emc230x { address, pid, poles: [DEFAULT_POLES; 5] })
    }

    /// The writes that initialise a probed device, given each fan's Fan
    /// Configuration 1 register as read (fan 1 first): first every fan's
    /// PWM output is made push-pull, then every fan's RPM range is set to
    /// the lowest, 500 RPM, so that slow fans are measured; the other
    /// fields of each configuration are kept.
    pub fn initialization(&self, configs: &Vec<FanConfiguration1>) -> (r: Vec<RegisterWrite>)
        requires
            configs.len() == self.fan_count(),
        ensures
            r.len() == configs.len() + 1,
            r[0] == write_of(PwmOutputConfig::ADDRESS, low_mask(self.fan_count())),
            forall|fan: u8|
                1 <= fan <= 5 ==> (#[trigger] PwmOutputConfig(r[0].value).is_push_pull(fan) <==> fan
                    <= self.fan_count()),
            forall|i: int|
                0 <= i < configs.len() ==> #[trigger] r[i + 1] == write_of(
                    fan_address((i + 1) as u8, FanRegister::Configuration1),
                    with_field(configs[i].0, RNG_LSB, 2, Range::Rpm500.encode()),
                ),
            forall|i: int|
                0 <= i < configs.len() ==> {
                    let c = FanConfiguration1(#[trigger] r[i + 1].value);
                    &&& c.range() == Range::Rpm500
                    &&& c.closed_loop() == configs[i].closed_loop()
                    &&& c.edges() == configs[i].edges()
                    &&& c.update_time() == configs[i].update_time()
                },
    {
        let count = self.pid.num_fans();
        let mask = mask_of_width(count);
        proof {
            lemma_push_pull_mask(count);
        }
        let mut writes: Vec<RegisterWrite> = Vec::new();
        writes.push(RegisterWrite { register: PwmOutputConfig::ADDRESS, value: mask });
        let mut fan: u8 = 1;
        while fan <= count
            invariant
                1 <= fan <= count + 1,
                count == self.fan_count(),
                1 <= count <= 5,
                configs.len() == count,
                writes.len() == fan as int,
                writes[0] == write_of(PwmOutputConfig::ADDRESS, low_mask(count)),
                forall|i: int|
                    0 <= i < fan - 1 ==> #[trigger] writes[i + 1] == write_of(
                        fan_address((i + 1) as u8, FanRegister::Configuration1),
                        with_field(configs[i].0, RNG_LSB, 2, Range::Rpm500.encode()),
                    ),
                forall|i: int|
                    0 <= i < fan - 1 ==> {
                        let c = FanConfiguration1(#[trigger] writes[i + 1].value);
                        &&& c.range() == Range::Rpm500
                        &&& c.closed_loop() == configs[i].closed_loop()
                        &&& c.edges() == configs[i].edges()
                        &&& c.update_time() == configs[i].update_time()
                    },
            decreases count + 1 - fan,
        {
            let mut config = configs[(fan - 1) as usize];
            config.set_rngx(Range::Rpm500);
            let register = fan_block_address(fan, FanRegister::Configuration1);
            writes.push(RegisterWrite { register, value: config.0 });
            fan = fan + 1;
        }
        writes
    }

    /// Bus address of the device.
    pub fn address(&self) -> (r: u8)
        ensures
            r == self.bus_address(),
    {
        self.address
    }

    /// The chip variant.
    pub fn product_id(&self) -> (r: ProductId)
        ensures
            r == self.product(),
    {
        self.pid
    }

    /// Number of fans of the chip.
    pub fn count(&self) -> (r: u8)
        ensures
            r == self.fan_count(),
            1 <= r <= 5,
    {
        self.pid.num_fans()
    }

    /// Succeeds when the chip has the selected fan; `InvalidFan` otherwise.
    pub fn valid_fan(&self, select: FanSelect) -> (r: Result<(), Error>)
        ensures
            self.fan_valid(select) ==> r == Ok::<(), Error>(()),
            !self.fan_valid(select) ==> r == Err::<(), Error>(Error::InvalidFan),
    {
        match select {
            FanSelect::Fan(fan) => {
                if fan <= self.count() && fan != 0 {
                    Ok(())
                } else {
                    Err(Error::InvalidFan)
                }
            },
        }
    }

    /// Address of register `reg` of the selected fan; `InvalidFan` when the
    /// chip has no such fan.
    pub fn fan_register(&self, sel: FanSelect, reg: FanRegister) -> (r: Result<u8, Error>)
        ensures
            self.fan_valid(sel) ==> r == Ok::<u8, Error>(fan_address(sel.number(), reg)),
            !self.fan_valid(sel) ==> r == Err::<u8, Error>(Error::InvalidFan),
    {
        match self.valid_fan(sel) {
            Ok(()) => {},
            Err(e) => {
                return Err(e);
            },
        }
        Ok(fan_block_address(sel.fan(), reg))
    }

    /// Pole count of the selected fan.
    pub fn fan_poles(&self, sel: FanSelect) -> (r: Result<u8, Error>)
        ensures
            self.fan_valid(sel) ==> r == Ok::<u8, Error>(self.pole_count(sel.number())),
            !self.fan_valid(sel) ==> r == Err::<u8, Error>(Error::InvalidFan),
    {
        match self.valid_fan(sel) {
            Ok(()) => {},
            Err(e) => {
                return Err(e);
            },
        }
        let fan = sel.fan();
        Ok(self.poles[(fan - 1) as usize])
    }

    /// Sets the pole count of the selected fan, used in speed conversions;
    /// the other fans keep theirs.
    pub fn set_fan_poles(&mut self, sel: FanSelect, poles: u8) -> (r: Result<(), Error>)
        ensures
            !old(self).fan_valid(sel) ==> r == Err::<(), Error>(Error::InvalidFan)
                && *final(self) == *old(self),
            old(self).fan_valid(sel) ==> r == Ok::<(), Error>(()),
            final(self).product() == old(self).product(),
            final(self).bus_address() == old(self).bus_address(),
            old(self).fan_valid(sel) ==> final(self).pole_count(sel.number()) == poles,
            forall|fan: u8|
                1 <= fan <= 5 && fan != sel.number() ==> #[trigger] final(self).pole_count(fan)
                    == old(self).pole_count(fan),
    {
        match self.valid_fan(sel) {
            Ok(()) => {},
            Err(e) => {
                return Err(e);
            },
        }
        let fan = sel.fan();
        self.poles[(fan - 1) as usize] = poles;
        Ok(())
    }

    /// The tachometer formula applied to `value` for the selected fan, with
    /// its pole count and the edge count and range of `config`, its Fan
    /// Configuration 1 register as read. Turns a speed into a count and a
    /// count into a speed. Fails with `SpeedOutOfRange` when the pole count
    /// or `value` is zero.
    pub fn calc_raw_rpm(&self, sel: FanSelect, config: FanConfiguration1, value: u16) -> (r:
        Result<u64, Error>)
        requires
            self.fan_valid(sel),
        ensures
            self.pole_count(sel.number()) == 0 || value == 0 ==> r == Err::<u64, Error>(
                Error::SpeedOutOfRange,
            ),
            self.pole_count(sel.number()) != 0 && value != 0 ==> r == Ok::<u64, Error>(
                self.tach_value(sel, config, value as int) as u64,
            ) && 0 <= self.tach_value(sel, config, value as int) < 0x1_0000_0000,
    {
        let fan = sel.fan();
        let poles = self.poles[(fan - 1) as usize];
        convert_tach(poles, config.edgx(), config.rngx(), value)
    }

    /// The duty cycle, in percent, of the selected fan whose Fan Setting
    /// register reads `setting`.
    pub fn duty_cycle(&self, sel: FanSelect, setting: FanDriveSetting) -> (r: Result<u8, Error>)
        ensures
            self.fan_valid(sel) ==> r == Ok::<u8, Error>(raw_to_duty(setting.0 as int) as u8),
            !self.fan_valid(sel) ==> r == Err::<u8, Error>(Error::InvalidFan),
    {
        match self.valid_fan(sel) {
            Ok(()) => {},
            Err(e) => {
                return Err(e);
            },
        }
        Ok(setting.duty_cycle())
    }

    /// The write that sets the selected fan's duty cycle to `duty` percent.
    /// Fails with `InvalidFan` for a fan the chip does not have, and with
    /// `SpeedOutOfRange` when `duty` is above 100.
    pub fn set_duty_cycle(&self, sel: FanSelect, duty: u8) -> (r: Result<RegisterWrite, Error>)
        ensures
            !self.fan_valid(sel) ==> r == Err::<RegisterWrite, Error>(Error::InvalidFan),
            self.fan_valid(sel) && duty > 100 ==> r == Err::<RegisterWrite, Error>(
                Error::SpeedOutOfRange,
            ),
            self.fan_valid(sel) && duty <= 100 ==> r == Ok::<RegisterWrite, Error>(
                write_of(
                    fan_address(sel.number(), FanRegister::Setting),
                    duty_to_raw(duty as int) as u8,
                ),
            ),
    {
        match self.valid_fan(sel) {
            Ok(()) => {},
            Err(e) => {
                return Err(e);
            },
        }
        if duty > 100 {
            return Err(Error::SpeedOutOfRange);
        }
        let drive = FanDriveSetting::from_duty_cycle(duty);
        Ok(
            RegisterWrite {
                register: fan_block_address(sel.fan(), FanRegister::Setting),
                value: drive.0,
            },
        )
    }

    /// The minimum duty cycle, in percent, of the selected fan whose Fan
    /// Minimum Drive register reads `drive`.
    pub fn min_duty(&self, sel: FanSelect, drive: FanMinimumDrive) -> (r: Result<u8, Error>)
        ensures
            self.fan_valid(sel) ==> r == Ok::<u8, Error>(raw_to_duty(drive.0 as int) as u8),
            !self.fan_valid(sel) ==> r == Err::<u8, Error>(Error::InvalidFan),
    {
        match self.valid_fan(sel) {
            Ok(()) => {},
            Err(e) => {
                return Err(e);
            },
        }
        Ok(drive.duty_cycle())
    }

    /// The write that sets the selected fan's minimum duty cycle to `duty`
    /// percent. Fails with `InvalidFan` for a fan the chip does not have,
    /// and with `SpeedOutOfRange` when `duty` is above 100.
    pub fn set_min_duty(&self, sel: FanSelect, duty: u8) -> (r: Result<RegisterWrite, Error>)
        ensures
            !self.fan_valid(sel) ==> r == Err::<RegisterWrite, Error>(Error::InvalidFan),
            self.fan_valid(sel) && duty > 100 ==> r == Err::<RegisterWrite, Error>(
                Error::SpeedOutOfRange,
            ),
            self.fan_valid(sel) && duty <= 100 ==> r == Ok::<RegisterWrite, Error>(
                write_of(
                    fan_address(sel.number(), FanRegister::MinimumDrive),
                    duty_to_raw(duty as int) as u8,
                ),
            ),
    {
        match self.valid_fan(sel) {
            Ok(()) => {},
            Err(e) => {
                return Err(e);
            },
        }
        if duty > 100 {
            return Err(Error::SpeedOutOfRange);
        }
        let drive = FanMinimumDrive::from_duty_cycle(duty);
        Ok(
            RegisterWrite {
                register: fan_block_address(sel.fan(), FanRegister::MinimumDrive),
                value: drive.0,
            },
        )
    }

    /// The speed, in RPM, of the selected fan whose tachometer reading
    /// registers read `reading` and whose Fan Configuration 1 register
    /// reads `config`. Fails with `InvalidFan` for a fan the chip does not
    /// have, and with `SpeedOutOfRange` when the count or the fan's pole
    /// count is zero.
    pub fn rpm(&self, sel: FanSelect, reading: TachReading, config: FanConfiguration1) -> (r:
        Result<u64, Error>)
        ensures
            !self.fan_valid(sel) ==> r == Err::<u64, Error>(Error::InvalidFan),
            self.fan_valid(sel) && (self.pole_count(sel.number()) == 0 || reading.count() == 0)
                ==> r == Err::<u64, Error>(Error::SpeedOutOfRange),
            self.fan_valid(sel) && self.pole_count(sel.number()) != 0 && reading.count() != 0
                ==> r == Ok::<u64, Error>(
                self.tach_value(sel, config, reading.count() as int) as u64,
            ),
    {
        match self.valid_fan(sel) {
            Ok(()) => {},
            Err(e) => {
                return Err(e);
            },
        }
        let count = reading.to_count();
        self.calc_raw_rpm(sel, config, count)
    }

    /// The writes that set the selected fan's target speed to `rpm`, given
    /// its Fan Configuration 1 register as read: the tachometer target
    /// count, low register first. Fails with `InvalidFan` for a fan the
    /// chip does not have, and with `SpeedOutOfRange` when the speed does
    /// not convert to a count from 1 to 0x1FFF.
    pub fn set_rpm(&self, sel: FanSelect, rpm: u16, config: FanConfiguration1) -> (r: Result<
        Vec<RegisterWrite>,
        Error,
    >)
        ensures
            !self.fan_valid(sel) ==> r == Err::<Vec<RegisterWrite>, Error>(Error::InvalidFan),
            self.fan_valid(sel) && !self.speed_representable(sel, config, rpm) ==> r == Err::<
                Vec<RegisterWrite>,
                Error,
            >(Error::SpeedOutOfRange),
            self.fan_valid(sel) && self.speed_representable(sel, config, rpm) ==> (r matches Ok(
                writes,
            ) && writes@ == target_writes(
                sel.number(),
                self.tach_value(sel, config, rpm as int) as u16,
            )),
    {
        match self.valid_fan(sel) {
            Ok(()) => {},
            Err(e) => {
                return Err(e);
            },
        }
        let raw = match self.calc_raw_rpm(sel, config, rpm) {
            Ok(raw) => raw,
            Err(e) => {
                return Err(e);
            },
        };
        if raw == 0 || raw > MAX_TACH_COUNT as u64 {
            return Err(Error::SpeedOutOfRange);
        }
        let (low, high) = split_count(raw as u16);
        let fan = sel.fan();
        let mut writes: Vec<RegisterWrite> = Vec::new();
        writes.push(
            RegisterWrite {
                register: fan_block_address(fan, FanRegister::TachTargetLow),
                value: low,
            },
        );
        writes.push(
            RegisterWrite {
                register: fan_block_address(fan, FanRegister::TachTargetHigh),
                value: high,
            },
        );
        assert(writes@ =~= target_writes(fan, raw as u16));
        Ok(writes)
    }

    /// The writes that put the selected fan in `mode`, given its Fan
    /// Configuration 1 register as read.
    ///
    /// For a duty cycle, the closed-loop control is turned off first, as
    /// the chip ignores the drive setting while it is on, and then the drive
    /// is written. For a speed, the tachometer target is written, low
    /// register first, and then the closed-loop control is turned on. The
    /// other fields of the configuration are kept. Fails with `InvalidFan`
    /// for a fan the chip does not have, and with `SpeedOutOfRange` for a
    /// duty cycle above 100 or a speed whose count the target registers do
    /// not hold.
    pub fn set_mode(&self, sel: FanSelect, mode: FanControl, config: FanConfiguration1) -> (r:
        Result<Vec<RegisterWrite>, Error>)
        ensures
            !self.fan_valid(sel) ==> r == Err::<Vec<RegisterWrite>, Error>(Error::InvalidFan),
            self.fan_valid(sel) ==> match mode {
                FanControl::DutyCycle(duty) => if duty > 100 {
                    r == Err::<Vec<RegisterWrite>, Error>(Error::SpeedOutOfRange)
                } else {
                    r matches Ok(writes) && writes@ == seq![
                        write_of(
                            fan_address(sel.number(), FanRegister::Configuration1),
                            with_bit(config.0, ENAG_BIT, false),
                        ),
                        write_of(
                            fan_address(sel.number(), FanRegister::Setting),
                            duty_to_raw(duty as int) as u8,
                        ),
                    ]
                },
                FanControl::Rpm(rpm) => if !self.speed_representable(sel, config, rpm) {
                    r == Err::<Vec<RegisterWrite>, Error>(Error::SpeedOutOfRange)
                } else {
                    r matches Ok(writes) && writes@ == target_writes(
                        sel.number(),
                        self.tach_value(sel, config, rpm as int) as u16,
                    ).push(
                        write_of(
                            fan_address(sel.number(), FanRegister::Configuration1),
                            with_bit(config.0, ENAG_BIT, true),
                        ),
                    )
                },
            },
            r matches Ok(writes) ==> {
                let last = FanConfiguration1(writes[writes.len() - 1].value);
                let first = FanConfiguration1(writes[0].value);
                &&& writes.len() >= 2
                &&& mode is Rpm ==> last.closed_loop() && writes[writes.len() - 1].register
                    == fan_address(sel.number(), FanRegister::Configuration1)
                &&& mode is DutyCycle ==> !first.closed_loop() && writes[0].register
                    == fan_address(sel.number(), FanRegister::Configuration1)
                &&& first.range() == config.range() || mode is Rpm
                &&& last.range() == config.range() || mode is DutyCycle
            },
    {
        match self.valid_fan(sel) {
            Ok(()) => {},
            Err(e) => {
                return Err(e);
            },
        }
        let fan = sel.fan();
        let config_register = fan_block_address(fan, FanRegister::Configuration1);
        match mode {
            FanControl::DutyCycle(duty) => {
                let drive = match self.set_duty_cycle(sel, duty) {
                    Ok(drive) => drive,
                    Err(e) => {
                        return Err(e);
                    },
                };
                let mut open_loop = config;
                open_loop.set_enagx(false);
                let mut writes: Vec<RegisterWrite> = Vec::new();
                writes.push(RegisterWrite { register: config_register, value: open_loop.0 });
                writes.push(drive);
                assert(writes@ =~= seq![
                    write_of(
                        fan_address(sel.number(), FanRegister::Configuration1),
                        with_bit(config.0, ENAG_BIT, false),
                    ),
                    write_of(
                        fan_address(sel.number(), FanRegister::Setting),
                        duty_to_raw(duty as int) as u8,
                    ),
                ]);
                Ok(writes)
            },
            FanControl::Rpm(rpm) => {
                let mut writes = match self.set_rpm(sel, rpm, config) {
                    Ok(writes) => writes,
                    Err(e) => {
                        return Err(e);
                    },
                };
                let mut closed_loop = config;
                closed_loop.set_enagx(true);
                writes.push(RegisterWrite { register: config_register, value: closed_loop.0 });
                Ok(writes)
            },
        }
    }

    /// The registers of the diagnostic snapshot, in the order to read
    /// them: the chip-wide registers, then each fan's block from fan 1 up
    /// to the chip's fan count.
    pub fn dump_info(&self) -> (r: Vec<Register>)
        ensures
            r@ == snapshot(self.fan_count()),
            r.len() == 13 + 15 * self.fan_count(),
            forall|i: int| 0 <= i < r.len() ==> (#[trigger] r[i]).wf(),
    {
        let count = self.count();
        let mut registers: Vec<Register> = Vec::new();
        registers.push(Register::SoftwareLock);
        registers.push(Register::ProductFeatures);
        registers.push(Register::ProductId);
        registers.push(Register::Configuration);
        registers.push(Register::FanStatus);
        registers.push(Register::FanStallStatus);
        registers.push(Register::FanSpinStatus);
        registers.push(Register::DriveFailStatus);
        registers.push(Register::FanInterruptEnable);
        registers.push(Register::PwmPolarityConfig);
        registers.push(Register::PwmOutputConfig);
        registers.push(Register::PwmBaseF45);
        registers.push(Register::PwmBaseF123);
        assert(registers@ =~= snapshot(0));
        let mut fan: u8 = 1;
        while fan <= count
            invariant
                1 <= fan <= count + 1,
                1 <= count <= 5,
                count == self.fan_count(),
                registers@ == snapshot((fan - 1) as u8),
                registers.len() == 13 + 15 * (fan - 1),
                forall|i: int| 0 <= i < registers.len() ==> (#[trigger] registers[i]).wf(),
            decreases count + 1 - fan,
        {
            push_fan_registers(&mut registers, fan);
            assert(snapshot(fan) == snapshot((fan - 1) as u8) + fan_snapshot(fan));
            fan = fan + 1;
        }
        registers
    }
}

/// A fan that runs at the target that `set_rpm` writes reports that speed
/// back through `rpm` within one RPM: the two target bytes, read as a
/// tachometer reading, hold the written count, and the count converts back
/// to the requested speed, whenever that speed is at most three times its
/// count.
pub proof fn lemma_set_rpm_then_rpm(
    dev: Emc230x,
    sel: FanSelect,
    config: FanConfiguration1,
    rpm: u16,
)
    requires
        dev.fan_valid(sel),
        dev.speed_representable(sel, config, rpm),
        rpm <= 3 * dev.tach_value(sel, config, rpm as int),
    ensures
        ({
            let count = dev.tach_value(sel, config, rpm as int) as u16;
            let writes = target_writes(sel.number(), count);
            let reading = TachReading::new_spec(writes[0].value, writes[1].value);
            &&& reading.count() == count
            &&& rpm - 1 <= dev.tach_value(sel, config, reading.count() as int) <= rpm + 1
        }),
{
    let count = dev.tach_value(sel, config, rpm as int) as u16;
    crate::tach::lemma_count_round_trip(count);
    let edges = config.edges().count() as int;
    let multiplier = config.range().multiplier() as int;
    assert(edges >= 1 && multiplier > 0);
    crate::conversion::lemma_tach_conversion_round_trip(
        dev.pole_count(sel.number()) as int,
        edges,
        multiplier,
        rpm as int,
    );
}

/// Appends fan `fan`'s snapshot registers to `registers`.
fn push_fan_registers(registers: &mut Vec<Register>, fan: u8)
    requires
        1 <= fan <= 5,
        forall|i: int| 0 <= i < old(registers).len() ==> (#[trigger] old(registers)[i]).wf(),
    ensures
        final(registers)@ == old(registers)@ + fan_snapshot(fan),
        forall|i: int| 0 <= i < final(registers).len() ==> (#[trigger] final(registers)[i]).wf(),
{
    registers.push(Register::Fan(fan, FanRegister::Setting));
    registers.push(Register::Fan(fan, FanRegister::PwmDivide));
    registers.push(Register::Fan(fan, FanRegister::Configuration1));
    registers.push(Register::Fan(fan, FanRegister::Configuration2));
    registers.push(Register::Fan(fan, FanRegister::Gain));
    registers.push(Register::Fan(fan, FanRegister::SpinUpConfiguration));
    registers.push(Register::Fan(fan, FanRegister::MaxStep));
    registers.push(Register::Fan(fan, FanRegister::MinimumDrive));
    registers.push(Register::Fan(fan, FanRegister::ValidTachCount));
    registers.push(Register::Fan(fan, FanRegister::DriveFailBandLow));
    registers.push(Register::Fan(fan, FanRegister::DriveFailBandHigh));
    registers.push(Register::Fan(fan, FanRegister::TachTargetLow));
    registers.push(Register::Fan(fan, FanRegister::TachTargetHigh));
    registers.push(Register::Fan(fan, FanRegister::TachReadingHigh));
    registers.push(Register::Fan(fan, FanRegister::TachReadingLow));
    assert(registers@ =~= old(registers)@ + fan_snapshot(fan));
}

/// Address of register `reg` of fan `fan` (`1..=5`), from the catalog.
fn fan_block_address(fan: u8, reg: FanRegister) -> (r: u8)
    requires
        1 <= fan <= 5,
    ensures
        r == fan_address(fan, reg),
{
    proof {
        lemma_register_address_round_trip(Register::Fan(fan, reg));
    }
    match fan_register_address(FanSelect::Fan(fan), reg.offset()) {
        Ok(address) => address,
        Err(_) => 0,
    }
}

/// The push-pull mask of the first `count` outputs sets exactly the bits
/// of fans `1..=count`.
proof fn lemma_push_pull_mask(count: u8)
    requires
        1 <= count <= 5,
    ensures
        forall|fan: u8|
            1 <= fan <= 5 ==> (#[trigger] PwmOutputConfig(low_mask(count)).is_push_pull(fan)
                <==> fan <= count),
{
    assert forall|fan: u8| 1 <= fan <= 5 implies (#[trigger] PwmOutputConfig(
        low_mask(count),
    ).is_push_pull(fan) <==> fan <= count) by {
        let n = (fan - 1) as u8;
        assert((((low_mask(count) >> n) & low_mask(1)) == 1) <==> n < count) by (bit_vector)
            requires
                1 <= count <= 5,
                n < 5,
        ;
    }
}

} // verus!
