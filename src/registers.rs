//! The register catalog: the address of every register of the chip, and
//! the derivation of a per-fan register's address from a fan selector and
//! an offset.
use vstd::prelude::*;

use crate::error::Error;

verus! {

/// Base address of fan 1's register block.
pub const FAN1_BASE: u8 = 0x30;
/// Base address of fan 2's register block.
pub const FAN2_BASE: u8 = 0x40;
/// Base address of fan 3's register block.
pub const FAN3_BASE: u8 = 0x50;
/// Base address of fan 4's register block.
pub const FAN4_BASE: u8 = 0x60;
/// Base address of fan 5's register block.
pub const FAN5_BASE: u8 = 0x70;

/// Largest fan number of the family.
pub const MAX_FAN: u8 = 5;

/// A 1-based fan number.
#[derive(Clone, Copy, Debug, PartialEq, Eq, Structural)]
pub enum FanSelect {
    Fan(u8),
}

impl FanSelect {
    /// The fan number that the selector carries.
    pub open spec fn number(self) -> u8 {
        match self {
            FanSelect::Fan(n) => n,
        }
    }

    /// The fan number that the selector carries.
    pub fn fan(&self) -> (r: u8)
        ensures
            r == self.number(),
    {
        match self {
            FanSelect::Fan(n) => *n,
        }
    }
}

/// Base address of the register block of fan `fan` (`1..=5`).
pub open spec fn fan_base(fan: u8) -> int {
    0x20 + 0x10 * fan
}

/// The registers that every fan has, at a fixed offset from its base.
#[derive(Clone, Copy, Debug, PartialEq, Eq, Structural)]
pub enum FanRegister {
    Setting,
    PwmDivide,
    Configuration1,
    Configuration2,
    Gain,
    SpinUpConfiguration,
    MaxStep,
    MinimumDrive,
    ValidTachCount,
    DriveFailBandLow,
    DriveFailBandHigh,
    TachTargetLow,
    TachTargetHigh,
    TachReadingHigh,
    TachReadingLow,
}

impl FanRegister {
    /// Offset of the register from its fan's base address.
    pub open spec fn offset_of(self) -> u8 {
        match self {
            FanRegister::Setting => 0x00,
            FanRegister::PwmDivide => 0x01,
            FanRegister::Configuration1 => 0x02,
            FanRegister::Configuration2 => 0x03,
            FanRegister::Gain => 0x05,
            FanRegister::SpinUpConfiguration => 0x06,
            FanRegister::MaxStep => 0x07,
            FanRegister::MinimumDrive => 0x08,
            FanRegister::ValidTachCount => 0x09,
            FanRegister::DriveFailBandLow => 0x0A,
            FanRegister::DriveFailBandHigh => 0x0B,
            FanRegister::TachTargetLow => 0x0C,
            FanRegister::TachTargetHigh => 0x0D,
            FanRegister::TachReadingHigh => 0x0E,
            FanRegister::TachReadingLow => 0x0F,
        }
    }

    /// The register at `offset` in a fan's block, if any.
    pub open spec fn at_offset(offset: u8) -> Option<FanRegister> {
        match offset {
            0x00 => Some(FanRegister::Setting),
            0x01 => Some(FanRegister::PwmDivide),
            0x02 => Some(FanRegister::Configuration1),
            0x03 => Some(FanRegister::Configuration2),
            0x05 => Some(FanRegister::Gain),
            0x06 => Some(FanRegister::SpinUpConfiguration),
            0x07 => Some(FanRegister::MaxStep),
            0x08 => Some(FanRegister::MinimumDrive),
            0x09 => Some(FanRegister::ValidTachCount),
            0x0A => Some(FanRegister::DriveFailBandLow),
            0x0B => Some(FanRegister::DriveFailBandHigh),
            0x0C => Some(FanRegister::TachTargetLow),
            0x0D => Some(FanRegister::TachTargetHigh),
            0x0E => Some(FanRegister::TachReadingHigh),
            0x0F => Some(FanRegister::TachReadingLow),
            _ => None,
        }
    }

    /// Value the register holds after power-on.
    pub open spec fn reset_value(self) -> u8 {
        match self {
            FanRegister::Setting => 0x00,
            FanRegister::PwmDivide => 0x01,
            FanRegister::Configuration1 => 0x2B,
            FanRegister::Configuration2 => 0x28,
            FanRegister::Gain => 0x2A,
            FanRegister::SpinUpConfiguration => 0x19,
            FanRegister::MaxStep => 0x10,
            FanRegister::MinimumDrive => 0x66,
            FanRegister::ValidTachCount => 0xF5,
            FanRegister::DriveFailBandLow => 0x00,
            FanRegister::DriveFailBandHigh => 0x00,
            FanRegister::TachTargetLow => 0xF8,
            FanRegister::TachTargetHigh => 0xFF,
            FanRegister::TachReadingHigh => 0xFF,
            FanRegister::TachReadingLow => 0xF8,
        }
    }

    /// Offset of the register from its fan's base address.
    pub fn offset(&self) -> (r: u8)
        ensures
            r == self.offset_of(),
            r < 0x10,
    {
        match self {
            FanRegister::Setting => 0x00,
            FanRegister::PwmDivide => 0x01,
            FanRegister::Configuration1 => 0x02,
            FanRegister::Configuration2 => 0x03,
            FanRegister::Gain => 0x05,
            FanRegister::SpinUpConfiguration => 0x06,
            FanRegister::MaxStep => 0x07,
            FanRegister::MinimumDrive => 0x08,
            FanRegister::ValidTachCount => 0x09,
            FanRegister::DriveFailBandLow => 0x0A,
            FanRegister::DriveFailBandHigh => 0x0B,
            FanRegister::TachTargetLow => 0x0C,
            FanRegister::TachTargetHigh => 0x0D,
            FanRegister::TachReadingHigh => 0x0E,
            FanRegister::TachReadingLow => 0x0F,
        }
    }

    /// The register at `offset` in a fan's block, if any.
    pub fn from_offset(offset: u8) -> (r: Option<FanRegister>)
        ensures
            r == FanRegister::at_offset(offset),
    {
        match offset {
            0x00 => Some(FanRegister::Setting),
            0x01 => Some(FanRegister::PwmDivide),
            0x02 => Some(FanRegister::Configuration1),
            0x03 => Some(FanRegister::Configuration2),
            0x05 => Some(FanRegister::Gain),
            0x06 => Some(FanRegister::SpinUpConfiguration),
            0x07 => Some(FanRegister::MaxStep),
            0x08 => Some(FanRegister::MinimumDrive),
            0x09 => Some(FanRegister::ValidTachCount),
            0x0A => Some(FanRegister::DriveFailBandLow),
            0x0B => Some(FanRegister::DriveFailBandHigh),
            0x0C => Some(FanRegister::TachTargetLow),
            0x0D => Some(FanRegister::TachTargetHigh),
            0x0E => Some(FanRegister::TachReadingHigh),
            0x0F => Some(FanRegister::TachReadingLow),
            _ => None,
        }
    }

    /// Value the register holds after power-on.
    pub fn default_value(&self) -> (r: u8)
        ensures
            r == self.reset_value(),
    {
        match self {
            FanRegister::Setting => 0x00,
            FanRegister::PwmDivide => 0x01,
            FanRegister::Configuration1 => 0x2B,
            FanRegister::Configuration2 => 0x28,
            FanRegister::Gain => 0x2A,
            FanRegister::SpinUpConfiguration => 0x19,
            FanRegister::MaxStep => 0x10,
            FanRegister::MinimumDrive => 0x66,
            FanRegister::ValidTachCount => 0xF5,
            FanRegister::DriveFailBandLow => 0x00,
            FanRegister::DriveFailBandHigh => 0x00,
            FanRegister::TachTargetLow => 0xF8,
            FanRegister::TachTargetHigh => 0xFF,
            FanRegister::TachReadingHigh => 0xFF,
            FanRegister::TachReadingLow => 0xF8,
        }
    }
}

/// Every register of the chip: the chip-wide ones at fixed addresses, and
/// the per-fan ones of fans `1..=5`.
#[derive(Clone, Copy, Debug, PartialEq, Eq, Structural)]
pub enum Register {
    Configuration,
    FanStatus,
    FanStallStatus,
    FanSpinStatus,
    DriveFailStatus,
    FanInterruptEnable,
    PwmPolarityConfig,
    PwmOutputConfig,
    PwmBaseF45,
    PwmBaseF123,
    Fan(u8, FanRegister),
    SoftwareLock,
    ProductFeatures,
    ProductId,
    ManufacturerId,
    Revision,
}

impl Register {
    /// A per-fan register names a fan of the family.
    pub open spec fn wf(self) -> bool {
        match self {
            Register::Fan(fan, _) => 1 <= fan <= MAX_FAN,
            _ => true,
        }
    }

    /// Physical address of the register.
    pub open spec fn address_of(self) -> int {
        match self {
            Register::Configuration => 0x20,
            Register::FanStatus => 0x24,
            Register::FanStallStatus => 0x25,
            Register::FanSpinStatus => 0x26,
            Register::DriveFailStatus => 0x27,
            Register::FanInterruptEnable => 0x29,
            Register::PwmPolarityConfig => 0x2A,
            Register::PwmOutputConfig => 0x2B,
            Register::PwmBaseF45 => 0x2C,
            Register::PwmBaseF123 => 0x2D,
            Register::Fan(fan, reg) => fan_base(fan) + reg.offset_of(),
            Register::SoftwareLock => 0xEF,
            Register::ProductFeatures => 0xFC,
            Register::ProductId => 0xFD,
            Register::ManufacturerId => 0xFE,
            Register::Revision => 0xFF,
        }
    }

    /// Value the register holds after power-on; the product identifier
    /// register has none common to the family.
    pub open spec fn reset_value(self) -> Option<u8> {
        match self {
            Register::Configuration => Some(0x40u8),
            Register::Fan(_, reg) => Some(reg.reset_value()),
            Register::SoftwareLock => Some(0xF8u8),
            Register::ProductId => None,
            Register::ManufacturerId => Some(0x5Du8),
            Register::Revision => Some(0x80u8),
            _ => Some(0x00u8),
        }
    }

    /// The chip-wide register at `address`, if any.
    pub open spec fn chip_register_at(address: u8) -> Option<Register> {
        match address {
            0x20 => Some(Register::Configuration),
            0x24 => Some(Register::FanStatus),
            0x25 => Some(Register::FanStallStatus),
            0x26 => Some(Register::FanSpinStatus),
            0x27 => Some(Register::DriveFailStatus),
            0x29 => Some(Register::FanInterruptEnable),
            0x2A => Some(Register::PwmPolarityConfig),
            0x2B => Some(Register::PwmOutputConfig),
            0x2C => Some(Register::PwmBaseF45),
            0x2D => Some(Register::PwmBaseF123),
            0xEF => Some(Register::SoftwareLock),
            0xFC => Some(Register::ProductFeatures),
            0xFD => Some(Register::ProductId),
            0xFE => Some(Register::ManufacturerId),
            0xFF => Some(Register::Revision),
            _ => None,
        }
    }

    /// The register at `address`, if the catalog has one there.
    pub open spec fn at_address(address: u8) -> Option<Register> {
        if 0x30 <= address < 0x80 {
            match FanRegister::at_offset((address % 16) as u8) {
                Some(reg) => Some(Register::Fan((address / 16 - 2) as u8, reg)),
                None => None,
            }
        } else {
            Register::chip_register_at(address)
        }
    }

    /// Physical address of the register.
    pub fn address(&self) -> (r: u8)
        requires
            self.wf(),
        ensures
            r == self.address_of(),
    {
        match self {
            Register::Configuration => 0x20,
            Register::FanStatus => 0x24,
            Register::FanStallStatus => 0x25,
            Register::FanSpinStatus => 0x26,
            Register::DriveFailStatus => 0x27,
            Register::FanInterruptEnable => 0x29,
            Register::PwmPolarityConfig => 0x2A,
            Register::PwmOutputConfig => 0x2B,
            Register::PwmBaseF45 => 0x2C,
            Register::PwmBaseF123 => 0x2D,
            Register::Fan(fan, reg) => 0x20 + 0x10 * *fan + reg.offset(),
            Register::SoftwareLock => 0xEF,
            Register::ProductFeatures => 0xFC,
            Register::ProductId => 0xFD,
            Register::ManufacturerId => 0xFE,
            Register::Revision => 0xFF,
        }
    }

    /// Value the register holds after power-on; the product identifier
    /// register has none common to the family.
    pub fn default_value(&self) -> (r: Option<u8>)
        ensures
            r == self.reset_value(),
    {
        match self {
            Register::Configuration => Some(0x40),
            Register::Fan(_, reg) => Some(reg.default_value()),
            Register::SoftwareLock => Some(0xF8),
            Register::ProductId => None,
            Register::ManufacturerId => Some(0x5D),
            Register::Revision => Some(0x80),
            _ => Some(0x00),
        }
    }

    /// The register at `address`, if the catalog has one there.
    pub fn from_address(address: u8) -> (r: Option<Register>)
        ensures
            r == Register::at_address(address),
    {
        if 0x30 <= address && address < 0x80 {
            match FanRegister::from_offset(address % 16) {
                Some(reg) => Some(Register::Fan(address / 16 - 2, reg)),
                None => None,
            }
        } else {
            match address {
                0x20 => Some(Register::Configuration),
                0x24 => Some(Register::FanStatus),
                0x25 => Some(Register::FanStallStatus),
                0x26 => Some(Register::FanSpinStatus),
                0x27 => Some(Register::DriveFailStatus),
                0x29 => Some(Register::FanInterruptEnable),
                0x2A => Some(Register::PwmPolarityConfig),
                0x2B => Some(Register::PwmOutputConfig),
                0x2C => Some(Register::PwmBaseF45),
                0x2D => Some(Register::PwmBaseF123),
                0xEF => Some(Register::SoftwareLock),
                0xFC => Some(Register::ProductFeatures),
                0xFD => Some(Register::ProductId),
                0xFE => Some(Register::ManufacturerId),
                0xFF => Some(Register::Revision),
                _ => None,
            }
        }
    }
}

/// Every register of the catalog sits at its own address, and looking that
/// address up gives the register back.
pub proof fn lemma_register_address_round_trip(reg: Register)
    requires
        reg.wf(),
    ensures
        0 <= reg.address_of() <= 0xFF,
        Register::at_address(reg.address_of() as u8) == Some(reg),
{
}

/// An address that the catalog knows belongs to exactly one register, and
/// that register sits at it.
pub proof fn lemma_address_lookup_sound(address: u8)
    ensures
        Register::at_address(address) matches Some(reg) ==> reg.wf() && reg.address_of()
            == address,
{
}

/// Physical address of the register at `offset` in fan `sel`'s block.
/// Fails with `InvalidFan` unless the fan number is in `1..=5`, and with
/// `InvalidRegister` when the sum names no register of the catalog.
pub fn fan_register_address(sel: FanSelect, offset: u8) -> (r: Result<u8, Error>)
    ensures
        !(1 <= sel.number() <= MAX_FAN) ==> r == Err::<u8, Error>(Error::InvalidFan),
        1 <= sel.number() <= MAX_FAN ==> {
            let address = fan_base(sel.number()) + offset;
            if address <= 0xFF && Register::at_address(address as u8) is Some {
                r == Ok::<u8, Error>(address as u8)
            } else {
                r == Err::<u8, Error>(Error::InvalidRegister)
            }
        },
{
    let base: u8 = match sel {
        FanSelect::Fan(fan) => match fan {
            1 => FAN1_BASE,
            2 => FAN2_BASE,
            3 => FAN3_BASE,
            4 => FAN4_BASE,
            5 => FAN5_BASE,
            _ => {
                return Err(Error::InvalidFan);
            },
        },
    };
    let address: u16 = base as u16 + offset as u16;
    if address > 0xFF {
        return Err(Error::InvalidRegister);
    }
    match Register::from_address(address as u8) {
        Some(_) => Ok(address as u8),
        None => Err(Error::InvalidRegister),
    }
}

} // verus!
