//! The chip-wide registers: identification, configuration, status and PWM
//! output settings.
use vstd::prelude::*;

use crate::bits::{bit, bit_of, set_bit, with_bit};
use crate::error::Error;

verus! {

/// The chip variant, by the value of the product identifier register.
#[derive(Clone, Copy, Debug, PartialEq, Eq, Structural)]
pub enum ProductId {
    Emc2305,
    Emc2303,
    Emc2302,
    Emc2301,
}

impl ProductId {
    /// Address of the product identifier register.
    pub const ADDRESS: u8 = 0xFD;

    /// The variant that an identifier byte names, if any.
    pub open spec fn decode(raw: u8) -> Option<ProductId> {
        match raw {
            0x34 => Some(ProductId::Emc2305),
            0x35 => Some(ProductId::Emc2303),
            0x36 => Some(ProductId::Emc2302),
            0x37 => Some(ProductId::Emc2301),
            _ => None,
        }
    }

    /// The identifier byte of the variant.
    pub open spec fn encode(self) -> u8 {
        match self {
            ProductId::Emc2305 => 0x34,
            ProductId::Emc2303 => 0x35,
            ProductId::Emc2302 => 0x36,
            ProductId::Emc2301 => 0x37,
        }
    }

    /// The number of fans that the variant drives.
    pub open spec fn fan_count(self) -> u8 {
        match self {
            ProductId::Emc2301 => 1,
            ProductId::Emc2302 => 2,
            ProductId::Emc2303 => 3,
            ProductId::Emc2305 => 5,
        }
    }

    /// The variant that an identifier byte names; `InvalidDeviceId` for a
    /// byte that names none.
    pub fn from_raw(raw: u8) -> (r: Result<ProductId, Error>)
        ensures
            ProductId::decode(raw) matches Some(p) ==> r == Ok::<ProductId, Error>(p),
            ProductId::decode(raw) is None ==> r == Err::<ProductId, Error>(
                Error::InvalidDeviceId,
            ),
    {
        match raw {
            0x34 => Ok(ProductId::Emc2305),
            0x35 => Ok(ProductId::Emc2303),
            0x36 => Ok(ProductId::Emc2302),
            0x37 => Ok(ProductId::Emc2301),
            _ => Err(Error::InvalidDeviceId),
        }
    }

    /// The identifier byte of the variant.
    pub fn raw(&self) -> (r: u8)
        ensures
            r == self.encode(),
            ProductId::decode(r) == Some(*self),
    {
        match self {
            ProductId::Emc2305 => 0x34,
            ProductId::Emc2303 => 0x35,
            ProductId::Emc2302 => 0x36,
            ProductId::Emc2301 => 0x37,
        }
    }

    /// Number of fans the device supports based on the Product ID.
    pub fn num_fans(&self) -> (r: u8)
        ensures
            r == self.fan_count(),
            1 <= r <= 5,
    {
        match self {
            ProductId::Emc2301 => 1,
            ProductId::Emc2302 => 2,
            ProductId::Emc2303 => 3,
            ProductId::Emc2305 => 5,
        }
    }

    /// The name of the variant.
    pub fn name(&self) -> &'static str {
        match self {
            ProductId::Emc2305 => "EMC2305",
            ProductId::Emc2303 => "EMC2303",
            ProductId::Emc2302 => "EMC2302",
            ProductId::Emc2301 => "EMC2301",
        }
    }
}

/// The fan counts of the family are exactly 1, 2, 3 and 5: the EMC2301
/// drives one fan, the EMC2302 two, the EMC2303 three and the EMC2305 five.
pub proof fn lemma_fan_counts()
    ensures
        Set::new(|n: u8| exists|p: ProductId| p.fan_count() == n) == set![1u8, 2u8, 3u8, 5u8],
        ProductId::Emc2301.fan_count() == 1,
        ProductId::Emc2302.fan_count() == 2,
        ProductId::Emc2303.fan_count() == 3,
        ProductId::Emc2305.fan_count() == 5,
{
    let counts = Set::new(|n: u8| exists|p: ProductId| p.fan_count() == n);
    assert(counts.contains(1u8)) by {
        assert(ProductId::Emc2301.fan_count() == 1);
    }
    assert(counts.contains(2u8)) by {
        assert(ProductId::Emc2302.fan_count() == 2);
    }
    assert(counts.contains(3u8)) by {
        assert(ProductId::Emc2303.fan_count() == 3);
    }
    assert(counts.contains(5u8)) by {
        assert(ProductId::Emc2305.fan_count() == 5);
    }
    assert(counts =~= set![1u8, 2u8, 3u8, 5u8]);
}

/// The PWM Output Config register (0x2B): bit `n - 1` drives fan `n`'s PWM
/// output push-pull when set, open-drain when clear.
#[derive(Clone, Copy, Debug, PartialEq, Eq, Structural)]
pub struct PwmOutputConfig(pub u8);

impl PwmOutputConfig {
    /// Address of the register.
    pub const ADDRESS: u8 = 0x2B;
    /// Value after power-on: every output open-drain.
    pub const DEFAULT: u8 = 0x00;

    /// Whether fan `fan`'s output is push-pull.
    pub open spec fn is_push_pull(self, fan: u8) -> bool {
        bit_of(self.0, (fan - 1) as u8)
    }

    /// The register with every output open-drain.
    pub fn new() -> (r: PwmOutputConfig)
        ensures
            r.0 == 0,
    {
        PwmOutputConfig(0)
    }

    /// Drives fan `fan`'s output push-pull; the other outputs stay.
    pub fn push_pull(&mut self, fan: u8)
        requires
            1 <= fan <= 5,
        ensures
            final(self).0 == with_bit(old(self).0, (fan - 1) as u8, true),
    {
        self.0 = set_bit(self.0, fan - 1, true);
    }

    /// Drives fan `fan`'s output open-drain; the other outputs stay.
    pub fn open_drain(&mut self, fan: u8)
        requires
            1 <= fan <= 5,
        ensures
            final(self).0 == with_bit(old(self).0, (fan - 1) as u8, false),
    {
        self.0 = set_bit(self.0, fan - 1, false);
    }

    /// Whether fan `fan`'s output is push-pull.
    pub fn push_pull_enabled(&self, fan: u8) -> (r: bool)
        requires
            1 <= fan <= 5,
        ensures
            r == self.is_push_pull(fan),
    {
        bit(self.0, fan - 1)
    }
}

} // verus!
