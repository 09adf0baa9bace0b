//! The 16-bit quantities that the chip spreads over two registers: the
//! tachometer reading, the tachometer target and the drive fail band.
//!
//! Each is a 13-bit count. The high register holds its bits 12-5 as a full
//! byte; the low register holds its bits 4-0 in bit positions 7-3, and its
//! bits 2-0 carry nothing.
use vstd::prelude::*;

use crate::bits::{field, field_of, set_field, with_field};

verus! {

/// The count that a low and a high register hold together:
/// `(high << 5) | low[7:3]`.
pub open spec fn count_of(low: u8, high: u8) -> u16 {
    ((high as u16) << 5u16) | ((low >> 3u8) as u16)
}

/// The low register byte of a count: its bits 4-0 in positions 7-3.
pub open spec fn low_of_count(count: u16) -> u8 {
    ((count & 0x1F) << 3u16) as u8
}

/// The high register byte of a count: its bits 12-5.
pub open spec fn high_of_count(count: u16) -> u8 {
    ((count & 0x1FE0) >> 5u16) as u8
}

/// The count that a low and a high register hold together.
pub fn join_count(low: u8, high: u8) -> (r: u16)
    ensures
        r == count_of(low, high),
        r <= 0x1FFF,
{
    assert(((high as u16) << 5u16) | ((low >> 3u8) as u16) <= 0x1FFF) by (bit_vector);
    ((high as u16) << 5u16) | ((low >> 3u8) as u16)
}

/// The low and the high register bytes of a count.
pub fn split_count(count: u16) -> (r: (u8, u8))
    ensures
        r.0 == low_of_count(count),
        r.1 == high_of_count(count),
{
    assert(((count & 0x1F) << 3u16) <= 0xFF) by (bit_vector);
    assert(((count & 0x1FE0) >> 5u16) <= 0xFF) by (bit_vector);
    ((((count & 0x1F) << 3u16) as u8), (((count & 0x1FE0) >> 5u16) as u8))
}

/// Splitting a count over the two registers and joining them again gives
/// the count back, but for its top three bits, which the registers do not
/// hold.
pub proof fn lemma_count_round_trip(count: u16)
    ensures
        count_of(low_of_count(count), high_of_count(count)) == count & 0x1FFF,
        count <= 0x1FFF ==> count_of(low_of_count(count), high_of_count(count)) == count,
{
    assert(count_of(low_of_count(count), high_of_count(count)) == count & 0x1FFF)
        by (bit_vector);
    assert(count <= 0x1FFF ==> count & 0x1FFF == count) by (bit_vector);
}

/// Joining two register bytes and splitting the count again gives the high
/// byte back, and the low byte with its three unused bits cleared.
pub proof fn lemma_registers_round_trip(low: u8, high: u8)
    ensures
        low_of_count(count_of(low, high)) == low & 0xF8,
        high_of_count(count_of(low, high)) == high,
{
    assert(low_of_count(count_of(low, high)) == low & 0xF8) by (bit_vector);
    assert(high_of_count(count_of(low, high)) == high) by (bit_vector);
}

/// The low byte's significant bits, bits 7-3, as a number below 32.
pub open spec fn low_bits(low: u8) -> u8 {
    field_of(low, 3, 5)
}

/// The count that two register bytes hold, as a number: 32 times the high
/// byte plus the five significant bits of the low byte.
pub proof fn lemma_count_of_fields(low: u8, high: u8)
    ensures
        count_of(low, high) == high as int * 32 + low_bits(low),
{
    crate::bits::lemma_low_mask_values();
    assert(count_of(low, high) == high as int * 32 + ((low >> 3u8) & 31u8)) by (bit_vector);
}

/// The tachometer reading low register of one fan (offset 0x0F): bits 4-0 of the
/// count in bit positions 7-3.
#[derive(Clone, Copy, Debug, PartialEq, Eq, Structural)]
pub struct TachReadingLow(pub u8);

impl TachReadingLow {
    /// Offset of the register in a fan's block.
    pub const OFFSET: u8 = 0x0F;
    /// Value after power-on.
    pub const DEFAULT: u8 = 0xF8;

    /// Bits 4-0 of the count.
    pub fn fxtr(&self) -> (r: u8)
        ensures
            r == low_bits(self.0),
            r < 32,
    {
        proof {
            crate::bits::lemma_low_mask_values();
        }
        field(self.0, 3, 5)
    }

    /// Sets bits 4-0 of the count from the low bits of `value`.
    pub fn set_fxtr(&mut self, value: u8)
        ensures
            final(self).0 == with_field(old(self).0, 3, 5, value),
    {
        self.0 = set_field(self.0, 3, 5, value);
    }
}

/// The tachometer reading high register of one fan (offset 0x0E): bits 12-5 of
/// the count.
#[derive(Clone, Copy, Debug, PartialEq, Eq, Structural)]
pub struct TachReadingHigh(pub u8);

impl TachReadingHigh {
    /// Offset of the register in a fan's block.
    pub const OFFSET: u8 = 0x0E;
    /// Value after power-on.
    pub const DEFAULT: u8 = 0xFF;

    /// Bits 12-5 of the count.
    pub fn fxtr(&self) -> (r: u8)
        ensures
            r == self.0,
    {
        self.0
    }

    /// Sets bits 12-5 of the count.
    pub fn set_fxtr(&mut self, value: u8)
        ensures
            final(self).0 == value,
    {
        self.0 = value;
    }
}

/// The tachometer reading of one fan: a 13-bit count held by two registers.
#[derive(Clone, Copy, Debug, PartialEq, Eq, Structural)]
pub struct TachReading {
    pub low: TachReadingLow,
    pub high: TachReadingHigh,
}

impl TachReading {
    /// The raw byte of the low register.
    pub open spec fn low_byte(self) -> u8 {
        self.low.0
    }

    /// The raw byte of the high register.
    pub open spec fn high_byte(self) -> u8 {
        self.high.0
    }

    /// The value made of a low and a high register byte.
    pub open spec fn new_spec(low: u8, high: u8) -> TachReading {
        TachReading { low: TachReadingLow(low), high: TachReadingHigh(high) }
    }

    /// The count that the two registers hold.
    pub open spec fn count(self) -> u16 {
        count_of(self.low.0, self.high.0)
    }

    /// The value made of the two registers as read from the device.
    pub fn new(low: TachReadingLow, high: TachReadingHigh) -> (r: TachReading)
        ensures
            r.low_byte() == low.0,
            r.high_byte() == high.0,
    {
        TachReading { low, high }
    }

    /// The value whose registers hold `count`; bits above bit 12 are dropped.
    pub fn from_count(count: u16) -> (r: TachReading)
        ensures
            r.low_byte() == low_of_count(count),
            r.high_byte() == high_of_count(count),
            r.count() == count & 0x1FFF,
    {
        let (low, high) = split_count(count);
        proof {
            lemma_count_round_trip(count);
        }
        TachReading { low: TachReadingLow(low), high: TachReadingHigh(high) }
    }

    /// The count that the two registers hold.
    pub fn to_count(&self) -> (r: u16)
        ensures
            r == self.count(),
            r <= 0x1FFF,
    {
        join_count(self.low.0, self.high.0)
    }

    /// The low register.
    pub fn low_register(&self) -> (r: TachReadingLow)
        ensures
            r.0 == self.low_byte(),
    {
        self.low
    }

    /// The high register.
    pub fn high_register(&self) -> (r: TachReadingHigh)
        ensures
            r.0 == self.high_byte(),
    {
        self.high
    }

    /// Bits 4-0 of the count, as the low register holds them.
    pub fn low(&self) -> (r: u8)
        ensures
            r == low_bits(self.low_byte()),
    {
        self.low.fxtr()
    }

    /// Bits 12-5 of the count, as the high register holds them.
    pub fn high(&self) -> (r: u8)
        ensures
            r == self.high_byte(),
    {
        self.high.fxtr()
    }

    /// The raw byte of the low register, as it travels on the bus.
    pub fn raw_low(&self) -> (r: u8)
        ensures
            r == self.low_byte(),
    {
        self.low.0
    }

    /// The raw byte of the high register, as it travels on the bus.
    pub fn raw_high(&self) -> (r: u8)
        ensures
            r == self.high_byte(),
    {
        self.high.0
    }
}

impl From<u16> for TachReading {
    fn from(count: u16) -> (r: TachReading) {
        TachReading::from_count(count)
    }
}

impl vstd::std_specs::convert::FromSpecImpl<u16> for TachReading {
    open spec fn obeys_from_spec() -> bool {
        true
    }

    open spec fn from_spec(count: u16) -> TachReading {
        TachReading { low: TachReadingLow(low_of_count(count)), high: TachReadingHigh(high_of_count(count)) }
    }
}

impl From<TachReading> for u16 {
    fn from(value: TachReading) -> (r: u16) {
        value.to_count()
    }
}

impl vstd::std_specs::convert::FromSpecImpl<TachReading> for u16 {
    open spec fn obeys_from_spec() -> bool {
        true
    }

    open spec fn from_spec(value: TachReading) -> u16 {
        value.count()
    }
}

impl From<TachReading> for (TachReadingLow, TachReadingHigh) {
    fn from(value: TachReading) -> (r: (TachReadingLow, TachReadingHigh)) {
        (value.low_register(), value.high_register())
    }
}

impl vstd::std_specs::convert::FromSpecImpl<TachReading> for (TachReadingLow, TachReadingHigh) {
    open spec fn obeys_from_spec() -> bool {
        true
    }

    open spec fn from_spec(value: TachReading) -> (TachReadingLow, TachReadingHigh) {
        (value.low, value.high)
    }
}

impl From<(TachReadingLow, TachReadingHigh)> for TachReading {
    fn from(registers: (TachReadingLow, TachReadingHigh)) -> (r: TachReading) {
        TachReading::new(registers.0, registers.1)
    }
}

impl vstd::std_specs::convert::FromSpecImpl<(TachReadingLow, TachReadingHigh)> for TachReading {
    open spec fn obeys_from_spec() -> bool {
        true
    }

    open spec fn from_spec(registers: (TachReadingLow, TachReadingHigh)) -> TachReading {
        TachReading { low: registers.0, high: registers.1 }
    }
}

/// The tachometer target low register of one fan (offset 0x0C): bits 4-0 of the
/// count in bit positions 7-3.
#[derive(Clone, Copy, Debug, PartialEq, Eq, Structural)]
pub struct TachTargetLow(pub u8);

impl TachTargetLow {
    /// Offset of the register in a fan's block.
    pub const OFFSET: u8 = 0x0C;
    /// Value after power-on.
    pub const DEFAULT: u8 = 0xF8;

    /// Bits 4-0 of the count.
    pub fn fxtt(&self) -> (r: u8)
        ensures
            r == low_bits(self.0),
            r < 32,
    {
        proof {
            crate::bits::lemma_low_mask_values();
        }
        field(self.0, 3, 5)
    }

    /// Sets bits 4-0 of the count from the low bits of `value`.
    pub fn set_fxtt(&mut self, value: u8)
        ensures
            final(self).0 == with_field(old(self).0, 3, 5, value),
    {
        self.0 = set_field(self.0, 3, 5, value);
    }
}

/// The tachometer target high register of one fan (offset 0x0D): bits 12-5 of
/// the count.
#[derive(Clone, Copy, Debug, PartialEq, Eq, Structural)]
pub struct TachTargetHigh(pub u8);

impl TachTargetHigh {
    /// Offset of the register in a fan's block.
    pub const OFFSET: u8 = 0x0D;
    /// Value after power-on.
    pub const DEFAULT: u8 = 0xFF;

    /// Bits 12-5 of the count.
    pub fn fxtt(&self) -> (r: u8)
        ensures
            r == self.0,
    {
        self.0
    }

    /// Sets bits 12-5 of the count.
    pub fn set_fxtt(&mut self, value: u8)
        ensures
            final(self).0 == value,
    {
        self.0 = value;
    }
}

/// The tachometer target of one fan: a 13-bit count held by two registers.
#[derive(Clone, Copy, Debug, PartialEq, Eq, Structural)]
pub struct TachTarget {
    pub low: TachTargetLow,
    pub high: TachTargetHigh,
}

impl TachTarget {
    /// The raw byte of the low register.
    pub open spec fn low_byte(self) -> u8 {
        self.low.0
    }

    /// The raw byte of the high register.
    pub open spec fn high_byte(self) -> u8 {
        self.high.0
    }

    /// The value made of a low and a high register byte.
    pub open spec fn new_spec(low: u8, high: u8) -> TachTarget {
        TachTarget { low: TachTargetLow(low), high: TachTargetHigh(high) }
    }

    /// The count that the two registers hold.
    pub open spec fn count(self) -> u16 {
        count_of(self.low.0, self.high.0)
    }

    /// The value made of the two registers as read from the device.
    pub fn new(low: TachTargetLow, high: TachTargetHigh) -> (r: TachTarget)
        ensures
            r.low_byte() == low.0,
            r.high_byte() == high.0,
    {
        TachTarget { low, high }
    }

    /// The value whose registers hold `count`; bits above bit 12 are dropped.
    pub fn from_count(count: u16) -> (r: TachTarget)
        ensures
            r.low_byte() == low_of_count(count),
            r.high_byte() == high_of_count(count),
            r.count() == count & 0x1FFF,
    {
        let (low, high) = split_count(count);
        proof {
            lemma_count_round_trip(count);
        }
        TachTarget { low: TachTargetLow(low), high: TachTargetHigh(high) }
    }

    /// The count that the two registers hold.
    pub fn to_count(&self) -> (r: u16)
        ensures
            r == self.count(),
            r <= 0x1FFF,
    {
        join_count(self.low.0, self.high.0)
    }

    /// The low register.
    pub fn low_register(&self) -> (r: TachTargetLow)
        ensures
            r.0 == self.low_byte(),
    {
        self.low
    }

    /// The high register.
    pub fn high_register(&self) -> (r: TachTargetHigh)
        ensures
            r.0 == self.high_byte(),
    {
        self.high
    }

    /// The raw byte of the low register, as it travels on the bus.
    pub fn raw_low(&self) -> (r: u8)
        ensures
            r == self.low_byte(),
    {
        self.low.0
    }

    /// The raw byte of the high register, as it travels on the bus.
    pub fn raw_high(&self) -> (r: u8)
        ensures
            r == self.high_byte(),
    {
        self.high.0
    }
}

impl From<u16> for TachTarget {
    fn from(count: u16) -> (r: TachTarget) {
        TachTarget::from_count(count)
    }
}

impl vstd::std_specs::convert::FromSpecImpl<u16> for TachTarget {
    open spec fn obeys_from_spec() -> bool {
        true
    }

    open spec fn from_spec(count: u16) -> TachTarget {
        TachTarget { low: TachTargetLow(low_of_count(count)), high: TachTargetHigh(high_of_count(count)) }
    }
}

impl From<TachTarget> for u16 {
    fn from(value: TachTarget) -> (r: u16) {
        value.to_count()
    }
}

impl vstd::std_specs::convert::FromSpecImpl<TachTarget> for u16 {
    open spec fn obeys_from_spec() -> bool {
        true
    }

    open spec fn from_spec(value: TachTarget) -> u16 {
        value.count()
    }
}

impl From<TachTarget> for (TachTargetLow, TachTargetHigh) {
    fn from(value: TachTarget) -> (r: (TachTargetLow, TachTargetHigh)) {
        (value.low_register(), value.high_register())
    }
}

impl vstd::std_specs::convert::FromSpecImpl<TachTarget> for (TachTargetLow, TachTargetHigh) {
    open spec fn obeys_from_spec() -> bool {
        true
    }

    open spec fn from_spec(value: TachTarget) -> (TachTargetLow, TachTargetHigh) {
        (value.low, value.high)
    }
}

impl From<(TachTargetLow, TachTargetHigh)> for TachTarget {
    fn from(registers: (TachTargetLow, TachTargetHigh)) -> (r: TachTarget) {
        TachTarget::new(registers.0, registers.1)
    }
}

impl vstd::std_specs::convert::FromSpecImpl<(TachTargetLow, TachTargetHigh)> for TachTarget {
    open spec fn obeys_from_spec() -> bool {
        true
    }

    open spec fn from_spec(registers: (TachTargetLow, TachTargetHigh)) -> TachTarget {
        TachTarget { low: registers.0, high: registers.1 }
    }
}

/// The drive fail band low register of one fan (offset 0x0A): bits 4-0 of the
/// count in bit positions 7-3.
#[derive(Clone, Copy, Debug, PartialEq, Eq, Structural)]
pub struct DriveFailBandLow(pub u8);

impl DriveFailBandLow {
    /// Offset of the register in a fan's block.
    pub const OFFSET: u8 = 0x0A;
    /// Value after power-on.
    pub const DEFAULT: u8 = 0x00;

    /// Bits 4-0 of the count.
    pub fn fxdf(&self) -> (r: u8)
        ensures
            r == low_bits(self.0),
            r < 32,
    {
        proof {
            crate::bits::lemma_low_mask_values();
        }
        field(self.0, 3, 5)
    }

    /// Sets bits 4-0 of the count from the low bits of `value`.
    pub fn set_fxdf(&mut self, value: u8)
        ensures
            final(self).0 == with_field(old(self).0, 3, 5, value),
    {
        self.0 = set_field(self.0, 3, 5, value);
    }
}

/// The drive fail band high register of one fan (offset 0x0B): bits 12-5 of
/// the count.
#[derive(Clone, Copy, Debug, PartialEq, Eq, Structural)]
pub struct DriveFailBandHigh(pub u8);

impl DriveFailBandHigh {
    /// Offset of the register in a fan's block.
    pub const OFFSET: u8 = 0x0B;
    /// Value after power-on.
    pub const DEFAULT: u8 = 0x00;

    /// Bits 12-5 of the count.
    pub fn fxdf(&self) -> (r: u8)
        ensures
            r == self.0,
    {
        self.0
    }

    /// Sets bits 12-5 of the count.
    pub fn set_fxdf(&mut self, value: u8)
        ensures
            final(self).0 == value,
    {
        self.0 = value;
    }
}

/// The drive fail band of one fan: a 13-bit count held by two registers.
#[derive(Clone, Copy, Debug, PartialEq, Eq, Structural)]
pub struct DriveFailBand {
    pub low: DriveFailBandLow,
    pub high: DriveFailBandHigh,
}

impl DriveFailBand {
    /// The raw byte of the low register.
    pub open spec fn low_byte(self) -> u8 {
        self.low.0
    }

    /// The raw byte of the high register.
    pub open spec fn high_byte(self) -> u8 {
        self.high.0
    }

    /// The value made of a low and a high register byte.
    pub open spec fn new_spec(low: u8, high: u8) -> DriveFailBand {
        DriveFailBand { low: DriveFailBandLow(low), high: DriveFailBandHigh(high) }
    }

    /// The count that the two registers hold.
    pub open spec fn count(self) -> u16 {
        count_of(self.low.0, self.high.0)
    }

    /// The value made of the two registers as read from the device.
    pub fn new(low: DriveFailBandLow, high: DriveFailBandHigh) -> (r: DriveFailBand)
        ensures
            r.low_byte() == low.0,
            r.high_byte() == high.0,
    {
        DriveFailBand { low, high }
    }

    /// The value whose registers hold `count`; bits above bit 12 are dropped.
    pub fn from_count(count: u16) -> (r: DriveFailBand)
        ensures
            r.low_byte() == low_of_count(count),
            r.high_byte() == high_of_count(count),
            r.count() == count & 0x1FFF,
    {
        let (low, high) = split_count(count);
        proof {
            lemma_count_round_trip(count);
        }
        DriveFailBand { low: DriveFailBandLow(low), high: DriveFailBandHigh(high) }
    }

    /// The count that the two registers hold.
    pub fn to_count(&self) -> (r: u16)
        ensures
            r == self.count(),
            r <= 0x1FFF,
    {
        join_count(self.low.0, self.high.0)
    }

    /// The low register.
    pub fn low_register(&self) -> (r: DriveFailBandLow)
        ensures
            r.0 == self.low_byte(),
    {
        self.low
    }

    /// The high register.
    pub fn high_register(&self) -> (r: DriveFailBandHigh)
        ensures
            r.0 == self.high_byte(),
    {
        self.high
    }

    /// The raw byte of the low register, as it travels on the bus.
    pub fn raw_low(&self) -> (r: u8)
        ensures
            r == self.low_byte(),
    {
        self.low.0
    }

    /// The raw byte of the high register, as it travels on the bus.
    pub fn raw_high(&self) -> (r: u8)
        ensures
            r == self.high_byte(),
    {
        self.high.0
    }
}

impl From<u16> for DriveFailBand {
    fn from(count: u16) -> (r: DriveFailBand) {
        DriveFailBand::from_count(count)
    }
}

impl vstd::std_specs::convert::FromSpecImpl<u16> for DriveFailBand {
    open spec fn obeys_from_spec() -> bool {
        true
    }

    open spec fn from_spec(count: u16) -> DriveFailBand {
        DriveFailBand { low: DriveFailBandLow(low_of_count(count)), high: DriveFailBandHigh(high_of_count(count)) }
    }
}

impl From<DriveFailBand> for u16 {
    fn from(value: DriveFailBand) -> (r: u16) {
        value.to_count()
    }
}

impl vstd::std_specs::convert::FromSpecImpl<DriveFailBand> for u16 {
    open spec fn obeys_from_spec() -> bool {
        true
    }

    open spec fn from_spec(value: DriveFailBand) -> u16 {
        value.count()
    }
}

impl From<DriveFailBand> for (DriveFailBandLow, DriveFailBandHigh) {
    fn from(value: DriveFailBand) -> (r: (DriveFailBandLow, DriveFailBandHigh)) {
        (value.low_register(), value.high_register())
    }
}

impl vstd::std_specs::convert::FromSpecImpl<DriveFailBand> for (DriveFailBandLow, DriveFailBandHigh) {
    open spec fn obeys_from_spec() -> bool {
        true
    }

    open spec fn from_spec(value: DriveFailBand) -> (DriveFailBandLow, DriveFailBandHigh) {
        (value.low, value.high)
    }
}

impl From<(DriveFailBandLow, DriveFailBandHigh)> for DriveFailBand {
    fn from(registers: (DriveFailBandLow, DriveFailBandHigh)) -> (r: DriveFailBand) {
        DriveFailBand::new(registers.0, registers.1)
    }
}

impl vstd::std_specs::convert::FromSpecImpl<(DriveFailBandLow, DriveFailBandHigh)> for DriveFailBand {
    open spec fn obeys_from_spec() -> bool {
        true
    }

    open spec fn from_spec(registers: (DriveFailBandLow, DriveFailBandHigh)) -> DriveFailBand {
        DriveFailBand { low: registers.0, high: registers.1 }
    }
}

} // verus!
