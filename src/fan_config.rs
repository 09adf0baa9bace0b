//! Fan Configuration 1: closed-loop enable, RPM range, tachometer edge
//! count and PID update time of one fan.
use vstd::prelude::*;

use crate::bits::{bit, bit_of, field, field_of, set_bit, set_field, with_bit, with_field};

verus! {

/// The slowest fan speed that the tachometer measures, and with it the
/// multiplier applied to the tachometer count.
#[derive(Clone, Copy, Debug, PartialEq, Eq, Structural)]
pub enum Range {
    Rpm500,
    Rpm1000,
    Rpm2000,
    Rpm4000,
}

impl Range {
    /// The range that a 2-bit field encodes; other values give the reset
    /// default, `Rpm1000`.
    pub open spec fn decode(bits: u8) -> Range {
        match bits {
            0 => Range::Rpm500,
            2 => Range::Rpm2000,
            3 => Range::Rpm4000,
            _ => Range::Rpm1000,
        }
    }

    /// The 2-bit field value of the range.
    pub open spec fn encode(self) -> u8 {
        match self {
            Range::Rpm500 => 0,
            Range::Rpm1000 => 1,
            Range::Rpm2000 => 2,
            Range::Rpm4000 => 3,
        }
    }

    /// The multiplier of the tachometer count in this range.
    pub open spec fn multiplier(self) -> u8 {
        match self {
            Range::Rpm500 => 1,
            Range::Rpm1000 => 2,
            Range::Rpm2000 => 4,
            Range::Rpm4000 => 8,
        }
    }

    /// The range that a 2-bit field encodes.
    pub fn from_bits(bits: u8) -> (r: Range)
        ensures
            r == Range::decode(bits),
    {
        match bits {
            0 => Range::Rpm500,
            2 => Range::Rpm2000,
            3 => Range::Rpm4000,
            _ => Range::Rpm1000,
        }
    }

    /// The 2-bit field value of the range.
    pub fn bits(&self) -> (r: u8)
        ensures
            r == self.encode(),
            r < 4,
            Range::decode(r) == *self,
    {
        match self {
            Range::Rpm500 => 0,
            Range::Rpm1000 => 1,
            Range::Rpm2000 => 2,
            Range::Rpm4000 => 3,
        }
    }

    /// The slowest speed, in RPM, that the range measures.
    pub fn min_rpm(&self) -> (r: u16)
        ensures
            r == 500 * self.multiplier(),
    {
        match self {
            Range::Rpm500 => 500,
            Range::Rpm1000 => 1000,
            Range::Rpm2000 => 2000,
            Range::Rpm4000 => 4000,
        }
    }

    /// The multiplier of the tachometer count in this range.
    pub fn tach_count_multiplier(&self) -> (r: u8)
        ensures
            r == self.multiplier(),
    {
        match self {
            Range::Rpm500 => 1,
            Range::Rpm1000 => 2,
            Range::Rpm2000 => 4,
            Range::Rpm4000 => 8,
        }
    }
}

/// How many tachometer edges are sampled for one speed measurement.
#[derive(Clone, Copy, Debug, PartialEq, Eq, Structural)]
pub enum Edges {
    Sample3,
    Sample5,
    Sample7,
    Sample9,
}

impl Edges {
    /// The edge count that a 2-bit field encodes; other values give the
    /// reset default, `Sample5`.
    pub open spec fn decode(bits: u8) -> Edges {
        match bits {
            0 => Edges::Sample3,
            2 => Edges::Sample7,
            3 => Edges::Sample9,
            _ => Edges::Sample5,
        }
    }

    /// The 2-bit field value of the edge count.
    pub open spec fn encode(self) -> u8 {
        match self {
            Edges::Sample3 => 0,
            Edges::Sample5 => 1,
            Edges::Sample7 => 2,
            Edges::Sample9 => 3,
        }
    }

    /// The number of edges sampled.
    pub open spec fn count(self) -> u8 {
        match self {
            Edges::Sample3 => 3,
            Edges::Sample5 => 5,
            Edges::Sample7 => 7,
            Edges::Sample9 => 9,
        }
    }

    /// The edge count that a 2-bit field encodes.
    pub fn from_bits(bits: u8) -> (r: Edges)
        ensures
            r == Edges::decode(bits),
    {
        match bits {
            0 => Edges::Sample3,
            2 => Edges::Sample7,
            3 => Edges::Sample9,
            _ => Edges::Sample5,
        }
    }

    /// The 2-bit field value of the edge count.
    pub fn bits(&self) -> (r: u8)
        ensures
            r == self.encode(),
            r < 4,
            Edges::decode(r) == *self,
    {
        match self {
            Edges::Sample3 => 0,
            Edges::Sample5 => 1,
            Edges::Sample7 => 2,
            Edges::Sample9 => 3,
        }
    }

    /// The number of edges sampled.
    pub fn num_edges(&self) -> (r: u8)
        ensures
            r == self.count(),
    {
        match self {
            Edges::Sample3 => 3,
            Edges::Sample5 => 5,
            Edges::Sample7 => 7,
            Edges::Sample9 => 9,
        }
    }

    /// The pole count of a fan for which this edge count measures one
    /// revolution.
    pub fn poles(&self) -> (r: u8)
        ensures
            2 * r + 1 == self.count(),
    {
        match self {
            Edges::Sample9 => 4,
            Edges::Sample7 => 3,
            Edges::Sample5 => 2,
            Edges::Sample3 => 1,
        }
    }
}

/// How often the closed-loop controller updates the drive.
#[derive(Clone, Copy, Debug, PartialEq, Eq, Structural)]
pub enum UpdateTime {
    UpdateTime100ms,
    UpdateTime200ms,
    UpdateTime300ms,
    UpdateTime400ms,
    UpdateTime500ms,
    UpdateTime800ms,
    UpdateTime1200ms,
    UpdateTime1600ms,
}

impl UpdateTime {
    /// The update time that a 3-bit field encodes; other values give the
    /// reset default, 400 ms.
    pub open spec fn decode(bits: u8) -> UpdateTime {
        match bits {
            0 => UpdateTime::UpdateTime100ms,
            1 => UpdateTime::UpdateTime200ms,
            2 => UpdateTime::UpdateTime300ms,
            4 => UpdateTime::UpdateTime500ms,
            5 => UpdateTime::UpdateTime800ms,
            6 => UpdateTime::UpdateTime1200ms,
            7 => UpdateTime::UpdateTime1600ms,
            _ => UpdateTime::UpdateTime400ms,
        }
    }

    /// The 3-bit field value of the update time.
    pub open spec fn encode(self) -> u8 {
        match self {
            UpdateTime::UpdateTime100ms => 0,
            UpdateTime::UpdateTime200ms => 1,
            UpdateTime::UpdateTime300ms => 2,
            UpdateTime::UpdateTime400ms => 3,
            UpdateTime::UpdateTime500ms => 4,
            UpdateTime::UpdateTime800ms => 5,
            UpdateTime::UpdateTime1200ms => 6,
            UpdateTime::UpdateTime1600ms => 7,
        }
    }

    /// The update time in milliseconds.
    pub open spec fn period_ms(self) -> u16 {
        match self {
            UpdateTime::UpdateTime100ms => 100,
            UpdateTime::UpdateTime200ms => 200,
            UpdateTime::UpdateTime300ms => 300,
            UpdateTime::UpdateTime400ms => 400,
            UpdateTime::UpdateTime500ms => 500,
            UpdateTime::UpdateTime800ms => 800,
            UpdateTime::UpdateTime1200ms => 1200,
            UpdateTime::UpdateTime1600ms => 1600,
        }
    }

    /// The update time that a 3-bit field encodes.
    pub fn from_bits(bits: u8) -> (r: UpdateTime)
        ensures
            r == UpdateTime::decode(bits),
    {
        match bits {
            0 => UpdateTime::UpdateTime100ms,
            1 => UpdateTime::UpdateTime200ms,
            2 => UpdateTime::UpdateTime300ms,
            4 => UpdateTime::UpdateTime500ms,
            5 => UpdateTime::UpdateTime800ms,
            6 => UpdateTime::UpdateTime1200ms,
            7 => UpdateTime::UpdateTime1600ms,
            _ => UpdateTime::UpdateTime400ms,
        }
    }

    /// The 3-bit field value of the update time.
    pub fn bits(&self) -> (r: u8)
        ensures
            r == self.encode(),
            r < 8,
            UpdateTime::decode(r) == *self,
    {
        match self {
            UpdateTime::UpdateTime100ms => 0,
            UpdateTime::UpdateTime200ms => 1,
            UpdateTime::UpdateTime300ms => 2,
            UpdateTime::UpdateTime400ms => 3,
            UpdateTime::UpdateTime500ms => 4,
            UpdateTime::UpdateTime800ms => 5,
            UpdateTime::UpdateTime1200ms => 6,
            UpdateTime::UpdateTime1600ms => 7,
        }
    }

    /// The update time in milliseconds.
    pub fn millis(&self) -> (r: u16)
        ensures
            r == self.period_ms(),
    {
        match self {
            UpdateTime::UpdateTime100ms => 100,
            UpdateTime::UpdateTime200ms => 200,
            UpdateTime::UpdateTime300ms => 300,
            UpdateTime::UpdateTime400ms => 400,
            UpdateTime::UpdateTime500ms => 500,
            UpdateTime::UpdateTime800ms => 800,
            UpdateTime::UpdateTime1200ms => 1200,
            UpdateTime::UpdateTime1600ms => 1600,
        }
    }
}

/// Bit of the closed-loop enable flag.
pub const ENAG_BIT: u8 = 7;
/// Lowest bit of the RPM range field.
pub const RNG_LSB: u8 = 5;
/// Lowest bit of the edge count field.
pub const EDG_LSB: u8 = 3;
/// Lowest bit of the update time field.
pub const UDT_LSB: u8 = 0;

/// The Fan Configuration 1 register of one fan (offset 0x02).
///
/// Bit 7 enables the closed-loop speed control; bits 6-5 hold the RPM
/// range, bits 4-3 the edge count and bits 2-0 the update time.
#[derive(Clone, Copy, Debug, PartialEq, Eq, Structural)]
pub struct FanConfiguration1(pub u8);

impl FanConfiguration1 {
    /// Offset of the register in a fan's block.
    pub const OFFSET: u8 = 0x02;
    /// Value after power-on.
    pub const DEFAULT: u8 = 0x2B;

    /// Whether the closed-loop speed control is on.
    pub open spec fn closed_loop(self) -> bool {
        bit_of(self.0, ENAG_BIT)
    }

    /// The RPM range that the register holds.
    pub open spec fn range(self) -> Range {
        Range::decode(field_of(self.0, RNG_LSB, 2))
    }

    /// The edge count that the register holds.
    pub open spec fn edges(self) -> Edges {
        Edges::decode(field_of(self.0, EDG_LSB, 2))
    }

    /// The update time that the register holds.
    pub open spec fn update_time(self) -> UpdateTime {
        UpdateTime::decode(field_of(self.0, UDT_LSB, 3))
    }

    /// Whether the closed-loop speed control is on.
    pub fn enagx(&self) -> (r: bool)
        ensures
            r == self.closed_loop(),
    {
        bit(self.0, ENAG_BIT)
    }

    /// Turns the closed-loop speed control on or off; the other fields stay.
    pub fn set_enagx(&mut self, on: bool)
        ensures
            final(self).0 == with_bit(old(self).0, ENAG_BIT, on),
            final(self).closed_loop() == on,
            final(self).range() == old(self).range(),
            final(self).edges() == old(self).edges(),
            final(self).update_time() == old(self).update_time(),
    {
        let before = self.0;
        self.0 = set_bit(self.0, ENAG_BIT, on);
        proof {
            let v: u8 = if on { 1 } else { 0 };
            crate::bits::lemma_field_of_with_field(before, ENAG_BIT, 1, v);
            crate::bits::lemma_with_field_disjoint(before, ENAG_BIT, 1, v, RNG_LSB, 2);
            crate::bits::lemma_with_field_disjoint(before, ENAG_BIT, 1, v, EDG_LSB, 2);
            crate::bits::lemma_with_field_disjoint(before, ENAG_BIT, 1, v, UDT_LSB, 3);
        }
    }

    /// The RPM range.
    pub fn rngx(&self) -> (r: Range)
        ensures
            r == self.range(),
    {
        Range::from_bits(field(self.0, RNG_LSB, 2))
    }

    /// Sets the RPM range; the other fields stay.
    pub fn set_rngx(&mut self, range: Range)
        ensures
            final(self).0 == with_field(old(self).0, RNG_LSB, 2, range.encode()),
            final(self).range() == range,
            final(self).closed_loop() == old(self).closed_loop(),
            final(self).edges() == old(self).edges(),
            final(self).update_time() == old(self).update_time(),
    {
        let before = self.0;
        let v = range.bits();
        self.0 = set_field(self.0, RNG_LSB, 2, v);
        proof {
            crate::bits::lemma_field_of_with_field(before, RNG_LSB, 2, v);
            crate::bits::lemma_with_field_disjoint(before, RNG_LSB, 2, v, ENAG_BIT, 1);
            crate::bits::lemma_with_field_disjoint(before, RNG_LSB, 2, v, EDG_LSB, 2);
            crate::bits::lemma_with_field_disjoint(before, RNG_LSB, 2, v, UDT_LSB, 3);
        }
    }

    /// The edge count.
    pub fn edgx(&self) -> (r: Edges)
        ensures
            r == self.edges(),
    {
        Edges::from_bits(field(self.0, EDG_LSB, 2))
    }

    /// Sets the edge count; the other fields stay.
    pub fn set_edgx(&mut self, edges: Edges)
        ensures
            final(self).0 == with_field(old(self).0, EDG_LSB, 2, edges.encode()),
            final(self).edges() == edges,
            final(self).closed_loop() == old(self).closed_loop(),
            final(self).range() == old(self).range(),
            final(self).update_time() == old(self).update_time(),
    {
        let before = self.0;
        let v = edges.bits();
        self.0 = set_field(self.0, EDG_LSB, 2, v);
        proof {
            crate::bits::lemma_field_of_with_field(before, EDG_LSB, 2, v);
            crate::bits::lemma_with_field_disjoint(before, EDG_LSB, 2, v, ENAG_BIT, 1);
            crate::bits::lemma_with_field_disjoint(before, EDG_LSB, 2, v, RNG_LSB, 2);
            crate::bits::lemma_with_field_disjoint(before, EDG_LSB, 2, v, UDT_LSB, 3);
        }
    }

    /// The update time.
    pub fn udtx(&self) -> (r: UpdateTime)
        ensures
            r == self.update_time(),
    {
        UpdateTime::from_bits(field(self.0, UDT_LSB, 3))
    }

    /// Sets the update time; the other fields stay.
    pub fn set_udtx(&mut self, time: UpdateTime)
        ensures
            final(self).0 == with_field(old(self).0, UDT_LSB, 3, time.encode()),
            final(self).update_time() == time,
            final(self).closed_loop() == old(self).closed_loop(),
            final(self).range() == old(self).range(),
            final(self).edges() == old(self).edges(),
    {
        let before = self.0;
        let v = time.bits();
        self.0 = set_field(self.0, UDT_LSB, 3, v);
        proof {
            crate::bits::lemma_field_of_with_field(before, UDT_LSB, 3, v);
            crate::bits::lemma_with_field_disjoint(before, UDT_LSB, 3, v, ENAG_BIT, 1);
            crate::bits::lemma_with_field_disjoint(before, UDT_LSB, 3, v, RNG_LSB, 2);
            crate::bits::lemma_with_field_disjoint(before, UDT_LSB, 3, v, EDG_LSB, 2);
        }
    }
}

/// Every bit pattern of a Fan Configuration 1 field names a setting:
/// encoding the setting that a field decodes to gives the field back, and
/// decoding an encoded setting gives the setting back.
pub proof fn lemma_fields_round_trip(bits: u8, range: Range, edges: Edges, time: UpdateTime)
    ensures
        bits < 4 ==> Range::decode(bits).encode() == bits,
        bits < 4 ==> Edges::decode(bits).encode() == bits,
        bits < 8 ==> UpdateTime::decode(bits).encode() == bits,
        Range::decode(range.encode()) == range,
        Edges::decode(edges.encode()) == edges,
        UpdateTime::decode(time.encode()) == time,
{
}

/// A Fan Configuration 1 register is exactly its four fields: writing its
/// decoded closed-loop flag, range, edge count and update time into any
/// byte gives the register back.
pub proof fn lemma_configuration1_round_trip(config: FanConfiguration1, start: u8)
    ensures
        with_bit(
            with_field(
                with_field(
                    with_field(start, UDT_LSB, 3, config.update_time().encode()),
                    EDG_LSB,
                    2,
                    config.edges().encode(),
                ),
                RNG_LSB,
                2,
                config.range().encode(),
            ),
            ENAG_BIT,
            config.closed_loop(),
        ) == config.0,
{
    let raw = config.0;
    let u = field_of(raw, UDT_LSB, 3);
    let e = field_of(raw, EDG_LSB, 2);
    let r = field_of(raw, RNG_LSB, 2);
    assert(u < 8 && e < 4 && r < 4) by (bit_vector)
        requires
            u == (raw >> 0u8) & (((1u16 << 3u8) - 1u16) as u8),
            e == (raw >> 3u8) & (((1u16 << 2u8) - 1u16) as u8),
            r == (raw >> 5u8) & (((1u16 << 2u8) - 1u16) as u8),
    ;
    lemma_fields_round_trip(u, Range::Rpm500, Edges::Sample5, UpdateTime::UpdateTime400ms);
    lemma_fields_round_trip(e, Range::Rpm500, Edges::Sample5, UpdateTime::UpdateTime400ms);
    lemma_fields_round_trip(r, Range::Rpm500, Edges::Sample5, UpdateTime::UpdateTime400ms);
    let on = config.closed_loop();
    assert(with_bit(
        with_field(with_field(with_field(start, 0, 3, u), 3, 2, e), 5, 2, r),
        7,
        on,
    ) == raw) by (bit_vector)
        requires
            u == (raw >> 0u8) & (((1u16 << 3u8) - 1u16) as u8),
            e == (raw >> 3u8) & (((1u16 << 2u8) - 1u16) as u8),
            r == (raw >> 5u8) & (((1u16 << 2u8) - 1u16) as u8),
            on == (((raw >> 7u8) & (((1u16 << 1u8) - 1u16) as u8)) == 1),
    ;
}

} // verus!
