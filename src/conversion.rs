//! Conversions between register units and physical units: the drive byte
//! and a duty cycle in percent, and a tachometer count and a speed in RPM.
use vstd::prelude::*;

use crate::error::Error;
use crate::fan_config::{Edges, Range};

verus! {

/// Frequency of the chip's internal tachometer clock, in Hz.
pub const TACH_FREQUENCY_HZ: u64 = 32_768;

/// Largest tachometer count that the 13-bit count registers hold.
pub const MAX_TACH_COUNT: u16 = 0x1FFF;

/// `duty` percent of the full drive byte 255, rounded half up.
pub open spec fn duty_to_raw(duty: int) -> int {
    (duty * 255 + 50) / 100
}

/// A drive byte as a percentage of 255, rounded half up.
pub open spec fn raw_to_duty(raw: int) -> int {
    (raw * 200 + 255) / 510
}

/// The drive byte for a duty cycle of `duty` percent.
pub fn raw_from_duty(duty: u8) -> (r: u8)
    requires
        duty <= 100,
    ensures
        r == duty_to_raw(duty as int),
{
    let scaled: u16 = duty as u16 * 255 + 50;
    (scaled / 100) as u8
}

/// The duty cycle, in percent, that a drive byte gives.
pub fn duty_from_raw(raw: u8) -> (r: u8)
    ensures
        r == raw_to_duty(raw as int),
        r <= 100,
{
    let scaled: u32 = raw as u32 * 200 + 255;
    (scaled / 510) as u8
}

/// Every duty cycle from 0% to 100% survives the trip through the drive
/// byte: converting it to a byte and back gives it again. (The other way
/// round is lossy: 255 bytes share 101 duty cycles.)
pub proof fn lemma_duty_round_trip(duty: int)
    requires
        0 <= duty <= 100,
    ensures
        0 <= duty_to_raw(duty) <= 255,
        raw_to_duty(duty_to_raw(duty)) == duty,
{
    let raw = duty_to_raw(duty);
    lemma_div_bounds(duty * 255 + 50, 100);
    let back = raw_to_duty(raw);
    lemma_div_bounds(raw * 200 + 255, 510);
    assert(back == duty) by (nonlinear_arith)
        requires
            100 * raw <= duty * 255 + 50 < 100 * raw + 100,
            510 * back <= raw * 200 + 255 < 510 * back + 510,
    ;
}

/// The numerator of the tachometer formula:
/// `(edges - 1) * multiplier * tach_frequency * 60`.
pub open spec fn tach_numerator(edges: int, multiplier: int) -> int {
    (edges - 1) * multiplier * TACH_FREQUENCY_HZ * 60
}

/// `(1 / poles) * (edges - 1) / (value / multiplier) * tach_frequency * 60`,
/// rounded half up. The same formula turns a speed in RPM into a
/// tachometer count and a tachometer count into a speed.
pub open spec fn tach_conversion(poles: int, edges: int, multiplier: int, value: int) -> int {
    let numerator = tach_numerator(edges, multiplier);
    let denominator = poles * value;
    (2 * numerator + denominator) / (2 * denominator)
}

/// Applies the tachometer formula to `value` for a fan with `poles` poles
/// whose configuration samples `edges` and measures in `range`. Fails with
/// `SpeedOutOfRange` when `poles` or `value` is zero, where the formula
/// divides by zero.
pub fn convert_tach(poles: u8, edges: Edges, range: Range, value: u16) -> (r: Result<
    u64,
    Error,
>)
    ensures
        poles == 0 || value == 0 ==> r == Err::<u64, Error>(Error::SpeedOutOfRange),
        poles != 0 && value != 0 ==> r == Ok::<u64, Error>(
            tach_conversion(
                poles as int,
                edges.count() as int,
                range.multiplier() as int,
                value as int,
            ) as u64,
        ),
        poles != 0 && value != 0 ==> 0 <= tach_conversion(
            poles as int,
            edges.count() as int,
            range.multiplier() as int,
            value as int,
        ) < 0x1_0000_0000,
{
    if poles == 0 || value == 0 {
        return Err(Error::SpeedOutOfRange);
    }
    let n = edges.num_edges() as u64;
    let m = range.tach_count_multiplier() as u64;
    assert(3 <= n <= 9 && 1 <= m <= 8);
    assert((n - 1) * m <= 64) by (nonlinear_arith)
        requires
            3 <= n <= 9,
            1 <= m <= 8,
    ;
    let numerator: u64 = (n - 1) * m * TACH_FREQUENCY_HZ * 60;
    assert(poles as u64 * value as u64 <= 255 * 65535) by (nonlinear_arith)
        requires
            poles <= 255,
            value <= 65535,
    ;
    assert(poles as u64 * value as u64 >= 1) by (nonlinear_arith)
        requires
            poles >= 1,
            value >= 1,
    ;
    let denominator: u64 = poles as u64 * value as u64;
    let result = (2 * numerator + denominator) / (2 * denominator);
    assert(result <= 2 * numerator + denominator) by (nonlinear_arith)
        requires
            result == (2 * numerator + denominator) / (2 * denominator),
            denominator >= 1,
    ;
    Ok(result)
}

proof fn lemma_div_bounds(x: int, d: int)
    requires
        x >= 0,
        d > 0,
    ensures
        d * (x / d) <= x < d * (x / d) + d,
        x / d >= 0,
{
    vstd::arithmetic::div_mod::lemma_fundamental_div_mod(x, d);
    vstd::arithmetic::div_mod::lemma_mod_pos_bound(x, d);
    vstd::arithmetic::div_mod::lemma_div_pos_is_pos(x, d);
}

/// Converting a speed to a tachometer count and that count back to a speed
/// gives the speed back within one RPM, for a fixed fan and configuration,
/// whenever the speed is at most three times the count it converts to.
/// (Faster speeds convert to counts too small to resolve them: for two
/// poles, five edges and multiplier two, 50000 RPM becomes 157, and 157
/// becomes 50091 RPM.)
pub proof fn lemma_tach_conversion_round_trip(poles: int, edges: int, multiplier: int, rpm: int)
    requires
        poles > 0,
        edges >= 1,
        multiplier > 0,
        rpm > 0,
        rpm <= 3 * tach_conversion(poles, edges, multiplier, rpm),
    ensures
        tach_conversion(poles, edges, multiplier, rpm) > 0,
        rpm - 1 <= tach_conversion(
            poles,
            edges,
            multiplier,
            tach_conversion(poles, edges, multiplier, rpm),
        ) <= rpm + 1,
{
    let n = tach_numerator(edges, multiplier);
    assert(n >= 0) by (nonlinear_arith)
        requires
            n == (edges - 1) * multiplier * TACH_FREQUENCY_HZ * 60,
            edges >= 1,
            multiplier > 0,
    ;
    let p = poles;
    let v = rpm;
    assert(p * v > 0) by (nonlinear_arith)
        requires
            p > 0,
            v > 0,
    ;
    let r = tach_conversion(poles, edges, multiplier, rpm);
    lemma_div_bounds(2 * n + p * v, 2 * (p * v));
    assert(r > 0);
    assert(p * r > 0) by (nonlinear_arith)
        requires
            p > 0,
            r > 0,
    ;
    let s = tach_conversion(poles, edges, multiplier, r);
    lemma_div_bounds(2 * n + p * r, 2 * (p * r));
    assert(s <= v + 1) by (nonlinear_arith)
        requires
            p > 0,
            v > 0,
            r > 0,
            v <= 3 * r,
            2 * (p * v) * r <= 2 * n + p * v,
            2 * n + p * v < 2 * (p * v) * r + 2 * (p * v),
            2 * (p * r) * s <= 2 * n + p * r,
            2 * n + p * r < 2 * (p * r) * s + 2 * (p * r),
    ;
    assert(s >= v - 1) by (nonlinear_arith)
        requires
            p > 0,
            v > 0,
            r > 0,
            v <= 3 * r,
            2 * (p * v) * r <= 2 * n + p * v,
            2 * n + p * v < 2 * (p * v) * r + 2 * (p * v),
            2 * (p * r) * s <= 2 * n + p * r,
            2 * n + p * r < 2 * (p * r) * s + 2 * (p * r),
    ;
}

} // verus!
