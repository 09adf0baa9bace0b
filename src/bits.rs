//! Sub-byte fields of a register value: extraction and replacement by
//! mask and shift, and the laws that make a register a set of independent
//! fields.
use vstd::prelude::*;

verus! {

/// A byte whose `width` low bits are set (`1 <= width <= 8`).
pub open spec fn low_mask(width: u8) -> u8 {
    ((1u16 << width) - 1u16) as u8
}

/// The field of `width` bits that starts at bit `lsb` of `raw`.
pub open spec fn field_of(raw: u8, lsb: u8, width: u8) -> u8 {
    (raw >> lsb) & low_mask(width)
}

/// `raw` with the field of `width` bits at `lsb` replaced by the low bits
/// of `value`; every other bit is kept.
pub open spec fn with_field(raw: u8, lsb: u8, width: u8, value: u8) -> u8 {
    (raw & !(low_mask(width) << lsb)) | ((value & low_mask(width)) << lsb)
}

/// Whether bit `n` of `raw` is set.
pub open spec fn bit_of(raw: u8, n: u8) -> bool {
    field_of(raw, n, 1) == 1
}

/// `raw` with bit `n` set to `on`.
pub open spec fn with_bit(raw: u8, n: u8, on: bool) -> u8 {
    with_field(raw, n, 1, if on { 1u8 } else { 0u8 })
}

/// A field position that lies inside one byte.
pub open spec fn field_fits(lsb: u8, width: u8) -> bool {
    1 <= width && lsb + width <= 8
}

/// Two fields that share no bit.
pub open spec fn fields_disjoint(lsb1: u8, width1: u8, lsb2: u8, width2: u8) -> bool {
    lsb1 + width1 <= lsb2 || lsb2 + width2 <= lsb1
}

/// The masks of the field widths that the registers use.
pub proof fn lemma_low_mask_values()
    ensures
        low_mask(1) == 1,
        low_mask(2) == 3,
        low_mask(3) == 7,
        low_mask(5) == 31,
        low_mask(8) == 255,
{
    assert(low_mask(1) == 1 && low_mask(2) == 3 && low_mask(3) == 7 && low_mask(5) == 31
        && low_mask(8) == 255) by (bit_vector);
}

/// Reading back a field that was just written gives the written value,
/// cut to the field's width; a value that fits is kept whole.
pub proof fn lemma_field_of_with_field(raw: u8, lsb: u8, width: u8, value: u8)
    requires
        field_fits(lsb, width),
    ensures
        field_of(with_field(raw, lsb, width, value), lsb, width) == value & low_mask(width),
        value <= low_mask(width) ==> field_of(with_field(raw, lsb, width, value), lsb, width)
            == value,
        low_mask(1) == 1,
        low_mask(2) == 3,
        low_mask(3) == 7,
        low_mask(5) == 31,
        low_mask(8) == 255,
{
    assert(field_of(with_field(raw, lsb, width, value), lsb, width) == value & low_mask(width))
        by (bit_vector)
        requires
            1 <= width && lsb + width <= 8,
    ;
    assert(value <= low_mask(width) ==> value & low_mask(width) == value) by (bit_vector)
        requires
            1 <= width && width <= 8,
    ;
    lemma_low_mask_values();
}

/// Writing one field leaves every field that shares no bit with it unchanged.
pub proof fn lemma_with_field_disjoint(
    raw: u8,
    lsb: u8,
    width: u8,
    value: u8,
    other_lsb: u8,
    other_width: u8,
)
    requires
        field_fits(lsb, width),
        field_fits(other_lsb, other_width),
        fields_disjoint(lsb, width, other_lsb, other_width),
    ensures
        field_of(with_field(raw, lsb, width, value), other_lsb, other_width) == field_of(
            raw,
            other_lsb,
            other_width,
        ),
{
    assert(field_of(with_field(raw, lsb, width, value), other_lsb, other_width) == field_of(
        raw,
        other_lsb,
        other_width,
    )) by (bit_vector)
        requires
            1 <= width && lsb + width <= 8,
            1 <= other_width && other_lsb + other_width <= 8,
            lsb + width <= other_lsb || other_lsb + other_width <= lsb,
    ;
}

/// Writing back the value a field already holds changes nothing.
pub proof fn lemma_with_field_same(raw: u8, lsb: u8, width: u8)
    requires
        field_fits(lsb, width),
    ensures
        with_field(raw, lsb, width, field_of(raw, lsb, width)) == raw,
{
    assert(with_field(raw, lsb, width, field_of(raw, lsb, width)) == raw) by (bit_vector)
        requires
            1 <= width && lsb + width <= 8,
    ;
}

/// A byte whose `width` low bits are set.
pub fn mask_of_width(width: u8) -> (r: u8)
    requires
        1 <= width <= 8,
    ensures
        r == low_mask(width),
{
    let shifted: u16 = 1u16 << width;
    assert(1 <= shifted <= 256) by (bit_vector)
        requires
            1 <= width && width <= 8,
            shifted == 1u16 << width,
    ;
    (shifted - 1) as u8
}

/// The field of `width` bits at `lsb` of `raw`.
pub fn field(raw: u8, lsb: u8, width: u8) -> (r: u8)
    requires
        field_fits(lsb, width),
    ensures
        r == field_of(raw, lsb, width),
        r <= low_mask(width),
{
    let mask = mask_of_width(width);
    assert(((raw >> lsb) & mask) <= mask) by (bit_vector);
    (raw >> lsb) & mask
}

/// `raw` with the field of `width` bits at `lsb` replaced by `value`.
pub fn set_field(raw: u8, lsb: u8, width: u8, value: u8) -> (r: u8)
    requires
        field_fits(lsb, width),
    ensures
        r == with_field(raw, lsb, width, value),
{
    let mask = mask_of_width(width);
    (raw & !(mask << lsb)) | ((value & mask) << lsb)
}

/// Whether bit `n` of `raw` is set.
pub fn bit(raw: u8, n: u8) -> (r: bool)
    requires
        n < 8,
    ensures
        r == bit_of(raw, n),
{
    field(raw, n, 1) == 1
}

/// `raw` with bit `n` set to `on`.
pub fn set_bit(raw: u8, n: u8, on: bool) -> (r: u8)
    requires
        n < 8,
    ensures
        r == with_bit(raw, n, on),
{
    set_field(raw, n, 1, if on { 1u8 } else { 0u8 })
}

} // verus!
