//! Bit fields inside a 16-bit register word.
//!
//! A field is described by the position of its lowest bit (`lsb`) and by a
//! mask of its width, aligned at bit 0 (`0b11` for a two-bit field).
use vstd::prelude::*;

verus! {

/// A mask describes a field that lies inside the 16-bit word when shifting it
/// up to `lsb` and back down loses no bit.
pub open spec fn field_fits(lsb: u16, mask: u16) -> bool {
    &&& lsb < 16
    &&& (mask << lsb) >> lsb == mask
}

/// Two fields are disjoint when their shifted masks share no bit.
pub open spec fn fields_disjoint(lsb1: u16, mask1: u16, lsb2: u16, mask2: u16) -> bool {
    (mask1 << lsb1) & (mask2 << lsb2) == 0
}

/// The value of the field at `lsb` of width `mask` in `word`.
pub open spec fn field(word: u16, lsb: u16, mask: u16) -> u16 {
    (word >> lsb) & mask
}

/// `word` with the field at `lsb` of width `mask` replaced by the low bits of `value`.
pub open spec fn with_field(word: u16, lsb: u16, mask: u16, value: u16) -> u16 {
    (word & !(mask << lsb)) | ((value & mask) << lsb)
}

/// Reads the bits `lsb ..= lsb + width - 1` of `word`.
pub fn get_field(word: u16, lsb: u16, mask: u16) -> (r: u16)
    requires
        lsb < 16,
    ensures
        r == field(word, lsb, mask),
        r <= mask,
{
    proof {
        lemma_field_bound(word, lsb, mask);
    }
    (word >> lsb) & mask
}

/// Writes the low bits of `value` into the field at `lsb` of `word`.
pub fn set_field(word: u16, lsb: u16, mask: u16, value: u16) -> (r: u16)
    requires
        lsb < 16,
    ensures
        r == with_field(word, lsb, mask, value),
{
    (word & !(mask << lsb)) | ((value & mask) << lsb)
}

/// Reading a field just written gives back the written value, cut to the field's width.
pub proof fn lemma_field_of_with_field(word: u16, lsb: u16, mask: u16, value: u16)
    requires
        field_fits(lsb, mask),
    ensures
        field(with_field(word, lsb, mask, value), lsb, mask) == value & mask,
{
    assert((((word & !(mask << lsb)) | ((value & mask) << lsb)) >> lsb) & mask == value & mask)
        by (bit_vector)
        requires
            lsb < 16,
            (mask << lsb) >> lsb == mask,
    ;
}

/// Writing a field leaves every disjoint field as it was.
pub proof fn lemma_field_of_with_other_field(
    word: u16,
    lsb: u16,
    mask: u16,
    value: u16,
    lsb2: u16,
    mask2: u16,
)
    requires
        field_fits(lsb, mask),
        field_fits(lsb2, mask2),
        fields_disjoint(lsb, mask, lsb2, mask2),
    ensures
        field(with_field(word, lsb, mask, value), lsb2, mask2) == field(word, lsb2, mask2),
{
    assert((((word & !(mask << lsb)) | ((value & mask) << lsb)) >> lsb2) & mask2 == (word >> lsb2)
        & mask2) by (bit_vector)
        requires
            lsb < 16,
            lsb2 < 16,
            (mask << lsb) >> lsb == mask,
            (mask2 << lsb2) >> lsb2 == mask2,
            (mask << lsb) & (mask2 << lsb2) == 0,
    ;
}

/// Writing a field leaves every bit outside the field as it was.
pub proof fn lemma_with_field_frame(word: u16, lsb: u16, mask: u16, value: u16)
    requires
        field_fits(lsb, mask),
    ensures
        with_field(word, lsb, mask, value) & !(mask << lsb) == word & !(mask << lsb),
{
    assert(((word & !(mask << lsb)) | ((value & mask) << lsb)) & !(mask << lsb) == word & !(mask
        << lsb)) by (bit_vector)
        requires
            lsb < 16,
    ;
}

/// A field's value never exceeds its mask.
pub proof fn lemma_field_bound(word: u16, lsb: u16, mask: u16)
    ensures
        field(word, lsb, mask) <= mask,
{
    assert((word >> lsb) & mask <= mask) by (bit_vector);
}

/// A value that fits a mask of low ones is kept whole by the mask, and a mask
/// of one bit keeps the value's parity.
pub proof fn lemma_low_mask(value: u16, mask: u16)
    requires
        mask == 1 || mask == 3 || mask == 15 || mask == 255,
    ensures
        value <= mask ==> value & mask == value,
        mask == 1 ==> value & mask == value % 2,
{
    assert(value <= mask ==> value & mask == value) by (bit_vector)
        requires
            mask == 1 || mask == 3 || mask == 15 || mask == 255,
    ;
    assert(mask == 1 ==> value & mask == value % 2) by (bit_vector);
}

/// A second write of the same field replaces the first.
pub proof fn lemma_with_field_twice(word: u16, lsb: u16, mask: u16, a: u16, b: u16)
    requires
        lsb < 16,
    ensures
        with_field(with_field(word, lsb, mask, a), lsb, mask, b) == with_field(word, lsb, mask, b),
{
    assert((((word & !(mask << lsb)) | ((a & mask) << lsb)) & !(mask << lsb)) | ((b & mask) << lsb)
        == (word & !(mask << lsb)) | ((b & mask) << lsb)) by (bit_vector)
        requires
            lsb < 16,
    ;
}

} // verus!
