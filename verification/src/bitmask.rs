//! The bitfield primitive: set or clear one bit of a 16-bit register word,
//! or replace a whole sub-field, leaving every other bit untouched.

use vstd::prelude::*;

verus! {

/// True when bit `i` of `w` is 1.  Bit 0 is the least significant bit.
pub open spec fn spec_bit(w: u16, i: u16) -> bool {
    (w >> i) & 1 == 1
}

/// `w` with bit `i` set to 1.
pub open spec fn spec_set(w: u16, i: u16) -> u16 {
    w | (1u16 << i)
}

/// `w` with bit `i` cleared to 0.
pub open spec fn spec_unset(w: u16, i: u16) -> u16 {
    w & !(1u16 << i)
}

/// Mask with ones exactly on the field bits [index, index + length).
/// For `length == 16` the subtraction wraps to all ones, which is the
/// correct mask for a field covering the whole word.
pub open spec fn spec_field_mask(index: u16, length: u16) -> u16 {
    ((((1u16 << length) - 1) as u16) << index) as u16
}

/// `w` with the `length`-bit field at `index` replaced by the low `length`
/// bits of `value`; bits of `value` above the field width are discarded.
pub open spec fn spec_apply(w: u16, index: u16, length: u16, value: u16) -> u16 {
    (w & !spec_field_mask(index, length)) | (((value << index) as u16) & spec_field_mask(index, length))
}

/// Replacing a field never changes a bit outside [index, index + length).
pub proof fn lemma_apply_frame(w: u16, index: u16, length: u16, value: u16, j: u16)
    requires
        index + length <= 16,
        j < 16,
        j < index || index + length <= j,
    ensures
        spec_bit(spec_apply(w, index, length, value), j) == spec_bit(w, j),
{
    assert(spec_bit(spec_apply(w, index, length, value), j) == spec_bit(w, j)) by (bit_vector)
        requires
            index + length <= 16,
            j < 16,
            j < index || index + length <= j,
    ;
}

/// Inside [index, index + length), the replaced field holds the low bits of
/// `value`: bit `index + k` of the result is bit `k` of `value`.
pub proof fn lemma_apply_field(w: u16, index: u16, length: u16, value: u16, j: u16)
    requires
        index + length <= 16,
        index <= j < index + length,
    ensures
        spec_bit(spec_apply(w, index, length, value), j) == spec_bit(value, (j - index) as u16),
{
    assert(spec_bit(spec_apply(w, index, length, value), j) == spec_bit(value, (j - index) as u16))
        by (bit_vector)
        requires
            index + length <= 16,
            index <= j < index + length,
    ;
}

/// Setting a bit turns exactly that bit on; clearing turns exactly it off;
/// every other bit keeps its value.
pub proof fn lemma_set_unset_bits(w: u16, i: u16, j: u16)
    requires
        i < 16,
        j < 16,
    ensures
        spec_bit(spec_set(w, i), j) == (i == j || spec_bit(w, j)),
        spec_bit(spec_unset(w, i), j) == (i != j && spec_bit(w, j)),
{
    assert(spec_bit(spec_set(w, i), j) == (i == j || spec_bit(w, j))) by (bit_vector)
        requires
            i < 16,
            j < 16,
    ;
    assert(spec_bit(spec_unset(w, i), j) == (i != j && spec_bit(w, j))) by (bit_vector)
        requires
            i < 16,
            j < 16,
    ;
}

/// `set` and `unset` are idempotent: writing the same bit twice leaves the
/// word as after the first write.
pub proof fn lemma_set_unset_idempotent(w: u16, i: u16)
    requires
        i < 16,
    ensures
        spec_set(spec_set(w, i), i) == spec_set(w, i),
        spec_unset(spec_unset(w, i), i) == spec_unset(w, i),
{
    assert(spec_set(spec_set(w, i), i) == spec_set(w, i)) by (bit_vector);
    assert(spec_unset(spec_unset(w, i), i) == spec_unset(w, i)) by (bit_vector);
}

/// `set` and `unset` are mutually inverse: one undoes the other, and when
/// the bit already held the opposite value, the untouched word comes back.
pub proof fn lemma_set_unset_inverse(w: u16, i: u16)
    requires
        i < 16,
    ensures
        spec_unset(spec_set(w, i), i) == spec_unset(w, i),
        spec_set(spec_unset(w, i), i) == spec_set(w, i),
        !spec_bit(w, i) ==> spec_unset(spec_set(w, i), i) == w,
        spec_bit(w, i) ==> spec_set(spec_unset(w, i), i) == w,
{
    assert(spec_unset(spec_set(w, i), i) == spec_unset(w, i)) by (bit_vector);
    assert(spec_set(spec_unset(w, i), i) == spec_set(w, i)) by (bit_vector);
    assert(!spec_bit(w, i) ==> spec_unset(spec_set(w, i), i) == w) by (bit_vector)
        requires
            i < 16,
    ;
    assert(spec_bit(w, i) ==> spec_set(spec_unset(w, i), i) == w) by (bit_vector)
        requires
            i < 16,
    ;
}

/// Writes bits through an exclusive borrow of a register word.  The borrow
/// lasts for one field operation; the word belongs to a register builder.
pub struct BitMask<'a> {
    pub data: &'a mut u16,
}

impl<'a> BitMask<'a> {
    pub fn new(data: &'a mut u16) -> (r: Self)
        ensures
            mut_ref_current(r.data) == *old(data),
            *final(data) == mut_ref_future(r.data),
    {
        BitMask { data }
    }

    /// Set bit `index` of the word to 1.
    pub fn set(&mut self, index: u16)
        requires
            index < 16,
        ensures
            mut_ref_current(final(self).data) == spec_set(mut_ref_current(old(self).data), index),
            mut_ref_future(final(self).data) == mut_ref_future(old(self).data),
    {
        *self.data = *self.data | (1u16 << index);
    }

    /// Clear bit `index` of the word to 0.
    pub fn unset(&mut self, index: u16)
        requires
            index < 16,
        ensures
            mut_ref_current(final(self).data) == spec_unset(mut_ref_current(old(self).data), index),
            mut_ref_future(final(self).data) == mut_ref_future(old(self).data),
    {
        *self.data = *self.data & !(1u16 << index);
    }

    /// Replace the `length`-bit field at `index` with the low `length` bits
    /// of `value`, leaving all other bits unchanged.
    pub fn apply(&mut self, index: u16, length: u16, value: u16)
        requires
            index < 16,
            index + length <= 16,
        ensures
            mut_ref_current(final(self).data)
                == spec_apply(mut_ref_current(old(self).data), index, length, value),
            mut_ref_future(final(self).data) == mut_ref_future(old(self).data),
    {
        proof {
            assert(1u32 << (length as u32) >= 1 && (1u32 << (length as u32)) <= 0x10000)
                by (bit_vector)
                requires
                    length <= 16,
            ;
        }
        let low: u32 = (1u32 << (length as u32)) - 1;
        let field: u16 = ((low << (index as u32)) & 0xFFFF) as u16;
        proof {
            assert((((((1u32 << (length as u32)) - 1) as u32) << (index as u32)) & 0xFFFF) as u16
                == spec_field_mask(index, length)) by (bit_vector)
                requires
                    index < 16,
                    length <= 16,
            ;
        }
        *self.data = *self.data & !field;
        let shifted_value: u16 = (value << index) & field;
        *self.data = *self.data | shifted_value;
    }
}

} // verus!
