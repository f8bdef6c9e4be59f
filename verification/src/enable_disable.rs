//! The binary toggle accessor: one bit of a register word, with a method
//! for each of its two states.

use vstd::prelude::*;
use crate::bitmask::BitMask;
use crate::bitmask::spec_set;
use crate::bitmask::spec_unset;

verus! {

/// A one-bit field of a register word, reached through an exclusive borrow
/// of the word for the duration of one toggle call.
pub struct EnableDisable<'a> {
    pub index: u16,
    pub bitmask: BitMask<'a>,
}

impl<'a> EnableDisable<'a> {
    pub fn new(index: u16, data: &'a mut u16) -> (r: Self)
        ensures
            r.index == index,
            mut_ref_current(r.bitmask.data) == *old(data),
            *final(data) == mut_ref_future(r.bitmask.data),
    {
        let bitmask = BitMask::new(data);

        EnableDisable { index, bitmask }
    }

    /// Set the field's bit to 1.
    pub fn enable(&mut self)
        requires
            old(self).index < 16,
        ensures
            final(self).index == old(self).index,
            mut_ref_current(final(self).bitmask.data)
                == spec_set(mut_ref_current(old(self).bitmask.data), old(self).index),
            mut_ref_future(final(self).bitmask.data) == mut_ref_future(old(self).bitmask.data),
    {
        self.bitmask.set(self.index);
    }

    /// Clear the field's bit to 0.
    pub fn disable(&mut self)
        requires
            old(self).index < 16,
        ensures
            final(self).index == old(self).index,
            mut_ref_current(final(self).bitmask.data)
                == spec_unset(mut_ref_current(old(self).bitmask.data), old(self).index),
            mut_ref_future(final(self).bitmask.data) == mut_ref_future(old(self).bitmask.data),
    {
        self.bitmask.unset(self.index);
    }
}

} // verus!
