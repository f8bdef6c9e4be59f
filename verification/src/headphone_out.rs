//! Configuration for the two headphone-output registers: zero cross detect
//! and the both-channels load flag.  The volume field is not implemented by
//! this layer and writing it leaves the word unchanged.

use vstd::prelude::*;
use crate::enable_disable::EnableDisable;

verus! {

/// Builder for a headphone-output control register (left at address 2,
/// right at address 3): a 16-bit word, all fields initially 0.
pub struct HeadphoneOut {
    pub(crate) data: u16,
}

impl HeadphoneOut {
    /// The register word as accumulated so far.
    pub closed spec fn word(&self) -> u16 {
        self.data
    }

    pub fn new() -> (r: Self)
        ensures
            r.word() == 0,
    {
        HeadphoneOut { data: 0 }
    }

    /// Read the finished register word out of the builder.
    pub(crate) fn finish(&self) -> (v: u16)
        ensures
            v == self.word(),
    {
        self.data
    }

    /// Headphone output volume control.
    ///
    /// The field is not wired up: the call leaves the register word exactly
    /// as it was, whatever volume is asked for.
    pub fn volume(&mut self, volume: u16)
        ensures
            final(self).word() == old(self).word(),
    {
        let _ = volume;
        self.data = self.data | 0b0_0000_0000;
        proof {
            let w = old(self).word();
            assert(w | 0b0_0000_0000u16 == w) by (bit_vector);
        }
    }

    /// Zero cross detect
    pub fn zero_cross_detect<'a>(&'a mut self) -> (r: EnableDisable<'a>)
        ensures
            r.index == 7,
            mut_ref_current(r.bitmask.data) == old(self).word(),
            final(self).word() == mut_ref_future(r.bitmask.data),
    {
        EnableDisable::new(7, &mut self.data)
    }

    /// Left to right channel headphone volume, mute, and zero cross data
    /// load.  When enabled, left and right channels take the same values.
    pub fn both<'a>(&'a mut self) -> (r: EnableDisable<'a>)
        ensures
            r.index == 8,
            mut_ref_current(r.bitmask.data) == old(self).word(),
            final(self).word() == mut_ref_future(r.bitmask.data),
    {
        EnableDisable::new(8, &mut self.data)
    }
}

} // verus!
