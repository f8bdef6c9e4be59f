//! Configuration for the two line-input registers: input volume with its
//! gain quantizer, input mute, and the both-channels load flag.

use vstd::prelude::*;
use crate::bitmask::BitMask;
use crate::bitmask::spec_apply;
use crate::enable_disable::EnableDisable;

verus! {

/// A requested half-dB step count rounded to the nearest multiple of 3,
/// that is, to the nearest 1.5 dB hardware step.  A remainder of 1 rounds
/// down, a remainder of 2 rounds up.
pub open spec fn spec_round_to_step(half_dbs: int) -> int {
    if half_dbs % 3 == 0 {
        half_dbs
    } else if half_dbs % 3 == 1 {
        half_dbs - 1
    } else {
        half_dbs + 1
    }
}

/// True when a half-dB step count lands exactly on a hardware gain step:
/// the device covers -34.5 dB to +12 dB in 1.5 dB increments.
pub open spec fn spec_representable(half_dbs: int) -> bool {
    -69 <= half_dbs <= 24 && half_dbs % 3 == 0
}

/// The 5-bit code the gain field stores for an exact half-dB step count:
/// an offset from the bottom of the range, counted in 1.5 dB steps.
pub open spec fn spec_gain_code(half_dbs: int) -> int {
    (half_dbs + 69) / 3
}

/// Every integer dB request from -35 up to 12 rounds to a representable
/// hardware step: the quantizer accepts the whole range, and only requests
/// outside it are turned away.
pub proof fn lemma_gain_range_accepted(db_gain: int)
    requires
        -35 <= db_gain <= 12,
    ensures
        spec_representable(spec_round_to_step(2 * db_gain)),
{
}

/// The line-input volume field: 5 bits holding a quantized gain code.
pub struct Volume<'a> {
    pub index: u16,
    pub bitmask: BitMask<'a>,
}

impl<'a> Volume<'a> {
    /// Line input volume in half-dB steps.
    ///
    /// The `half_dBs` parameter value must be twice the desired dB gain; for
    /// example:
    ///    * for a 1.5 dB gain, call `half_dB_steps(3)`
    ///    * for 9 dB attenuation, call `half_dB_steps(-18)`
    ///
    /// The count must land exactly on one of the hardware's 1.5 dB steps,
    /// from -34.5 dB up to +12 dB.
    #[allow(non_snake_case)]
    pub fn half_dB_steps(&mut self, half_dBs: i16)
        requires
            old(self).index + 5 <= 16,
            spec_representable(half_dBs as int),
        ensures
            final(self).index == old(self).index,
            mut_ref_current(final(self).bitmask.data) == spec_apply(
                mut_ref_current(old(self).bitmask.data),
                old(self).index,
                5,
                spec_gain_code(half_dBs as int) as u16,
            ),
            mut_ref_future(final(self).bitmask.data) == mut_ref_future(old(self).bitmask.data),
    {
        let offset: i16 = half_dBs + 69;
        let code: u16 = (offset / 3) as u16;
        self.bitmask.apply(self.index, 5, code);
    }

    /// Set line input volume to the nearest representable value.
    ///
    /// The device only supports 1.5 dB steps, so the result may be rounded
    /// by up to half a dB.  For example:
    ///    * 0 dB, 3 dB, and every other multiple of 1.5 dB stay exact.
    ///    * 1 dB is rounded up to 1.5 dB.
    ///    * 2 dB is rounded down to 1.5 dB.
    ///
    /// `dB_gain` must lie between -35 and 12, covering the hardware's range
    /// of -34.5 dB to +12 dB.
    #[allow(non_snake_case)]
    pub fn nearest_dB(&mut self, dB_gain: i16)
        requires
            old(self).index + 5 <= 16,
            -35 <= dB_gain <= 12,
        ensures
            final(self).index == old(self).index,
            mut_ref_current(final(self).bitmask.data) == spec_apply(
                mut_ref_current(old(self).bitmask.data),
                old(self).index,
                5,
                spec_gain_code(spec_round_to_step(2 * dB_gain as int)) as u16,
            ),
            mut_ref_future(final(self).bitmask.data) == mut_ref_future(old(self).bitmask.data),
    {
        let half_dBs: i16 = dB_gain * 2;
        let remainder: i16 = (half_dBs + 72) % 3;
        let rounded_to_multiple_of_three: i16 = if remainder == 0 {
            half_dBs
        } else if remainder == 1 {
            half_dBs - 1
        } else {
            half_dBs + 1
        };
        self.half_dB_steps(rounded_to_multiple_of_three);
    }
}

/// Builder for a line-input control register (left at address 0, right at
/// address 1): a 16-bit word, all fields initially 0.
pub struct LineIn {
    pub(crate) data: u16,
}

impl LineIn {
    /// The register word as accumulated so far.
    pub closed spec fn word(&self) -> u16 {
        self.data
    }

    pub fn new() -> (r: Self)
        ensures
            r.word() == 0,
    {
        LineIn { data: 0 }
    }

    /// Read the finished register word out of the builder.
    pub(crate) fn finish(&self) -> (v: u16)
        ensures
            v == self.word(),
    {
        self.data
    }

    /// Line input volume
    pub fn volume<'a>(&'a mut self) -> (r: Volume<'a>)
        ensures
            r.index == 0,
            mut_ref_current(r.bitmask.data) == old(self).word(),
            final(self).word() == mut_ref_future(r.bitmask.data),
    {
        Volume { index: 0, bitmask: BitMask::new(&mut self.data) }
    }

    /// Line input mute to ADC
    pub fn mute<'a>(&'a mut self) -> (r: EnableDisable<'a>)
        ensures
            r.index == 7,
            mut_ref_current(r.bitmask.data) == old(self).word(),
            final(self).word() == mut_ref_future(r.bitmask.data),
    {
        EnableDisable::new(7, &mut self.data)
    }

    /// Left to right channel line input volume and mute data load.
    /// When enabled, left and right channels take the same volume and mute
    /// values.
    pub fn both<'a>(&'a mut self) -> (r: EnableDisable<'a>)
        ensures
            r.index == 8,
            mut_ref_current(r.bitmask.data) == old(self).word(),
            final(self).word() == mut_ref_future(r.bitmask.data),
    {
        EnableDisable::new(8, &mut self.data)
    }
}

} // verus!
