//! Configuration for the analog audio path: microphone boost and mute,
//! input selection, bypass, DAC selection and sidetone.

use vstd::prelude::*;
use crate::bitmask::BitMask;
use crate::bitmask::spec_set;
use crate::bitmask::spec_unset;
use crate::enable_disable::EnableDisable;

verus! {

/// Selects the ADC's input source: microphone (bit 1) or line input (bit 0).
pub struct InputSelect<'a> {
    pub index: u16,
    pub bitmask: BitMask<'a>,
}

impl<'a> InputSelect<'a> {
    pub fn new(index: u16, data: &'a mut u16) -> (r: Self)
        ensures
            r.index == index,
            mut_ref_current(r.bitmask.data) == *old(data),
            *final(data) == mut_ref_future(r.bitmask.data),
    {
        let bitmask = BitMask::new(data);

        InputSelect { index, bitmask }
    }

    /// Route the microphone to the ADC.
    pub fn mic(&mut self)
        requires
            old(self).index < 16,
        ensures
            final(self).index == old(self).index,
            mut_ref_current(final(self).bitmask.data)
                == spec_set(mut_ref_current(old(self).bitmask.data), old(self).index),
            mut_ref_future(final(self).bitmask.data) == mut_ref_future(old(self).bitmask.data),
    {
        self.bitmask.set(self.index);
    }

    /// Route the line input to the ADC.
    pub fn line_input(&mut self)
        requires
            old(self).index < 16,
        ensures
            final(self).index == old(self).index,
            mut_ref_current(final(self).bitmask.data)
                == spec_unset(mut_ref_current(old(self).bitmask.data), old(self).index),
            mut_ref_future(final(self).bitmask.data) == mut_ref_future(old(self).bitmask.data),
    {
        self.bitmask.unset(self.index);
    }
}

/// Switches the DAC into (bit 1) or out of (bit 0) the output path.
pub struct DacSelect<'a> {
    pub index: u16,
    pub bitmask: BitMask<'a>,
}

impl<'a> DacSelect<'a> {
    pub fn new(index: u16, data: &'a mut u16) -> (r: Self)
        ensures
            r.index == index,
            mut_ref_current(r.bitmask.data) == *old(data),
            *final(data) == mut_ref_future(r.bitmask.data),
    {
        let bitmask = BitMask::new(data);

        DacSelect { index, bitmask }
    }

    /// Select the DAC.
    pub fn select(&mut self)
        requires
            old(self).index < 16,
        ensures
            final(self).index == old(self).index,
            mut_ref_current(final(self).bitmask.data)
                == spec_set(mut_ref_current(old(self).bitmask.data), old(self).index),
            mut_ref_future(final(self).bitmask.data) == mut_ref_future(old(self).bitmask.data),
    {
        self.bitmask.set(self.index);
    }

    /// Deselect the DAC.
    pub fn deselect(&mut self)
        requires
            old(self).index < 16,
        ensures
            final(self).index == old(self).index,
            mut_ref_current(final(self).bitmask.data)
                == spec_unset(mut_ref_current(old(self).bitmask.data), old(self).index),
            mut_ref_future(final(self).bitmask.data) == mut_ref_future(old(self).bitmask.data),
    {
        self.bitmask.unset(self.index);
    }
}

/// Builder for the analog audio path control register (address 4):
/// a 16-bit word, all fields initially 0.
pub struct AnalogAudioPath {
    pub(crate) data: u16,
}

impl AnalogAudioPath {
    /// The register word as accumulated so far.
    pub closed spec fn word(&self) -> u16 {
        self.data
    }

    pub fn new() -> (r: Self)
        ensures
            r.word() == 0,
    {
        AnalogAudioPath { data: 0 }
    }

    /// Read the finished register word out of the builder.
    pub(crate) fn finish(&self) -> (v: u16)
        ensures
            v == self.word(),
    {
        self.data
    }

    /// Microphone input level boost
    pub fn mic_boost<'a>(&'a mut self) -> (r: EnableDisable<'a>)
        ensures
            r.index == 0,
            mut_ref_current(r.bitmask.data) == old(self).word(),
            final(self).word() == mut_ref_future(r.bitmask.data),
    {
        EnableDisable::new(0, &mut self.data)
    }

    /// Mic input mute to ADC
    pub fn mute_mic<'a>(&'a mut self) -> (r: EnableDisable<'a>)
        ensures
            r.index == 1,
            mut_ref_current(r.bitmask.data) == old(self).word(),
            final(self).word() == mut_ref_future(r.bitmask.data),
    {
        EnableDisable::new(1, &mut self.data)
    }

    /// Microphone/line input select to ADC
    pub fn input_select<'a>(&'a mut self) -> (r: InputSelect<'a>)
        ensures
            r.index == 2,
            mut_ref_current(r.bitmask.data) == old(self).word(),
            final(self).word() == mut_ref_future(r.bitmask.data),
    {
        InputSelect::new(2, &mut self.data)
    }

    /// Bypass switch
    pub fn bypass<'a>(&'a mut self) -> (r: EnableDisable<'a>)
        ensures
            r.index == 3,
            mut_ref_current(r.bitmask.data) == old(self).word(),
            final(self).word() == mut_ref_future(r.bitmask.data),
    {
        EnableDisable::new(3, &mut self.data)
    }

    /// DAC select
    pub fn dac_select<'a>(&'a mut self) -> (r: DacSelect<'a>)
        ensures
            r.index == 4,
            mut_ref_current(r.bitmask.data) == old(self).word(),
            final(self).word() == mut_ref_future(r.bitmask.data),
    {
        DacSelect::new(4, &mut self.data)
    }

    /// Side tone switch
    pub fn sidetone<'a>(&'a mut self) -> (r: EnableDisable<'a>)
        ensures
            r.index == 5,
            mut_ref_current(r.bitmask.data) == old(self).word(),
            final(self).word() == mut_ref_future(r.bitmask.data),
    {
        EnableDisable::new(5, &mut self.data)
    }

    /// Side tone attenuation.
    ///
    /// The field is not wired up: the call leaves the register word exactly
    /// as it was.
    pub fn sidetone_attenuation(&mut self)
        ensures
            final(self).word() == old(self).word(),
    {
        self.data = self.data | 0b0_0000_0000;
        proof {
            let w = old(self).word();
            assert(w | 0b0_0000_0000u16 == w) by (bit_vector);
        }
    }
}

} // verus!
