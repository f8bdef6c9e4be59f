//! Configuration for the digital audio path: ADC high pass filter,
//! de-emphasis, DAC soft mute and DC offset storage.

use vstd::prelude::*;
use crate::bitmask::BitMask;
use crate::bitmask::spec_set;
use crate::bitmask::spec_unset;
use crate::bitmask::spec_apply;
use crate::enable_disable::EnableDisable;

verus! {

/// The two-bit de-emphasis selector: off (0b00), 32 kHz (0b01),
/// 44.1 kHz (0b10) or 48 kHz (0b11).
pub struct Deemphasis<'a> {
    pub index: u16,
    pub bitmask: BitMask<'a>,
}

impl<'a> Deemphasis<'a> {
    pub fn new(index: u16, data: &'a mut u16) -> (r: Self)
        ensures
            r.index == index,
            mut_ref_current(r.bitmask.data) == *old(data),
            *final(data) == mut_ref_future(r.bitmask.data),
    {
        let bitmask = BitMask::new(data);

        Deemphasis { index, bitmask }
    }

    /// De-emphasis for a 48 kHz sample rate.
    pub fn frequency_48(&mut self)
        requires
            old(self).index + 2 <= 16,
        ensures
            final(self).index == old(self).index,
            mut_ref_current(final(self).bitmask.data)
                == spec_apply(mut_ref_current(old(self).bitmask.data), old(self).index, 2, 0b11),
            mut_ref_future(final(self).bitmask.data) == mut_ref_future(old(self).bitmask.data),
    {
        self.bitmask.apply(self.index, 2, 0b11)
    }

    /// De-emphasis for a 44.1 kHz sample rate.
    pub fn frequency_441(&mut self)
        requires
            old(self).index + 2 <= 16,
        ensures
            final(self).index == old(self).index,
            mut_ref_current(final(self).bitmask.data)
                == spec_apply(mut_ref_current(old(self).bitmask.data), old(self).index, 2, 0b10),
            mut_ref_future(final(self).bitmask.data) == mut_ref_future(old(self).bitmask.data),
    {
        self.bitmask.apply(self.index, 2, 0b10)
    }

    /// De-emphasis for a 32 kHz sample rate.
    pub fn frequency_32(&mut self)
        requires
            old(self).index + 2 <= 16,
        ensures
            final(self).index == old(self).index,
            mut_ref_current(final(self).bitmask.data)
                == spec_apply(mut_ref_current(old(self).bitmask.data), old(self).index, 2, 0b01),
            mut_ref_future(final(self).bitmask.data) == mut_ref_future(old(self).bitmask.data),
    {
        self.bitmask.apply(self.index, 2, 0b01)
    }

    /// De-emphasis off.
    pub fn disable(&mut self)
        requires
            old(self).index + 2 <= 16,
        ensures
            final(self).index == old(self).index,
            mut_ref_current(final(self).bitmask.data)
                == spec_apply(mut_ref_current(old(self).bitmask.data), old(self).index, 2, 0b00),
            mut_ref_future(final(self).bitmask.data) == mut_ref_future(old(self).bitmask.data),
    {
        self.bitmask.apply(self.index, 2, 0b00)
    }
}

/// Whether the DC offset is stored (bit 1) or cleared (bit 0) when the high
/// pass filter is disabled.
pub struct HpfDc<'a> {
    pub index: u16,
    pub bitmask: BitMask<'a>,
}

impl<'a> HpfDc<'a> {
    pub fn new(index: u16, data: &'a mut u16) -> (r: Self)
        ensures
            r.index == index,
            mut_ref_current(r.bitmask.data) == *old(data),
            *final(data) == mut_ref_future(r.bitmask.data),
    {
        let bitmask = BitMask::new(data);

        HpfDc { index, bitmask }
    }

    /// Store the DC offset.
    pub fn store(&mut self)
        requires
            old(self).index < 16,
        ensures
            final(self).index == old(self).index,
            mut_ref_current(final(self).bitmask.data)
                == spec_set(mut_ref_current(old(self).bitmask.data), old(self).index),
            mut_ref_future(final(self).bitmask.data) == mut_ref_future(old(self).bitmask.data),
    {
        self.bitmask.set(self.index);
    }

    /// Clear the DC offset.
    pub fn clear(&mut self)
        requires
            old(self).index < 16,
        ensures
            final(self).index == old(self).index,
            mut_ref_current(final(self).bitmask.data)
                == spec_unset(mut_ref_current(old(self).bitmask.data), old(self).index),
            mut_ref_future(final(self).bitmask.data) == mut_ref_future(old(self).bitmask.data),
    {
        self.bitmask.unset(self.index);
    }
}

/// Builder for the digital audio path control register (address 5):
/// a 16-bit word, all fields initially 0.
pub struct DigitalAudioPath {
    pub(crate) data: u16,
}

impl DigitalAudioPath {
    /// The register word as accumulated so far.
    pub closed spec fn word(&self) -> u16 {
        self.data
    }

    pub fn new() -> (r: Self)
        ensures
            r.word() == 0,
    {
        DigitalAudioPath { data: 0 }
    }

    /// Read the finished register word out of the builder.
    pub(crate) fn finish(&self) -> (v: u16)
        ensures
            v == self.word(),
    {
        self.data
    }

    /// Disable ADC high pass filter. Enabling this disables the high pass
    /// filter.
    pub fn adc_hpf_disable<'a>(&'a mut self) -> (r: EnableDisable<'a>)
        ensures
            r.index == 0,
            mut_ref_current(r.bitmask.data) == old(self).word(),
            final(self).word() == mut_ref_future(r.bitmask.data),
    {
        EnableDisable::new(0, &mut self.data)
    }

    /// De-emphasis control
    pub fn deemphasis<'a>(&'a mut self) -> (r: Deemphasis<'a>)
        ensures
            r.index == 1,
            mut_ref_current(r.bitmask.data) == old(self).word(),
            final(self).word() == mut_ref_future(r.bitmask.data),
    {
        Deemphasis::new(1, &mut self.data)
    }

    /// DAC soft mute control
    pub fn dac_mute<'a>(&'a mut self) -> (r: EnableDisable<'a>)
        ensures
            r.index == 3,
            mut_ref_current(r.bitmask.data) == old(self).word(),
            final(self).word() == mut_ref_future(r.bitmask.data),
    {
        EnableDisable::new(3, &mut self.data)
    }

    /// Store DC offset when high pass filter disabled
    pub fn hpor<'a>(&'a mut self) -> (r: HpfDc<'a>)
        ensures
            r.index == 4,
            mut_ref_current(r.bitmask.data) == old(self).word(),
            final(self).word() == mut_ref_future(r.bitmask.data),
    {
        HpfDc::new(4, &mut self.data)
    }
}

} // verus!
