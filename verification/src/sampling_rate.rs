//! The four-bit ADC/DAC sample rate field.  Each named (ADC rate, DAC
//! rate) pair selects one code from the device datasheet's table; the
//! codes are fixed constants, not derived arithmetically.

use vstd::prelude::*;
use crate::bitmask::BitMask;
use crate::bitmask::spec_apply;

verus! {

/// Sample rate choices with the ADC at 48 kHz.
pub struct Adc48<'a> {
    pub index: u16,
    pub bitmask: BitMask<'a>,
}

impl<'a> Adc48<'a> {
    pub fn new(index: u16, data: &'a mut u16) -> (r: Self)
        ensures
            r.index == index,
            mut_ref_current(r.bitmask.data) == *old(data),
            *final(data) == mut_ref_future(r.bitmask.data),
    {
        let bitmask = BitMask::new(data);
        Adc48 { index, bitmask }
    }

    /// ADC 48 kHz, DAC 48 kHz.
    pub fn dac_48(&mut self)
        requires
            old(self).index + 4 <= 16,
        ensures
            final(self).index == old(self).index,
            mut_ref_current(final(self).bitmask.data)
                == spec_apply(mut_ref_current(old(self).bitmask.data), old(self).index, 4, 0b0000),
            mut_ref_future(final(self).bitmask.data) == mut_ref_future(old(self).bitmask.data),
    {
        self.bitmask.apply(self.index, 4, 0b0000);
    }

    /// ADC 48 kHz, DAC 8 kHz.
    pub fn dac_8(&mut self)
        requires
            old(self).index + 4 <= 16,
        ensures
            final(self).index == old(self).index,
            mut_ref_current(final(self).bitmask.data)
                == spec_apply(mut_ref_current(old(self).bitmask.data), old(self).index, 4, 0b0001),
            mut_ref_future(final(self).bitmask.data) == mut_ref_future(old(self).bitmask.data),
    {
        self.bitmask.apply(self.index, 4, 0b0001);
    }
}

/// Sample rate choices with the ADC at 8 kHz.
pub struct Adc8<'a> {
    pub index: u16,
    pub bitmask: BitMask<'a>,
}

impl<'a> Adc8<'a> {
    pub fn new(index: u16, data: &'a mut u16) -> (r: Self)
        ensures
            r.index == index,
            mut_ref_current(r.bitmask.data) == *old(data),
            *final(data) == mut_ref_future(r.bitmask.data),
    {
        let bitmask = BitMask::new(data);
        Adc8 { index, bitmask }
    }

    /// ADC 8 kHz, DAC 48 kHz.
    pub fn dac_48(&mut self)
        requires
            old(self).index + 4 <= 16,
        ensures
            final(self).index == old(self).index,
            mut_ref_current(final(self).bitmask.data)
                == spec_apply(mut_ref_current(old(self).bitmask.data), old(self).index, 4, 0b0010),
            mut_ref_future(final(self).bitmask.data) == mut_ref_future(old(self).bitmask.data),
    {
        self.bitmask.apply(self.index, 4, 0b0010);
    }

    /// ADC 8 kHz, DAC 8 kHz.
    pub fn dac_8(&mut self)
        requires
            old(self).index + 4 <= 16,
        ensures
            final(self).index == old(self).index,
            mut_ref_current(final(self).bitmask.data)
                == spec_apply(mut_ref_current(old(self).bitmask.data), old(self).index, 4, 0b0011),
            mut_ref_future(final(self).bitmask.data) == mut_ref_future(old(self).bitmask.data),
    {
        self.bitmask.apply(self.index, 4, 0b0011);
    }
}

/// Sample rate choices with the ADC at 32 kHz.
pub struct Adc32<'a> {
    pub index: u16,
    pub bitmask: BitMask<'a>,
}

impl<'a> Adc32<'a> {
    pub fn new(index: u16, data: &'a mut u16) -> (r: Self)
        ensures
            r.index == index,
            mut_ref_current(r.bitmask.data) == *old(data),
            *final(data) == mut_ref_future(r.bitmask.data),
    {
        let bitmask = BitMask::new(data);
        Adc32 { index, bitmask }
    }

    /// ADC 32 kHz, DAC 32 kHz.
    pub fn dac_32(&mut self)
        requires
            old(self).index + 4 <= 16,
        ensures
            final(self).index == old(self).index,
            mut_ref_current(final(self).bitmask.data)
                == spec_apply(mut_ref_current(old(self).bitmask.data), old(self).index, 4, 0b0110),
            mut_ref_future(final(self).bitmask.data) == mut_ref_future(old(self).bitmask.data),
    {
        self.bitmask.apply(self.index, 4, 0b0110);
    }
}

/// Sample rate choices with the ADC at 96 kHz.
pub struct Adc96<'a> {
    pub index: u16,
    pub bitmask: BitMask<'a>,
}

impl<'a> Adc96<'a> {
    pub fn new(index: u16, data: &'a mut u16) -> (r: Self)
        ensures
            r.index == index,
            mut_ref_current(r.bitmask.data) == *old(data),
            *final(data) == mut_ref_future(r.bitmask.data),
    {
        let bitmask = BitMask::new(data);
        Adc96 { index, bitmask }
    }

    /// ADC 96 kHz, DAC 96 kHz.
    pub fn dac_96(&mut self)
        requires
            old(self).index + 4 <= 16,
        ensures
            final(self).index == old(self).index,
            mut_ref_current(final(self).bitmask.data)
                == spec_apply(mut_ref_current(old(self).bitmask.data), old(self).index, 4, 0b0111),
            mut_ref_future(final(self).bitmask.data) == mut_ref_future(old(self).bitmask.data),
    {
        self.bitmask.apply(self.index, 4, 0b0111);
    }
}

/// Sample rate choices with the ADC at 44.1 kHz.
pub struct Adc441<'a> {
    pub index: u16,
    pub bitmask: BitMask<'a>,
}

impl<'a> Adc441<'a> {
    pub fn new(index: u16, data: &'a mut u16) -> (r: Self)
        ensures
            r.index == index,
            mut_ref_current(r.bitmask.data) == *old(data),
            *final(data) == mut_ref_future(r.bitmask.data),
    {
        let bitmask = BitMask::new(data);
        Adc441 { index, bitmask }
    }

    /// ADC 44.1 kHz, DAC 44.1 kHz.
    pub fn dac_441(&mut self)
        requires
            old(self).index + 4 <= 16,
        ensures
            final(self).index == old(self).index,
            mut_ref_current(final(self).bitmask.data)
                == spec_apply(mut_ref_current(old(self).bitmask.data), old(self).index, 4, 0b1000),
            mut_ref_future(final(self).bitmask.data) == mut_ref_future(old(self).bitmask.data),
    {
        self.bitmask.apply(self.index, 4, 0b1000);
    }

    /// ADC 44.1 kHz, DAC 8.018 kHz.
    pub fn dac_8018(&mut self)
        requires
            old(self).index + 4 <= 16,
        ensures
            final(self).index == old(self).index,
            mut_ref_current(final(self).bitmask.data)
                == spec_apply(mut_ref_current(old(self).bitmask.data), old(self).index, 4, 0b1001),
            mut_ref_future(final(self).bitmask.data) == mut_ref_future(old(self).bitmask.data),
    {
        self.bitmask.apply(self.index, 4, 0b1001);
    }
}

/// Sample rate choices with the ADC at 8.018 kHz.
pub struct Adc8018<'a> {
    pub index: u16,
    pub bitmask: BitMask<'a>,
}

impl<'a> Adc8018<'a> {
    pub fn new(index: u16, data: &'a mut u16) -> (r: Self)
        ensures
            r.index == index,
            mut_ref_current(r.bitmask.data) == *old(data),
            *final(data) == mut_ref_future(r.bitmask.data),
    {
        let bitmask = BitMask::new(data);
        Adc8018 { index, bitmask }
    }

    /// ADC 8.018 kHz, DAC 44.1 kHz.
    pub fn dac_441(&mut self)
        requires
            old(self).index + 4 <= 16,
        ensures
            final(self).index == old(self).index,
            mut_ref_current(final(self).bitmask.data)
                == spec_apply(mut_ref_current(old(self).bitmask.data), old(self).index, 4, 0b1010),
            mut_ref_future(final(self).bitmask.data) == mut_ref_future(old(self).bitmask.data),
    {
        self.bitmask.apply(self.index, 4, 0b1010);
    }

    /// ADC 8.018 kHz, DAC 8.018 kHz.
    pub fn dac_8018(&mut self)
        requires
            old(self).index + 4 <= 16,
        ensures
            final(self).index == old(self).index,
            mut_ref_current(final(self).bitmask.data)
                == spec_apply(mut_ref_current(old(self).bitmask.data), old(self).index, 4, 0b1011),
            mut_ref_future(final(self).bitmask.data) == mut_ref_future(old(self).bitmask.data),
    {
        self.bitmask.apply(self.index, 4, 0b1011);
    }
}

/// Sample rate choices with the ADC at 88.2 kHz.
pub struct Adc882<'a> {
    pub index: u16,
    pub bitmask: BitMask<'a>,
}

impl<'a> Adc882<'a> {
    pub fn new(index: u16, data: &'a mut u16) -> (r: Self)
        ensures
            r.index == index,
            mut_ref_current(r.bitmask.data) == *old(data),
            *final(data) == mut_ref_future(r.bitmask.data),
    {
        let bitmask = BitMask::new(data);
        Adc882 { index, bitmask }
    }

    /// ADC 88.2 kHz, DAC 88.2 kHz.
    pub fn dac_882(&mut self)
        requires
            old(self).index + 4 <= 16,
        ensures
            final(self).index == old(self).index,
            mut_ref_current(final(self).bitmask.data)
                == spec_apply(mut_ref_current(old(self).bitmask.data), old(self).index, 4, 0b1111),
            mut_ref_future(final(self).bitmask.data) == mut_ref_future(old(self).bitmask.data),
    {
        self.bitmask.apply(self.index, 4, 0b1111);
    }
}

/// The four-bit sample rate field.  Picking the ADC rate narrows the
/// choice to the DAC rates the datasheet pairs with it; picking the DAC
/// rate then writes the code.
pub struct SamplingRate<'a> {
    pub index: u16,
    pub data: &'a mut u16,
}

impl<'a> SamplingRate<'a> {
    pub fn new(index: u16, data: &'a mut u16) -> (r: Self)
        ensures
            r.index == index,
            mut_ref_current(r.data) == *old(data),
            *final(data) == mut_ref_future(r.data),
    {
        SamplingRate { index, data }
    }

    /// ADC at 48 kHz.
    pub fn adc_48<'b>(&'b mut self) -> (r: Adc48<'b>)
        ensures
            final(self).index == old(self).index,
            r.index == old(self).index,
            mut_ref_current(r.bitmask.data) == mut_ref_current(old(self).data),
            mut_ref_current(final(self).data) == mut_ref_future(r.bitmask.data),
            mut_ref_future(final(self).data) == mut_ref_future(old(self).data),
    {
        Adc48::new(self.index, self.data)
    }

    /// ADC at 8 kHz.
    pub fn adc_8<'b>(&'b mut self) -> (r: Adc8<'b>)
        ensures
            final(self).index == old(self).index,
            r.index == old(self).index,
            mut_ref_current(r.bitmask.data) == mut_ref_current(old(self).data),
            mut_ref_current(final(self).data) == mut_ref_future(r.bitmask.data),
            mut_ref_future(final(self).data) == mut_ref_future(old(self).data),
    {
        Adc8::new(self.index, self.data)
    }

    /// ADC at 32 kHz.
    pub fn adc_32<'b>(&'b mut self) -> (r: Adc32<'b>)
        ensures
            final(self).index == old(self).index,
            r.index == old(self).index,
            mut_ref_current(r.bitmask.data) == mut_ref_current(old(self).data),
            mut_ref_current(final(self).data) == mut_ref_future(r.bitmask.data),
            mut_ref_future(final(self).data) == mut_ref_future(old(self).data),
    {
        Adc32::new(self.index, self.data)
    }

    /// ADC at 96 kHz.
    pub fn adc_96<'b>(&'b mut self) -> (r: Adc96<'b>)
        ensures
            final(self).index == old(self).index,
            r.index == old(self).index,
            mut_ref_current(r.bitmask.data) == mut_ref_current(old(self).data),
            mut_ref_current(final(self).data) == mut_ref_future(r.bitmask.data),
            mut_ref_future(final(self).data) == mut_ref_future(old(self).data),
    {
        Adc96::new(self.index, self.data)
    }

    /// ADC at 44.1 kHz.
    pub fn adc_441<'b>(&'b mut self) -> (r: Adc441<'b>)
        ensures
            final(self).index == old(self).index,
            r.index == old(self).index,
            mut_ref_current(r.bitmask.data) == mut_ref_current(old(self).data),
            mut_ref_current(final(self).data) == mut_ref_future(r.bitmask.data),
            mut_ref_future(final(self).data) == mut_ref_future(old(self).data),
    {
        Adc441::new(self.index, self.data)
    }

    /// ADC at 8.018 kHz.
    pub fn adc_8018<'b>(&'b mut self) -> (r: Adc8018<'b>)
        ensures
            final(self).index == old(self).index,
            r.index == old(self).index,
            mut_ref_current(r.bitmask.data) == mut_ref_current(old(self).data),
            mut_ref_current(final(self).data) == mut_ref_future(r.bitmask.data),
            mut_ref_future(final(self).data) == mut_ref_future(old(self).data),
    {
        Adc8018::new(self.index, self.data)
    }

    /// ADC at 88.2 kHz.
    pub fn adc_882<'b>(&'b mut self) -> (r: Adc882<'b>)
        ensures
            final(self).index == old(self).index,
            r.index == old(self).index,
            mut_ref_current(r.bitmask.data) == mut_ref_current(old(self).data),
            mut_ref_current(final(self).data) == mut_ref_future(r.bitmask.data),
            mut_ref_future(final(self).data) == mut_ref_future(old(self).data),
    {
        Adc882::new(self.index, self.data)
    }
}

} // verus!
