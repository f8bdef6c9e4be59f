//! Configuration for power to the different parts of the device.  Each
//! field is one bit; 1 means the part is powered off.

use vstd::prelude::*;
use crate::bitmask::BitMask;
use crate::bitmask::spec_set;
use crate::bitmask::spec_unset;

verus! {

/// A one-bit power switch within the power-down register: bit 1 powers the
/// part off, bit 0 powers it on.
pub struct PowerOnOff<'a> {
    pub index: u16,
    pub bitmask: BitMask<'a>,
}

impl<'a> PowerOnOff<'a> {
    pub fn new(index: u16, data: &'a mut u16) -> (r: Self)
        ensures
            r.index == index,
            mut_ref_current(r.bitmask.data) == *old(data),
            *final(data) == mut_ref_future(r.bitmask.data),
    {
        let bitmask = BitMask::new(data);

        PowerOnOff { index, bitmask }
    }

    /// Power the part off (set the field's bit to 1).
    pub fn power_off(&mut self)
        requires
            old(self).index < 16,
        ensures
            final(self).index == old(self).index,
            mut_ref_current(final(self).bitmask.data)
                == spec_set(mut_ref_current(old(self).bitmask.data), old(self).index),
            mut_ref_future(final(self).bitmask.data) == mut_ref_future(old(self).bitmask.data),
    {
        self.bitmask.set(self.index);
    }

    /// Power the part on (clear the field's bit to 0).
    pub fn power_on(&mut self)
        requires
            old(self).index < 16,
        ensures
            final(self).index == old(self).index,
            mut_ref_current(final(self).bitmask.data)
                == spec_unset(mut_ref_current(old(self).bitmask.data), old(self).index),
            mut_ref_future(final(self).bitmask.data) == mut_ref_future(old(self).bitmask.data),
    {
        self.bitmask.unset(self.index);
    }
}

/// Builder for the power down control register (address 6): a 16-bit word,
/// all fields initially 0, that is, everything powered on.
pub struct PowerDown {
    pub(crate) data: u16,
}

impl PowerDown {
    /// The register word as accumulated so far.
    pub closed spec fn word(&self) -> u16 {
        self.data
    }

    pub fn new() -> (r: Self)
        ensures
            r.word() == 0,
    {
        PowerDown { data: 0 }
    }

    /// Read the finished register word out of the builder.
    pub(crate) fn finish(&self) -> (v: u16)
        ensures
            v == self.word(),
    {
        self.data
    }

    /// Line input
    pub fn line_input<'a>(&'a mut self) -> (r: PowerOnOff<'a>)
        ensures
            r.index == 0,
            mut_ref_current(r.bitmask.data) == old(self).word(),
            final(self).word() == mut_ref_future(r.bitmask.data),
    {
        PowerOnOff::new(0, &mut self.data)
    }

    /// Microphone input and bias
    pub fn mic<'a>(&'a mut self) -> (r: PowerOnOff<'a>)
        ensures
            r.index == 1,
            mut_ref_current(r.bitmask.data) == old(self).word(),
            final(self).word() == mut_ref_future(r.bitmask.data),
    {
        PowerOnOff::new(1, &mut self.data)
    }

    /// ADC
    pub fn adc<'a>(&'a mut self) -> (r: PowerOnOff<'a>)
        ensures
            r.index == 2,
            mut_ref_current(r.bitmask.data) == old(self).word(),
            final(self).word() == mut_ref_future(r.bitmask.data),
    {
        PowerOnOff::new(2, &mut self.data)
    }

    /// DAC
    pub fn dac<'a>(&'a mut self) -> (r: PowerOnOff<'a>)
        ensures
            r.index == 3,
            mut_ref_current(r.bitmask.data) == old(self).word(),
            final(self).word() == mut_ref_future(r.bitmask.data),
    {
        PowerOnOff::new(3, &mut self.data)
    }

    /// Outputs
    pub fn output<'a>(&'a mut self) -> (r: PowerOnOff<'a>)
        ensures
            r.index == 4,
            mut_ref_current(r.bitmask.data) == old(self).word(),
            final(self).word() == mut_ref_future(r.bitmask.data),
    {
        PowerOnOff::new(4, &mut self.data)
    }

    /// Oscillator
    pub fn oscillator<'a>(&'a mut self) -> (r: PowerOnOff<'a>)
        ensures
            r.index == 5,
            mut_ref_current(r.bitmask.data) == old(self).word(),
            final(self).word() == mut_ref_future(r.bitmask.data),
    {
        PowerOnOff::new(5, &mut self.data)
    }

    /// CLKOUT
    pub fn clock_output<'a>(&'a mut self) -> (r: PowerOnOff<'a>)
        ensures
            r.index == 6,
            mut_ref_current(r.bitmask.data) == old(self).word(),
            final(self).word() == mut_ref_future(r.bitmask.data),
    {
        PowerOnOff::new(6, &mut self.data)
    }

    /// POWEROFF mode
    pub fn power_off<'a>(&'a mut self) -> (r: PowerOnOff<'a>)
        ensures
            r.index == 7,
            mut_ref_current(r.bitmask.data) == old(self).word(),
            final(self).word() == mut_ref_future(r.bitmask.data),
    {
        PowerOnOff::new(7, &mut self.data)
    }
}

} // verus!
