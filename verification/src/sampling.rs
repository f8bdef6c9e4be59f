//! Configuration for sampling: USB or normal mode, base over-sampling
//! rate, the ADC/DAC sample rate code and the clock dividers.

use vstd::prelude::*;
use crate::bitmask::BitMask;
use crate::bitmask::spec_set;
use crate::bitmask::spec_unset;
use crate::sampling_rate::SamplingRate;

verus! {

/// Whether the codec clocks in USB mode (bit 1) or normal mode (bit 0).
pub struct UsbNormal<'a> {
    pub index: u16,
    pub bitmask: BitMask<'a>,
}

impl<'a> UsbNormal<'a> {
    pub fn new(index: u16, data: &'a mut u16) -> (r: Self)
        ensures
            r.index == index,
            mut_ref_current(r.bitmask.data) == *old(data),
            *final(data) == mut_ref_future(r.bitmask.data),
    {
        let bitmask = BitMask::new(data);

        UsbNormal { index, bitmask }
    }

    /// USB mode.
    pub fn usb(&mut self)
        requires
            old(self).index < 16,
        ensures
            final(self).index == old(self).index,
            mut_ref_current(final(self).bitmask.data)
                == spec_set(mut_ref_current(old(self).bitmask.data), old(self).index),
            mut_ref_future(final(self).bitmask.data) == mut_ref_future(old(self).bitmask.data),
    {
        self.bitmask.set(self.index);
    }

    /// Normal mode.
    pub fn normal(&mut self)
        requires
            old(self).index < 16,
        ensures
            final(self).index == old(self).index,
            mut_ref_current(final(self).bitmask.data)
                == spec_unset(mut_ref_current(old(self).bitmask.data), old(self).index),
            mut_ref_future(final(self).bitmask.data) == mut_ref_future(old(self).bitmask.data),
    {
        self.bitmask.unset(self.index);
    }
}

/// Whether a clock is divided by two (bit 1) or taken as is (bit 0).
pub struct ClockDivider<'a> {
    pub index: u16,
    pub bitmask: BitMask<'a>,
}

impl<'a> ClockDivider<'a> {
    pub fn new(index: u16, data: &'a mut u16) -> (r: Self)
        ensures
            r.index == index,
            mut_ref_current(r.bitmask.data) == *old(data),
            *final(data) == mut_ref_future(r.bitmask.data),
    {
        let bitmask = BitMask::new(data);

        ClockDivider { index, bitmask }
    }

    /// Divide the clock by two.
    pub fn divided_by_two(&mut self)
        requires
            old(self).index < 16,
        ensures
            final(self).index == old(self).index,
            mut_ref_current(final(self).bitmask.data)
                == spec_set(mut_ref_current(old(self).bitmask.data), old(self).index),
            mut_ref_future(final(self).bitmask.data) == mut_ref_future(old(self).bitmask.data),
    {
        self.bitmask.set(self.index);
    }

    /// Use the clock as it is.
    pub fn normal(&mut self)
        requires
            old(self).index < 16,
        ensures
            final(self).index == old(self).index,
            mut_ref_current(final(self).bitmask.data)
                == spec_unset(mut_ref_current(old(self).bitmask.data), old(self).index),
            mut_ref_future(final(self).bitmask.data) == mut_ref_future(old(self).bitmask.data),
    {
        self.bitmask.unset(self.index);
    }
}

/// The base over-sampling rate: in USB mode 272 fs (bit 1) or 250 fs
/// (bit 0), in normal mode 384 fs (bit 1) or 256 fs (bit 0).
pub struct Oversampling<'a> {
    pub index: u16,
    pub bitmask: BitMask<'a>,
}

impl<'a> Oversampling<'a> {
    pub fn new(index: u16, data: &'a mut u16) -> (r: Self)
        ensures
            r.index == index,
            mut_ref_current(r.bitmask.data) == *old(data),
            *final(data) == mut_ref_future(r.bitmask.data),
    {
        let bitmask = BitMask::new(data);

        Oversampling { index, bitmask }
    }

    /// 272 fs in USB mode.
    pub fn usb_272(&mut self)
        requires
            old(self).index < 16,
        ensures
            final(self).index == old(self).index,
            mut_ref_current(final(self).bitmask.data)
                == spec_set(mut_ref_current(old(self).bitmask.data), old(self).index),
            mut_ref_future(final(self).bitmask.data) == mut_ref_future(old(self).bitmask.data),
    {
        self.bitmask.set(self.index);
    }

    /// 250 fs in USB mode.
    pub fn usb_250(&mut self)
        requires
            old(self).index < 16,
        ensures
            final(self).index == old(self).index,
            mut_ref_current(final(self).bitmask.data)
                == spec_unset(mut_ref_current(old(self).bitmask.data), old(self).index),
            mut_ref_future(final(self).bitmask.data) == mut_ref_future(old(self).bitmask.data),
    {
        self.bitmask.unset(self.index);
    }

    /// 384 fs in normal mode.
    pub fn normal_384(&mut self)
        requires
            old(self).index < 16,
        ensures
            final(self).index == old(self).index,
            mut_ref_current(final(self).bitmask.data)
                == spec_set(mut_ref_current(old(self).bitmask.data), old(self).index),
            mut_ref_future(final(self).bitmask.data) == mut_ref_future(old(self).bitmask.data),
    {
        self.bitmask.set(self.index);
    }

    /// 256 fs in normal mode.
    pub fn normal_256(&mut self)
        requires
            old(self).index < 16,
        ensures
            final(self).index == old(self).index,
            mut_ref_current(final(self).bitmask.data)
                == spec_unset(mut_ref_current(old(self).bitmask.data), old(self).index),
            mut_ref_future(final(self).bitmask.data) == mut_ref_future(old(self).bitmask.data),
    {
        self.bitmask.unset(self.index);
    }
}

/// Builder for the sampling control register (address 8): a 16-bit word,
/// all fields initially 0.
pub struct Sampling {
    pub(crate) data: u16,
}

impl Sampling {
    /// The register word as accumulated so far.
    pub closed spec fn word(&self) -> u16 {
        self.data
    }

    pub fn new() -> (r: Self)
        ensures
            r.word() == 0,
    {
        Sampling { data: 0 }
    }

    /// Read the finished register word out of the builder.
    pub(crate) fn finish(&self) -> (v: u16)
        ensures
            v == self.word(),
    {
        self.data
    }

    /// USB/normal mode select
    pub fn usb_normal<'a>(&'a mut self) -> (r: UsbNormal<'a>)
        ensures
            r.index == 0,
            mut_ref_current(r.bitmask.data) == old(self).word(),
            final(self).word() == mut_ref_future(r.bitmask.data),
    {
        UsbNormal::new(0, &mut self.data)
    }

    /// Base over-sampling rate
    pub fn base_oversampling_rate<'a>(&'a mut self) -> (r: Oversampling<'a>)
        ensures
            r.index == 1,
            mut_ref_current(r.bitmask.data) == old(self).word(),
            final(self).word() == mut_ref_future(r.bitmask.data),
    {
        Oversampling::new(1, &mut self.data)
    }

    /// ADC and DAC sample rate
    pub fn sample_rate<'a>(&'a mut self) -> (r: SamplingRate<'a>)
        ensures
            r.index == 2,
            mut_ref_current(r.data) == old(self).word(),
            final(self).word() == mut_ref_future(r.data),
    {
        SamplingRate::new(2, &mut self.data)
    }

    /// Core clock divider select
    pub fn core_clock_divider_select<'a>(&'a mut self) -> (r: ClockDivider<'a>)
        ensures
            r.index == 6,
            mut_ref_current(r.bitmask.data) == old(self).word(),
            final(self).word() == mut_ref_future(r.bitmask.data),
    {
        ClockDivider::new(6, &mut self.data)
    }

    /// CLKOUT divider select
    pub fn clock_out_divider_select<'a>(&'a mut self) -> (r: ClockDivider<'a>)
        ensures
            r.index == 7,
            mut_ref_current(r.bitmask.data) == old(self).word(),
            final(self).word() == mut_ref_future(r.bitmask.data),
    {
        ClockDivider::new(7, &mut self.data)
    }
}

} // verus!
