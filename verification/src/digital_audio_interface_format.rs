//! Configuration for the digital audio interface: data format, word
//! length, clocking and channel phase.

use vstd::prelude::*;
use crate::bitmask::BitMask;
use crate::bitmask::spec_set;
use crate::bitmask::spec_unset;
use crate::bitmask::spec_apply;

verus! {

/// A one-bit left/right selector.
pub struct LeftRight<'a> {
    pub index: u16,
    pub bitmask: BitMask<'a>,
}

impl<'a> LeftRight<'a> {
    pub fn new(index: u16, data: &'a mut u16) -> (r: Self)
        ensures
            r.index == index,
            mut_ref_current(r.bitmask.data) == *old(data),
            *final(data) == mut_ref_future(r.bitmask.data),
    {
        let bitmask = BitMask::new(data);

        LeftRight { index, bitmask }
    }

    /// Left (set the field's bit to 1).
    pub fn left(&mut self)
        requires
            old(self).index < 16,
        ensures
            final(self).index == old(self).index,
            mut_ref_current(final(self).bitmask.data)
                == spec_set(mut_ref_current(old(self).bitmask.data), old(self).index),
            mut_ref_future(final(self).bitmask.data) == mut_ref_future(old(self).bitmask.data),
    {
        self.bitmask.set(self.index);
    }

    /// Right (clear the field's bit to 0).
    pub fn right(&mut self)
        requires
            old(self).index < 16,
        ensures
            final(self).index == old(self).index,
            mut_ref_current(final(self).bitmask.data)
                == spec_unset(mut_ref_current(old(self).bitmask.data), old(self).index),
            mut_ref_future(final(self).bitmask.data) == mut_ref_future(old(self).bitmask.data),
    {
        self.bitmask.unset(self.index);
    }
}

/// Whether the codec runs as bus master (bit 1) or slave (bit 0).
pub struct MasterSlave<'a> {
    pub index: u16,
    pub bitmask: BitMask<'a>,
}

impl<'a> MasterSlave<'a> {
    pub fn new(index: u16, data: &'a mut u16) -> (r: Self)
        ensures
            r.index == index,
            mut_ref_current(r.bitmask.data) == *old(data),
            *final(data) == mut_ref_future(r.bitmask.data),
    {
        let bitmask = BitMask::new(data);

        MasterSlave { index, bitmask }
    }

    /// Master mode.
    pub fn master(&mut self)
        requires
            old(self).index < 16,
        ensures
            final(self).index == old(self).index,
            mut_ref_current(final(self).bitmask.data)
                == spec_set(mut_ref_current(old(self).bitmask.data), old(self).index),
            mut_ref_future(final(self).bitmask.data) == mut_ref_future(old(self).bitmask.data),
    {
        self.bitmask.set(self.index);
    }

    /// Slave mode.
    pub fn slave(&mut self)
        requires
            old(self).index < 16,
        ensures
            final(self).index == old(self).index,
            mut_ref_current(final(self).bitmask.data)
                == spec_unset(mut_ref_current(old(self).bitmask.data), old(self).index),
            mut_ref_future(final(self).bitmask.data) == mut_ref_future(old(self).bitmask.data),
    {
        self.bitmask.unset(self.index);
    }
}

/// Whether a clock line is inverted (bit 1) or not (bit 0).
pub struct Invert<'a> {
    pub index: u16,
    pub bitmask: BitMask<'a>,
}

impl<'a> Invert<'a> {
    pub fn new(index: u16, data: &'a mut u16) -> (r: Self)
        ensures
            r.index == index,
            mut_ref_current(r.bitmask.data) == *old(data),
            *final(data) == mut_ref_future(r.bitmask.data),
    {
        let bitmask = BitMask::new(data);

        Invert { index, bitmask }
    }

    /// Invert the clock.
    pub fn invert(&mut self)
        requires
            old(self).index < 16,
        ensures
            final(self).index == old(self).index,
            mut_ref_current(final(self).bitmask.data)
                == spec_set(mut_ref_current(old(self).bitmask.data), old(self).index),
            mut_ref_future(final(self).bitmask.data) == mut_ref_future(old(self).bitmask.data),
    {
        self.bitmask.set(self.index);
    }

    /// Leave the clock as it is.
    pub fn no_invert(&mut self)
        requires
            old(self).index < 16,
        ensures
            final(self).index == old(self).index,
            mut_ref_current(final(self).bitmask.data)
                == spec_unset(mut_ref_current(old(self).bitmask.data), old(self).index),
            mut_ref_future(final(self).bitmask.data) == mut_ref_future(old(self).bitmask.data),
    {
        self.bitmask.unset(self.index);
    }
}

/// DACLRC phase control: when, relative to DACLRC, the right channel data
/// (or the MSB, in DSP mode) appears.
pub struct LeftRightPhase<'a> {
    pub index: u16,
    pub bitmask: BitMask<'a>,
}

impl<'a> LeftRightPhase<'a> {
    pub fn new(index: u16, data: &'a mut u16) -> (r: Self)
        ensures
            r.index == index,
            mut_ref_current(r.bitmask.data) == *old(data),
            *final(data) == mut_ref_future(r.bitmask.data),
    {
        let bitmask = BitMask::new(data);

        LeftRightPhase { index, bitmask }
    }

    /// In I2S mode, right channel DAC data when DACLRC is high
    pub fn data_when_daclrc_high(&mut self)
        requires
            old(self).index < 16,
        ensures
            final(self).index == old(self).index,
            mut_ref_current(final(self).bitmask.data)
                == spec_set(mut_ref_current(old(self).bitmask.data), old(self).index),
            mut_ref_future(final(self).bitmask.data) == mut_ref_future(old(self).bitmask.data),
    {
        self.bitmask.set(self.index);
    }

    /// In I2S mode, right channel DAC data when DACLRC is low
    pub fn data_when_daclrc_low(&mut self)
        requires
            old(self).index < 16,
        ensures
            final(self).index == old(self).index,
            mut_ref_current(final(self).bitmask.data)
                == spec_unset(mut_ref_current(old(self).bitmask.data), old(self).index),
            mut_ref_future(final(self).bitmask.data) == mut_ref_future(old(self).bitmask.data),
    {
        self.bitmask.unset(self.index);
    }

    /// In DSP mode, MSB is available on 2nd BCLK rising edge after DACLRC
    /// rising edge
    pub fn data_on_second_rising_edge(&mut self)
        requires
            old(self).index < 16,
        ensures
            final(self).index == old(self).index,
            mut_ref_current(final(self).bitmask.data)
                == spec_set(mut_ref_current(old(self).bitmask.data), old(self).index),
            mut_ref_future(final(self).bitmask.data) == mut_ref_future(old(self).bitmask.data),
    {
        self.bitmask.set(self.index);
    }

    /// In DSP mode, MSB is available on 1st BCLK rising edge after DACLRC
    /// rising edge
    pub fn data_on_first_rising_edge(&mut self)
        requires
            old(self).index < 16,
        ensures
            final(self).index == old(self).index,
            mut_ref_current(final(self).bitmask.data)
                == spec_unset(mut_ref_current(old(self).bitmask.data), old(self).index),
            mut_ref_future(final(self).bitmask.data) == mut_ref_future(old(self).bitmask.data),
    {
        self.bitmask.unset(self.index);
    }
}

/// Whether right channel DAC data goes to the left channel (bit 1) or the
/// right channel (bit 0).
pub struct ClockSwap<'a> {
    pub index: u16,
    pub bitmask: BitMask<'a>,
}

impl<'a> ClockSwap<'a> {
    pub fn new(index: u16, data: &'a mut u16) -> (r: Self)
        ensures
            r.index == index,
            mut_ref_current(r.bitmask.data) == *old(data),
            *final(data) == mut_ref_future(r.bitmask.data),
    {
        let bitmask = BitMask::new(data);

        ClockSwap { index, bitmask }
    }

    /// Right channel DAC data on the left channel.
    pub fn right_channel_dac_data_left(&mut self)
        requires
            old(self).index < 16,
        ensures
            final(self).index == old(self).index,
            mut_ref_current(final(self).bitmask.data)
                == spec_set(mut_ref_current(old(self).bitmask.data), old(self).index),
            mut_ref_future(final(self).bitmask.data) == mut_ref_future(old(self).bitmask.data),
    {
        self.bitmask.set(self.index);
    }

    /// Right channel DAC data on the right channel.
    pub fn right_channel_dac_data_right(&mut self)
        requires
            old(self).index < 16,
        ensures
            final(self).index == old(self).index,
            mut_ref_current(final(self).bitmask.data)
                == spec_unset(mut_ref_current(old(self).bitmask.data), old(self).index),
            mut_ref_future(final(self).bitmask.data) == mut_ref_future(old(self).bitmask.data),
    {
        self.bitmask.unset(self.index);
    }
}

/// The two-bit audio data format selector: right justified (0b00), left
/// justified (0b01), I2S (0b10) or DSP (0b11).
pub struct Format<'a> {
    pub index: u16,
    pub bitmask: BitMask<'a>,
}

impl<'a> Format<'a> {
    pub fn new(index: u16, data: &'a mut u16) -> (r: Self)
        ensures
            r.index == index,
            mut_ref_current(r.bitmask.data) == *old(data),
            *final(data) == mut_ref_future(r.bitmask.data),
    {
        let bitmask = BitMask::new(data);

        Format { index, bitmask }
    }

    /// DSP mode.
    pub fn dsp(&mut self)
        requires
            old(self).index + 2 <= 16,
        ensures
            final(self).index == old(self).index,
            mut_ref_current(final(self).bitmask.data)
                == spec_apply(mut_ref_current(old(self).bitmask.data), old(self).index, 2, 0b11),
            mut_ref_future(final(self).bitmask.data) == mut_ref_future(old(self).bitmask.data),
    {
        self.bitmask.apply(self.index, 2, 0b11)
    }

    /// I2S mode.
    pub fn i2s(&mut self)
        requires
            old(self).index + 2 <= 16,
        ensures
            final(self).index == old(self).index,
            mut_ref_current(final(self).bitmask.data)
                == spec_apply(mut_ref_current(old(self).bitmask.data), old(self).index, 2, 0b10),
            mut_ref_future(final(self).bitmask.data) == mut_ref_future(old(self).bitmask.data),
    {
        self.bitmask.apply(self.index, 2, 0b10)
    }

    /// Left justified mode.
    pub fn left_justified(&mut self)
        requires
            old(self).index + 2 <= 16,
        ensures
            final(self).index == old(self).index,
            mut_ref_current(final(self).bitmask.data)
                == spec_apply(mut_ref_current(old(self).bitmask.data), old(self).index, 2, 0b01),
            mut_ref_future(final(self).bitmask.data) == mut_ref_future(old(self).bitmask.data),
    {
        self.bitmask.apply(self.index, 2, 0b01)
    }

    /// Right justified mode.
    pub fn right_justified(&mut self)
        requires
            old(self).index + 2 <= 16,
        ensures
            final(self).index == old(self).index,
            mut_ref_current(final(self).bitmask.data)
                == spec_apply(mut_ref_current(old(self).bitmask.data), old(self).index, 2, 0b00),
            mut_ref_future(final(self).bitmask.data) == mut_ref_future(old(self).bitmask.data),
    {
        self.bitmask.apply(self.index, 2, 0b00)
    }
}

/// The two-bit input audio data bit length selector: 16 (0b00), 20 (0b01),
/// 24 (0b10) or 32 (0b11) bits.
pub struct BitLength<'a> {
    pub index: u16,
    pub bitmask: BitMask<'a>,
}

impl<'a> BitLength<'a> {
    pub fn new(index: u16, data: &'a mut u16) -> (r: Self)
        ensures
            r.index == index,
            mut_ref_current(r.bitmask.data) == *old(data),
            *final(data) == mut_ref_future(r.bitmask.data),
    {
        let bitmask = BitMask::new(data);

        BitLength { index, bitmask }
    }

    /// 32-bit data.
    pub fn bits_32(&mut self)
        requires
            old(self).index + 2 <= 16,
        ensures
            final(self).index == old(self).index,
            mut_ref_current(final(self).bitmask.data)
                == spec_apply(mut_ref_current(old(self).bitmask.data), old(self).index, 2, 0b11),
            mut_ref_future(final(self).bitmask.data) == mut_ref_future(old(self).bitmask.data),
    {
        self.bitmask.apply(self.index, 2, 0b11)
    }

    /// 24-bit data.
    pub fn bits_24(&mut self)
        requires
            old(self).index + 2 <= 16,
        ensures
            final(self).index == old(self).index,
            mut_ref_current(final(self).bitmask.data)
                == spec_apply(mut_ref_current(old(self).bitmask.data), old(self).index, 2, 0b10),
            mut_ref_future(final(self).bitmask.data) == mut_ref_future(old(self).bitmask.data),
    {
        self.bitmask.apply(self.index, 2, 0b10)
    }

    /// 20-bit data.
    pub fn bits_20(&mut self)
        requires
            old(self).index + 2 <= 16,
        ensures
            final(self).index == old(self).index,
            mut_ref_current(final(self).bitmask.data)
                == spec_apply(mut_ref_current(old(self).bitmask.data), old(self).index, 2, 0b01),
            mut_ref_future(final(self).bitmask.data) == mut_ref_future(old(self).bitmask.data),
    {
        self.bitmask.apply(self.index, 2, 0b01)
    }

    /// 16-bit data.
    pub fn bits_16(&mut self)
        requires
            old(self).index + 2 <= 16,
        ensures
            final(self).index == old(self).index,
            mut_ref_current(final(self).bitmask.data)
                == spec_apply(mut_ref_current(old(self).bitmask.data), old(self).index, 2, 0b00),
            mut_ref_future(final(self).bitmask.data) == mut_ref_future(old(self).bitmask.data),
    {
        self.bitmask.apply(self.index, 2, 0b00)
    }
}

/// Builder for the digital audio interface format control register
/// (address 7): a 16-bit word, all fields initially 0.
pub struct DigitalAudioInterfaceFormat {
    pub(crate) data: u16,
}

impl DigitalAudioInterfaceFormat {
    /// The register word as accumulated so far.
    pub closed spec fn word(&self) -> u16 {
        self.data
    }

    pub fn new() -> (r: Self)
        ensures
            r.word() == 0,
    {
        DigitalAudioInterfaceFormat { data: 0 }
    }

    /// Read the finished register word out of the builder.
    pub(crate) fn finish(&self) -> (v: u16)
        ensures
            v == self.word(),
    {
        self.data
    }

    /// Audio data format select
    pub fn format<'a>(&'a mut self) -> (r: Format<'a>)
        ensures
            r.index == 0,
            mut_ref_current(r.bitmask.data) == old(self).word(),
            final(self).word() == mut_ref_future(r.bitmask.data),
    {
        Format::new(0, &mut self.data)
    }

    /// Input audio data bit length select
    pub fn bit_length<'a>(&'a mut self) -> (r: BitLength<'a>)
        ensures
            r.index == 2,
            mut_ref_current(r.bitmask.data) == old(self).word(),
            final(self).word() == mut_ref_future(r.bitmask.data),
    {
        BitLength::new(2, &mut self.data)
    }

    /// DACLRC phase control (in left, right, or I2S modes)
    pub fn left_right_phase<'a>(&'a mut self) -> (r: LeftRightPhase<'a>)
        ensures
            r.index == 4,
            mut_ref_current(r.bitmask.data) == old(self).word(),
            final(self).word() == mut_ref_future(r.bitmask.data),
    {
        LeftRightPhase::new(4, &mut self.data)
    }

    /// DAC left/right clock swap
    pub fn left_right_dac_clock_swap<'a>(&'a mut self) -> (r: ClockSwap<'a>)
        ensures
            r.index == 5,
            mut_ref_current(r.bitmask.data) == old(self).word(),
            final(self).word() == mut_ref_future(r.bitmask.data),
    {
        ClockSwap::new(5, &mut self.data)
    }

    /// Master slave mode control
    pub fn master_slave<'a>(&'a mut self) -> (r: MasterSlave<'a>)
        ensures
            r.index == 6,
            mut_ref_current(r.bitmask.data) == old(self).word(),
            final(self).word() == mut_ref_future(r.bitmask.data),
    {
        MasterSlave::new(6, &mut self.data)
    }

    /// Bit clock invert
    pub fn bit_clock_invert<'a>(&'a mut self) -> (r: Invert<'a>)
        ensures
            r.index == 7,
            mut_ref_current(r.bitmask.data) == old(self).word(),
            final(self).word() == mut_ref_future(r.bitmask.data),
    {
        Invert::new(7, &mut self.data)
    }
}

} // verus!
