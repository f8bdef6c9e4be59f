//! Register construction for the Cirrus Logic/Wolfson WM8731 audio codec.
//!
//! The codec is configured through ten 16-bit control registers, addressed
//! 0 through 9, plus a reset register at address 15.  Each function of
//! [`WM8731`] produces a [`Register`]: the `(address, value)` pair a caller
//! writes over the codec's control bus.  The library itself performs no I/O.
//!
//! Every register function except `active` and `reset` takes a
//! configuration routine.  The routine receives a fresh builder whose word
//! is 0 and sets fields through the builder's typed accessors; the function
//! then pairs the finished word with the register's fixed address.  For
//! example, to power parts of the device off:
//!
//! ```
//! # use wm8731::WM8731;
//! WM8731::power_down(|c| {
//!     c.line_input().power_off();
//!     c.adc().power_off();
//!     c.dac().power_off();
//! });
//! ```

use vstd::prelude::*;

pub mod bitmask;

pub mod enable_disable;
pub use enable_disable::EnableDisable;

pub mod line_in;
use line_in::LineIn;

pub mod headphone_out;
use headphone_out::HeadphoneOut;

pub mod analog_audio_path;
use analog_audio_path::AnalogAudioPath;

pub mod digital_audio_path;
use digital_audio_path::DigitalAudioPath;

pub mod power_down;
use power_down::PowerDown;

pub mod digital_audio_interface_format;
use digital_audio_interface_format::DigitalAudioInterfaceFormat;

pub mod sampling;
use sampling::Sampling;

pub mod sampling_rate;
pub use sampling_rate::SamplingRate;

pub mod active;
use active::Active;

verus! {

/// One control register write: an address on the codec's control interface
/// and the 16-bit value to store there.
pub struct Register {
    pub address: u8,
    pub value: u16,
}

/// Entry point: one operation per control register.  Each operation hands a
/// fresh zero-word builder to the given configuration routine and returns
/// the finished register; a routine that leaves the word alone yields
/// value 0.
pub struct WM8731 {}

impl WM8731 {
    /// Left line input control register
    pub fn left_line_in<F: FnOnce(&mut LineIn)>(c: F) -> (r: Register)
        requires
            forall|x: &mut LineIn|
                mut_ref_current(x).word() == 0 ==> #[trigger] call_requires(c, (x,)),
        ensures
            r.address == 0,
            exists|x: &mut LineIn|
                #[trigger] call_ensures(c, (x,), ()) && mut_ref_current(x).word() == 0
                    && r.value == mut_ref_future(x).word(),
            (forall|x: &mut LineIn|
                #[trigger] call_ensures(c, (x,), ())
                    ==> mut_ref_future(x).word() == mut_ref_current(x).word()) ==> r.value == 0,
    {
        let mut li = LineIn::new();
        c(&mut li);

        Register { address: 0, value: li.finish() }
    }

    /// Right line in control register
    pub fn right_line_in<F: FnOnce(&mut LineIn)>(c: F) -> (r: Register)
        requires
            forall|x: &mut LineIn|
                mut_ref_current(x).word() == 0 ==> #[trigger] call_requires(c, (x,)),
        ensures
            r.address == 1,
            exists|x: &mut LineIn|
                #[trigger] call_ensures(c, (x,), ()) && mut_ref_current(x).word() == 0
                    && r.value == mut_ref_future(x).word(),
            (forall|x: &mut LineIn|
                #[trigger] call_ensures(c, (x,), ())
                    ==> mut_ref_future(x).word() == mut_ref_current(x).word()) ==> r.value == 0,
    {
        let mut li = LineIn::new();
        c(&mut li);

        Register { address: 1, value: li.finish() }
    }

    /// Left headphone out control register
    pub fn left_headphone_out<F: FnOnce(&mut HeadphoneOut)>(c: F) -> (r: Register)
        requires
            forall|x: &mut HeadphoneOut|
                mut_ref_current(x).word() == 0 ==> #[trigger] call_requires(c, (x,)),
        ensures
            r.address == 2,
            exists|x: &mut HeadphoneOut|
                #[trigger] call_ensures(c, (x,), ()) && mut_ref_current(x).word() == 0
                    && r.value == mut_ref_future(x).word(),
            (forall|x: &mut HeadphoneOut|
                #[trigger] call_ensures(c, (x,), ())
                    ==> mut_ref_future(x).word() == mut_ref_current(x).word()) ==> r.value == 0,
    {
        let mut lho = HeadphoneOut::new();
        c(&mut lho);

        Register { address: 2, value: lho.finish() }
    }

    /// Right headphone out control register
    pub fn right_headphone_out<F: FnOnce(&mut HeadphoneOut)>(c: F) -> (r: Register)
        requires
            forall|x: &mut HeadphoneOut|
                mut_ref_current(x).word() == 0 ==> #[trigger] call_requires(c, (x,)),
        ensures
            r.address == 3,
            exists|x: &mut HeadphoneOut|
                #[trigger] call_ensures(c, (x,), ()) && mut_ref_current(x).word() == 0
                    && r.value == mut_ref_future(x).word(),
            (forall|x: &mut HeadphoneOut|
                #[trigger] call_ensures(c, (x,), ())
                    ==> mut_ref_future(x).word() == mut_ref_current(x).word()) ==> r.value == 0,
    {
        let mut rho = HeadphoneOut::new();
        c(&mut rho);

        Register { address: 3, value: rho.finish() }
    }

    /// Analog audio path control register
    pub fn analog_audio_path<F: FnOnce(&mut AnalogAudioPath)>(c: F) -> (r: Register)
        requires
            forall|x: &mut AnalogAudioPath|
                mut_ref_current(x).word() == 0 ==> #[trigger] call_requires(c, (x,)),
        ensures
            r.address == 4,
            exists|x: &mut AnalogAudioPath|
                #[trigger] call_ensures(c, (x,), ()) && mut_ref_current(x).word() == 0
                    && r.value == mut_ref_future(x).word(),
            (forall|x: &mut AnalogAudioPath|
                #[trigger] call_ensures(c, (x,), ())
                    ==> mut_ref_future(x).word() == mut_ref_current(x).word()) ==> r.value == 0,
    {
        let mut aap = AnalogAudioPath::new();
        c(&mut aap);

        Register { address: 4, value: aap.finish() }
    }

    /// Digital audio path control register
    pub fn digital_audio_path<F: FnOnce(&mut DigitalAudioPath)>(c: F) -> (r: Register)
        requires
            forall|x: &mut DigitalAudioPath|
                mut_ref_current(x).word() == 0 ==> #[trigger] call_requires(c, (x,)),
        ensures
            r.address == 5,
            exists|x: &mut DigitalAudioPath|
                #[trigger] call_ensures(c, (x,), ()) && mut_ref_current(x).word() == 0
                    && r.value == mut_ref_future(x).word(),
            (forall|x: &mut DigitalAudioPath|
                #[trigger] call_ensures(c, (x,), ())
                    ==> mut_ref_future(x).word() == mut_ref_current(x).word()) ==> r.value == 0,
    {
        let mut dap = DigitalAudioPath::new();
        c(&mut dap);

        Register { address: 5, value: dap.finish() }
    }

    /// Power down control register
    pub fn power_down<F: FnOnce(&mut PowerDown)>(c: F) -> (r: Register)
        requires
            forall|x: &mut PowerDown|
                mut_ref_current(x).word() == 0 ==> #[trigger] call_requires(c, (x,)),
        ensures
            r.address == 6,
            exists|x: &mut PowerDown|
                #[trigger] call_ensures(c, (x,), ()) && mut_ref_current(x).word() == 0
                    && r.value == mut_ref_future(x).word(),
            (forall|x: &mut PowerDown|
                #[trigger] call_ensures(c, (x,), ())
                    ==> mut_ref_future(x).word() == mut_ref_current(x).word()) ==> r.value == 0,
    {
        let mut pd = PowerDown::new();
        c(&mut pd);

        Register { address: 6, value: pd.finish() }
    }

    /// Digital audio interface format control register
    pub fn digital_audio_interface_format<F: FnOnce(&mut DigitalAudioInterfaceFormat)>(
        c: F,
    ) -> (r: Register)
        requires
            forall|x: &mut DigitalAudioInterfaceFormat|
                mut_ref_current(x).word() == 0 ==> #[trigger] call_requires(c, (x,)),
        ensures
            r.address == 7,
            exists|x: &mut DigitalAudioInterfaceFormat|
                #[trigger] call_ensures(c, (x,), ()) && mut_ref_current(x).word() == 0
                    && r.value == mut_ref_future(x).word(),
            (forall|x: &mut DigitalAudioInterfaceFormat|
                #[trigger] call_ensures(c, (x,), ())
                    ==> mut_ref_future(x).word() == mut_ref_current(x).word()) ==> r.value == 0,
    {
        let mut daif = DigitalAudioInterfaceFormat::new();
        c(&mut daif);

        Register { address: 7, value: daif.finish() }
    }

    /// Sampling control register
    pub fn sampling<F: FnOnce(&mut Sampling)>(c: F) -> (r: Register)
        requires
            forall|x: &mut Sampling|
                mut_ref_current(x).word() == 0 ==> #[trigger] call_requires(c, (x,)),
        ensures
            r.address == 8,
            exists|x: &mut Sampling|
                #[trigger] call_ensures(c, (x,), ()) && mut_ref_current(x).word() == 0
                    && r.value == mut_ref_future(x).word(),
            (forall|x: &mut Sampling|
                #[trigger] call_ensures(c, (x,), ())
                    ==> mut_ref_future(x).word() == mut_ref_current(x).word()) ==> r.value == 0,
    {
        let mut s = Sampling::new();
        c(&mut s);

        Register { address: 8, value: s.finish() }
    }

    /// Active control register: its two-state control writes address 9.
    pub fn active() -> (r: Active)
        ensures
            r.addr() == 9,
    {
        Active::new(9)
    }

    /// Reset register: writing address 15 with value 0 resets the codec.
    pub fn reset() -> (r: Register)
        ensures
            r.address == 15,
            r.value == 0,
    {
        Register { address: 15, value: 0 }
    }
}

} // verus!
