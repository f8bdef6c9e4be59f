//! Per-field checks: every offset, width and named code of the register
//! map, plus the fixed active and reset registers.

use wm8731::WM8731;

#[test]
fn unconfigured_builders_finalize_to_zero() {
    assert_eq!(WM8731::left_line_in(|_| {}).value, 0);
    assert_eq!(WM8731::right_line_in(|_| {}).value, 0);
    assert_eq!(WM8731::left_headphone_out(|_| {}).value, 0);
    assert_eq!(WM8731::right_headphone_out(|_| {}).value, 0);
    assert_eq!(WM8731::analog_audio_path(|_| {}).value, 0);
    assert_eq!(WM8731::digital_audio_path(|_| {}).value, 0);
    assert_eq!(WM8731::power_down(|_| {}).value, 0);
    assert_eq!(WM8731::digital_audio_interface_format(|_| {}).value, 0);
    assert_eq!(WM8731::sampling(|_| {}).value, 0);
}

#[test]
fn register_addresses() {
    assert_eq!(WM8731::left_line_in(|_| {}).address, 0);
    assert_eq!(WM8731::right_line_in(|_| {}).address, 1);
    assert_eq!(WM8731::left_headphone_out(|_| {}).address, 2);
    assert_eq!(WM8731::right_headphone_out(|_| {}).address, 3);
    assert_eq!(WM8731::analog_audio_path(|_| {}).address, 4);
    assert_eq!(WM8731::digital_audio_path(|_| {}).address, 5);
    assert_eq!(WM8731::power_down(|_| {}).address, 6);
    assert_eq!(WM8731::digital_audio_interface_format(|_| {}).address, 7);
    assert_eq!(WM8731::sampling(|_| {}).address, 8);
}

#[test]
fn active_inactive_reset() {
    let active = WM8731::active().active();
    assert_eq!(active.address, 9);
    assert_eq!(active.value, 1);

    let inactive = WM8731::active().inactive();
    assert_eq!(inactive.address, 9);
    assert_eq!(inactive.value, 0);

    let reset = WM8731::reset();
    assert_eq!(reset.address, 15);
    assert_eq!(reset.value, 0);
}

#[test]
fn line_in_fields() {
    let r = WM8731::left_line_in(|w| w.mute().enable());
    assert_eq!(r.value, 1 << 7);

    let r = WM8731::left_line_in(|w| w.both().enable());
    assert_eq!(r.value, 1 << 8);

    let r = WM8731::right_line_in(|w| {
        w.mute().enable();
        w.mute().disable();
    });
    assert_eq!(r.value, 0);
}

#[test]
fn headphone_out_fields() {
    // The volume field is not implemented: writing it changes nothing.
    let r = WM8731::left_headphone_out(|w| w.volume(0b111_1111));
    assert_eq!(r.value, 0);

    let r = WM8731::left_headphone_out(|w| w.zero_cross_detect().enable());
    assert_eq!(r.value, 1 << 7);

    let r = WM8731::right_headphone_out(|w| w.both().enable());
    assert_eq!(r.value, 1 << 8);
}

#[test]
fn analog_audio_path_fields() {
    let r = WM8731::analog_audio_path(|w| w.mic_boost().enable());
    assert_eq!(r.value, 1 << 0);

    let r = WM8731::analog_audio_path(|w| w.mute_mic().enable());
    assert_eq!(r.value, 1 << 1);

    let r = WM8731::analog_audio_path(|w| w.input_select().mic());
    assert_eq!(r.value, 1 << 2);

    let r = WM8731::analog_audio_path(|w| w.input_select().line_input());
    assert_eq!(r.value, 0);

    let r = WM8731::analog_audio_path(|w| w.bypass().enable());
    assert_eq!(r.value, 1 << 3);

    let r = WM8731::analog_audio_path(|w| w.dac_select().select());
    assert_eq!(r.value, 1 << 4);

    let r = WM8731::analog_audio_path(|w| {
        w.dac_select().select();
        w.dac_select().deselect();
    });
    assert_eq!(r.value, 0);

    let r = WM8731::analog_audio_path(|w| w.sidetone().enable());
    assert_eq!(r.value, 1 << 5);

    // The sidetone attenuation field is not implemented: no change.
    let r = WM8731::analog_audio_path(|w| w.sidetone_attenuation());
    assert_eq!(r.value, 0);
}

#[test]
fn digital_audio_path_fields() {
    let r = WM8731::digital_audio_path(|w| w.adc_hpf_disable().enable());
    assert_eq!(r.value, 1 << 0);

    let r = WM8731::digital_audio_path(|w| w.deemphasis().disable());
    assert_eq!(r.value, 0b000);

    let r = WM8731::digital_audio_path(|w| w.deemphasis().frequency_32());
    assert_eq!(r.value, 0b010);

    let r = WM8731::digital_audio_path(|w| w.deemphasis().frequency_441());
    assert_eq!(r.value, 0b100);

    let r = WM8731::digital_audio_path(|w| w.deemphasis().frequency_48());
    assert_eq!(r.value, 0b110);

    let r = WM8731::digital_audio_path(|w| w.dac_mute().enable());
    assert_eq!(r.value, 1 << 3);

    let r = WM8731::digital_audio_path(|w| w.hpor().store());
    assert_eq!(r.value, 1 << 4);

    let r = WM8731::digital_audio_path(|w| {
        w.hpor().store();
        w.hpor().clear();
    });
    assert_eq!(r.value, 0);
}

#[test]
fn power_down_fields() {
    let r = WM8731::power_down(|w| w.line_input().power_off());
    assert_eq!(r.value, 1 << 0);

    let r = WM8731::power_down(|w| w.mic().power_off());
    assert_eq!(r.value, 1 << 1);

    let r = WM8731::power_down(|w| w.adc().power_off());
    assert_eq!(r.value, 1 << 2);

    let r = WM8731::power_down(|w| w.dac().power_off());
    assert_eq!(r.value, 1 << 3);

    let r = WM8731::power_down(|w| w.output().power_off());
    assert_eq!(r.value, 1 << 4);

    let r = WM8731::power_down(|w| w.oscillator().power_off());
    assert_eq!(r.value, 1 << 5);

    let r = WM8731::power_down(|w| w.clock_output().power_off());
    assert_eq!(r.value, 1 << 6);

    let r = WM8731::power_down(|w| w.power_off().power_off());
    assert_eq!(r.value, 1 << 7);

    let r = WM8731::power_down(|w| {
        w.dac().power_off();
        w.dac().power_on();
    });
    assert_eq!(r.value, 0);
}

#[test]
fn interface_format_fields() {
    let r = WM8731::digital_audio_interface_format(|w| w.format().right_justified());
    assert_eq!(r.value, 0b00);

    let r = WM8731::digital_audio_interface_format(|w| w.format().left_justified());
    assert_eq!(r.value, 0b01);

    let r = WM8731::digital_audio_interface_format(|w| w.format().i2s());
    assert_eq!(r.value, 0b10);

    let r = WM8731::digital_audio_interface_format(|w| w.format().dsp());
    assert_eq!(r.value, 0b11);

    let r = WM8731::digital_audio_interface_format(|w| w.bit_length().bits_16());
    assert_eq!(r.value, 0b0000);

    let r = WM8731::digital_audio_interface_format(|w| w.bit_length().bits_20());
    assert_eq!(r.value, 0b0100);

    let r = WM8731::digital_audio_interface_format(|w| w.bit_length().bits_24());
    assert_eq!(r.value, 0b1000);

    let r = WM8731::digital_audio_interface_format(|w| w.bit_length().bits_32());
    assert_eq!(r.value, 0b1100);

    let r = WM8731::digital_audio_interface_format(|w| w.left_right_phase().data_when_daclrc_high());
    assert_eq!(r.value, 1 << 4);

    let r = WM8731::digital_audio_interface_format(|w| w.left_right_phase().data_on_second_rising_edge());
    assert_eq!(r.value, 1 << 4);

    let r = WM8731::digital_audio_interface_format(|w| w.left_right_dac_clock_swap().right_channel_dac_data_left());
    assert_eq!(r.value, 1 << 5);

    let r = WM8731::digital_audio_interface_format(|w| w.master_slave().master());
    assert_eq!(r.value, 1 << 6);

    let r = WM8731::digital_audio_interface_format(|w| w.bit_clock_invert().invert());
    assert_eq!(r.value, 1 << 7);

    // A later write to the same field fully replaces the earlier one.
    let r = WM8731::digital_audio_interface_format(|w| {
        w.format().dsp();
        w.format().left_justified();
    });
    assert_eq!(r.value, 0b01);
}

#[test]
fn sampling_fields() {
    let r = WM8731::sampling(|w| w.usb_normal().usb());
    assert_eq!(r.value, 1 << 0);

    let r = WM8731::sampling(|w| w.base_oversampling_rate().normal_384());
    assert_eq!(r.value, 1 << 1);

    let r = WM8731::sampling(|w| w.base_oversampling_rate().usb_272());
    assert_eq!(r.value, 1 << 1);

    let r = WM8731::sampling(|w| w.core_clock_divider_select().divided_by_two());
    assert_eq!(r.value, 1 << 6);

    let r = WM8731::sampling(|w| w.clock_out_divider_select().divided_by_two());
    assert_eq!(r.value, 1 << 7);
}

#[test]
fn sample_rate_codes() {
    let code = |f: fn(&mut wm8731::sampling::Sampling)| WM8731::sampling(f).value;

    assert_eq!(code(|w| { w.sample_rate().adc_48().dac_48(); }), 0b0000 << 2);
    assert_eq!(code(|w| { w.sample_rate().adc_48().dac_8(); }), 0b0001 << 2);
    assert_eq!(code(|w| { w.sample_rate().adc_8().dac_48(); }), 0b0010 << 2);
    assert_eq!(code(|w| { w.sample_rate().adc_8().dac_8(); }), 0b0011 << 2);
    assert_eq!(code(|w| { w.sample_rate().adc_32().dac_32(); }), 0b0110 << 2);
    assert_eq!(code(|w| { w.sample_rate().adc_96().dac_96(); }), 0b0111 << 2);
    assert_eq!(code(|w| { w.sample_rate().adc_441().dac_441(); }), 0b1000 << 2);
    assert_eq!(code(|w| { w.sample_rate().adc_441().dac_8018(); }), 0b1001 << 2);
    assert_eq!(code(|w| { w.sample_rate().adc_8018().dac_441(); }), 0b1010 << 2);
    assert_eq!(code(|w| { w.sample_rate().adc_8018().dac_8018(); }), 0b1011 << 2);
    assert_eq!(code(|w| { w.sample_rate().adc_882().dac_882(); }), 0b1111 << 2);

    // Picking only the ADC rate writes nothing yet.
    assert_eq!(code(|w| { w.sample_rate().adc_96(); }), 0);

    // A sample rate write replaces the whole four-bit field.
    let r = WM8731::sampling(|w| {
        w.sample_rate().adc_882().dac_882();
        w.sample_rate().adc_48().dac_48();
    });
    assert_eq!(r.value, 0);
}

#[test]
fn gain_half_db_steps() {
    // An exact step count skips the rounding: 3 half-dB units are one
    // 1.5 dB step above 0 dB, so one code above 23.
    let r = WM8731::left_line_in(|w| w.volume().half_dB_steps(3));
    assert_eq!(r.value, 0b1_1000);

    let r = WM8731::left_line_in(|w| w.volume().half_dB_steps(-18));
    assert_eq!(r.value, 0b1_0001);

    let r = WM8731::left_line_in(|w| w.volume().half_dB_steps(-69));
    assert_eq!(r.value, 0b0_0000);

    let r = WM8731::left_line_in(|w| w.volume().half_dB_steps(24));
    assert_eq!(r.value, 0b1_1111);
}

#[test]
fn gain_quantizer_edges() {
    // The bottom of the range: -35 dB rounds up to the lowest step, -34.5 dB.
    let r = WM8731::left_line_in(|w| w.volume().nearest_dB(-35));
    assert_eq!(r.value, 0b0_0000);

    // The top of the range stays exact.
    let r = WM8731::right_line_in(|w| w.volume().nearest_dB(12));
    assert_eq!(r.value, 0b1_1111);

    // A later volume write fully replaces the earlier one.
    let r = WM8731::left_line_in(|w| {
        w.volume().nearest_dB(12);
        w.volume().nearest_dB(0);
    });
    assert_eq!(r.value, 0b1_0111);
}
