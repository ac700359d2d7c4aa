//! Tests of the synth block of the program blob and of program names.
#![allow(unused_imports)]

use minilogue_xd::error::{Error, SysexError};
use minilogue_xd::param::enums::{CutoffDrive, CutoffKeytrack, CvInMode, DelaySubType, EgTarget, LfoMode, LfoTarget, LfoTargetOsc, LfoWave, MicroTuning, ModAssignTarget, ModFxType, MultiRouting, MultiSelectNoise, MultiSelectUser, MultiSelectVpm, MultiType, PortamentoMode, ReverbSubType, UserParamType, VcoOctave, VcoWave, VoiceModeType};
use minilogue_xd::sysex::helpers::{read_10bit, write_10bit};
use minilogue_xd::sysex::program::synth::{ProgramName, SynthParams};

// ---------------------------------------------------------------
// ProgramName
// ---------------------------------------------------------------

#[test]
fn name_valid_all_spaces() {
    let name = ProgramName::new([b' '; 12]).unwrap();
    assert_eq!(name.as_str(), "");
    assert_eq!(name.to_string(), "");
}

#[test]
fn name_valid_alphanumeric() {
    let bytes = *b"Hello World!";
    let name = ProgramName::new(bytes).unwrap();
    assert_eq!(name.as_str(), "Hello World!");
    assert_eq!(name.as_bytes(), &bytes);
}

#[test]
fn name_valid_special_chars() {
    let bytes = *b"#$%&'()*,-./";
    let name = ProgramName::new(bytes).unwrap();
    assert_eq!(name.as_str(), "#$%&'()*,-./");
}

#[test]
fn name_valid_digits_colon_question() {
    let bytes = *b"0123456789:?";
    let name = ProgramName::new(bytes).unwrap();
    assert_eq!(name.as_str(), "0123456789:?");
}

#[test]
fn name_invalid_at_sign() {
    let mut bytes = *b"Hello World ";
    bytes[5] = b'@';
    assert!(ProgramName::new(bytes).is_err());
}

#[test]
fn name_invalid_semicolon() {
    let mut bytes = [b' '; 12];
    bytes[0] = b';';
    assert!(ProgramName::new(bytes).is_err());
}

#[test]
fn name_invalid_backslash() {
    let mut bytes = [b' '; 12];
    bytes[0] = b'\\';
    assert!(ProgramName::new(bytes).is_err());
}

#[test]
fn name_invalid_control_char() {
    let mut bytes = [b' '; 12];
    bytes[0] = 0x01;
    assert!(ProgramName::new(bytes).is_err());
}

#[test]
fn name_invalid_high_ascii() {
    let mut bytes = [b' '; 12];
    bytes[0] = 0x80;
    assert!(ProgramName::new(bytes).is_err());
}

#[test]
fn name_from_string_exact() {
    let name = ProgramName::from_string("Hello World!").unwrap();
    assert_eq!(name.as_str(), "Hello World!");
}

#[test]
fn name_from_string_short_pads() {
    let name = ProgramName::from_string("Hi").unwrap();
    assert_eq!(name.as_bytes(), b"Hi          ");
    assert_eq!(name.as_str(), "Hi");
}

#[test]
fn name_from_string_long_truncates() {
    let name = ProgramName::from_string("This Is Too Long!").unwrap();
    // Truncated to 12 bytes: "This Is Too " -> as_str trims trailing spaces.
    assert_eq!(name.as_str(), "This Is Too");
    assert_eq!(name.as_bytes(), b"This Is Too ");
}

#[test]
fn name_from_string_empty() {
    let name = ProgramName::from_string("").unwrap();
    assert_eq!(name.as_str(), "");
    assert_eq!(name.as_bytes(), &[b' '; 12]);
}

#[test]
fn name_display() {
    let name = ProgramName::from_string("Test").unwrap();
    assert_eq!(name.to_string(), "Test");
}

#[test]
fn name_default() {
    let name = ProgramName::default();
    assert_eq!(name.as_bytes(), &[b' '; 12]);
}

#[test]
fn name_clone_eq() {
    let a = ProgramName::from_string("Test").unwrap();
    let b = a.clone();
    assert_eq!(a, b);
}

// ---------------------------------------------------------------
// SynthParams from_bytes / to_bytes round-trip
// ---------------------------------------------------------------

/// Build a valid 156-byte synth blob with known values.
fn make_synth_blob() -> [u8; 156] {
    let mut buf = [0u8; 156];
    buf[0..4].copy_from_slice(b"PROG");
    buf[4..16].copy_from_slice(b"TestProgram!");
    buf[16] = 2; // octave = center
    buf[17] = 64; // portamento
    buf[18] = 1; // key_trig = on
    write_10bit(&mut buf, 19, 500); // voice_mode_depth
    buf[21] = 3; // voice_mode_type (Poly, 1-based)
    buf[22] = 2; // vco1_wave = Saw
    buf[23] = 1; // vco1_octave = 8'
    write_10bit(&mut buf, 24, 512); // vco1_pitch
    write_10bit(&mut buf, 26, 300); // vco1_shape
    buf[28] = 1; // vco2_wave = Tri
    buf[29] = 2; // vco2_octave = 4'
    write_10bit(&mut buf, 30, 256); // vco2_pitch
    write_10bit(&mut buf, 32, 100); // vco2_shape
    buf[34] = 0; // sync ON (inverted)
    buf[35] = 1; // ring OFF (inverted)
    write_10bit(&mut buf, 36, 0); // cross_mod_depth
    buf[38] = 1; // multi_type = VPM
    buf[39] = 2; // select_noise = Peak
    buf[40] = 5; // select_vpm
    buf[41] = 3; // select_user
    write_10bit(&mut buf, 42, 100); // shape_noise
    write_10bit(&mut buf, 44, 200); // shape_vpm
    write_10bit(&mut buf, 46, 300); // shape_user
    write_10bit(&mut buf, 48, 400); // shift_shape_noise
    write_10bit(&mut buf, 50, 500); // shift_shape_vpm
    write_10bit(&mut buf, 52, 600); // shift_shape_user
    write_10bit(&mut buf, 54, 700); // vco1_level
    write_10bit(&mut buf, 56, 800); // vco2_level
    write_10bit(&mut buf, 58, 900); // multi_level
    write_10bit(&mut buf, 60, 1023); // cutoff
    write_10bit(&mut buf, 62, 512); // resonance
    buf[64] = 1; // cutoff_drive = 50%
    buf[65] = 2; // cutoff_keytrack = 100%
    write_10bit(&mut buf, 66, 100); // amp_eg_attack
    write_10bit(&mut buf, 68, 200); // amp_eg_decay
    write_10bit(&mut buf, 70, 800); // amp_eg_sustain
    write_10bit(&mut buf, 72, 300); // amp_eg_release
    write_10bit(&mut buf, 74, 50); // eg_attack
    write_10bit(&mut buf, 76, 100); // eg_decay
    write_10bit(&mut buf, 78, 512); // eg_int
    buf[80] = 0; // eg_target = Cutoff
    buf[81] = 1; // lfo_wave = Tri
    buf[82] = 1; // lfo_mode = Normal
    write_10bit(&mut buf, 83, 400); // lfo_rate
    write_10bit(&mut buf, 85, 300); // lfo_int
    buf[87] = 0; // lfo_target = Cutoff
    buf[88] = 1; // mod_fx_on
    buf[89] = 1; // mod_fx_type (1-based = Chorus)
    buf[90] = 3; // mod_fx_chorus sub-type
    buf[91] = 1; // mod_fx_ensemble sub-type
    buf[92] = 5; // mod_fx_phaser sub-type
    buf[93] = 2; // mod_fx_flanger sub-type
    buf[94] = 7; // mod_fx_user sub-type
    write_10bit(&mut buf, 95, 600); // mod_fx_time
    write_10bit(&mut buf, 97, 700); // mod_fx_depth
    buf[99] = 1; // delay_on
    buf[100] = 4; // delay_sub_type = Tape
    write_10bit(&mut buf, 101, 500); // delay_time
    write_10bit(&mut buf, 103, 400); // delay_depth
    buf[105] = 1; // reverb_on
    buf[106] = 3; // reverb_sub_type = Plate
    write_10bit(&mut buf, 107, 600); // reverb_time
    write_10bit(&mut buf, 109, 300); // reverb_depth
    buf[111] = 12; // bend_range_plus
    buf[112] = 2; // bend_range_minus
    buf[113] = 16; // joystick_assign_plus = Cutoff
    buf[114] = 200; // joystick_range_plus
    buf[115] = 0; // joystick_assign_minus = None
    buf[116] = 100; // joystick_range_minus
    buf[117] = 0; // cv_in_mode = Modulation
    buf[118] = 1; // cv_in1_assign = GateTime
    buf[119] = 150; // cv_in1_range
    buf[120] = 2; // cv_in2_assign = PitchBend
    buf[121] = 80; // cv_in2_range
    buf[122] = 5; // micro_tuning = Kirnberger
    buf[123] = 12; // scale_key = 0
    buf[124] = 50; // program_tuning = 0 cents
    buf[125] = 1; // lfo_key_sync = on
    buf[126] = 0; // lfo_voice_sync = off
    buf[127] = 2; // lfo_target_osc = VCO2
    buf[128] = 64; // cutoff_velocity
    buf[129] = 127; // amp_velocity
    buf[130] = 1; // multi_octave = 8'
    buf[131] = 0; // multi_routing = PreVCF
    buf[132] = 0; // eg_legato = off
    buf[133] = 1; // portamento_mode = On
    buf[134] = 0; // portamento_bpm_sync = off
    buf[135] = 102; // program_level
    buf[136] = 100; // vpm_param1
    buf[137] = 50; // vpm_param2
    buf[138] = 150; // vpm_param3
    buf[139] = 0; // vpm_param4
    buf[140] = 200; // vpm_param5
    buf[141] = 75; // vpm_param6
    buf[142] = 10; // user_param1
    buf[143] = 20; // user_param2
    buf[144] = 30; // user_param3
    buf[145] = 40; // user_param4
    buf[146] = 50; // user_param5
    buf[147] = 60; // user_param6
                   // Byte 148: param5_type=1(Bipolar) bits 0-1, param6_type=2(Select) bits 2-3
    buf[148] = 0x01 | (0x02 << 2);
    // Byte 149: param1_type=0, param2_type=1, param3_type=2, param4_type=0
    buf[149] = (0x01 << 2) | (0x02 << 4);
    buf[150] = 13; // program_transpose = 0
    write_10bit(&mut buf, 151, 512); // delay_dry_wet
    write_10bit(&mut buf, 153, 768); // reverb_dry_wet
    buf[155] = 28; // midi_after_touch_assign = PortamentoTime
    buf
}

#[test]
fn synth_params_from_bytes_valid() {
    let blob = make_synth_blob();
    let params = SynthParams::from_bytes(&blob).unwrap();
    assert_eq!(params.name.as_str(), "TestProgram!");
    assert_eq!(params.octave, 2);
    assert_eq!(params.portamento, 64);
    assert!(params.key_trig);
    assert_eq!(params.voice_mode_depth, 500);
    assert_eq!(params.voice_mode_type, 3);
    assert_eq!(params.vco1_wave, VcoWave::Saw);
    assert_eq!(params.vco1_octave, VcoOctave::Eight);
    assert_eq!(params.vco1_pitch, 512);
    assert_eq!(params.vco1_shape, 300);
    assert_eq!(params.vco2_wave, VcoWave::Tri);
    assert_eq!(params.vco2_octave, VcoOctave::Four);
    // sync: blob 0 = ON
    assert!(params.sync);
    // ring: blob 1 = OFF
    assert!(!params.ring);
    assert_eq!(params.cutoff, 1023);
    assert_eq!(params.cutoff_drive, CutoffDrive::Half);
    assert_eq!(params.cutoff_keytrack, CutoffKeytrack::Full);
    assert!(params.mod_fx_on);
    assert_eq!(params.mod_fx_type, 1);
    assert_eq!(params.delay_sub_type, DelaySubType::Tape);
    assert_eq!(params.reverb_sub_type, ReverbSubType::Plate);
    assert_eq!(params.bend_range_plus, 12);
    assert_eq!(params.joystick_assign_plus, ModAssignTarget::Cutoff);
    assert_eq!(params.user_param5_type, UserParamType::Bipolar);
    assert_eq!(params.user_param6_type, UserParamType::Select);
    assert_eq!(params.user_param1_type, UserParamType::Percent);
    assert_eq!(params.user_param2_type, UserParamType::Bipolar);
    assert_eq!(params.user_param3_type, UserParamType::Select);
    assert_eq!(params.user_param4_type, UserParamType::Percent);
    assert_eq!(
        params.midi_after_touch_assign,
        ModAssignTarget::PortamentoTime
    );
}

#[test]
fn synth_params_round_trip() {
    let blob = make_synth_blob();
    let params = SynthParams::from_bytes(&blob).unwrap();
    let out = params.to_bytes();
    assert_eq!(&out[..], &blob[..]);
}

#[test]
fn synth_params_too_short() {
    let short = [0u8; 100];
    assert!(SynthParams::from_bytes(&short).is_err());
}

#[test]
fn synth_params_wrong_magic() {
    let mut blob = make_synth_blob();
    blob[0..4].copy_from_slice(b"GLOB");
    assert!(SynthParams::from_bytes(&blob).is_err());
}

#[test]
fn synth_params_sync_ring_inversion() {
    let mut blob = make_synth_blob();
    // Set sync=1 (OFF), ring=0 (ON) in blob
    blob[34] = 1;
    blob[35] = 0;
    let params = SynthParams::from_bytes(&blob).unwrap();
    assert!(!params.sync);
    assert!(params.ring);

    // Round-trip preserves the inversion.
    let out = params.to_bytes();
    assert_eq!(out[34], 1);
    assert_eq!(out[35], 0);
}

#[test]
fn synth_params_10bit_boundaries() {
    let mut blob = make_synth_blob();
    // Set cutoff to 0 and resonance to 1023.
    write_10bit(&mut blob, 60, 0);
    write_10bit(&mut blob, 62, 1023);
    let params = SynthParams::from_bytes(&blob).unwrap();
    assert_eq!(params.cutoff, 0);
    assert_eq!(params.resonance, 1023);
    let out = params.to_bytes();
    assert_eq!(read_10bit(&out, 60), 0);
    assert_eq!(read_10bit(&out, 62), 1023);
}

#[test]
fn synth_params_voice_mode_type_enum() {
    let blob = make_synth_blob();
    let params = SynthParams::from_bytes(&blob).unwrap();
    // voice_mode_type=3, which is 1-based, so 3-1=2 => Chord.
    let vmt = params.voice_mode_type_enum().unwrap();
    assert_eq!(vmt, VoiceModeType::Chord);
}

#[test]
fn synth_params_mod_fx_type_enum() {
    let blob = make_synth_blob();
    let params = SynthParams::from_bytes(&blob).unwrap();
    // mod_fx_type=1, 1-based => 0 => Chorus.
    let mft = params.mod_fx_type_enum().unwrap();
    assert_eq!(mft, ModFxType::Chorus);
}

#[test]
fn synth_params_mod_fx_type_all_values() {
    let mut blob = make_synth_blob();
    for (raw, expected) in [
        (1, ModFxType::Chorus),
        (2, ModFxType::Ensemble),
        (3, ModFxType::Phaser),
        (4, ModFxType::Flanger),
        (5, ModFxType::User),
    ] {
        blob[89] = raw;
        let params = SynthParams::from_bytes(&blob).unwrap();
        assert_eq!(params.mod_fx_type_enum().unwrap(), expected);
    }
}

#[test]
fn synth_params_voice_mode_type_all_values() {
    let mut blob = make_synth_blob();
    for (raw, expected) in [
        (1, VoiceModeType::Poly),
        (2, VoiceModeType::Unison),
        (3, VoiceModeType::Chord),
        (4, VoiceModeType::Arp),
    ] {
        blob[21] = raw;
        let params = SynthParams::from_bytes(&blob).unwrap();
        assert_eq!(params.voice_mode_type_enum().unwrap(), expected);
    }
}

#[test]
fn synth_params_voice_mode_type_zero_is_err() {
    let mut blob = make_synth_blob();
    blob[21] = 0;
    let params = SynthParams::from_bytes(&blob).unwrap();
    assert!(params.voice_mode_type_enum().is_err());
}

#[test]
fn synth_params_mod_fx_type_zero_is_err() {
    let mut blob = make_synth_blob();
    blob[89] = 0;
    let params = SynthParams::from_bytes(&blob).unwrap();
    assert!(params.mod_fx_type_enum().is_err());
}

#[test]
fn synth_params_user_param_type_bit_packing() {
    let mut blob = make_synth_blob();
    // Set all user param types to Select (2).
    buf_set_all_user_param_types(&mut blob, 2);
    let params = SynthParams::from_bytes(&blob).unwrap();
    assert_eq!(params.user_param1_type, UserParamType::Select);
    assert_eq!(params.user_param2_type, UserParamType::Select);
    assert_eq!(params.user_param3_type, UserParamType::Select);
    assert_eq!(params.user_param4_type, UserParamType::Select);
    assert_eq!(params.user_param5_type, UserParamType::Select);
    assert_eq!(params.user_param6_type, UserParamType::Select);
    let out = params.to_bytes();
    assert_eq!(out[148], 0x02 | (0x02 << 2));
    assert_eq!(out[149], 0x02 | (0x02 << 2) | (0x02 << 4) | (0x02 << 6));
}

fn buf_set_all_user_param_types(buf: &mut [u8], val: u8) {
    buf[148] = (val & 0x03) | ((val & 0x03) << 2);
    buf[149] = (val & 0x03) | ((val & 0x03) << 2) | ((val & 0x03) << 4) | ((val & 0x03) << 6);
}

#[test]
fn synth_params_all_vco_waves() {
    let mut blob = make_synth_blob();
    for (prog_val, expected) in [(0, VcoWave::Sqr), (1, VcoWave::Tri), (2, VcoWave::Saw)] {
        blob[22] = prog_val;
        blob[28] = prog_val;
        let params = SynthParams::from_bytes(&blob).unwrap();
        assert_eq!(params.vco1_wave, expected);
        assert_eq!(params.vco2_wave, expected);
    }
}

#[test]
fn synth_params_all_vco_octaves() {
    let mut blob = make_synth_blob();
    for (prog_val, expected) in [
        (0, VcoOctave::Sixteen),
        (1, VcoOctave::Eight),
        (2, VcoOctave::Four),
        (3, VcoOctave::Two),
    ] {
        blob[23] = prog_val;
        blob[29] = prog_val;
        let params = SynthParams::from_bytes(&blob).unwrap();
        assert_eq!(params.vco1_octave, expected);
        assert_eq!(params.vco2_octave, expected);
    }
}

#[test]
fn synth_params_micro_tuning_enum() {
    let blob = make_synth_blob();
    let params = SynthParams::from_bytes(&blob).unwrap();
    assert_eq!(params.micro_tuning_enum().unwrap(), MicroTuning::Kirnberger);
}

#[test]
fn synth_params_micro_tuning_out_of_range() {
    let mut blob = make_synth_blob();
    blob[122] = 100; // beyond enum range
    let params = SynthParams::from_bytes(&blob).unwrap();
    assert!(params.micro_tuning_enum().is_err());
}

#[test]
fn synth_params_boolean_fields() {
    let mut blob = make_synth_blob();
    // Test all boolean fields at both states.
    blob[18] = 0; // key_trig off
    blob[88] = 0; // mod_fx off
    blob[99] = 0; // delay off
    blob[105] = 0; // reverb off
    blob[125] = 0; // lfo_key_sync off
    blob[126] = 0; // lfo_voice_sync off
    blob[132] = 0; // eg_legato off
    blob[134] = 0; // portamento_bpm_sync off
    let params = SynthParams::from_bytes(&blob).unwrap();
    assert!(!params.key_trig);
    assert!(!params.mod_fx_on);
    assert!(!params.delay_on);
    assert!(!params.reverb_on);
    assert!(!params.lfo_key_sync);
    assert!(!params.lfo_voice_sync);
    assert!(!params.eg_legato);
    assert!(!params.portamento_bpm_sync);

    blob[18] = 1;
    blob[88] = 1;
    blob[99] = 1;
    blob[105] = 1;
    blob[125] = 1;
    blob[126] = 1;
    blob[132] = 1;
    blob[134] = 1;
    let params = SynthParams::from_bytes(&blob).unwrap();
    assert!(params.key_trig);
    assert!(params.mod_fx_on);
    assert!(params.delay_on);
    assert!(params.reverb_on);
    assert!(params.lfo_key_sync);
    assert!(params.lfo_voice_sync);
    assert!(params.eg_legato);
    assert!(params.portamento_bpm_sync);
}

#[test]
fn synth_params_default_round_trips() {
    let params = SynthParams::default();
    let bytes = params.to_bytes();
    let recovered = SynthParams::from_bytes(&bytes).unwrap();
    assert_eq!(params, recovered);
}

#[test]
fn synth_params_eg_targets() {
    let mut blob = make_synth_blob();
    for (val, expected) in [
        (0, EgTarget::Cutoff),
        (1, EgTarget::Pitch2),
        (2, EgTarget::Pitch),
    ] {
        blob[80] = val;
        let params = SynthParams::from_bytes(&blob).unwrap();
        assert_eq!(params.eg_target, expected);
    }
}

#[test]
fn synth_params_lfo_variants() {
    let mut blob = make_synth_blob();
    for (val, expected) in [(0, LfoWave::Sqr), (1, LfoWave::Tri), (2, LfoWave::Saw)] {
        blob[81] = val;
        let params = SynthParams::from_bytes(&blob).unwrap();
        assert_eq!(params.lfo_wave, expected);
    }
    for (val, expected) in [
        (0, LfoMode::OneShot),
        (1, LfoMode::Normal),
        (2, LfoMode::Bpm),
    ] {
        blob[82] = val;
        let params = SynthParams::from_bytes(&blob).unwrap();
        assert_eq!(params.lfo_mode, expected);
    }
    for (val, expected) in [
        (0, LfoTarget::Cutoff),
        (1, LfoTarget::Shape),
        (2, LfoTarget::Pitch),
    ] {
        blob[87] = val;
        let params = SynthParams::from_bytes(&blob).unwrap();
        assert_eq!(params.lfo_target, expected);
    }
}

#[test]
fn synth_params_mod_assign_targets() {
    let mut blob = make_synth_blob();
    // Test a few assign targets at different offsets.
    blob[113] = 0; // joystick_assign_plus = None
    blob[115] = 28; // joystick_assign_minus = PortamentoTime
    blob[155] = 17; // midi_after_touch_assign = Resonance
    let params = SynthParams::from_bytes(&blob).unwrap();
    assert_eq!(params.joystick_assign_plus, ModAssignTarget::Unassigned);
    assert_eq!(
        params.joystick_assign_minus,
        ModAssignTarget::PortamentoTime
    );
    assert_eq!(params.midi_after_touch_assign, ModAssignTarget::Resonance);
}

#[test]
fn synth_params_delay_sub_types() {
    let mut blob = make_synth_blob();
    for prog_val in 0..=19u8 {
        blob[100] = prog_val;
        let params = SynthParams::from_bytes(&blob).unwrap();
        assert_eq!(params.delay_sub_type.to_program_value(), prog_val);
    }
}

#[test]
fn synth_params_reverb_sub_types() {
    let mut blob = make_synth_blob();
    for prog_val in 0..=17u8 {
        blob[106] = prog_val;
        let params = SynthParams::from_bytes(&blob).unwrap();
        assert_eq!(params.reverb_sub_type.to_program_value(), prog_val);
    }
}

#[test]
fn synth_params_select_vpm_enum() {
    let mut blob = make_synth_blob();
    blob[40] = 15;
    let params = SynthParams::from_bytes(&blob).unwrap();
    assert_eq!(params.select_vpm_enum().unwrap(), MultiSelectVpm::Throat);
}

#[test]
fn synth_params_select_user_enum() {
    let mut blob = make_synth_blob();
    blob[41] = 0;
    let params = SynthParams::from_bytes(&blob).unwrap();
    assert_eq!(params.select_user_enum().unwrap(), MultiSelectUser::User1);
}

#[test]
fn program_name_parses_from_str() {
    let name: ProgramName = "Lead".parse().unwrap();
    assert_eq!(name.as_bytes(), b"Lead        ");
    assert!("bad\u{1}name".parse::<ProgramName>().is_err());
}
