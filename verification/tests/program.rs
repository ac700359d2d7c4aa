//! Tests of program data, program numbers and the program SysEx messages.
#![allow(unused_imports)]

use minilogue_xd::sysex::frame;
use std::collections::HashSet;
use minilogue_xd::error::{Error, SysexError};
use minilogue_xd::message::types::U4;
use minilogue_xd::param::enums::{CutoffDrive, CutoffKeytrack, CvInMode, DelaySubType, EgTarget, LfoMode, LfoTarget, LfoTargetOsc, LfoWave, MicroTuning, ModAssignTarget, ModFxType, MultiRouting, MultiSelectNoise, MultiSelectUser, MultiSelectVpm, MultiType, PortamentoMode, ReverbSubType, UserParamType, VcoOctave, VcoWave, VoiceModeType};
use minilogue_xd::sysex::frame::{
    build_sysex, build_sysex_request, CURRENT_PROGRAM_DUMP, CURRENT_PROGRAM_REQUEST, PROGRAM_DATA_DUMP, PROGRAM_DATA_REQUEST,
};
use minilogue_xd::sysex::program::{
    build_current_program_dump, build_current_program_request, build_program_dump, build_program_request,
    parse_current_program_dump, parse_program_dump, ProgramData, ProgramName, ProgramNumber, SequencerParams,
    SynthParams,
};

fn ch(n: u8) -> U4 {
    U4::new(n).unwrap()
}

// ---------------------------------------------------------------
// ProgramNumber
// ---------------------------------------------------------------

#[test]
fn program_number_valid() {
    let pn = ProgramNumber::new(0).unwrap();
    assert_eq!(pn.value(), 0);
    assert_eq!(pn.bank(), 0);
    assert_eq!(pn.slot_in_bank(), 0);

    let pn = ProgramNumber::new(499).unwrap();
    assert_eq!(pn.value(), 499);
    assert_eq!(pn.bank(), 4);
    assert_eq!(pn.slot_in_bank(), 99);
}

#[test]
fn program_number_invalid() {
    assert!(ProgramNumber::new(500).is_err());
    assert!(ProgramNumber::new(1000).is_err());
    assert!(ProgramNumber::new(u16::MAX).is_err());
}

#[test]
fn program_number_bank_decomposition() {
    for n in 0..500u16 {
        let pn = ProgramNumber::new(n).unwrap();
        assert_eq!(u16::from(pn.bank()) * 100 + u16::from(pn.slot_in_bank()), n);
    }
}

#[test]
fn program_number_display() {
    let pn = ProgramNumber::new(42).unwrap();
    assert_eq!(pn.to_string(), "42");
}

#[test]
fn program_number_ordering() {
    let a = ProgramNumber::new(10).unwrap();
    let b = ProgramNumber::new(20).unwrap();
    assert!(a < b);
}

#[test]
fn program_number_hash() {
    let mut set = HashSet::new();
    set.insert(ProgramNumber::new(0).unwrap());
    set.insert(ProgramNumber::new(0).unwrap());
    assert_eq!(set.len(), 1);
}

// ---------------------------------------------------------------
// ProgramData
// ---------------------------------------------------------------

#[test]
fn program_data_from_bytes_valid() {
    let data = ProgramData::default();
    let bytes = data.to_bytes();
    assert_eq!(bytes.len(), 1024);
    let recovered = ProgramData::from_bytes(&bytes).unwrap();
    assert_eq!(data, recovered);
}

#[test]
fn program_data_too_short() {
    let short = vec![0u8; 500];
    assert!(ProgramData::from_bytes(&short).is_err());
}

#[test]
fn program_data_round_trip() {
    let mut data = ProgramData::default();
    data.synth.name = ProgramName::from_string("RoundTrip").unwrap();
    data.synth.cutoff = 800;
    data.synth.delay_on = true;
    data.sequencer.bpm = 1400;
    data.sequencer.steps[0].notes[0] = 60;
    data.sequencer.steps[0].velocities[0] = 127;

    let bytes = data.to_bytes();
    let recovered = ProgramData::from_bytes(&bytes).unwrap();
    assert_eq!(data, recovered);
}

#[test]
fn program_data_size() {
    assert_eq!(SynthParams::SIZE + SequencerParams::SIZE, ProgramData::SIZE);
}

// ---------------------------------------------------------------
// SysEx current program
// ---------------------------------------------------------------

#[test]
fn current_program_request() {
    let msg = build_current_program_request(ch(0));
    assert_eq!(msg.len(), 8);
    assert_eq!(msg[6], CURRENT_PROGRAM_REQUEST);
}

#[test]
fn current_program_dump_round_trip() {
    let data = ProgramData::default();
    let msg = build_current_program_dump(ch(3), &data);
    let recovered = parse_current_program_dump(&msg).unwrap();
    assert_eq!(data, recovered);
}

#[test]
fn current_program_dump_wrong_function_id() {
    let msg = build_sysex_request(ch(0), 0x51);
    assert!(parse_current_program_dump(&msg).is_err());
}

#[test]
fn current_program_dump_with_modifications() {
    let mut data = ProgramData::default();
    data.synth.name = ProgramName::from_string("Test Patch").unwrap();
    data.synth.vco1_wave = minilogue_xd::param::enums::VcoWave::Sqr;
    data.synth.cutoff = 512;
    data.synth.resonance = 768;

    let msg = build_current_program_dump(ch(0), &data);
    let recovered = parse_current_program_dump(&msg).unwrap();
    assert_eq!(recovered.synth.name.as_str(), "Test Patch");
    assert_eq!(recovered.synth.vco1_wave, minilogue_xd::param::enums::VcoWave::Sqr);
    assert_eq!(recovered.synth.cutoff, 512);
    assert_eq!(recovered.synth.resonance, 768);
}

// ---------------------------------------------------------------
// SysEx stored program
// ---------------------------------------------------------------

#[test]
fn program_request() {
    let pn = ProgramNumber::new(0).unwrap();
    let msg = build_program_request(ch(0), pn);
    assert_eq!(msg.len(), 10);
    assert_eq!(msg[6], PROGRAM_DATA_REQUEST);
    assert_eq!(msg[7], 0); // LSB
    assert_eq!(msg[8], 0); // MSB
}

#[test]
fn program_request_large_number() {
    let pn = ProgramNumber::new(499).unwrap();
    let msg = build_program_request(ch(0), pn);
    // 499 = 0x1F3 => LSB = 0x73, MSB = 0x03
    assert_eq!(msg[7], (499u16 & 0x7F) as u8); // 0x73 = 115
    assert_eq!(msg[8], (499u16 >> 7) as u8); // 3
}

#[test]
fn program_dump_round_trip() {
    let data = ProgramData::default();
    let pn = ProgramNumber::new(42).unwrap();
    let msg = build_program_dump(ch(5), pn, &data);
    let (recovered_pn, recovered_data) = parse_program_dump(&msg).unwrap();
    assert_eq!(recovered_pn, pn);
    assert_eq!(recovered_data, data);
}

#[test]
fn program_dump_round_trip_large_number() {
    let data = ProgramData::default();
    let pn = ProgramNumber::new(499).unwrap();
    let msg = build_program_dump(ch(0), pn, &data);
    let (recovered_pn, recovered_data) = parse_program_dump(&msg).unwrap();
    assert_eq!(recovered_pn.value(), 499);
    assert_eq!(recovered_data, data);
}

#[test]
fn program_dump_wrong_function_id() {
    // Build a current program dump and try to parse as stored program dump.
    let data = ProgramData::default();
    let msg = build_current_program_dump(ch(0), &data);
    assert!(parse_program_dump(&msg).is_err());
}

#[test]
fn program_dump_too_short() {
    let msg = vec![0xF0, 0x42, 0x30, 0x00, 0x01, 0x51, 0x4C, 0xF7];
    assert!(parse_program_dump(&msg).is_err());
}

#[test]
fn program_dump_with_data() {
    let mut data = ProgramData::default();
    data.synth.name = ProgramName::from_string("Stored").unwrap();
    data.synth.reverb_on = true;
    data.sequencer.bpm = 2000;

    let pn = ProgramNumber::new(150).unwrap();
    let msg = build_program_dump(ch(0), pn, &data);
    let (recovered_pn, recovered_data) = parse_program_dump(&msg).unwrap();
    assert_eq!(recovered_pn.value(), 150);
    assert_eq!(recovered_data.synth.name.as_str(), "Stored");
    assert!(recovered_data.synth.reverb_on);
    assert_eq!(recovered_data.sequencer.bpm, 2000);
}

#[test]
fn program_dump_all_channels() {
    let data = ProgramData::default();
    let pn = ProgramNumber::new(0).unwrap();
    for c in 0..=15 {
        let msg = build_program_dump(ch(c), pn, &data);
        let (recovered_pn, _) = parse_program_dump(&msg).unwrap();
        assert_eq!(recovered_pn, pn);
    }
}

#[test]
fn program_data_getters() {
    let mut data = ProgramData::default();
    data.synth.cutoff = 640;
    data.sequencer.bpm = 1300;
    assert_eq!(data.synth().cutoff, 640);
    assert_eq!(data.sequencer().bpm, 1300);
}
