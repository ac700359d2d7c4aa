//! Tests of the sequencer block of the program blob.
#![allow(unused_imports)]

use minilogue_xd::sysex::helpers::{read_u16_le, write_u16_le};
use minilogue_xd::sysex::program::sequencer::{MotionSlotConfig, SequencerParams, StepEvent};

/// Build a minimal valid sequencer blob (868 bytes).
fn make_seq_blob() -> Vec<u8> {
    let mut buf = vec![0u8; SequencerParams::SIZE];
    // BPM = 1200 (120.0 BPM).
    write_u16_le(&mut buf, 6, 1200);
    buf[8] = 16; // step_length
    buf[9] = 0; // step_resolution = 1/16
    buf[10] = 75; // swing = 0
    buf[11] = 54; // default_gate_time = ~75%
    write_u16_le(&mut buf, 12, 0xFFFF); // all steps active
    write_u16_le(&mut buf, 14, 0x0001); // step 0 on
    write_u16_le(&mut buf, 16, 0x0001); // motion on for step 0
                                        // Motion slot 0 parameter ID.
    write_u16_le(&mut buf, 18, 0x0010);
    write_u16_le(&mut buf, 26, 0x0003); // motion slot 0 steps 0,1

    // Step 0: note C4 (60) with velocity 100, gate 54.
    let step_off = 34;
    buf[step_off] = 60; // note 0
    buf[step_off + 8] = 100; // velocity 0
    buf[step_off + 16] = 54; // gate time 0

    buf[866] = 36; // arp_gate_time
    buf[867] = 6; // arp_rate = 1/4
    buf
}

#[test]
fn seq_params_from_bytes_valid() {
    let blob = make_seq_blob();
    let params = SequencerParams::from_bytes(&blob).unwrap();
    assert_eq!(params.bpm, 1200);
    assert_eq!(params.step_length, 16);
    assert_eq!(params.step_resolution, 0);
    assert_eq!(params.swing, 75);
    assert_eq!(params.default_gate_time, 54);
    assert_eq!(params.active_steps, 0xFFFF);
    assert_eq!(params.steps_on, 0x0001);
    assert_eq!(params.motion_on, 0x0001);
    assert_eq!(params.motion_slots[0].parameter_id, 0x0010);
    assert_eq!(params.motion_slot_steps[0], 0x0003);
    assert_eq!(params.steps[0].notes[0], 60);
    assert_eq!(params.steps[0].velocities[0], 100);
    assert_eq!(params.steps[0].gate_time(0), 54);
    assert_eq!(params.arp_gate_time, 36);
    assert_eq!(params.arp_rate, 6);
}

#[test]
fn seq_params_round_trip() {
    let blob = make_seq_blob();
    let params = SequencerParams::from_bytes(&blob).unwrap();
    let out = params.to_bytes();
    assert_eq!(&out[..], &blob[..]);
}

#[test]
fn seq_params_too_short() {
    let short = vec![0u8; 100];
    assert!(SequencerParams::from_bytes(&short).is_err());
}

#[test]
fn seq_params_swing_offset() {
    let mut blob = make_seq_blob();
    blob[10] = 0; // -75
    let params = SequencerParams::from_bytes(&blob).unwrap();
    assert_eq!(params.swing_signed(), -75);

    blob[10] = 75; // 0
    let params = SequencerParams::from_bytes(&blob).unwrap();
    assert_eq!(params.swing_signed(), 0);

    blob[10] = 150; // +75
    let params = SequencerParams::from_bytes(&blob).unwrap();
    assert_eq!(params.swing_signed(), 75);
}

#[test]
fn seq_params_bitfields() {
    let mut blob = make_seq_blob();
    write_u16_le(&mut blob, 12, 0b1010_1010_1010_1010);
    write_u16_le(&mut blob, 14, 0b0101_0101_0101_0101);
    write_u16_le(&mut blob, 16, 0b1111_0000_1111_0000);
    let params = SequencerParams::from_bytes(&blob).unwrap();
    assert_eq!(params.active_steps, 0b1010_1010_1010_1010);
    assert_eq!(params.steps_on, 0b0101_0101_0101_0101);
    assert_eq!(params.motion_on, 0b1111_0000_1111_0000);
}

#[test]
fn step_event_notes_and_velocities() {
    let mut blob = make_seq_blob();
    let step_off = 34;
    // Fill step 0 with 3 notes.
    blob[step_off] = 60; // C4
    blob[step_off + 1] = 64; // E4
    blob[step_off + 2] = 67; // G4
    blob[step_off + 8] = 100;
    blob[step_off + 9] = 80;
    blob[step_off + 10] = 60;
    let params = SequencerParams::from_bytes(&blob).unwrap();
    assert_eq!(params.steps[0].notes[0], 60);
    assert_eq!(params.steps[0].notes[1], 64);
    assert_eq!(params.steps[0].notes[2], 67);
    assert_eq!(params.steps[0].velocities[0], 100);
    assert_eq!(params.steps[0].velocities[1], 80);
    assert_eq!(params.steps[0].velocities[2], 60);
}

#[test]
fn step_event_gate_time_trigger_switch() {
    let mut step = StepEvent::default();
    step.set_gate_time(0, 54, false);
    assert_eq!(step.gate_time(0), 54);
    assert!(!step.trigger_switch(0));

    step.set_gate_time(0, 54, true);
    assert_eq!(step.gate_time(0), 54);
    assert!(step.trigger_switch(0));

    // Verify raw byte.
    assert_eq!(step.gate_times[0], 54 | 0x80);
}

#[test]
fn step_event_gate_time_bit_packing() {
    let mut blob = make_seq_blob();
    let step_off = 34;
    // Gate time 72 with trigger on.
    blob[step_off + 16] = 72 | 0x80;
    let params = SequencerParams::from_bytes(&blob).unwrap();
    assert_eq!(params.steps[0].gate_time(0), 72);
    assert!(params.steps[0].trigger_switch(0));

    // Round-trip.
    let out = params.to_bytes();
    assert_eq!(out[step_off + 16], 72 | 0x80);
}

#[test]
fn step_event_motion_data_round_trip() {
    let mut blob = make_seq_blob();
    let step_off = 34;
    // Write some motion data to slot 0 of step 0.
    let motion_off = step_off + 24;
    for i in 0..7 {
        blob[motion_off + i] = (i + 1) as u8;
    }
    let params = SequencerParams::from_bytes(&blob).unwrap();
    assert_eq!(params.steps[0].motion_data[0], [1, 2, 3, 4, 5, 6, 7]);
    let out = params.to_bytes();
    assert_eq!(&out[motion_off..motion_off + 7], &[1, 2, 3, 4, 5, 6, 7]);
}

#[test]
fn seq_params_empty_sequencer() {
    let blob = vec![0u8; SequencerParams::SIZE];
    let params = SequencerParams::from_bytes(&blob).unwrap();
    assert_eq!(params.bpm, 0);
    assert_eq!(params.step_length, 0);
    assert_eq!(params.active_steps, 0);
    assert_eq!(params.steps_on, 0);
    for step in &params.steps {
        assert_eq!(step.notes, [0; 8]);
        assert_eq!(step.velocities, [0; 8]);
    }
    // Round-trip.
    let out = params.to_bytes();
    assert_eq!(&out[..], &blob[..]);
}

#[test]
fn seq_params_default_round_trips() {
    let params = SequencerParams::default();
    let bytes = params.to_bytes();
    let recovered = SequencerParams::from_bytes(&bytes).unwrap();
    assert_eq!(params, recovered);
}

#[test]
fn step_event_too_short() {
    let short = [0u8; 10];
    assert!(StepEvent::from_bytes(&short).is_err());
}

#[test]
fn step_event_write_to() {
    let step = StepEvent {
        notes: [60, 64, 67, 0, 0, 0, 0, 0],
        velocities: [100, 80, 60, 0, 0, 0, 0, 0],
        gate_times: [54, 54, 54, 0, 0, 0, 0, 0],
        motion_data: [[0; 7]; 4],
    };
    let mut buf = Vec::new();
    step.write_to(&mut buf);
    assert_eq!(buf.len(), StepEvent::SIZE);
    assert_eq!(buf[0], 60);
    assert_eq!(buf[8], 100);
    assert_eq!(buf[16], 54);
}

#[test]
fn step_event_default() {
    let step = StepEvent::default();
    assert_eq!(step.notes, [0; 8]);
    assert_eq!(step.velocities, [0; 8]);
    assert_eq!(step.gate_times, [0; 8]);
    assert_eq!(step.motion_data, [[0; 7]; 4]);
}

#[test]
fn motion_slot_config_default() {
    let slot = MotionSlotConfig::default();
    assert_eq!(slot.parameter_id, 0);
}

#[test]
fn seq_params_multiple_steps_with_data() {
    let mut blob = make_seq_blob();
    // Put notes in steps 0, 7, and 15.
    for (step_idx, note) in [(0, 60u8), (7, 72), (15, 84)] {
        let off = 34 + step_idx * StepEvent::SIZE;
        blob[off] = note;
        blob[off + 8] = 127; // max velocity
    }
    let params = SequencerParams::from_bytes(&blob).unwrap();
    assert_eq!(params.steps[0].notes[0], 60);
    assert_eq!(params.steps[7].notes[0], 72);
    assert_eq!(params.steps[15].notes[0], 84);
    assert_eq!(params.steps[0].velocities[0], 127);
}

#[test]
fn seq_params_all_motion_slots() {
    let mut blob = make_seq_blob();
    for i in 0..4 {
        write_u16_le(&mut blob, 18 + i * 2, (i as u16 + 1) * 0x10);
        write_u16_le(&mut blob, 26 + i * 2, 0xFFFF);
    }
    let params = SequencerParams::from_bytes(&blob).unwrap();
    for i in 0..4 {
        assert_eq!(params.motion_slots[i].parameter_id, (i as u16 + 1) * 0x10);
        assert_eq!(params.motion_slot_steps[i], 0xFFFF);
    }
}
