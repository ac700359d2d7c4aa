//! Concrete instances of the library's laws, and checks of the values that
//! the outside calls compute.

use std::time::Duration;

use minilogue_xd::codec::{decode_7bit, encode_7bit};
use minilogue_xd::error::{Error, SysexError};
use minilogue_xd::message::types::U4;
use minilogue_xd::message::{ControlChange, MidiMessage, ProgramChange, ToMidiBytes, U7};
use minilogue_xd::sysex::frame::{build_status, build_sysex, parse_sysex, SysexStatus, GLOBAL_DATA_DUMP};
use minilogue_xd::sysex::global::{build_global_dump, parse_global_dump, GlobalParams};
use minilogue_xd::sysex::helpers::{read_10bit, write_10bit};
use minilogue_xd::sysex::program::{
    build_current_program_dump, build_program_dump, parse_current_program_dump, parse_program_dump, ProgramData,
    ProgramNumber, SequencerParams, SynthParams,
};
use minilogue_xd::sysex::transaction::{check_ack, check_raw_reply, check_reply, SysexTransaction};
use minilogue_xd::sysex::tuning::{
    build_mts_bulk_dump, build_mts_single_note_change, parse_mts_bulk_dump, parse_mts_single_note_change, CentOffset,
    UserScale,
};
use minilogue_xd::sysex::user_module::{
    compute_crc32, UserModuleId, UserModuleInfo, UserSlotData, UserSlotStatus,
};
use minilogue_xd::transport::{MidiInput, MockMidiInput, MockOutput};

fn ch(n: u8) -> U4 {
    U4::new(n).unwrap()
}

/// A program blob with bits that the parameters do not model: reserved
/// sequencer bytes and the upper bits of 10-bit high bytes.
fn blob_with_hidden_bits() -> Vec<u8> {
    let mut bytes = ProgramData::default().to_bytes();
    bytes[156] = 0x11;
    bytes[161] = 0x7E;
    bytes[61] |= 0xF4;
    bytes[148] |= 0xA0;
    bytes
}

#[test]
fn law_codec_round_trip_concrete() {
    let data: Vec<u8> = (0..=255u8).collect();
    let wire = encode_7bit(&data);
    assert_eq!(wire.len(), 256 + 37);
    assert!(wire.iter().all(|b| b & 0x80 == 0));
    assert_eq!(decode_7bit(&wire).unwrap(), data);
}

#[test]
fn law_frame_round_trip_concrete() {
    let data = vec![0x00, 0x80, 0xFF, 0x7F, 0x01];
    let msg = build_sysex(ch(9), 0x51, &data);
    let frame = parse_sysex(&msg).unwrap();
    assert_eq!(frame.channel, ch(9));
    assert_eq!(frame.function_id, 0x51);
    assert_eq!(frame.data, data);
}

#[test]
fn law_program_rewrite_keeps_hidden_bits() {
    let bytes = blob_with_hidden_bits();
    let data = ProgramData::from_bytes(&bytes).unwrap();
    assert_eq!(data.to_bytes(), bytes);
}

#[test]
fn law_program_new_writes_over_zeros() {
    let bytes = blob_with_hidden_bits();
    let parsed = ProgramData::from_bytes(&bytes).unwrap();
    let fresh = ProgramData::new(parsed.synth.clone(), parsed.sequencer.clone());
    let out = fresh.to_bytes();
    assert_eq!(out[156], 0);
    assert_eq!(out[61] & 0xFC, 0);
    // Equal data, although the bytes differ in the hidden bits.
    assert_eq!(fresh, parsed);
    assert_eq!(ProgramData::from_bytes(&out).unwrap(), parsed);
}

#[test]
fn law_synth_round_trip_concrete() {
    let mut synth = SynthParams::default();
    synth.cutoff = 777;
    synth.sync = true;
    synth.key_trig = true;
    let base = blob_with_hidden_bits();
    let mut base_synth = [0u8; 156];
    base_synth.copy_from_slice(&base[..156]);
    let written = synth.to_bytes_with_base(&base_synth);
    assert_eq!(SynthParams::from_bytes(&written).unwrap(), synth);
    assert_eq!(written[61] & 0xFC, base[61] & 0xFC);
}

#[test]
fn law_sequencer_round_trip_concrete() {
    let mut seq = SequencerParams::default();
    seq.bpm = 1375;
    seq.steps[3].notes[2] = 64;
    seq.steps[3].set_gate_time(2, 40, true);
    let base = vec![9u8; 868];
    let written = seq.to_bytes_with_base(&base);
    assert_eq!(&written[..6], &base[..6]);
    assert_eq!(SequencerParams::from_bytes(&written).unwrap(), seq);
    assert_eq!(seq.steps[3].gate_time(2), 40);
    assert!(seq.steps[3].trigger_switch(2));
}

#[test]
fn law_program_dumps_round_trip() {
    let mut data = ProgramData::default();
    data.synth.resonance = 1000;
    let current = build_current_program_dump(ch(4), &data);
    assert_eq!(parse_current_program_dump(&current).unwrap(), data);
    let pn = ProgramNumber::new(321).unwrap();
    let stored = build_program_dump(ch(4), pn, &data);
    let (n, d) = parse_program_dump(&stored).unwrap();
    assert_eq!(n, pn);
    assert_eq!(d, data);
}

#[test]
fn law_program_number_decomposition() {
    for n in 0..=499u16 {
        let pn = ProgramNumber::new(n).unwrap();
        assert_eq!(u16::from(pn.bank()) * 100 + u16::from(pn.slot_in_bank()), n);
    }
    assert!(matches!(ProgramNumber::new(500), Err(Error::Sysex(SysexError::InvalidProgramNumber(500)))));
}

#[test]
fn law_global_dump_round_trip_concrete() {
    let params = GlobalParams::default();
    let msg = build_global_dump(ch(15), &params);
    assert_eq!(msg[6], GLOBAL_DATA_DUMP);
    assert_eq!(parse_global_dump(&msg).unwrap(), params);
}

#[test]
fn law_ten_bit_write_keeps_upper_bits() {
    let mut bytes = [0u8, 0xA8];
    write_10bit(&mut bytes, 0, 0x2C5);
    assert_eq!(read_10bit(&bytes, 0), 0x2C5);
    assert_eq!(bytes[1] & 0xFC, 0xA8);
}

#[test]
fn law_cent_offset_round_trip_concrete() {
    let c = CentOffset { semitone: 61, fraction: 0x2ABC };
    assert_eq!(CentOffset::from_bytes(&c.to_bytes()), c);
    assert_eq!(c.to_bytes(), [61, 0x55, 0x3C]);
}

#[test]
fn law_mts_bulk_round_trip_and_checksum() {
    let mut notes = UserScale::equal_temperament();
    notes.0[5] = CentOffset { semitone: 5, fraction: 12345 };
    let mut msg = build_mts_bulk_dump(0x7F, 3, "Just Intonation Scale", &notes);
    assert_eq!(msg.len(), 408);
    assert_eq!(&msg[6..22], b"Just Intonation ");
    assert_eq!(parse_mts_bulk_dump(&msg).unwrap(), notes);
    let stored = msg[406];
    msg[406] ^= 0x01;
    match parse_mts_bulk_dump(&msg) {
        Err(Error::Sysex(SysexError::ChecksumMismatch { expected, actual })) => {
            assert_eq!(expected, stored);
            assert_eq!(actual, stored ^ 0x01);
        },
        other => panic!("expected a checksum mismatch, got {other:?}"),
    }
}

#[test]
fn law_mts_single_note_round_trip_concrete() {
    let changes = vec![(60u8, CentOffset { semitone: 60, fraction: 8192 }), (61, CentOffset { semitone: 62, fraction: 1 })];
    let msg = build_mts_single_note_change(1, 2, &changes);
    assert_eq!(msg.len(), 8 + 2 * 4);
    assert_eq!(parse_mts_single_note_change(&msg).unwrap(), changes);
}

#[test]
fn law_mts_single_note_sends_at_most_127() {
    let changes: Vec<(u8, CentOffset)> = (0..200u16).map(|k| ((k % 128) as u8, CentOffset { semitone: 1, fraction: 2 })).collect();
    let msg = build_mts_single_note_change(0, 0, &changes);
    assert_eq!(msg[6], 127);
    assert_eq!(parse_mts_single_note_change(&msg).unwrap(), changes[..127].to_vec());
}

#[test]
fn crc32_standard_check_value() {
    assert_eq!(compute_crc32(b"123456789"), 0xCBF4_3926);
    assert_ne!(compute_crc32(&[1, 2, 3]), compute_crc32(&[1, 2, 4]));
}

#[test]
fn law_slot_data_round_trip_concrete() {
    let d = UserSlotData::from_payload(vec![0xDE, 0xAD, 0xBE, 0xEF]);
    assert_eq!(d.crc32, compute_crc32(&[0xDE, 0xAD, 0xBE, 0xEF]));
    assert_eq!(d.payload_size, 4);
    let back = UserSlotData::from_bytes(&d.to_bytes()).unwrap();
    assert_eq!(back, d);
}

#[test]
fn crc_mismatch_reports_both_values() {
    let d = UserSlotData::from_payload(vec![1, 2, 3]);
    let mut bytes = d.to_bytes();
    bytes[8] = 9;
    let err = UserSlotData::from_bytes(&bytes).unwrap_err();
    let computed = compute_crc32(&[9, 2, 3]);
    assert!(matches!(err, Error::Sysex(SysexError::Crc32Mismatch { expected, actual }) if expected == d.crc32 && actual == computed));
    let text = err.to_string();
    assert!(text.contains(&format!("{:08X}", d.crc32)), "got: {text}");
}

#[test]
fn status_name_decodes_invalid_utf8_with_replacement() {
    let mut blob = vec![0u8; 32];
    blob[1] = 4;
    blob[16] = b'O';
    blob[17] = 0xFF;
    blob[18] = b'k';
    let status = UserSlotStatus::from_bytes(&blob).unwrap();
    assert_eq!(status.program_name, "O\u{FFFD}k");
    assert_eq!(status.module_id, UserModuleId::Osc);
}

#[test]
fn law_status_round_trip_concrete() {
    let s = UserSlotStatus {
        platform_id: 2,
        module_id: UserModuleId::DelayFx,
        api_version: (1, 2, 3),
        developer_id: 0x0102_0304,
        program_id: 0xA0B0_C0D0,
        program_version: (4, 5, 6),
        program_name: "Échoes".to_string(),
    };
    assert_eq!(UserSlotStatus::from_bytes(&s.to_bytes()).unwrap(), s);
}

#[test]
fn law_module_info_round_trip_concrete() {
    let info = UserModuleInfo { max_slot_size: 0x0001_2345, max_program_size: 0xFFFF_FFFF, available_slot_count: 7 };
    assert_eq!(UserModuleInfo::from_bytes(&info.to_bytes()).unwrap(), info);
}

#[test]
fn check_reply_classifies_replies() {
    let nak = build_status(ch(0), SysexStatus::UserSlotError);
    assert!(matches!(
        check_reply(&nak, GLOBAL_DATA_DUMP),
        Err(Error::Sysex(SysexError::NakReceived(SysexStatus::UserSlotError)))
    ));
    let other = build_sysex(ch(0), 0x40, &[1, 2]);
    assert!(matches!(check_reply(&other, GLOBAL_DATA_DUMP), Err(Error::Sysex(SysexError::UnexpectedResponse(0x40)))));
    assert_eq!(check_reply(&other, 0x40).unwrap().data, vec![1, 2]);
    let ack = build_status(ch(0), SysexStatus::DataLoadCompleted);
    assert!(check_ack(&ack).is_ok());
    assert!(matches!(check_ack(&other), Err(Error::Sysex(SysexError::UnexpectedResponse(0x40)))));
    assert!(matches!(check_raw_reply(nak), Err(Error::Sysex(SysexError::NakReceived(_)))));
    assert_eq!(check_raw_reply(other.clone()).unwrap(), other);
}

#[test]
fn transaction_skips_realtime_messages() {
    let mut output = MockOutput::new();
    let mut input = MockMidiInput::new();
    let params = GlobalParams::default();
    input.queue_responses(vec![vec![0xF8], vec![0xFE], build_global_dump(ch(2), &params)]);
    let mut txn = SysexTransaction::new(&mut output, &mut input, ch(2)).with_timeout(Duration::from_secs(2));
    assert_eq!(txn.request_global().unwrap(), params);
    assert_eq!(input.remaining(), 0);
    assert_eq!(output.messages().len(), 1);
}

#[test]
fn mock_input_is_first_in_first_out() {
    let mut input = MockMidiInput::new();
    input.queue_response(vec![1]);
    input.queue_responses(vec![vec![2], vec![3]]);
    assert_eq!(input.receive(Duration::from_millis(1)).unwrap(), Some(vec![1]));
    assert_eq!(input.receive(Duration::from_millis(1)).unwrap(), Some(vec![2]));
    assert_eq!(input.receive(Duration::from_millis(1)).unwrap(), Some(vec![3]));
    assert_eq!(input.receive(Duration::from_millis(1)).unwrap(), None);
}

#[test]
fn error_messages() {
    let e = Error::Sysex(SysexError::InvalidHeader { offset: 3, found: 0xAB });
    assert_eq!(e.to_string(), "SysEx error: invalid SysEx header: byte 0xAB at offset 3");
    let e = Error::OutOfRange { name: "U4", value: -16, min: 0, max: 15 };
    assert_eq!(e.to_string(), "U4 value -16 out of range 0..=15");
    let e = Error::Sysex(SysexError::Timeout(Duration::from_millis(1500)));
    assert_eq!(e.to_string(), "SysEx error: timed out waiting for SysEx response after 1.5s");
}

#[test]
fn midi_message_bytes() {
    let cc = MidiMessage::ControlChange(ControlChange { channel: ch(3), controller: U7::new(43).unwrap(), value: U7::new(127).unwrap() });
    assert_eq!(cc.to_midi_bytes(), vec![0xB3, 43, 127]);
    let pc = MidiMessage::ProgramChange(ProgramChange { channel: ch(15), program: U7::new(5).unwrap() });
    assert_eq!(pc.to_midi_bytes(), vec![0xCF, 5]);
}
