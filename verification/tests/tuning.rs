//! Tests of the tuning tables and the MTS messages.
#![allow(unused_imports)]

use minilogue_xd::sysex::frame;
use minilogue_xd::error::{Error, SysexError};
use minilogue_xd::message::types::U4;
use minilogue_xd::sysex::frame::{build_sysex, USER_OCTAVE_DUMP, USER_OCTAVE_REQUEST, USER_SCALE_DUMP, USER_SCALE_REQUEST};
use minilogue_xd::sysex::tuning::{
    build_mts_bulk_dump, build_mts_single_note_change, build_user_octave_dump, build_user_octave_request,
    build_user_scale_dump, build_user_scale_request, parse_mts_bulk_dump, parse_mts_single_note_change,
    parse_user_octave_dump, parse_user_scale_dump, CentOffset, UserOctave, UserScale,
};

fn ch(n: u8) -> U4 {
    U4::new(n).unwrap()
}

// ---------------------------------------------------------------
// CentOffset
// ---------------------------------------------------------------

#[test]
fn cent_offset_from_bytes_zero() {
    let co = CentOffset::from_bytes(&[0, 0, 0]);
    assert_eq!(co.semitone, 0);
    assert_eq!(co.fraction, 0);
}

#[test]
fn cent_offset_from_bytes_max_fraction() {
    // fraction = 0x7F << 7 | 0x7F = 16383
    let co = CentOffset::from_bytes(&[60, 0x7F, 0x7F]);
    assert_eq!(co.semitone, 60);
    assert_eq!(co.fraction, 16383);
}

#[test]
fn cent_offset_to_bytes_roundtrip() {
    let co = CentOffset {
        semitone: 69,
        fraction: 8192,
    };
    let bytes = co.to_bytes();
    let co2 = CentOffset::from_bytes(&bytes);
    assert_eq!(co, co2);
}

#[test]
fn cent_offset_to_bytes_roundtrip_all_fractions() {
    for frac in (0..=16383).step_by(127) {
        let co = CentOffset {
            semitone: 42,
            fraction: frac,
        };
        let bytes = co.to_bytes();
        let co2 = CentOffset::from_bytes(&bytes);
        assert_eq!(co, co2, "roundtrip failed for fraction {frac}");
    }
}

#[test]
fn cent_offset_fraction_masks_to_14bit() {
    let co = CentOffset {
        semitone: 0,
        fraction: 0xFFFF,
    };
    let bytes = co.to_bytes();
    let co2 = CentOffset::from_bytes(&bytes);
    assert_eq!(co2.fraction, 16383);
}

// ---------------------------------------------------------------
// UserScale
// ---------------------------------------------------------------

#[test]
fn user_scale_blob_size() {
    assert_eq!(UserScale::BLOB_SIZE, 384);
}

#[test]
fn user_scale_equal_temperament() {
    let scale = UserScale::equal_temperament();
    for (i, note) in scale.0.iter().enumerate() {
        assert_eq!(note.semitone, i as u8, "note {i} semitone");
        assert_eq!(note.fraction, 0, "note {i} fraction");
    }
}

#[test]
fn user_scale_roundtrip() {
    let scale = UserScale::equal_temperament();
    let blob = scale.to_bytes();
    assert_eq!(blob.len(), UserScale::BLOB_SIZE);
    let scale2 = UserScale::from_bytes(&blob).unwrap();
    assert_eq!(scale, scale2);
}

#[test]
fn user_scale_roundtrip_nonzero_fractions() {
    let mut scale = UserScale::equal_temperament();
    for (i, note) in scale.0.iter_mut().enumerate() {
        note.fraction = (i as u16 * 128) & 0x3FFF;
    }
    let blob = scale.to_bytes();
    let scale2 = UserScale::from_bytes(&blob).unwrap();
    assert_eq!(scale, scale2);
}

#[test]
fn user_scale_from_bytes_too_short() {
    let data = vec![0u8; 383];
    assert!(UserScale::from_bytes(&data).is_err());
}

#[test]
fn user_scale_from_bytes_extra_data_ok() {
    let data = vec![0u8; 400];
    assert!(UserScale::from_bytes(&data).is_ok());
}

// ---------------------------------------------------------------
// UserOctave
// ---------------------------------------------------------------

#[test]
fn user_octave_blob_size() {
    assert_eq!(UserOctave::BLOB_SIZE, 36);
}

#[test]
fn user_octave_equal_temperament() {
    let octave = UserOctave::equal_temperament();
    for (i, note) in octave.0.iter().enumerate() {
        assert_eq!(note.semitone, i as u8, "note {i} semitone");
        assert_eq!(note.fraction, 0, "note {i} fraction");
    }
}

#[test]
fn user_octave_roundtrip() {
    let octave = UserOctave::equal_temperament();
    let blob = octave.to_bytes();
    assert_eq!(blob.len(), UserOctave::BLOB_SIZE);
    let octave2 = UserOctave::from_bytes(&blob).unwrap();
    assert_eq!(octave, octave2);
}

#[test]
fn user_octave_from_bytes_too_short() {
    let data = vec![0u8; 35];
    assert!(UserOctave::from_bytes(&data).is_err());
}

// ---------------------------------------------------------------
// SysEx wrappers
// ---------------------------------------------------------------

#[test]
fn build_user_scale_request_format() {
    let msg = build_user_scale_request(ch(0));
    assert_eq!(msg.len(), 8);
    assert_eq!(msg[6], frame::USER_SCALE_REQUEST);
}

#[test]
fn user_scale_sysex_roundtrip() {
    let scale = UserScale::equal_temperament();
    let msg = build_user_scale_dump(ch(5), &scale);
    let scale2 = parse_user_scale_dump(&msg).unwrap();
    assert_eq!(scale, scale2);
}

#[test]
fn parse_user_scale_dump_wrong_function_id() {
    let msg = frame::build_sysex(ch(0), frame::USER_OCTAVE_DUMP, &[0u8; 384]);
    assert!(parse_user_scale_dump(&msg).is_err());
}

#[test]
fn build_user_octave_request_format() {
    let msg = build_user_octave_request(ch(3));
    assert_eq!(msg.len(), 8);
    assert_eq!(msg[6], frame::USER_OCTAVE_REQUEST);
}

#[test]
fn user_octave_sysex_roundtrip() {
    let octave = UserOctave::equal_temperament();
    let msg = build_user_octave_dump(ch(7), &octave);
    let octave2 = parse_user_octave_dump(&msg).unwrap();
    assert_eq!(octave, octave2);
}

#[test]
fn parse_user_octave_dump_wrong_function_id() {
    let msg = frame::build_sysex(ch(0), frame::USER_SCALE_DUMP, &[0u8; 36]);
    assert!(parse_user_octave_dump(&msg).is_err());
}

#[test]
fn user_scale_sysex_roundtrip_with_data() {
    let mut scale = UserScale::equal_temperament();
    scale.0[69].fraction = 4096;
    scale.0[0].semitone = 12;
    let msg = build_user_scale_dump(ch(0), &scale);
    let scale2 = parse_user_scale_dump(&msg).unwrap();
    assert_eq!(scale, scale2);
}

// ---------------------------------------------------------------
// MTS Bulk Tuning Dump
// ---------------------------------------------------------------

#[test]
fn mts_bulk_dump_length() {
    let scale = UserScale::equal_temperament();
    let msg = build_mts_bulk_dump(0x7F, 0, "Test Scale", &scale);
    assert_eq!(msg.len(), 408);
}

#[test]
fn mts_bulk_dump_header() {
    let scale = UserScale::equal_temperament();
    let msg = build_mts_bulk_dump(0x10, 5, "Hello", &scale);
    assert_eq!(msg[0], 0xF0);
    assert_eq!(msg[1], 0x7E);
    assert_eq!(msg[2], 0x10);
    assert_eq!(msg[3], 0x08);
    assert_eq!(msg[4], 0x01);
    assert_eq!(msg[5], 5);
    assert_eq!(*msg.last().unwrap(), 0xF7);
}

#[test]
fn mts_bulk_dump_name_padding() {
    let scale = UserScale::equal_temperament();
    let msg = build_mts_bulk_dump(0, 0, "AB", &scale);
    assert_eq!(msg[6], b'A');
    assert_eq!(msg[7], b'B');
    assert_eq!(msg[8], b' ');
    assert_eq!(msg[21], b' ');
}

#[test]
fn mts_bulk_dump_roundtrip() {
    let mut scale = UserScale::equal_temperament();
    scale.0[60].fraction = 8192;
    let msg = build_mts_bulk_dump(0x7F, 0, "Round Trip", &scale);
    let scale2 = parse_mts_bulk_dump(&msg).unwrap();
    assert_eq!(scale, scale2);
}

#[test]
fn mts_bulk_dump_checksum_verification() {
    let scale = UserScale::equal_temperament();
    let mut msg = build_mts_bulk_dump(0x7F, 0, "Test", &scale);
    // Corrupt one data byte.
    msg[30] ^= 0x01;
    assert!(parse_mts_bulk_dump(&msg).is_err());
}

#[test]
fn mts_bulk_dump_too_short() {
    assert!(parse_mts_bulk_dump(&[0xF0, 0x7E]).is_err());
}

#[test]
fn mts_bulk_dump_wrong_header() {
    let mut msg = vec![0u8; 408];
    msg[0] = 0xF0;
    msg[1] = 0x7D; // wrong
    msg[407] = 0xF7;
    assert!(parse_mts_bulk_dump(&msg).is_err());
}

#[test]
fn mts_bulk_dump_wrong_sub_ids() {
    let mut msg = vec![0u8; 408];
    msg[0] = 0xF0;
    msg[1] = 0x7E;
    msg[3] = 0x09; // wrong
    msg[407] = 0xF7;
    assert!(parse_mts_bulk_dump(&msg).is_err());
}

#[test]
fn mts_bulk_dump_missing_f7() {
    let scale = UserScale::equal_temperament();
    let mut msg = build_mts_bulk_dump(0x7F, 0, "Test", &scale);
    let last = msg.len() - 1;
    msg[last] = 0x00;
    assert!(parse_mts_bulk_dump(&msg).is_err());
}

// ---------------------------------------------------------------
// MTS Single Note Tuning Change
// ---------------------------------------------------------------

#[test]
fn mts_single_note_change_empty() {
    let msg = build_mts_single_note_change(0x7F, 0, &[]);
    assert_eq!(msg.len(), 8);
    assert_eq!(msg[6], 0); // count = 0
}

#[test]
fn mts_single_note_change_roundtrip_one() {
    let co = CentOffset {
        semitone: 69,
        fraction: 4096,
    };
    let changes = vec![(60u8, co)];
    let msg = build_mts_single_note_change(0x7F, 3, &changes);
    let parsed = parse_mts_single_note_change(&msg).unwrap();
    assert_eq!(parsed.len(), 1);
    assert_eq!(parsed[0].0, 60);
    assert_eq!(parsed[0].1, co);
}

#[test]
fn mts_single_note_change_roundtrip_multiple() {
    let changes: Vec<(u8, CentOffset)> = (0..10)
        .map(|i| {
            (
                i * 12,
                CentOffset {
                    semitone: i * 12,
                    fraction: u16::from(i) * 1000,
                },
            )
        })
        .collect();
    let msg = build_mts_single_note_change(0x00, 0, &changes);
    let parsed = parse_mts_single_note_change(&msg).unwrap();
    assert_eq!(parsed.len(), changes.len());
    for (i, (key, co)) in parsed.iter().enumerate() {
        assert_eq!(*key, changes[i].0, "key {i}");
        assert_eq!(*co, changes[i].1, "offset {i}");
    }
}

#[test]
fn mts_single_note_change_header() {
    let msg = build_mts_single_note_change(0x10, 7, &[]);
    assert_eq!(msg[0], 0xF0);
    assert_eq!(msg[1], 0x7E);
    assert_eq!(msg[2], 0x10);
    assert_eq!(msg[3], 0x08);
    assert_eq!(msg[4], 0x02);
    assert_eq!(msg[5], 7);
}

#[test]
fn mts_single_note_change_too_short() {
    assert!(parse_mts_single_note_change(&[0xF0, 0x7E]).is_err());
}

#[test]
fn mts_single_note_change_wrong_header() {
    let msg = vec![0xF0, 0x7D, 0x00, 0x08, 0x02, 0x00, 0x00, 0xF7];
    assert!(parse_mts_single_note_change(&msg).is_err());
}

#[test]
fn mts_single_note_change_wrong_sub_ids() {
    let msg = vec![0xF0, 0x7E, 0x00, 0x08, 0x03, 0x00, 0x00, 0xF7];
    assert!(parse_mts_single_note_change(&msg).is_err());
}

#[test]
fn mts_single_note_change_truncated_data() {
    // Claims 1 change but only has F7 after count.
    let msg = vec![0xF0, 0x7E, 0x00, 0x08, 0x02, 0x00, 0x01, 0xF7];
    assert!(parse_mts_single_note_change(&msg).is_err());
}

#[test]
fn mts_single_note_change_missing_f7() {
    let msg = vec![0xF0, 0x7E, 0x00, 0x08, 0x02, 0x00, 0x00, 0x00];
    assert!(parse_mts_single_note_change(&msg).is_err());
}

// ---------------------------------------------------------------
// Trait derivations
// ---------------------------------------------------------------

#[test]
fn cent_offset_debug_clone_copy() {
    let co = CentOffset {
        semitone: 60,
        fraction: 0,
    };
    let co2 = co; // Copy
    assert_eq!(co, co2);
    let _dbg = format!("{co:?}");
}

#[test]
fn user_scale_debug_clone() {
    let scale = UserScale::equal_temperament();
    let scale2 = scale.clone();
    assert_eq!(scale, scale2);
    let _dbg = format!("{scale:?}");
}

#[test]
fn user_octave_debug_clone() {
    let octave = UserOctave::equal_temperament();
    let octave2 = octave.clone();
    assert_eq!(octave, octave2);
    let _dbg = format!("{octave:?}");
}

#[test]
fn mts_bulk_dump_rejects_every_single_bit_flip() {
    let scale = UserScale::equal_temperament();
    let msg = build_mts_bulk_dump(0x7F, 0, "Flip", &scale);
    assert!(parse_mts_bulk_dump(&msg).is_ok());
    for i in 2..406 {
        for k in 0..7 {
            let mut bad = msg.clone();
            bad[i] ^= 1 << k;
            assert!(parse_mts_bulk_dump(&bad).is_err(), "byte {i} bit {k}");
        }
    }
}
