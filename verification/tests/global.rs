//! Tests of the global parameter blob and its dumps.
#![allow(unused_imports)]

use minilogue_xd::error::{Error, SysexError};
use minilogue_xd::message::types::U4;
use minilogue_xd::sysex::enums::{ArpRate, ClockSource, DamperPolarity, KnobMode, MidiRoute, ParameterDisp, PolyChainMode, ShiftFunction, StepResolution, SyncPolarity, SyncUnit, VelocityCurve};
use minilogue_xd::sysex::frame::{self, build_sysex, GLOBAL_DATA_DUMP, GLOBAL_DATA_REQUEST};
use minilogue_xd::sysex::global::{build_global_dump, build_global_request, parse_global_dump, FavoriteEntry, GlobalParams};

fn ch(n: u8) -> U4 {
    U4::new(n).unwrap()
}

/// Build a minimal valid GLOB blob with all zeros except the magic.
fn minimal_glob_blob() -> Vec<u8> {
    let mut blob = vec![0u8; GlobalParams::BLOB_SIZE];
    blob[0..4].copy_from_slice(b"GLOB");
    blob
}

// ---------------------------------------------------------------
// FavoriteEntry
// ---------------------------------------------------------------

#[test]
fn favorite_entry_default() {
    let f = FavoriteEntry::default();
    assert_eq!(f.lower, 0);
    assert_eq!(f.upper, 0);
}

#[test]
fn favorite_entry_clone_copy_eq() {
    let f = FavoriteEntry {
        lower: 10,
        upper: 20,
    };
    let f2 = f; // Copy
    assert_eq!(f, f2);
    let _dbg = format!("{f:?}");
}

// ---------------------------------------------------------------
// GlobalParams::from_bytes — valid
// ---------------------------------------------------------------

#[test]
fn from_bytes_minimal() {
    let blob = minimal_glob_blob();
    let params = GlobalParams::from_bytes(&blob).unwrap();
    assert_eq!(params.master_tune, 0);
    assert_eq!(params.transpose, 0);
    assert!(!params.metronome);
    assert_eq!(params.damper_polarity, DamperPolarity::Normal);
    assert!(!params.local_sw);
    assert_eq!(params.velocity_curve, VelocityCurve::Type1);
    assert_eq!(params.knob_mode, KnobMode::Jump);
    assert_eq!(params.midi_channel, ch(0));
    assert_eq!(params.brightness, 0);
    assert_eq!(params.poly_chain, PolyChainMode::Off);
    assert!(!params.oscilloscope);
    assert_eq!(params.shift_function, ShiftFunction::Favorite);
}

#[test]
fn from_bytes_all_fields() {
    let mut blob = minimal_glob_blob();
    blob[4] = 100; // master_tune max
    blob[5] = 24; // transpose max
    blob[6] = 1; // metronome on
    blob[7] = 1; // damper reversed
    blob[8] = 1; // local on
    blob[9] = 8; // Const127
    blob[10] = 2; // Scale
    blob[11] = 1; // Eighth
    blob[12] = 1; // Eighth
    blob[13] = 1; // Fall
    blob[14] = 1; // Fall
    blob[15] = 1; // USB Only
    blob[16] = 15; // channel 15
    blob[17] = 2; // Internal
    blob[18] = 1;
    blob[19] = 1;
    blob[20] = 1;
    blob[21] = 1;
    blob[22] = 1;
    blob[23] = 1;
    blob[24] = 1;
    blob[25] = 1; // All
    blob[26] = 9; // brightness max
    blob[27] = 1; // auto power off
                  // favorites
    for i in 0..16 {
        blob[28 + i * 2] = (i + 1) as u8;
        blob[28 + i * 2 + 1] = (i + 100) as u8;
    }
    blob[60] = 2; // Slave
    blob[61] = 1; // oscilloscope on
    blob[62] = 1; // ActiveStep

    let params = GlobalParams::from_bytes(&blob).unwrap();
    assert_eq!(params.master_tune, 100);
    assert_eq!(params.transpose, 24);
    assert!(params.metronome);
    assert_eq!(params.damper_polarity, DamperPolarity::Reversed);
    assert!(params.local_sw);
    assert_eq!(params.velocity_curve, VelocityCurve::Const127);
    assert_eq!(params.knob_mode, KnobMode::Scale);
    assert_eq!(params.sync_in_unit, SyncUnit::Eighth);
    assert_eq!(params.sync_out_unit, SyncUnit::Eighth);
    assert_eq!(params.sync_in_polarity, SyncPolarity::Fall);
    assert_eq!(params.sync_out_polarity, SyncPolarity::Fall);
    assert_eq!(params.midi_route, MidiRoute::UsbOnly);
    assert_eq!(params.midi_channel, ch(15));
    assert_eq!(params.clock_source, ClockSource::Internal);
    assert!(params.en_rx_transport);
    assert!(params.midi_rx_prog_chg);
    assert!(params.midi_rx_cc);
    assert!(params.midi_rx_pitch_bend);
    assert!(params.midi_tx_prog_chg);
    assert!(params.midi_tx_cc);
    assert!(params.midi_tx_pitch_bend);
    assert_eq!(params.parameter_disp, ParameterDisp::All);
    assert_eq!(params.brightness, 9);
    assert!(params.auto_power_off);
    for i in 0..16 {
        assert_eq!(params.favorites[i].lower, (i + 1) as u8);
        assert_eq!(params.favorites[i].upper, (i + 100) as u8);
    }
    assert_eq!(params.poly_chain, PolyChainMode::Slave);
    assert!(params.oscilloscope);
    assert_eq!(params.shift_function, ShiftFunction::ActiveStep);
}

// ---------------------------------------------------------------
// GlobalParams::from_bytes — errors
// ---------------------------------------------------------------

#[test]
fn from_bytes_too_short() {
    let blob = vec![0u8; 10];
    assert!(GlobalParams::from_bytes(&blob).is_err());
}

#[test]
fn from_bytes_wrong_magic() {
    let mut blob = vec![0u8; GlobalParams::BLOB_SIZE];
    blob[0..4].copy_from_slice(b"PROG");
    assert!(GlobalParams::from_bytes(&blob).is_err());
}

#[test]
fn from_bytes_invalid_enum_velocity() {
    let mut blob = minimal_glob_blob();
    blob[9] = 99; // invalid VelocityCurve
    assert!(GlobalParams::from_bytes(&blob).is_err());
}

#[test]
fn from_bytes_invalid_enum_knob_mode() {
    let mut blob = minimal_glob_blob();
    blob[10] = 5; // invalid KnobMode
    assert!(GlobalParams::from_bytes(&blob).is_err());
}

#[test]
fn from_bytes_invalid_channel() {
    let mut blob = minimal_glob_blob();
    blob[16] = 16; // invalid U4
    assert!(GlobalParams::from_bytes(&blob).is_err());
}

#[test]
fn from_bytes_invalid_clock_source() {
    let mut blob = minimal_glob_blob();
    blob[17] = 5; // invalid ClockSource
    assert!(GlobalParams::from_bytes(&blob).is_err());
}

#[test]
fn from_bytes_invalid_poly_chain() {
    let mut blob = minimal_glob_blob();
    blob[60] = 10; // invalid PolyChainMode
    assert!(GlobalParams::from_bytes(&blob).is_err());
}

#[test]
fn from_bytes_invalid_shift_function() {
    let mut blob = minimal_glob_blob();
    blob[62] = 5; // invalid ShiftFunction
    assert!(GlobalParams::from_bytes(&blob).is_err());
}

#[test]
fn from_bytes_invalid_damper_polarity() {
    let mut blob = minimal_glob_blob();
    blob[7] = 3;
    assert!(GlobalParams::from_bytes(&blob).is_err());
}

#[test]
fn from_bytes_invalid_sync_in_unit() {
    let mut blob = minimal_glob_blob();
    blob[11] = 5;
    assert!(GlobalParams::from_bytes(&blob).is_err());
}

#[test]
fn from_bytes_invalid_sync_out_unit() {
    let mut blob = minimal_glob_blob();
    blob[12] = 5;
    assert!(GlobalParams::from_bytes(&blob).is_err());
}

#[test]
fn from_bytes_invalid_sync_in_polarity() {
    let mut blob = minimal_glob_blob();
    blob[13] = 5;
    assert!(GlobalParams::from_bytes(&blob).is_err());
}

#[test]
fn from_bytes_invalid_sync_out_polarity() {
    let mut blob = minimal_glob_blob();
    blob[14] = 5;
    assert!(GlobalParams::from_bytes(&blob).is_err());
}

#[test]
fn from_bytes_invalid_midi_route() {
    let mut blob = minimal_glob_blob();
    blob[15] = 5;
    assert!(GlobalParams::from_bytes(&blob).is_err());
}

#[test]
fn from_bytes_invalid_parameter_disp() {
    let mut blob = minimal_glob_blob();
    blob[25] = 5;
    assert!(GlobalParams::from_bytes(&blob).is_err());
}

// ---------------------------------------------------------------
// GlobalParams::to_bytes / round-trip
// ---------------------------------------------------------------

#[test]
fn to_bytes_size() {
    let params = GlobalParams::default();
    let blob = params.to_bytes();
    assert_eq!(blob.len(), GlobalParams::BLOB_SIZE);
}

#[test]
fn to_bytes_magic() {
    let params = GlobalParams::default();
    let blob = params.to_bytes();
    assert_eq!(&blob[0..4], b"GLOB");
}

#[test]
fn round_trip_default() {
    let params = GlobalParams::default();
    let blob = params.to_bytes();
    let parsed = GlobalParams::from_bytes(&blob).unwrap();
    assert_eq!(parsed, params);
}

#[test]
fn round_trip_all_max_values() {
    let params = GlobalParams {
        master_tune: 100,
        transpose: 24,
        metronome: true,
        damper_polarity: DamperPolarity::Reversed,
        local_sw: true,
        velocity_curve: VelocityCurve::Const127,
        knob_mode: KnobMode::Scale,
        sync_in_unit: SyncUnit::Eighth,
        sync_out_unit: SyncUnit::Eighth,
        sync_in_polarity: SyncPolarity::Fall,
        sync_out_polarity: SyncPolarity::Fall,
        midi_route: MidiRoute::UsbOnly,
        midi_channel: ch(15),
        clock_source: ClockSource::Internal,
        en_rx_transport: true,
        midi_rx_prog_chg: true,
        midi_rx_cc: true,
        midi_rx_pitch_bend: true,
        midi_tx_prog_chg: true,
        midi_tx_cc: true,
        midi_tx_pitch_bend: true,
        parameter_disp: ParameterDisp::All,
        brightness: 9,
        auto_power_off: true,
        favorites: [FavoriteEntry {
            lower: 255,
            upper: 255,
        }; 16],
        poly_chain: PolyChainMode::Slave,
        oscilloscope: true,
        shift_function: ShiftFunction::ActiveStep,
    };
    let blob = params.to_bytes();
    let parsed = GlobalParams::from_bytes(&blob).unwrap();
    assert_eq!(parsed, params);
}

#[test]
fn round_trip_with_favorites() {
    let mut params = GlobalParams::default();
    for i in 0..16 {
        params.favorites[i] = FavoriteEntry {
            lower: (i * 10) as u8,
            upper: (i * 10 + 5) as u8,
        };
    }
    let blob = params.to_bytes();
    let parsed = GlobalParams::from_bytes(&blob).unwrap();
    assert_eq!(parsed.favorites, params.favorites);
}

// ---------------------------------------------------------------
// Default
// ---------------------------------------------------------------

#[test]
fn default_values() {
    let d = GlobalParams::default();
    assert_eq!(d.master_tune, 50);
    assert_eq!(d.transpose, 12);
    assert!(!d.metronome);
    assert_eq!(d.damper_polarity, DamperPolarity::Normal);
    assert!(d.local_sw);
    assert_eq!(d.velocity_curve, VelocityCurve::Type4);
    assert_eq!(d.knob_mode, KnobMode::Jump);
    assert_eq!(d.sync_in_unit, SyncUnit::Sixteenth);
    assert_eq!(d.sync_out_unit, SyncUnit::Sixteenth);
    assert_eq!(d.sync_in_polarity, SyncPolarity::Rise);
    assert_eq!(d.sync_out_polarity, SyncPolarity::Rise);
    assert_eq!(d.midi_route, MidiRoute::UsbAndMidi);
    assert_eq!(d.midi_channel, ch(0));
    assert_eq!(d.clock_source, ClockSource::AutoUsb);
    assert!(d.en_rx_transport);
    assert!(d.midi_rx_prog_chg);
    assert!(d.midi_rx_cc);
    assert!(d.midi_rx_pitch_bend);
    assert!(d.midi_tx_prog_chg);
    assert!(d.midi_tx_cc);
    assert!(d.midi_tx_pitch_bend);
    assert_eq!(d.parameter_disp, ParameterDisp::Normal);
    assert_eq!(d.brightness, 5);
    assert!(!d.auto_power_off);
    assert_eq!(d.poly_chain, PolyChainMode::Off);
    assert!(d.oscilloscope);
    assert_eq!(d.shift_function, ShiftFunction::Favorite);
}

// ---------------------------------------------------------------
// SysEx convenience functions
// ---------------------------------------------------------------

#[test]
fn build_global_request_ch0() {
    let msg = build_global_request(ch(0));
    assert_eq!(msg, vec![0xF0, 0x42, 0x30, 0x00, 0x01, 0x51, 0x0E, 0xF7]);
}

#[test]
fn build_global_request_ch15() {
    let msg = build_global_request(ch(15));
    assert_eq!(msg[2], 0x3F);
    assert_eq!(msg[6], frame::GLOBAL_DATA_REQUEST);
}

#[test]
fn build_and_parse_global_dump_round_trip() {
    let params = GlobalParams::default();
    let msg = build_global_dump(ch(5), &params);
    let parsed = parse_global_dump(&msg).unwrap();
    assert_eq!(parsed, params);
}

#[test]
fn build_and_parse_global_dump_custom() {
    let mut favorites = [FavoriteEntry::default(); 16];
    favorites[0] = FavoriteEntry {
        lower: 42,
        upper: 99,
    };
    let params = GlobalParams {
        master_tune: 75,
        brightness: 9,
        metronome: true,
        favorites,
        ..GlobalParams::default()
    };

    let msg = build_global_dump(ch(0), &params);
    let parsed = parse_global_dump(&msg).unwrap();
    assert_eq!(parsed.master_tune, 75);
    assert_eq!(parsed.brightness, 9);
    assert!(parsed.metronome);
    assert_eq!(parsed.favorites[0].lower, 42);
    assert_eq!(parsed.favorites[0].upper, 99);
}

#[test]
fn parse_global_dump_wrong_function_id() {
    // Build a message with the wrong function ID.
    let params = GlobalParams::default();
    let blob = params.to_bytes();
    let msg = frame::build_sysex(ch(0), frame::CURRENT_PROGRAM_DUMP, &blob);
    let err = parse_global_dump(&msg);
    assert!(err.is_err());
}

#[test]
fn parse_global_dump_malformed_frame() {
    // Not even valid SysEx.
    assert!(parse_global_dump(&[0x00, 0x01, 0x02]).is_err());
}

// ---------------------------------------------------------------
// GlobalParams Debug, Clone
// ---------------------------------------------------------------

#[test]
fn global_params_debug_clone() {
    let params = GlobalParams::default();
    let cloned = params.clone();
    assert_eq!(params, cloned);
    let _dbg = format!("{params:?}");
}

// ---------------------------------------------------------------
// Extra bytes beyond BLOB_SIZE are ignored
// ---------------------------------------------------------------

#[test]
fn from_bytes_extra_bytes_ignored() {
    let mut blob = minimal_glob_blob();
    blob.extend_from_slice(&[0xFF; 10]);
    let params = GlobalParams::from_bytes(&blob).unwrap();
    assert_eq!(params.master_tune, 0);
}

// ---------------------------------------------------------------
// Bool fields nonzero treated as true
// ---------------------------------------------------------------

#[test]
fn bool_fields_nonzero_is_true() {
    let mut blob = minimal_glob_blob();
    blob[6] = 2; // metronome: any nonzero = true
    blob[8] = 255; // local_sw
    blob[18] = 42; // en_rx_transport
    blob[27] = 100; // auto_power_off
    blob[61] = 5; // oscilloscope
    let params = GlobalParams::from_bytes(&blob).unwrap();
    assert!(params.metronome);
    assert!(params.local_sw);
    assert!(params.en_rx_transport);
    assert!(params.auto_power_off);
    assert!(params.oscilloscope);
}

// ---------------------------------------------------------------
// Blob constants
// ---------------------------------------------------------------

#[test]
fn blob_size_constant() {
    assert_eq!(GlobalParams::BLOB_SIZE, 63);
}

#[test]
fn magic_constant() {
    assert_eq!(GlobalParams::MAGIC, b"GLOB");
}

fn valid_global_blob() -> Vec<u8> {
    GlobalParams::default().to_bytes()
}

#[test]
fn global_master_tune_out_of_range() {
    let mut blob = valid_global_blob();
    blob[4] = 101;
    match GlobalParams::from_bytes(&blob) {
        Err(Error::OutOfRange { value, min, max, .. }) => assert_eq!((value, min, max), (101, 0, 100)),
        other => panic!("unexpected result: {other:?}"),
    }
    blob[4] = 100;
    assert_eq!(GlobalParams::from_bytes(&blob).unwrap().master_tune, 100);
}

#[test]
fn global_transpose_out_of_range() {
    let mut blob = valid_global_blob();
    blob[5] = 25;
    match GlobalParams::from_bytes(&blob) {
        Err(Error::OutOfRange { value, min, max, .. }) => assert_eq!((value, min, max), (25, 0, 24)),
        other => panic!("unexpected result: {other:?}"),
    }
    blob[5] = 24;
    assert_eq!(GlobalParams::from_bytes(&blob).unwrap().transpose, 24);
}

#[test]
fn global_brightness_out_of_range() {
    let mut blob = valid_global_blob();
    blob[26] = 10;
    match GlobalParams::from_bytes(&blob) {
        Err(Error::OutOfRange { value, min, max, .. }) => assert_eq!((value, min, max), (10, 0, 9)),
        other => panic!("unexpected result: {other:?}"),
    }
    blob[26] = 9;
    assert_eq!(GlobalParams::from_bytes(&blob).unwrap().brightness, 9);
}
