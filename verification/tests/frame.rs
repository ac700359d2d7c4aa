//! Tests of Korg SysEx framing and status codes.
#![allow(unused_imports)]

use minilogue_xd::sysex::frame;
use std::collections::HashSet;
use minilogue_xd::error::{Error, SysexError};
use minilogue_xd::message::types::U4;
use minilogue_xd::sysex::frame::{
    build_status, build_sysex, build_sysex_request, parse_sysex, SysexFrame, SysexStatus, CLEAR_USER_MODULE,
    CLEAR_USER_SLOT, CURRENT_PROGRAM_DUMP, CURRENT_PROGRAM_REQUEST, GLOBAL_DATA_DUMP, GLOBAL_DATA_REQUEST,
    MIN_FRAME_LEN, POLY_CHAIN_NOTE_OFF, POLY_CHAIN_NOTE_ON, PROGRAM_DATA_DUMP, PROGRAM_DATA_REQUEST, SWAP_USER_DATA,
    USER_API_VERSION_REPLY, USER_API_VERSION_REQUEST, USER_MODULE_INFO_REPLY, USER_MODULE_INFO_REQUEST,
    USER_OCTAVE_DUMP, USER_OCTAVE_REQUEST, USER_SCALE_DUMP, USER_SCALE_REQUEST, USER_SLOT_DATA_REPLY,
    USER_SLOT_DATA_REQUEST, USER_SLOT_STATUS_REPLY, USER_SLOT_STATUS_REQUEST,
};

fn ch(n: u8) -> U4 {
    U4::new(n).unwrap()
}

// ---------------------------------------------------------------
// SysexStatus
// ---------------------------------------------------------------

#[test]
fn status_round_trip_all_variants() {
    let variants = [
        (0x23, SysexStatus::DataLoadCompleted),
        (0x24, SysexStatus::DataLoadError),
        (0x26, SysexStatus::DataFormatError),
        (0x27, SysexStatus::UserDataSizeError),
        (0x28, SysexStatus::UserDataCrcError),
        (0x29, SysexStatus::UserTargetError),
        (0x2A, SysexStatus::UserApiError),
        (0x2B, SysexStatus::UserLoadSizeError),
        (0x2C, SysexStatus::UserModuleError),
        (0x2D, SysexStatus::UserSlotError),
        (0x2E, SysexStatus::UserFormatError),
        (0x2F, SysexStatus::UserInternalError),
    ];
    for (byte, expected) in &variants {
        let parsed = SysexStatus::from_byte(*byte);
        assert_eq!(parsed, Some(*expected), "from_byte(0x{byte:02X})");
        assert_eq!(expected.to_byte(), *byte, "to_byte for {expected:?}");
    }
}

#[test]
fn status_from_byte_unknown() {
    assert_eq!(SysexStatus::from_byte(0x00), None);
    assert_eq!(SysexStatus::from_byte(0x25), None);
    assert_eq!(SysexStatus::from_byte(0x30), None);
    assert_eq!(SysexStatus::from_byte(0xFF), None);
}

#[test]
fn status_is_ack() {
    assert!(SysexStatus::DataLoadCompleted.is_ack());
    assert!(!SysexStatus::DataLoadCompleted.is_error());
}

#[test]
fn status_is_error() {
    let errors = [
        SysexStatus::DataLoadError,
        SysexStatus::DataFormatError,
        SysexStatus::UserDataSizeError,
        SysexStatus::UserDataCrcError,
        SysexStatus::UserTargetError,
        SysexStatus::UserApiError,
        SysexStatus::UserLoadSizeError,
        SysexStatus::UserModuleError,
        SysexStatus::UserSlotError,
        SysexStatus::UserFormatError,
        SysexStatus::UserInternalError,
    ];
    for s in &errors {
        assert!(s.is_error(), "{s:?} should be an error");
        assert!(!s.is_ack(), "{s:?} should not be ACK");
    }
}

#[test]
fn status_display() {
    assert_eq!(
        SysexStatus::DataLoadCompleted.to_string(),
        "Data Load Completed"
    );
    assert_eq!(SysexStatus::DataLoadError.to_string(), "Data Load Error");
    assert_eq!(
        SysexStatus::DataFormatError.to_string(),
        "Data Format Error"
    );
    assert_eq!(
        SysexStatus::UserDataSizeError.to_string(),
        "User Data Size Error"
    );
    assert_eq!(
        SysexStatus::UserDataCrcError.to_string(),
        "User Data CRC Error"
    );
    assert_eq!(
        SysexStatus::UserTargetError.to_string(),
        "User Target Error"
    );
    assert_eq!(SysexStatus::UserApiError.to_string(), "User API Error");
    assert_eq!(
        SysexStatus::UserLoadSizeError.to_string(),
        "User Load Size Error"
    );
    assert_eq!(
        SysexStatus::UserModuleError.to_string(),
        "User Module Error"
    );
    assert_eq!(SysexStatus::UserSlotError.to_string(), "User Slot Error");
    assert_eq!(
        SysexStatus::UserFormatError.to_string(),
        "User Format Error"
    );
    assert_eq!(
        SysexStatus::UserInternalError.to_string(),
        "User Internal Error"
    );
}

// ---------------------------------------------------------------
// build_sysex_request
// ---------------------------------------------------------------

#[test]
fn build_request_global_ch0() {
    let msg = build_sysex_request(ch(0), GLOBAL_DATA_REQUEST);
    assert_eq!(msg, vec![0xF0, 0x42, 0x30, 0x00, 0x01, 0x51, 0x0E, 0xF7]);
}

#[test]
fn build_request_current_program_ch15() {
    let msg = build_sysex_request(ch(15), CURRENT_PROGRAM_REQUEST);
    assert_eq!(msg, vec![0xF0, 0x42, 0x3F, 0x00, 0x01, 0x51, 0x10, 0xF7]);
}

#[test]
fn build_request_various_function_ids() {
    let ids = [
        USER_SCALE_REQUEST,
        USER_OCTAVE_REQUEST,
        USER_API_VERSION_REQUEST,
        USER_MODULE_INFO_REQUEST,
        USER_SLOT_STATUS_REQUEST,
        USER_SLOT_DATA_REQUEST,
        CLEAR_USER_SLOT,
        PROGRAM_DATA_REQUEST,
        CLEAR_USER_MODULE,
        SWAP_USER_DATA,
    ];
    for id in ids {
        let msg = build_sysex_request(ch(5), id);
        assert_eq!(msg.len(), 8);
        assert_eq!(msg[0], 0xF0);
        assert_eq!(msg[6], id);
        assert_eq!(msg[7], 0xF7);
    }
}

// ---------------------------------------------------------------
// build_status
// ---------------------------------------------------------------

#[test]
fn build_status_ack() {
    let msg = build_status(ch(0), SysexStatus::DataLoadCompleted);
    assert_eq!(msg, vec![0xF0, 0x42, 0x30, 0x00, 0x01, 0x51, 0x23, 0xF7]);
}

#[test]
fn build_status_error() {
    let msg = build_status(ch(3), SysexStatus::DataFormatError);
    assert_eq!(msg[6], 0x26);
}

// ---------------------------------------------------------------
// build_sysex with payload
// ---------------------------------------------------------------

#[test]
fn build_sysex_empty_payload() {
    let msg = build_sysex(ch(0), 0x51, &[]);
    // Should be identical to a request frame.
    assert_eq!(msg, vec![0xF0, 0x42, 0x30, 0x00, 0x01, 0x51, 0x51, 0xF7]);
}

#[test]
fn build_sysex_with_payload() {
    let data = [0x01, 0x02, 0x03];
    let msg = build_sysex(ch(0), GLOBAL_DATA_DUMP, &data);
    // Header: F0 42 30 00 01 51 51 = 7 bytes
    // Payload: encode_7bit([01, 02, 03]) = [0x00, 0x01, 0x02, 0x03] (4 bytes, no high bits)
    // Trailer: F7
    assert_eq!(msg[0], 0xF0);
    assert_eq!(msg[6], GLOBAL_DATA_DUMP);
    assert_eq!(msg[msg.len() - 1], 0xF7);
}

// ---------------------------------------------------------------
// parse_sysex
// ---------------------------------------------------------------

#[test]
fn parse_request_round_trip() {
    let msg = build_sysex_request(ch(7), GLOBAL_DATA_REQUEST);
    let frame = parse_sysex(&msg).unwrap();
    assert_eq!(frame.channel, ch(7));
    assert_eq!(frame.function_id, GLOBAL_DATA_REQUEST);
    assert!(frame.data.is_empty());
}

#[test]
fn parse_sysex_with_payload_round_trip() {
    let data = vec![0xFF, 0x80, 0x00, 0x7F, 0x01, 0x55, 0xAA];
    let msg = build_sysex(ch(3), CURRENT_PROGRAM_DUMP, &data);
    let frame = parse_sysex(&msg).unwrap();
    assert_eq!(frame.channel, ch(3));
    assert_eq!(frame.function_id, CURRENT_PROGRAM_DUMP);
    assert_eq!(frame.data, data);
}

#[test]
fn parse_sysex_large_payload_round_trip() {
    let data: Vec<u8> = (0..=255).collect();
    let msg = build_sysex(ch(0), PROGRAM_DATA_DUMP, &data);
    let frame = parse_sysex(&msg).unwrap();
    assert_eq!(frame.data, data);
}

#[test]
fn parse_status_round_trip() {
    let msg = build_status(ch(10), SysexStatus::UserDataCrcError);
    let frame = parse_sysex(&msg).unwrap();
    assert_eq!(frame.channel, ch(10));
    assert_eq!(frame.function_id, 0x28);
    assert!(frame.data.is_empty());
}

#[test]
fn parse_all_channels() {
    for c in 0..=15 {
        let msg = build_sysex_request(ch(c), GLOBAL_DATA_REQUEST);
        let frame = parse_sysex(&msg).unwrap();
        assert_eq!(frame.channel, ch(c));
    }
}

// ---------------------------------------------------------------
// parse_sysex error cases
// ---------------------------------------------------------------

#[test]
fn parse_too_short() {
    let short = vec![0xF0, 0x42, 0x30, 0x00, 0x01, 0x51, 0xF7];
    assert!(parse_sysex(&short).is_err());
}

#[test]
fn parse_empty() {
    assert!(parse_sysex(&[]).is_err());
}

#[test]
fn parse_missing_f0() {
    let mut msg = build_sysex_request(ch(0), GLOBAL_DATA_REQUEST);
    msg[0] = 0x00;
    assert!(parse_sysex(&msg).is_err());
}

#[test]
fn parse_missing_f7() {
    let mut msg = build_sysex_request(ch(0), GLOBAL_DATA_REQUEST);
    let last = msg.len() - 1;
    msg[last] = 0x00;
    assert!(parse_sysex(&msg).is_err());
}

#[test]
fn parse_wrong_manufacturer() {
    let mut msg = build_sysex_request(ch(0), GLOBAL_DATA_REQUEST);
    msg[1] = 0x43; // Yamaha, not Korg
    assert!(parse_sysex(&msg).is_err());
}

#[test]
fn parse_wrong_channel_nibble() {
    let mut msg = build_sysex_request(ch(0), GLOBAL_DATA_REQUEST);
    msg[2] = 0x40; // Should be 0x30..0x3F
    assert!(parse_sysex(&msg).is_err());
}

#[test]
fn parse_wrong_device_id() {
    let mut msg = build_sysex_request(ch(0), GLOBAL_DATA_REQUEST);
    msg[4] = 0xFF; // Corrupt device ID
    assert!(parse_sysex(&msg).is_err());
}

// ---------------------------------------------------------------
// Function ID constant value verification
// ---------------------------------------------------------------

#[test]
fn function_id_request_values() {
    assert_eq!(GLOBAL_DATA_REQUEST, 0x0E);
    assert_eq!(CURRENT_PROGRAM_REQUEST, 0x10);
    assert_eq!(USER_SCALE_REQUEST, 0x14);
    assert_eq!(USER_OCTAVE_REQUEST, 0x15);
    assert_eq!(USER_API_VERSION_REQUEST, 0x17);
    assert_eq!(USER_MODULE_INFO_REQUEST, 0x18);
    assert_eq!(USER_SLOT_STATUS_REQUEST, 0x19);
    assert_eq!(USER_SLOT_DATA_REQUEST, 0x1A);
    assert_eq!(CLEAR_USER_SLOT, 0x1B);
    assert_eq!(PROGRAM_DATA_REQUEST, 0x1C);
    assert_eq!(CLEAR_USER_MODULE, 0x1D);
    assert_eq!(SWAP_USER_DATA, 0x1E);
}

#[test]
fn function_id_dump_values() {
    assert_eq!(CURRENT_PROGRAM_DUMP, 0x40);
    assert_eq!(USER_SCALE_DUMP, 0x44);
    assert_eq!(USER_OCTAVE_DUMP, 0x45);
    assert_eq!(USER_API_VERSION_REPLY, 0x47);
    assert_eq!(USER_MODULE_INFO_REPLY, 0x48);
    assert_eq!(USER_SLOT_STATUS_REPLY, 0x49);
    assert_eq!(USER_SLOT_DATA_REPLY, 0x4A);
    assert_eq!(PROGRAM_DATA_DUMP, 0x4C);
    assert_eq!(GLOBAL_DATA_DUMP, 0x51);
}

#[test]
fn function_id_poly_chain_values() {
    assert_eq!(POLY_CHAIN_NOTE_ON, 0x60);
    assert_eq!(POLY_CHAIN_NOTE_OFF, 0x61);
}

// ---------------------------------------------------------------
// SysexFrame Debug + Clone
// ---------------------------------------------------------------

#[test]
fn frame_debug_and_clone() {
    let frame = SysexFrame {
        channel: ch(0),
        function_id: 0x51,
        data: vec![1, 2, 3],
    };
    let cloned = frame.clone();
    assert_eq!(frame, cloned);
    // Verify Debug is implemented.
    let _dbg = format!("{frame:?}");
}

// ---------------------------------------------------------------
// SysexStatus clone, copy, hash
// ---------------------------------------------------------------

#[test]
fn status_clone_copy_hash() {
    let s = SysexStatus::DataLoadCompleted;
    let s2 = s; // Copy
    assert_eq!(s, s2);
    let mut set = HashSet::new();
    set.insert(s);
    assert!(set.contains(&SysexStatus::DataLoadCompleted));
}
