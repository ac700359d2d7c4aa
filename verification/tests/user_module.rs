//! Tests of user module data and the user module SysEx messages.
#![allow(unused_imports)]

use minilogue_xd::sysex::frame;
use minilogue_xd::sysex::{DEVICE_ID, KORG_ID};
use std::collections::HashSet;
use minilogue_xd::error::{Error, SysexError};
use minilogue_xd::message::types::U4;
use minilogue_xd::sysex::frame::{
    build_sysex, CLEAR_USER_MODULE, CLEAR_USER_SLOT, SWAP_USER_DATA, USER_API_VERSION_REQUEST, USER_MODULE_INFO_REPLY,
    USER_MODULE_INFO_REQUEST, USER_SLOT_DATA_REPLY, USER_SLOT_DATA_REQUEST, USER_SLOT_STATUS_REPLY,
    USER_SLOT_STATUS_REQUEST,
};
use minilogue_xd::sysex::user_module::{
    build_api_version_request, build_clear_module, build_clear_slot, build_module_info_request, build_slot_data_request,
    build_slot_status_request, build_swap_slots, compute_crc32, parse_module_info_reply, parse_slot_data_reply,
    parse_slot_status_reply, read_u32_le, validate_slot, write_u32_le, UserModuleId, UserModuleInfo, UserSlotData, UserSlotStatus,
};

fn ch(n: u8) -> U4 {
    U4::new(n).unwrap()
}

// ---------------------------------------------------------------
// UserModuleId
// ---------------------------------------------------------------

#[test]
fn module_id_from_byte_valid() {
    assert_eq!(UserModuleId::from_byte(1).unwrap(), UserModuleId::ModFx);
    assert_eq!(UserModuleId::from_byte(2).unwrap(), UserModuleId::DelayFx);
    assert_eq!(UserModuleId::from_byte(3).unwrap(), UserModuleId::ReverbFx);
    assert_eq!(UserModuleId::from_byte(4).unwrap(), UserModuleId::Osc);
}

#[test]
fn module_id_from_byte_invalid() {
    assert!(UserModuleId::from_byte(0).is_err());
    assert!(UserModuleId::from_byte(5).is_err());
    assert!(UserModuleId::from_byte(255).is_err());
}

#[test]
fn module_id_to_byte_roundtrip() {
    for id in [
        UserModuleId::ModFx,
        UserModuleId::DelayFx,
        UserModuleId::ReverbFx,
        UserModuleId::Osc,
    ] {
        let b = id.to_byte();
        assert_eq!(UserModuleId::from_byte(b).unwrap(), id);
    }
}

#[test]
fn module_id_max_slots() {
    assert_eq!(UserModuleId::ModFx.max_slots(), 16);
    assert_eq!(UserModuleId::DelayFx.max_slots(), 8);
    assert_eq!(UserModuleId::ReverbFx.max_slots(), 8);
    assert_eq!(UserModuleId::Osc.max_slots(), 16);
}

#[test]
fn module_id_display() {
    assert_eq!(UserModuleId::ModFx.to_string(), "Mod FX");
    assert_eq!(UserModuleId::DelayFx.to_string(), "Delay FX");
    assert_eq!(UserModuleId::ReverbFx.to_string(), "Reverb FX");
    assert_eq!(UserModuleId::Osc.to_string(), "Oscillator");
}

#[test]
fn module_id_copy_hash() {
    let id = UserModuleId::ModFx;
    let id2 = id; // Copy
    assert_eq!(id, id2);
    let mut set = HashSet::new();
    set.insert(id);
    assert!(set.contains(&UserModuleId::ModFx));
}

// ---------------------------------------------------------------
// Slot validation
// ---------------------------------------------------------------

#[test]
fn validate_slot_modfx_valid() {
    assert!(validate_slot(UserModuleId::ModFx, 0).is_ok());
    assert!(validate_slot(UserModuleId::ModFx, 15).is_ok());
}

#[test]
fn validate_slot_modfx_invalid() {
    assert!(validate_slot(UserModuleId::ModFx, 16).is_err());
    assert!(validate_slot(UserModuleId::ModFx, 255).is_err());
}

#[test]
fn validate_slot_delay_valid() {
    assert!(validate_slot(UserModuleId::DelayFx, 0).is_ok());
    assert!(validate_slot(UserModuleId::DelayFx, 7).is_ok());
}

#[test]
fn validate_slot_delay_invalid() {
    assert!(validate_slot(UserModuleId::DelayFx, 8).is_err());
}

#[test]
fn validate_slot_reverb_boundary() {
    assert!(validate_slot(UserModuleId::ReverbFx, 7).is_ok());
    assert!(validate_slot(UserModuleId::ReverbFx, 8).is_err());
}

#[test]
fn validate_slot_osc_boundary() {
    assert!(validate_slot(UserModuleId::Osc, 15).is_ok());
    assert!(validate_slot(UserModuleId::Osc, 16).is_err());
}

// ---------------------------------------------------------------
// UserModuleInfo
// ---------------------------------------------------------------

#[test]
fn module_info_roundtrip() {
    let info = UserModuleInfo {
        max_slot_size: 0x0001_0000,
        max_program_size: 0x0000_8000,
        available_slot_count: 12,
    };
    let blob = info.to_bytes();
    assert_eq!(blob.len(), UserModuleInfo::BLOB_SIZE);
    let info2 = UserModuleInfo::from_bytes(&blob).unwrap();
    assert_eq!(info, info2);
}

#[test]
fn module_info_from_bytes_too_short() {
    assert!(UserModuleInfo::from_bytes(&[0u8; 8]).is_err());
}

#[test]
fn module_info_le_byte_order() {
    // max_slot_size = 0x04030201
    let blob = [0x01, 0x02, 0x03, 0x04, 0x05, 0x06, 0x07, 0x08, 0x0A];
    let info = UserModuleInfo::from_bytes(&blob).unwrap();
    assert_eq!(info.max_slot_size, 0x04030201);
    assert_eq!(info.max_program_size, 0x08070605);
    assert_eq!(info.available_slot_count, 0x0A);
}

// ---------------------------------------------------------------
// UserSlotStatus
// ---------------------------------------------------------------

#[test]
fn slot_status_roundtrip() {
    let status = UserSlotStatus {
        platform_id: 7,
        module_id: UserModuleId::Osc,
        api_version: (1, 2, 0),
        developer_id: 0xDEAD,
        program_id: 0xBEEF,
        program_version: (3, 1, 4),
        program_name: "TestOsc".to_string(),
    };
    let blob = status.to_bytes();
    assert_eq!(blob.len(), UserSlotStatus::BLOB_SIZE);
    let status2 = UserSlotStatus::from_bytes(&blob).unwrap();
    assert_eq!(status, status2);
}

#[test]
fn slot_status_from_bytes_too_short() {
    assert!(UserSlotStatus::from_bytes(&[0u8; 31]).is_err());
}

#[test]
fn slot_status_invalid_module_id() {
    let mut blob = vec![0u8; 32];
    blob[1] = 99; // invalid module ID
    assert!(UserSlotStatus::from_bytes(&blob).is_err());
}

#[test]
fn slot_status_name_null_terminated() {
    let mut blob = vec![0u8; 32];
    blob[1] = 1; // ModFx
    blob[16] = b'H';
    blob[17] = b'i';
    blob[18] = 0; // null terminator
    blob[19] = b'X'; // should be ignored
    let status = UserSlotStatus::from_bytes(&blob).unwrap();
    assert_eq!(status.program_name, "Hi");
}

#[test]
fn slot_status_name_full_16_chars() {
    let mut blob = vec![0u8; 32];
    blob[1] = 2; // DelayFx
    for i in 0..16 {
        blob[16 + i] = b'A' + (i as u8);
    }
    let status = UserSlotStatus::from_bytes(&blob).unwrap();
    assert_eq!(status.program_name, "ABCDEFGHIJKLMNOP");
}

// ---------------------------------------------------------------
// UserSlotData
// ---------------------------------------------------------------

#[test]
fn slot_data_from_payload() {
    let payload = vec![0x01, 0x02, 0x03, 0x04];
    let data = UserSlotData::from_payload(payload.clone());
    assert_eq!(data.payload_size, 4);
    assert_eq!(data.payload, payload);
    assert_eq!(data.crc32, compute_crc32(&payload));
}

#[test]
fn slot_data_roundtrip() {
    let payload = vec![0xDE, 0xAD, 0xBE, 0xEF, 0xCA, 0xFE];
    let data = UserSlotData::from_payload(payload);
    let blob = data.to_bytes();
    let data2 = UserSlotData::from_bytes(&blob).unwrap();
    assert_eq!(data, data2);
}

#[test]
fn slot_data_crc_mismatch() {
    let payload = vec![0x01, 0x02, 0x03];
    let mut data = UserSlotData::from_payload(payload);
    data.crc32 ^= 1; // corrupt CRC
    let blob = data.to_bytes();
    assert!(UserSlotData::from_bytes(&blob).is_err());
}

#[test]
fn slot_data_from_bytes_too_short() {
    assert!(UserSlotData::from_bytes(&[0u8; 7]).is_err());
}

#[test]
fn slot_data_from_bytes_payload_too_short() {
    // Header claims 100 bytes but only 2 follow.
    let mut blob = vec![0u8; 10];
    write_u32_le(&mut blob, 0, 100);
    assert!(UserSlotData::from_bytes(&blob).is_err());
}

// ---------------------------------------------------------------
// CRC32
// ---------------------------------------------------------------

#[test]
fn crc32_empty() {
    assert_eq!(compute_crc32(&[]), 0x00000000);
}

#[test]
fn crc32_known_value() {
    // "123456789" -> CRC32 = 0xCBF43926 (standard IEEE)
    let data = b"123456789";
    assert_eq!(compute_crc32(data), 0xCBF43926);
}

#[test]
fn crc32_single_byte() {
    // CRC32 of a single zero byte.
    let crc = compute_crc32(&[0x00]);
    assert_eq!(crc, 0xD202EF8D);
}

// ---------------------------------------------------------------
// Request builders
// ---------------------------------------------------------------

#[test]
fn build_api_version_request_format() {
    let msg = build_api_version_request(ch(0));
    assert_eq!(msg.len(), 8);
    assert_eq!(msg[6], frame::USER_API_VERSION_REQUEST);
}

#[test]
fn build_module_info_request_format() {
    let msg = build_module_info_request(ch(0), UserModuleId::ModFx);
    assert_eq!(msg.len(), 9);
    assert_eq!(msg[0], 0xF0);
    assert_eq!(msg[1], KORG_ID);
    assert_eq!(msg[2], 0x30);
    assert_eq!(msg[6], frame::USER_MODULE_INFO_REQUEST);
    assert_eq!(msg[7], 1); // ModFx
    assert_eq!(msg[8], 0xF7);
}

#[test]
fn build_module_info_request_all_modules() {
    for module in [
        UserModuleId::ModFx,
        UserModuleId::DelayFx,
        UserModuleId::ReverbFx,
        UserModuleId::Osc,
    ] {
        let msg = build_module_info_request(ch(5), module);
        assert_eq!(msg[7], module.to_byte());
    }
}

#[test]
fn build_slot_status_request_format() {
    let msg = build_slot_status_request(ch(3), UserModuleId::Osc, 5).unwrap();
    assert_eq!(msg.len(), 10);
    assert_eq!(msg[6], frame::USER_SLOT_STATUS_REQUEST);
    assert_eq!(msg[7], 4); // Osc
    assert_eq!(msg[8], 5); // slot
    assert_eq!(msg[9], 0xF7);
}

#[test]
fn build_slot_status_request_invalid_slot() {
    assert!(build_slot_status_request(ch(0), UserModuleId::DelayFx, 8).is_err());
}

#[test]
fn build_slot_data_request_format() {
    let msg = build_slot_data_request(ch(0), UserModuleId::ReverbFx, 3).unwrap();
    assert_eq!(msg[6], frame::USER_SLOT_DATA_REQUEST);
    assert_eq!(msg[7], 3); // ReverbFx
    assert_eq!(msg[8], 3); // slot
}

#[test]
fn build_slot_data_request_invalid_slot() {
    assert!(build_slot_data_request(ch(0), UserModuleId::ReverbFx, 8).is_err());
}

#[test]
fn build_clear_slot_format() {
    let msg = build_clear_slot(ch(0), UserModuleId::ModFx, 10).unwrap();
    assert_eq!(msg[6], frame::CLEAR_USER_SLOT);
    assert_eq!(msg[7], 1); // ModFx
    assert_eq!(msg[8], 10); // slot
}

#[test]
fn build_clear_slot_invalid_slot() {
    assert!(build_clear_slot(ch(0), UserModuleId::ModFx, 16).is_err());
}

#[test]
fn build_clear_module_format() {
    let msg = build_clear_module(ch(15), UserModuleId::DelayFx);
    assert_eq!(msg.len(), 9);
    assert_eq!(msg[2], 0x3F); // channel 15
    assert_eq!(msg[6], frame::CLEAR_USER_MODULE);
    assert_eq!(msg[7], 2); // DelayFx
    assert_eq!(msg[8], 0xF7);
}

#[test]
fn build_swap_slots_format() {
    let msg = build_swap_slots(ch(0), UserModuleId::Osc, 3, 7).unwrap();
    assert_eq!(msg.len(), 11);
    assert_eq!(msg[6], frame::SWAP_USER_DATA);
    assert_eq!(msg[7], 4); // Osc
    assert_eq!(msg[8], 3); // slot_a
    assert_eq!(msg[9], 7); // slot_b
    assert_eq!(msg[10], 0xF7);
}

#[test]
fn build_swap_slots_invalid_slot_a() {
    assert!(build_swap_slots(ch(0), UserModuleId::DelayFx, 8, 0).is_err());
}

#[test]
fn build_swap_slots_invalid_slot_b() {
    assert!(build_swap_slots(ch(0), UserModuleId::DelayFx, 0, 8).is_err());
}

// ---------------------------------------------------------------
// Response parsers
// ---------------------------------------------------------------

#[test]
fn parse_module_info_reply_roundtrip() {
    let info = UserModuleInfo {
        max_slot_size: 65536,
        max_program_size: 32768,
        available_slot_count: 10,
    };
    let blob = info.to_bytes();
    let msg = frame::build_sysex(ch(0), frame::USER_MODULE_INFO_REPLY, &blob);
    let info2 = parse_module_info_reply(&msg).unwrap();
    assert_eq!(info, info2);
}

#[test]
fn parse_module_info_reply_wrong_function_id() {
    let blob = vec![0u8; 9];
    let msg = frame::build_sysex(ch(0), frame::USER_SLOT_STATUS_REPLY, &blob);
    assert!(parse_module_info_reply(&msg).is_err());
}

#[test]
fn parse_slot_status_reply_roundtrip() {
    let status = UserSlotStatus {
        platform_id: 1,
        module_id: UserModuleId::ModFx,
        api_version: (1, 1, 0),
        developer_id: 42,
        program_id: 100,
        program_version: (2, 0, 1),
        program_name: "MyMod".to_string(),
    };
    let blob = status.to_bytes();
    let msg = frame::build_sysex(ch(0), frame::USER_SLOT_STATUS_REPLY, &blob);
    let status2 = parse_slot_status_reply(&msg).unwrap();
    assert_eq!(status, status2);
}

#[test]
fn parse_slot_status_reply_wrong_function_id() {
    let blob = vec![0u8; 32];
    let msg = frame::build_sysex(ch(0), frame::USER_MODULE_INFO_REPLY, &blob);
    assert!(parse_slot_status_reply(&msg).is_err());
}

#[test]
fn parse_slot_data_reply_roundtrip() {
    let payload = vec![0x42; 128];
    let data = UserSlotData::from_payload(payload);
    let blob = data.to_bytes();
    let msg = frame::build_sysex(ch(0), frame::USER_SLOT_DATA_REPLY, &blob);
    let data2 = parse_slot_data_reply(&msg).unwrap();
    assert_eq!(data, data2);
}

#[test]
fn parse_slot_data_reply_wrong_function_id() {
    let payload = vec![0x00; 4];
    let data = UserSlotData::from_payload(payload);
    let blob = data.to_bytes();
    let msg = frame::build_sysex(ch(0), frame::USER_MODULE_INFO_REPLY, &blob);
    assert!(parse_slot_data_reply(&msg).is_err());
}

// ---------------------------------------------------------------
// u32 LE helpers
// ---------------------------------------------------------------

#[test]
fn u32_le_roundtrip() {
    for v in [0u32, 1, 0xFF, 0xFFFF, 0xFF_FFFF, 0xFFFF_FFFF, 0xDEADBEEF] {
        let mut buf = [0u8; 4];
        write_u32_le(&mut buf, 0, v);
        assert_eq!(read_u32_le(&buf, 0), v);
    }
}
