//! Tests of the identity and search device messages.
#![allow(unused_imports)]

use minilogue_xd::message::types::U4;
use minilogue_xd::sysex::identity::{
    build_identity_request, build_search_device, parse_identity_reply, parse_search_device_reply, IdentityReply,
    SearchDeviceReply,
};

fn ch(n: u8) -> U4 {
    U4::new(n).unwrap()
}

// ---------------------------------------------------------------
// Identity Request
// ---------------------------------------------------------------

#[test]
fn build_identity_request_ch0() {
    let msg = build_identity_request(ch(0));
    assert_eq!(msg, vec![0xF0, 0x7E, 0x00, 0x06, 0x01, 0xF7]);
}

#[test]
fn build_identity_request_ch15() {
    let msg = build_identity_request(ch(15));
    assert_eq!(msg, vec![0xF0, 0x7E, 0x0F, 0x06, 0x01, 0xF7]);
}

// ---------------------------------------------------------------
// Identity Reply parsing
// ---------------------------------------------------------------

#[test]
fn parse_identity_reply_valid() {
    let msg = vec![
        0xF0, 0x7E, 0x00, 0x06, 0x02, // header
        0x42, // manufacturer (Korg)
        0x51, 0x01, // family ID = 0x0151
        0x00, 0x00, // member ID = 0x0000
        0x02, 0x01, 0x00, 0x00, // version
        0xF7,
    ];
    let reply = parse_identity_reply(&msg).unwrap();
    assert_eq!(reply.channel, ch(0));
    assert_eq!(reply.manufacturer_id, 0x42);
    assert_eq!(reply.family_id, 0x0151);
    assert_eq!(reply.member_id, 0x0000);
    assert_eq!(reply.version, [0x02, 0x01, 0x00, 0x00]);
}

#[test]
fn parse_identity_reply_channel_5() {
    let msg = vec![
        0xF0, 0x7E, 0x05, 0x06, 0x02, 0x42, 0x51, 0x01, 0x00, 0x00, 0x01, 0x00, 0x00, 0x00,
        0xF7,
    ];
    let reply = parse_identity_reply(&msg).unwrap();
    assert_eq!(reply.channel, ch(5));
}

#[test]
fn parse_identity_reply_too_short() {
    let msg = vec![0xF0, 0x7E, 0x00, 0x06, 0x02, 0x42, 0xF7];
    assert!(parse_identity_reply(&msg).is_err());
}

#[test]
fn parse_identity_reply_bad_start() {
    let msg = vec![
        0x00, 0x7E, 0x00, 0x06, 0x02, 0x42, 0x51, 0x01, 0x00, 0x00, 0x01, 0x00, 0x00, 0x00,
        0xF7,
    ];
    assert!(parse_identity_reply(&msg).is_err());
}

#[test]
fn parse_identity_reply_bad_end() {
    let msg = vec![
        0xF0, 0x7E, 0x00, 0x06, 0x02, 0x42, 0x51, 0x01, 0x00, 0x00, 0x01, 0x00, 0x00, 0x00,
        0x00,
    ];
    assert!(parse_identity_reply(&msg).is_err());
}

#[test]
fn parse_identity_reply_bad_sub_id() {
    let msg = vec![
        0xF0, 0x7E, 0x00, 0x06, 0x01, // sub-ID 01 (request, not reply)
        0x42, 0x51, 0x01, 0x00, 0x00, 0x01, 0x00, 0x00, 0x00, 0xF7,
    ];
    assert!(parse_identity_reply(&msg).is_err());
}

#[test]
fn parse_identity_reply_bad_nonrealtime_id() {
    let msg = vec![
        0xF0, 0x7F, 0x00, 0x06, 0x02, 0x42, 0x51, 0x01, 0x00, 0x00, 0x01, 0x00, 0x00, 0x00,
        0xF7,
    ];
    assert!(parse_identity_reply(&msg).is_err());
}

// ---------------------------------------------------------------
// Search Device Request
// ---------------------------------------------------------------

#[test]
fn build_search_device_echo_0() {
    let msg = build_search_device(0x00);
    assert_eq!(msg, vec![0xF0, 0x42, 0x50, 0x00, 0x00, 0xF7]);
}

#[test]
fn build_search_device_echo_42() {
    let msg = build_search_device(0x42);
    assert_eq!(msg, vec![0xF0, 0x42, 0x50, 0x00, 0x42, 0xF7]);
}

// ---------------------------------------------------------------
// Search Device Reply parsing
// ---------------------------------------------------------------

#[test]
fn parse_search_device_reply_valid() {
    let msg = vec![
        0xF0, 0x42, 0x50, 0x01, // header
        0x7F, // echo_id
        0x00, // channel
        0x51, 0x01, // family
        0x00, 0x00, // member
        0x02, 0x01, 0x00, 0x00, // version
        0xF7,
    ];
    let reply = parse_search_device_reply(&msg).unwrap();
    assert_eq!(reply.echo_id, 0x7F);
    assert_eq!(reply.channel, ch(0));
    assert_eq!(reply.family_id, 0x0151);
    assert_eq!(reply.member_id, 0x0000);
    assert_eq!(reply.version, [0x02, 0x01, 0x00, 0x00]);
}

#[test]
fn parse_search_device_reply_channel_10() {
    let msg = vec![
        0xF0, 0x42, 0x50, 0x01, 0x00, 0x0A, 0x51, 0x01, 0x00, 0x00, 0x01, 0x00, 0x00, 0x00,
        0xF7,
    ];
    let reply = parse_search_device_reply(&msg).unwrap();
    assert_eq!(reply.channel, ch(10));
}

#[test]
fn parse_search_device_reply_too_short() {
    let msg = vec![0xF0, 0x42, 0x50, 0x01, 0x00, 0xF7];
    assert!(parse_search_device_reply(&msg).is_err());
}

#[test]
fn parse_search_device_reply_bad_start() {
    let msg = vec![
        0x00, 0x42, 0x50, 0x01, 0x00, 0x00, 0x51, 0x01, 0x00, 0x00, 0x01, 0x00, 0x00, 0x00,
        0xF7,
    ];
    assert!(parse_search_device_reply(&msg).is_err());
}

#[test]
fn parse_search_device_reply_bad_end() {
    let msg = vec![
        0xF0, 0x42, 0x50, 0x01, 0x00, 0x00, 0x51, 0x01, 0x00, 0x00, 0x01, 0x00, 0x00, 0x00,
        0x00,
    ];
    assert!(parse_search_device_reply(&msg).is_err());
}

#[test]
fn parse_search_device_reply_wrong_korg_id() {
    let msg = vec![
        0xF0, 0x43, 0x50, 0x01, 0x00, 0x00, 0x51, 0x01, 0x00, 0x00, 0x01, 0x00, 0x00, 0x00,
        0xF7,
    ];
    assert!(parse_search_device_reply(&msg).is_err());
}

#[test]
fn parse_search_device_reply_wrong_search_byte() {
    let msg = vec![
        0xF0, 0x42, 0x51, 0x01, 0x00, 0x00, 0x51, 0x01, 0x00, 0x00, 0x01, 0x00, 0x00, 0x00,
        0xF7,
    ];
    assert!(parse_search_device_reply(&msg).is_err());
}

#[test]
fn parse_search_device_reply_wrong_reply_byte() {
    let msg = vec![
        0xF0, 0x42, 0x50, 0x00, 0x00, 0x00, 0x51, 0x01, 0x00, 0x00, 0x01, 0x00, 0x00, 0x00,
        0xF7,
    ];
    assert!(parse_search_device_reply(&msg).is_err());
}

// ---------------------------------------------------------------
// IdentityReply Debug + Clone + Eq
// ---------------------------------------------------------------

#[test]
fn identity_reply_debug_clone_eq() {
    let reply = IdentityReply {
        channel: ch(0),
        manufacturer_id: 0x42,
        family_id: 0x0151,
        member_id: 0x0000,
        version: [1, 0, 0, 0],
    };
    let cloned = reply.clone();
    assert_eq!(reply, cloned);
    let _dbg = format!("{reply:?}");
}

#[test]
fn search_device_reply_debug_clone_eq() {
    let reply = SearchDeviceReply {
        echo_id: 0x42,
        channel: ch(5),
        family_id: 0x0151,
        member_id: 0x0000,
        version: [2, 1, 0, 0],
    };
    let cloned = reply.clone();
    assert_eq!(reply, cloned);
    let _dbg = format!("{reply:?}");
}

// ---------------------------------------------------------------
// Search device reply with channel out of range for U4
// ---------------------------------------------------------------

#[test]
fn parse_search_device_reply_channel_out_of_range() {
    let msg = vec![
        0xF0, 0x42, 0x50, 0x01, 0x00, 0x10, // channel = 16, out of U4 range
        0x51, 0x01, 0x00, 0x00, 0x01, 0x00, 0x00, 0x00, 0xF7,
    ];
    assert!(parse_search_device_reply(&msg).is_err());
}
