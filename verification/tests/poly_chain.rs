//! Tests of the poly chain messages.
#![allow(unused_imports)]

use minilogue_xd::sysex::frame;
use minilogue_xd::sysex::{DEVICE_ID, KORG_ID};
use std::collections::HashSet;
use minilogue_xd::error::{Error, SysexError};
use minilogue_xd::message::types::{U4, U7};
use minilogue_xd::sysex::frame::{POLY_CHAIN_NOTE_OFF, POLY_CHAIN_NOTE_ON};
use minilogue_xd::sysex::poly_chain::{build_note_off, build_note_on, parse_note_off, parse_note_on, PolyChainNoteOff, PolyChainNoteOn, U2, PITCH_MAX};

fn ch(n: u8) -> U4 {
    U4::new(n).unwrap()
}

// ---------------------------------------------------------------
// U2
// ---------------------------------------------------------------

#[test]
fn u2_new_valid() {
    for v in 0..=3 {
        let u = U2::new(v).unwrap();
        assert_eq!(u.value(), v);
    }
}

#[test]
fn u2_new_invalid() {
    assert!(U2::new(4).is_err());
    assert!(U2::new(128).is_err());
    assert!(U2::new(255).is_err());
}

#[test]
fn u2_try_from() {
    assert!(U2::try_from(3u8).is_ok());
    assert!(U2::try_from(4u8).is_err());
}

#[test]
fn u2_into_u8() {
    let u = U2::new(2).unwrap();
    let raw: u8 = u.into();
    assert_eq!(raw, 2);
}

#[test]
fn u2_display() {
    let u = U2::new(1).unwrap();
    assert_eq!(u.to_string(), "1");
}

#[test]
fn u2_copy_hash_ord() {
    let a = U2::new(0).unwrap();
    let b = U2::new(3).unwrap();
    let c = a; // Copy
    assert_eq!(a, c);
    assert!(a < b);
    let mut set = HashSet::new();
    set.insert(a);
    assert!(set.contains(&U2::new(0).unwrap()));
}

// ---------------------------------------------------------------
// PolyChainNoteOn — build/parse roundtrip
// ---------------------------------------------------------------

#[test]
fn note_on_roundtrip_basic() {
    let note_on = PolyChainNoteOn {
        voice_slot: U2::new(0).unwrap(),
        note: U7::new(60).unwrap(),
        velocity: U7::new(100).unwrap(),
        pitch: 0,
    };
    let msg = build_note_on(ch(0), &note_on).unwrap();
    assert_eq!(msg.len(), 14);
    let parsed = parse_note_on(&msg).unwrap();
    assert_eq!(parsed, note_on);
}

#[test]
fn note_on_roundtrip_max_pitch() {
    let note_on = PolyChainNoteOn {
        voice_slot: U2::new(3).unwrap(),
        note: U7::new(127).unwrap(),
        velocity: U7::new(127).unwrap(),
        pitch: PITCH_MAX,
    };
    let msg = build_note_on(ch(15), &note_on).unwrap();
    let parsed = parse_note_on(&msg).unwrap();
    assert_eq!(parsed, note_on);
}

#[test]
fn note_on_pitch_encoding() {
    // Verify the 21-bit pitch encoding explicitly.
    let pitch: u32 = 0b0_1010101_1001100_0110011; // 21 bits
    let note_on = PolyChainNoteOn {
        voice_slot: U2::new(1).unwrap(),
        note: U7::new(69).unwrap(),
        velocity: U7::new(64).unwrap(),
        pitch,
    };
    let msg = build_note_on(ch(0), &note_on).unwrap();
    // Check the three pitch bytes.
    let h = msg[10];
    let m = msg[11];
    let l = msg[12];
    assert_eq!(h, ((pitch >> 14) & 0x7F) as u8);
    assert_eq!(m, ((pitch >> 7) & 0x7F) as u8);
    assert_eq!(l, (pitch & 0x7F) as u8);

    let parsed = parse_note_on(&msg).unwrap();
    assert_eq!(parsed.pitch, pitch);
}

#[test]
fn note_on_all_voice_slots() {
    for slot in 0..=3 {
        let note_on = PolyChainNoteOn {
            voice_slot: U2::new(slot).unwrap(),
            note: U7::new(60).unwrap(),
            velocity: U7::new(100).unwrap(),
            pitch: 12345,
        };
        let msg = build_note_on(ch(0), &note_on).unwrap();
        let parsed = parse_note_on(&msg).unwrap();
        assert_eq!(parsed.voice_slot.value(), slot);
    }
}

#[test]
fn note_on_channel_preserved() {
    let note_on = PolyChainNoteOn {
        voice_slot: U2::new(0).unwrap(),
        note: U7::new(60).unwrap(),
        velocity: U7::new(100).unwrap(),
        pitch: 0,
    };
    for c in 0..=15 {
        let msg = build_note_on(ch(c), &note_on).unwrap();
        assert_eq!(msg[2], 0x30 | c);
    }
}

// ---------------------------------------------------------------
// PolyChainNoteOff — build/parse roundtrip
// ---------------------------------------------------------------

#[test]
fn note_off_roundtrip_mute_false() {
    let note_off = PolyChainNoteOff {
        voice_slot: U2::new(2).unwrap(),
        mute: false,
    };
    let msg = build_note_off(ch(0), &note_off);
    assert_eq!(msg.len(), 10);
    let parsed = parse_note_off(&msg).unwrap();
    assert_eq!(parsed, note_off);
}

#[test]
fn note_off_roundtrip_mute_true() {
    let note_off = PolyChainNoteOff {
        voice_slot: U2::new(1).unwrap(),
        mute: true,
    };
    let msg = build_note_off(ch(7), &note_off);
    let parsed = parse_note_off(&msg).unwrap();
    assert_eq!(parsed, note_off);
}

#[test]
fn note_off_all_voice_slots() {
    for slot in 0..=3 {
        let note_off = PolyChainNoteOff {
            voice_slot: U2::new(slot).unwrap(),
            mute: slot % 2 == 0,
        };
        let msg = build_note_off(ch(0), &note_off);
        let parsed = parse_note_off(&msg).unwrap();
        assert_eq!(parsed.voice_slot.value(), slot);
        assert_eq!(parsed.mute, slot % 2 == 0);
    }
}

// ---------------------------------------------------------------
// Error cases
// ---------------------------------------------------------------

#[test]
fn parse_note_on_too_short() {
    let msg = vec![0xF0, 0x42, 0x30, 0x00, 0x01, 0x51, 0x60, 0xF7];
    assert!(parse_note_on(&msg).is_err());
}

#[test]
fn parse_note_on_wrong_function_id() {
    let note_on = PolyChainNoteOn {
        voice_slot: U2::new(0).unwrap(),
        note: U7::new(60).unwrap(),
        velocity: U7::new(100).unwrap(),
        pitch: 0,
    };
    let mut msg = build_note_on(ch(0), &note_on).unwrap();
    msg[6] = frame::POLY_CHAIN_NOTE_OFF; // wrong
    assert!(parse_note_on(&msg).is_err());
}

#[test]
fn parse_note_on_wrong_manufacturer() {
    let note_on = PolyChainNoteOn {
        voice_slot: U2::new(0).unwrap(),
        note: U7::new(60).unwrap(),
        velocity: U7::new(100).unwrap(),
        pitch: 0,
    };
    let mut msg = build_note_on(ch(0), &note_on).unwrap();
    msg[1] = 0x43; // Yamaha
    assert!(parse_note_on(&msg).is_err());
}

#[test]
fn parse_note_on_missing_f7() {
    let note_on = PolyChainNoteOn {
        voice_slot: U2::new(0).unwrap(),
        note: U7::new(60).unwrap(),
        velocity: U7::new(100).unwrap(),
        pitch: 0,
    };
    let mut msg = build_note_on(ch(0), &note_on).unwrap();
    let last = msg.len() - 1;
    msg[last] = 0x00;
    assert!(parse_note_on(&msg).is_err());
}

#[test]
fn parse_note_on_invalid_voice_slot() {
    let msg = vec![
        0xF0,
        KORG_ID,
        0x30,
        DEVICE_ID[0],
        DEVICE_ID[1],
        DEVICE_ID[2],
        frame::POLY_CHAIN_NOTE_ON,
        5, // invalid voice slot
        60,
        100,
        0,
        0,
        0,
        0xF7,
    ];
    assert!(parse_note_on(&msg).is_err());
}

#[test]
fn parse_note_off_too_short() {
    let msg = vec![0xF0, 0x42, 0x30, 0x00, 0x01, 0x51, 0x61, 0xF7];
    assert!(parse_note_off(&msg).is_err());
}

#[test]
fn parse_note_off_wrong_function_id() {
    let note_off = PolyChainNoteOff {
        voice_slot: U2::new(0).unwrap(),
        mute: false,
    };
    let mut msg = build_note_off(ch(0), &note_off);
    msg[6] = frame::POLY_CHAIN_NOTE_ON; // wrong
    assert!(parse_note_off(&msg).is_err());
}

#[test]
fn parse_note_off_missing_f7() {
    let note_off = PolyChainNoteOff {
        voice_slot: U2::new(0).unwrap(),
        mute: false,
    };
    let mut msg = build_note_off(ch(0), &note_off);
    let last = msg.len() - 1;
    msg[last] = 0x00;
    assert!(parse_note_off(&msg).is_err());
}

// ---------------------------------------------------------------
// Trait derivations
// ---------------------------------------------------------------

#[test]
fn note_on_debug_clone_copy() {
    let n = PolyChainNoteOn {
        voice_slot: U2::new(0).unwrap(),
        note: U7::new(60).unwrap(),
        velocity: U7::new(100).unwrap(),
        pitch: 0,
    };
    let n2 = n; // Copy
    assert_eq!(n, n2);
    let _dbg = format!("{n:?}");
}

#[test]
fn note_off_debug_clone_copy() {
    let n = PolyChainNoteOff {
        voice_slot: U2::new(0).unwrap(),
        mute: true,
    };
    let n2 = n; // Copy
    assert_eq!(n, n2);
    let _dbg = format!("{n:?}");
}

#[test]
fn pitch_zero_encoding() {
    let note_on = PolyChainNoteOn {
        voice_slot: U2::new(0).unwrap(),
        note: U7::new(0).unwrap(),
        velocity: U7::new(0).unwrap(),
        pitch: 0,
    };
    let msg = build_note_on(ch(0), &note_on).unwrap();
    assert_eq!(msg[10], 0); // H
    assert_eq!(msg[11], 0); // M
    assert_eq!(msg[12], 0); // L
}

#[test]
fn pitch_max_encoding() {
    let note_on = PolyChainNoteOn {
        voice_slot: U2::new(0).unwrap(),
        note: U7::new(0).unwrap(),
        velocity: U7::new(0).unwrap(),
        pitch: PITCH_MAX,
    };
    let msg = build_note_on(ch(0), &note_on).unwrap();
    assert_eq!(msg[10], 0x7F); // H: all 7 bits set
    assert_eq!(msg[11], 0x7F); // M: all 7 bits set
    assert_eq!(msg[12], 0x7F); // L: all 7 bits set
}

#[test]
fn build_note_on_pitch_out_of_range() {
    let note_on = PolyChainNoteOn {
        voice_slot: U2::new(0).unwrap(),
        note: U7::new(60).unwrap(),
        velocity: U7::new(100).unwrap(),
        pitch: PITCH_MAX + 1,
    };
    assert!(build_note_on(ch(0), &note_on).is_err());
}
