//! Tests of error messages.
#![allow(unused_imports)]

use minilogue_xd::error::{Error, SysexError};

#[test]
fn error_display_out_of_range() {
    let e = Error::OutOfRange {
        name: "U7",
        value: 128,
        min: 0,
        max: 127,
    };
    let msg = e.to_string();
    assert!(msg.contains("128"));
    assert!(msg.contains("U7"));
    assert!(msg.contains("0..=127"));
}

#[test]
fn error_display_codec() {
    let e = Error::Codec("high bit set".to_string());
    assert_eq!(e.to_string(), "codec error: high bit set");
}

#[test]
fn error_display_invalid_message() {
    let e = Error::InvalidMessage("bad status byte".to_string());
    assert_eq!(e.to_string(), "invalid MIDI message: bad status byte");
}
