//! Errors produced by the library.

use std::time::Duration;

use vstd::prelude::*;

use crate::sysex::frame::SysexStatus;
use crate::text::{
    decimal_string, decimal_string_usize, decimal_text, duration_debug_string, hex2_string, hex2_text, hex8_string, hex8_text,
    signed_decimal_text,
};

verus! {

/// All errors produced by the library.
#[derive(Debug)]
#[non_exhaustive]
pub enum Error {
    /// A value was outside the valid range for its type.
    OutOfRange { name: &'static str, value: i64, min: i64, max: i64 },
    /// The 7-bit codec received malformed input.
    Codec(String),
    /// A MIDI message had an invalid status byte or structure.
    InvalidMessage(String),
    /// A SysEx message or data blob was malformed or refused.
    Sysex(SysexError),
    /// The underlying MIDI I/O layer failed.
    MidiIo(String),
    /// A program file or library archive could not be read or written.
    Zip(String),
}

/// Errors specific to SysEx framing, data blobs and transactions.
#[allow(inconsistent_fields)]
#[derive(Debug)]
#[non_exhaustive]
pub enum SysexError {
    /// The byte at `offset` is not the one that the message header requires.
    InvalidHeader { offset: usize, found: u8 },
    /// A message or blob is shorter than its format requires.
    PayloadTooShort { expected: usize, actual: usize },
    /// A blob does not start with its four-byte magic.
    InvalidMagic { expected: [u8; 4], actual: [u8; 4] },
    /// A SysEx frame carries another function ID than the one expected.
    WrongFunctionId { expected: u8, found: u8 },
    /// A program number above 499.
    InvalidProgramNumber(u16),
    /// A byte outside the program-name character set.
    InvalidProgramNameChar(u8),
    /// A user module ID outside 1--4.
    InvalidModuleId(u8),
    /// A slot index beyond the slots of a user module.
    InvalidSlotIndex { slot: u8, max: u8 },
    /// The CRC32 stored with user slot data does not match its payload.
    Crc32Mismatch { expected: u32, actual: u32 },
    /// The checksum of an MTS bulk dump does not match its contents.
    ChecksumMismatch { expected: u8, actual: u8 },
    /// The device answered with an error status.
    NakReceived(SysexStatus),
    /// The device answered with an unexpected function ID.
    UnexpectedResponse(u8),
    /// No SysEx response arrived within the timeout.
    Timeout(Duration),
}

impl Error {
    /// The out-of-range error that range-checked constructors report.
    pub open spec fn out_of_range_result<T>(name: &'static str, value: i64, min: i64, max: i64) -> Result<T, Error> {
        Err(Error::OutOfRange { name, value, min, max })
    }
}

/// The text of the codec error for a wire byte with its high bit set.
pub open spec fn high_bit_text(pos: usize, b: u8) -> Seq<char> {
    "wire byte at offset "@ + decimal_text(pos as nat) + " has high bit set (0x"@ + hex2_text(b)
        + ")"@
}

/// Builds the codec error message for the wire byte `b` at offset `pos`.
pub fn high_bit_message(pos: usize, b: u8) -> (s: String)
    ensures
        s@ == high_bit_text(pos, b),
{
    let mut s = String::from_str("wire byte at offset ");
    let digits = decimal_string_usize(pos);
    s.append(digits.as_str());
    s.append(" has high bit set (0x");
    let hex = hex2_string(b);
    s.append(hex.as_str());
    s.append(")");
    s
}

impl From<SysexError> for Error {
    fn from(err: SysexError) -> (e: Error) {
        Error::Sysex(err)
    }
}

impl vstd::std_specs::convert::FromSpecImpl<SysexError> for Error {
    open spec fn obeys_from_spec() -> bool {
        true
    }

    open spec fn from_spec(v: SysexError) -> Error {
        Error::Sysex(v)
    }
}

/// The four bytes of `b` as upper-case hexadecimal digits.
pub open spec fn hex4_bytes_text(b: [u8; 4]) -> Seq<char> {
    hex2_text(b@[0]) + hex2_text(b@[1]) + hex2_text(b@[2]) + hex2_text(b@[3])
}

/// The text that starts the message of a timeout.
pub open spec fn timeout_prefix() -> Seq<char> {
    "timed out waiting for SysEx response after "@
}

/// The message of each SysEx error but a timeout.
pub open spec fn sysex_error_text(e: SysexError) -> Seq<char> {
    match e {
        SysexError::InvalidHeader { offset, found } => "invalid SysEx header: byte 0x"@ + hex2_text(found) + " at offset "@
            + decimal_text(offset as nat),
        SysexError::PayloadTooShort { expected, actual } => "payload too short: expected "@ + decimal_text(expected as nat)
            + " bytes, got "@ + decimal_text(actual as nat),
        SysexError::InvalidMagic { expected, actual } => "invalid magic bytes: expected "@ + hex4_bytes_text(expected)
            + ", got "@ + hex4_bytes_text(actual),
        SysexError::WrongFunctionId { expected, found } => "wrong function ID: expected 0x"@ + hex2_text(expected)
            + ", found 0x"@ + hex2_text(found),
        SysexError::InvalidProgramNumber(n) => "invalid program number "@ + decimal_text(n as nat) + " (must be 0..=499)"@,
        SysexError::InvalidProgramNameChar(b) => "invalid program name character 0x"@ + hex2_text(b),
        SysexError::InvalidModuleId(b) => "invalid user module ID "@ + decimal_text(b as nat),
        SysexError::InvalidSlotIndex { slot, max } => "invalid slot index "@ + decimal_text(slot as nat) + " (module has "@
            + decimal_text(max as nat) + " slots)"@,
        SysexError::Crc32Mismatch { expected, actual } => "CRC32 mismatch: expected 0x"@ + hex8_text(expected)
            + ", computed 0x"@ + hex8_text(actual),
        SysexError::ChecksumMismatch { expected, actual } => "checksum mismatch: computed 0x"@ + hex2_text(expected)
            + ", stored 0x"@ + hex2_text(actual),
        SysexError::NakReceived(status) => "device returned error status: "@ + status.spec_label(),
        SysexError::UnexpectedResponse(f) => "unexpected response function ID 0x"@ + hex2_text(f),
        SysexError::Timeout(_) => timeout_prefix(),
    }
}

/// `text` is the message of the SysEx error `e`: its full text, or for a
/// timeout, a text that starts with [`timeout_prefix`] and ends with the
/// duration.
pub open spec fn is_sysex_error_text(e: SysexError, text: Seq<char>) -> bool {
    if e is Timeout {
        text.len() >= timeout_prefix().len() && text.subrange(0, timeout_prefix().len() as int) == timeout_prefix()
    } else {
        text == sysex_error_text(e)
    }
}

/// `text` is the message of the error `e`.
pub open spec fn is_error_text(e: Error, text: Seq<char>) -> bool {
    match e {
        Error::OutOfRange { name, value, min, max } => text == name@ + " value "@ + signed_decimal_text(value as int)
            + " out of range "@ + signed_decimal_text(min as int) + "..="@ + signed_decimal_text(max as int),
        Error::Codec(m) => text == "codec error: "@ + m@,
        Error::InvalidMessage(m) => text == "invalid MIDI message: "@ + m@,
        Error::Sysex(s) => text.len() >= 13 && text.subrange(0, 13) == "SysEx error: "@ && is_sysex_error_text(
            s,
            text.subrange(13, text.len() as int),
        ),
        Error::MidiIo(m) => text == "MIDI I/O error: "@ + m@,
        Error::Zip(m) => text == "zip archive error: "@ + m@,
    }
}

impl SysexError {
    /// The message of this error.
    pub fn to_string(&self) -> (s: String)
        ensures
            is_sysex_error_text(*self, s@),
    {
        proof {
            reveal_strlit("timed out waiting for SysEx response after ");
        }
        let mut s: String;
        match self {
            SysexError::InvalidHeader { offset, found } => {
                s = String::from_str("invalid SysEx header: byte 0x");
                s.append(hex2_string(*found).as_str());
                s.append(" at offset ");
                s.append(decimal_string_usize(*offset).as_str());
                assert(s@ == sysex_error_text(*self));
            },
            SysexError::PayloadTooShort { expected, actual } => {
                s = String::from_str("payload too short: expected ");
                s.append(decimal_string_usize(*expected).as_str());
                s.append(" bytes, got ");
                s.append(decimal_string_usize(*actual).as_str());
                assert(s@ == sysex_error_text(*self));
            },
            SysexError::InvalidMagic { expected, actual } => {
                s = String::from_str("invalid magic bytes: expected ");
                s.append(hex2_string(expected[0]).as_str());
                s.append(hex2_string(expected[1]).as_str());
                s.append(hex2_string(expected[2]).as_str());
                s.append(hex2_string(expected[3]).as_str());
                s.append(", got ");
                s.append(hex2_string(actual[0]).as_str());
                s.append(hex2_string(actual[1]).as_str());
                s.append(hex2_string(actual[2]).as_str());
                s.append(hex2_string(actual[3]).as_str());
                assert(s@ == sysex_error_text(*self));
            },
            SysexError::WrongFunctionId { expected, found } => {
                s = String::from_str("wrong function ID: expected 0x");
                s.append(hex2_string(*expected).as_str());
                s.append(", found 0x");
                s.append(hex2_string(*found).as_str());
                assert(s@ == sysex_error_text(*self));
            },
            SysexError::InvalidProgramNumber(n) => {
                s = String::from_str("invalid program number ");
                s.append(decimal_string_usize(*n as usize).as_str());
                s.append(" (must be 0..=499)");
                assert(s@ == sysex_error_text(*self));
            },
            SysexError::InvalidProgramNameChar(b) => {
                s = String::from_str("invalid program name character 0x");
                s.append(hex2_string(*b).as_str());
                assert(s@ == sysex_error_text(*self));
            },
            SysexError::InvalidModuleId(b) => {
                s = String::from_str("invalid user module ID ");
                s.append(decimal_string_usize(*b as usize).as_str());
                assert(s@ == sysex_error_text(*self));
            },
            SysexError::InvalidSlotIndex { slot, max } => {
                s = String::from_str("invalid slot index ");
                s.append(decimal_string_usize(*slot as usize).as_str());
                s.append(" (module has ");
                s.append(decimal_string_usize(*max as usize).as_str());
                s.append(" slots)");
                assert(s@ == sysex_error_text(*self));
            },
            SysexError::Crc32Mismatch { expected, actual } => {
                s = String::from_str("CRC32 mismatch: expected 0x");
                s.append(hex8_string(*expected).as_str());
                s.append(", computed 0x");
                s.append(hex8_string(*actual).as_str());
                assert(s@ == sysex_error_text(*self));
            },
            SysexError::ChecksumMismatch { expected, actual } => {
                s = String::from_str("checksum mismatch: computed 0x");
                s.append(hex2_string(*expected).as_str());
                s.append(", stored 0x");
                s.append(hex2_string(*actual).as_str());
                assert(s@ == sysex_error_text(*self));
            },
            SysexError::NakReceived(status) => {
                s = String::from_str("device returned error status: ");
                s.append(status.to_string().as_str());
                assert(s@ == sysex_error_text(*self));
            },
            SysexError::UnexpectedResponse(f) => {
                s = String::from_str("unexpected response function ID 0x");
                s.append(hex2_string(*f).as_str());
                assert(s@ == sysex_error_text(*self));
            },
            SysexError::Timeout(d) => {
                s = String::from_str("timed out waiting for SysEx response after ");
                let ghost prefix = s@;
                s.append(duration_debug_string(*d).as_str());
                assert(s@.subrange(0, prefix.len() as int) =~= prefix);
            },
        }
        s
    }
}

impl Error {
    /// The message of this error.
    pub fn to_string(&self) -> (s: String)
        ensures
            is_error_text(*self, s@),
    {
        proof {
            reveal_strlit("SysEx error: ");
        }
        let mut s: String;
        match self {
            Error::OutOfRange { name, value, min, max } => {
                s = String::from_str(*name);
                s.append(" value ");
                s.append(decimal_string(*value).as_str());
                s.append(" out of range ");
                s.append(decimal_string(*min).as_str());
                s.append("..=");
                s.append(decimal_string(*max).as_str());
            },
            Error::Codec(m) => {
                s = String::from_str("codec error: ");
                s.append(m.as_str());
            },
            Error::InvalidMessage(m) => {
                s = String::from_str("invalid MIDI message: ");
                s.append(m.as_str());
            },
            Error::Sysex(e) => {
                s = String::from_str("SysEx error: ");
                let inner = e.to_string();
                s.append(inner.as_str());
                assert(s@.subrange(0, 13) =~= "SysEx error: "@);
                assert(s@.subrange(13, s@.len() as int) =~= inner@);
            },
            Error::MidiIo(m) => {
                s = String::from_str("MIDI I/O error: ");
                s.append(m.as_str());
            },
            Error::Zip(m) => {
                s = String::from_str("zip archive error: ");
                s.append(m.as_str());
            },
        }
        s
    }
}

} // verus!
