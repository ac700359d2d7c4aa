//! Korg SysEx frames: `[F0, 42, 3g, 00, 01, 51, function_id, ...payload..., F7]`,
//! where `g` is the global channel (0--15), and the ACK/NAK status codes.

use vstd::prelude::*;

use crate::codec::{all_seven_bit, decode_7bit, encode_7bit, is_codec_error, spec_decode_7bit, spec_encode_7bit};
use crate::error::{Error, SysexError};
use crate::message::types::U4;
use crate::sysex::{DEVICE_ID, KORG_ID};

verus! {

// Function IDs of requests (host to device).

/// Request the global data blob.
pub const GLOBAL_DATA_REQUEST: u8 = 0x0E;
/// Request the current program data.
pub const CURRENT_PROGRAM_REQUEST: u8 = 0x10;
/// Request the user scale data.
pub const USER_SCALE_REQUEST: u8 = 0x14;
/// Request the user octave data.
pub const USER_OCTAVE_REQUEST: u8 = 0x15;
/// Request the user API version.
pub const USER_API_VERSION_REQUEST: u8 = 0x17;
/// Request user module info.
pub const USER_MODULE_INFO_REQUEST: u8 = 0x18;
/// Request user slot status.
pub const USER_SLOT_STATUS_REQUEST: u8 = 0x19;
/// Request user slot data.
pub const USER_SLOT_DATA_REQUEST: u8 = 0x1A;
/// Clear a user slot.
pub const CLEAR_USER_SLOT: u8 = 0x1B;
/// Request a specific program data dump by number.
pub const PROGRAM_DATA_REQUEST: u8 = 0x1C;
/// Clear a user module.
pub const CLEAR_USER_MODULE: u8 = 0x1D;
/// Swap user data.
pub const SWAP_USER_DATA: u8 = 0x1E;

// Function IDs of dumps and replies (device to host).

/// Current program data dump.
pub const CURRENT_PROGRAM_DUMP: u8 = 0x40;
/// User scale data dump.
pub const USER_SCALE_DUMP: u8 = 0x44;
/// User octave data dump.
pub const USER_OCTAVE_DUMP: u8 = 0x45;
/// User API version reply.
pub const USER_API_VERSION_REPLY: u8 = 0x47;
/// User module info reply.
pub const USER_MODULE_INFO_REPLY: u8 = 0x48;
/// User slot status reply.
pub const USER_SLOT_STATUS_REPLY: u8 = 0x49;
/// User slot data reply.
pub const USER_SLOT_DATA_REPLY: u8 = 0x4A;
/// Program data dump (specific program number).
pub const PROGRAM_DATA_DUMP: u8 = 0x4C;
/// Global data dump.
pub const GLOBAL_DATA_DUMP: u8 = 0x51;

// Function IDs of poly chain messages.

/// Poly chain note-on.
pub const POLY_CHAIN_NOTE_ON: u8 = 0x60;
/// Poly chain note-off.
pub const POLY_CHAIN_NOTE_OFF: u8 = 0x61;

/// Status codes returned by the device as ACK or error responses.
#[derive(Debug, Clone, Copy, PartialEq, Eq, Hash, Structural)]
#[non_exhaustive]
pub enum SysexStatus {
    /// Data load completed successfully (0x23).
    DataLoadCompleted,
    /// Data load error (0x24).
    DataLoadError,
    /// Data format error (0x26).
    DataFormatError,
    /// User data size error (0x27).
    UserDataSizeError,
    /// User data CRC error (0x28).
    UserDataCrcError,
    /// User target error (0x29).
    UserTargetError,
    /// User API error (0x2A).
    UserApiError,
    /// User load size error (0x2B).
    UserLoadSizeError,
    /// User module error (0x2C).
    UserModuleError,
    /// User slot error (0x2D).
    UserSlotError,
    /// User format error (0x2E).
    UserFormatError,
    /// User internal error (0x2F).
    UserInternalError,
}

impl SysexStatus {
    /// The wire byte of each status.
    pub open spec fn spec_byte(self) -> u8 {
        match self {
            SysexStatus::DataLoadCompleted => 0x23,
            SysexStatus::DataLoadError => 0x24,
            SysexStatus::DataFormatError => 0x26,
            SysexStatus::UserDataSizeError => 0x27,
            SysexStatus::UserDataCrcError => 0x28,
            SysexStatus::UserTargetError => 0x29,
            SysexStatus::UserApiError => 0x2A,
            SysexStatus::UserLoadSizeError => 0x2B,
            SysexStatus::UserModuleError => 0x2C,
            SysexStatus::UserSlotError => 0x2D,
            SysexStatus::UserFormatError => 0x2E,
            SysexStatus::UserInternalError => 0x2F,
        }
    }

    /// The status whose wire byte is `byte`, if any.
    pub open spec fn spec_from_byte(byte: u8) -> Option<SysexStatus> {
        if byte == 0x23 {
            Some(SysexStatus::DataLoadCompleted)
        } else if byte == 0x24 {
            Some(SysexStatus::DataLoadError)
        } else if byte == 0x26 {
            Some(SysexStatus::DataFormatError)
        } else if byte == 0x27 {
            Some(SysexStatus::UserDataSizeError)
        } else if byte == 0x28 {
            Some(SysexStatus::UserDataCrcError)
        } else if byte == 0x29 {
            Some(SysexStatus::UserTargetError)
        } else if byte == 0x2A {
            Some(SysexStatus::UserApiError)
        } else if byte == 0x2B {
            Some(SysexStatus::UserLoadSizeError)
        } else if byte == 0x2C {
            Some(SysexStatus::UserModuleError)
        } else if byte == 0x2D {
            Some(SysexStatus::UserSlotError)
        } else if byte == 0x2E {
            Some(SysexStatus::UserFormatError)
        } else if byte == 0x2F {
            Some(SysexStatus::UserInternalError)
        } else {
            None
        }
    }

    /// The human-readable name of each status.
    pub open spec fn spec_label(self) -> Seq<char> {
        match self {
            SysexStatus::DataLoadCompleted => "Data Load Completed"@,
            SysexStatus::DataLoadError => "Data Load Error"@,
            SysexStatus::DataFormatError => "Data Format Error"@,
            SysexStatus::UserDataSizeError => "User Data Size Error"@,
            SysexStatus::UserDataCrcError => "User Data CRC Error"@,
            SysexStatus::UserTargetError => "User Target Error"@,
            SysexStatus::UserApiError => "User API Error"@,
            SysexStatus::UserLoadSizeError => "User Load Size Error"@,
            SysexStatus::UserModuleError => "User Module Error"@,
            SysexStatus::UserSlotError => "User Slot Error"@,
            SysexStatus::UserFormatError => "User Format Error"@,
            SysexStatus::UserInternalError => "User Internal Error"@,
        }
    }

    /// Parse a status byte; `None` for bytes that are no status code.
    pub fn from_byte(byte: u8) -> (r: Option<Self>)
        ensures
            r == Self::spec_from_byte(byte),
    {
        match byte {
            0x23 => Some(Self::DataLoadCompleted),
            0x24 => Some(Self::DataLoadError),
            0x26 => Some(Self::DataFormatError),
            0x27 => Some(Self::UserDataSizeError),
            0x28 => Some(Self::UserDataCrcError),
            0x29 => Some(Self::UserTargetError),
            0x2A => Some(Self::UserApiError),
            0x2B => Some(Self::UserLoadSizeError),
            0x2C => Some(Self::UserModuleError),
            0x2D => Some(Self::UserSlotError),
            0x2E => Some(Self::UserFormatError),
            0x2F => Some(Self::UserInternalError),
            _ => None,
        }
    }

    /// Convert this status to its wire byte value.
    pub fn to_byte(self) -> (b: u8)
        ensures
            b == self.spec_byte(),
    {
        match self {
            Self::DataLoadCompleted => 0x23,
            Self::DataLoadError => 0x24,
            Self::DataFormatError => 0x26,
            Self::UserDataSizeError => 0x27,
            Self::UserDataCrcError => 0x28,
            Self::UserTargetError => 0x29,
            Self::UserApiError => 0x2A,
            Self::UserLoadSizeError => 0x2B,
            Self::UserModuleError => 0x2C,
            Self::UserSlotError => 0x2D,
            Self::UserFormatError => 0x2E,
            Self::UserInternalError => 0x2F,
        }
    }

    /// `true` for the successful acknowledgement only.
    pub fn is_ack(self) -> (b: bool)
        ensures
            b == (self == SysexStatus::DataLoadCompleted),
    {
        matches!(self, Self::DataLoadCompleted)
    }

    /// `true` for every status but the successful acknowledgement.
    pub fn is_error(self) -> (b: bool)
        ensures
            b == (self != SysexStatus::DataLoadCompleted),
    {
        !self.is_ack()
    }

    /// The human-readable name of this status, such as `"Data Load Error"`.
    pub fn to_string(&self) -> (s: String)
        ensures
            s@ == self.spec_label(),
    {
        let text = match self {
            Self::DataLoadCompleted => "Data Load Completed",
            Self::DataLoadError => "Data Load Error",
            Self::DataFormatError => "Data Format Error",
            Self::UserDataSizeError => "User Data Size Error",
            Self::UserDataCrcError => "User Data CRC Error",
            Self::UserTargetError => "User Target Error",
            Self::UserApiError => "User API Error",
            Self::UserLoadSizeError => "User Load Size Error",
            Self::UserModuleError => "User Module Error",
            Self::UserSlotError => "User Slot Error",
            Self::UserFormatError => "User Format Error",
            Self::UserInternalError => "User Internal Error",
        };
        String::from_str(text)
    }
}

/// Decoding a status byte gives back the status: every status has its own
/// wire byte.
pub proof fn lemma_status_byte_round_trip(status: SysexStatus)
    ensures
        SysexStatus::spec_from_byte(status.spec_byte()) == Some(status),
{
}

/// A parsed Korg Minilogue XD SysEx frame; `data` is the decoded 8-bit
/// payload (empty for requests and status messages).
#[derive(Debug, Clone, PartialEq)]
pub struct SysexFrame {
    /// MIDI channel (0--15).
    pub channel: U4,
    /// The function ID byte from the frame header.
    pub function_id: u8,
    /// Decoded 8-bit payload data.
    pub data: Vec<u8>,
}

/// Minimum frame length: `F0 42 3g 00 01 51 FN F7`.
pub const MIN_FRAME_LEN: usize = 8;

/// The six header bytes of a Korg frame on `channel`.
pub open spec fn header_bytes(channel: u8) -> Seq<u8> {
    seq![0xF0u8, 0x42u8, 0x30u8 | channel, 0x00u8, 0x01u8, 0x51u8]
}

/// The complete frame with header, function ID, `payload` and trailer.
pub open spec fn frame_bytes(channel: u8, function_id: u8, payload: Seq<u8>) -> Seq<u8> {
    header_bytes(channel).push(function_id) + payload + seq![0xF7u8]
}

/// Build a complete SysEx message whose payload is `data_8bit` in the
/// 7-bit encoding.
pub fn build_sysex(channel: U4, function_id: u8, data_8bit: &[u8]) -> (msg: Vec<u8>)
    ensures
        msg@ == frame_bytes(channel.value_of(), function_id, spec_encode_7bit(data_8bit@)),
{
    let encoded = encode_7bit(data_8bit);
    let mut msg: Vec<u8> = Vec::new();
    msg.push(0xF0);
    msg.push(KORG_ID);
    msg.push(0x30 | channel.value());
    msg.push(DEVICE_ID[0]);
    msg.push(DEVICE_ID[1]);
    msg.push(DEVICE_ID[2]);
    msg.push(function_id);
    let mut i: usize = 0;
    while i < encoded.len()
        invariant
            i <= encoded@.len(),
            msg@ == header_bytes(channel.value_of()).push(function_id) + encoded@.take(i as int),
        decreases encoded@.len() - i,
    {
        msg.push(encoded[i]);
        assert(encoded@.take(i + 1) =~= encoded@.take(i as int).push(encoded@[i as int]));
        i = i + 1;
    }
    assert(encoded@.take(encoded@.len() as int) =~= encoded@);
    msg.push(0xF7);
    assert(msg@ =~= frame_bytes(channel.value_of(), function_id, spec_encode_7bit(data_8bit@)));
    msg
}

/// Build a SysEx request message without payload:
/// `[F0, 42, 3g, 00, 01, 51, function_id, F7]`.
pub fn build_sysex_request(channel: U4, function_id: u8) -> (msg: Vec<u8>)
    ensures
        msg@ == frame_bytes(channel.value_of(), function_id, Seq::empty()),
{
    let msg = vec![
        0xF0,
        KORG_ID,
        0x30 | channel.value(),
        DEVICE_ID[0],
        DEVICE_ID[1],
        DEVICE_ID[2],
        function_id,
        0xF7,
    ];
    assert(msg@ =~= frame_bytes(channel.value_of(), function_id, Seq::empty()));
    msg
}

/// Build a SysEx status message (ACK/NAK): `[F0, 42, 3g, 00, 01, 51, status, F7]`.
pub fn build_status(channel: U4, status: SysexStatus) -> (msg: Vec<u8>)
    ensures
        msg@ == frame_bytes(channel.value_of(), status.spec_byte(), Seq::empty()),
{
    build_sysex_request(channel, status.to_byte())
}

/// The first header check that `bytes` fails, if any: too short, no `F0`
/// start, no `F7` end, no Korg ID, no `3g` channel byte, no device ID.
pub open spec fn frame_header_fault(bytes: Seq<u8>) -> Option<SysexError> {
    if bytes.len() < 8 {
        Some(SysexError::PayloadTooShort { expected: 8, actual: bytes.len() as usize })
    } else if bytes[0] != 0xF0 {
        Some(SysexError::InvalidHeader { offset: 0, found: bytes[0] })
    } else if bytes.last() != 0xF7 {
        Some(SysexError::InvalidHeader { offset: (bytes.len() - 1) as usize, found: bytes.last() })
    } else if bytes[1] != 0x42 {
        Some(SysexError::InvalidHeader { offset: 1, found: bytes[1] })
    } else if bytes[2] & 0xF0 != 0x30 {
        Some(SysexError::InvalidHeader { offset: 2, found: bytes[2] })
    } else if bytes[3] != 0x00 {
        Some(SysexError::InvalidHeader { offset: 3, found: bytes[3] })
    } else if bytes[4] != 0x01 {
        Some(SysexError::InvalidHeader { offset: 4, found: bytes[4] })
    } else if bytes[5] != 0x51 {
        Some(SysexError::InvalidHeader { offset: 5, found: bytes[5] })
    } else {
        None
    }
}

/// The wire payload of a frame: everything between the function ID and `F7`.
pub open spec fn frame_payload(bytes: Seq<u8>) -> Seq<u8> {
    bytes.subrange(7, bytes.len() - 1)
}

/// What [`parse_sysex`] returns for `bytes`, given as a relation on its result.
pub open spec fn parses_as(bytes: Seq<u8>, r: Result<SysexFrame, Error>) -> bool {
    match frame_header_fault(bytes) {
        Some(fault) => r == Err::<SysexFrame, Error>(Error::Sysex(fault)),
        None => match r {
            Ok(frame) => {
                &&& all_seven_bit(frame_payload(bytes))
                &&& frame.channel.value_of() == bytes[2] & 0x0F
                &&& frame.function_id == bytes[6]
                &&& frame.data@ == spec_decode_7bit(frame_payload(bytes))
            },
            Err(e) => !all_seven_bit(frame_payload(bytes)) && is_codec_error(frame_payload(bytes), e),
        },
    }
}

/// What a parser of a dump with function ID `function_id` returns for the
/// message `bytes`: the frame's fault or codec error, the wrong function ID,
/// or whatever `blob_parses_as` relates to the decoded blob.
pub open spec fn dump_parses_as<T>(
    bytes: Seq<u8>,
    function_id: u8,
    blob_parses_as: spec_fn(Seq<u8>, Result<T, Error>) -> bool,
    r: Result<T, Error>,
) -> bool {
    match frame_header_fault(bytes) {
        Some(fault) => r == Err::<T, Error>(Error::Sysex(fault)),
        None => if !all_seven_bit(frame_payload(bytes)) {
            r matches Err(e) && is_codec_error(frame_payload(bytes), e)
        } else if bytes[6] != function_id {
            r == Err::<T, Error>(Error::Sysex(SysexError::WrongFunctionId { expected: function_id, found: bytes[6] }))
        } else {
            blob_parses_as(spec_decode_7bit(frame_payload(bytes)), r)
        },
    }
}

/// Parse raw SysEx bytes into a [`SysexFrame`]: check the Korg Minilogue XD
/// header and decode the 7-bit payload.
pub fn parse_sysex(bytes: &[u8]) -> (r: Result<SysexFrame, Error>)
    ensures
        parses_as(bytes@, r),
{
    let n = bytes.len();
    if n < MIN_FRAME_LEN {
        return Err(Error::Sysex(SysexError::PayloadTooShort { expected: MIN_FRAME_LEN, actual: n }));
    }
    if bytes[0] != 0xF0 {
        return Err(Error::Sysex(SysexError::InvalidHeader { offset: 0, found: bytes[0] }));
    }
    let last = bytes[n - 1];
    if last != 0xF7 {
        return Err(Error::Sysex(SysexError::InvalidHeader { offset: n - 1, found: last }));
    }
    if bytes[1] != KORG_ID {
        return Err(Error::Sysex(SysexError::InvalidHeader { offset: 1, found: bytes[1] }));
    }
    let ch_byte = bytes[2];
    if ch_byte & 0xF0 != 0x30 {
        return Err(Error::Sysex(SysexError::InvalidHeader { offset: 2, found: ch_byte }));
    }
    if bytes[3] != DEVICE_ID[0] {
        return Err(Error::Sysex(SysexError::InvalidHeader { offset: 3, found: bytes[3] }));
    }
    if bytes[4] != DEVICE_ID[1] {
        return Err(Error::Sysex(SysexError::InvalidHeader { offset: 4, found: bytes[4] }));
    }
    if bytes[5] != DEVICE_ID[2] {
        return Err(Error::Sysex(SysexError::InvalidHeader { offset: 5, found: bytes[5] }));
    }
    let channel = U4::from_low_nibble(ch_byte);
    let function_id = bytes[6];
    let payload_wire = vstd::slice::slice_subrange(bytes, 7, n - 1);
    let data = decode_7bit(payload_wire)?;
    Ok(SysexFrame { channel, function_id, data })
}

/// Parsing a frame that [`build_sysex`] built gives back its channel,
/// function ID and data.
pub proof fn lemma_frame_round_trip(channel: u8, function_id: u8, data: Seq<u8>)
    requires
        channel <= 15,
    ensures
        ({
            let bytes = frame_bytes(channel, function_id, spec_encode_7bit(data));
            &&& frame_header_fault(bytes) == None::<SysexError>
            &&& frame_payload(bytes) == spec_encode_7bit(data)
            &&& all_seven_bit(frame_payload(bytes))
            &&& spec_decode_7bit(frame_payload(bytes)) == data
            &&& bytes[2] & 0x0F == channel
            &&& bytes[6] == function_id
        }),
{
    let payload = spec_encode_7bit(data);
    let bytes = frame_bytes(channel, function_id, payload);
    assert(bytes.len() == 8 + payload.len());
    assert(frame_payload(bytes) =~= payload);
    assert(channel <= 15 ==> (0x30u8 | channel) & 0xF0 == 0x30 && (0x30u8 | channel) & 0x0F == channel) by (bit_vector);
    crate::codec::lemma_encode_decode_round_trip(data);
}


/// The layout of a Korg SysEx frame as [`build_sysex`] and the other
/// builders make it: `F0`, the Korg ID `42`, `3g` with the channel `g`,
/// the device ID `00 01 51`, the function ID at 6, the payload from 7, and
/// `F7` last.
pub proof fn lemma_frame_layout(channel: u8, function_id: u8, payload: Seq<u8>)
    ensures
        ({
            let m = frame_bytes(channel, function_id, payload);
            &&& m.len() == payload.len() + 8
            &&& m[0] == 0xF0 && m[1] == 0x42 && m[2] == 0x30 | channel && m[3] == 0x00 && m[4] == 0x01 && m[5] == 0x51
            &&& m[6] == function_id
            &&& forall|i: int| 0 <= i < payload.len() ==> m[7 + i] == #[trigger] payload[i]
            &&& m[payload.len() + 7int] == 0xF7
        }),
{
}


/// The status bytes of the MIDI implementation: `23` data load completed
/// (the acknowledgement), `24` data load error, `26` data format error,
/// and `27`--`2F` the user-module errors in turn; no other byte is a
/// status.
pub proof fn lemma_status_byte_values()
    ensures
        SysexStatus::DataLoadCompleted.spec_byte() == 0x23,
        SysexStatus::spec_from_byte(0x23) == Some(SysexStatus::DataLoadCompleted),
        SysexStatus::DataLoadError.spec_byte() == 0x24,
        SysexStatus::spec_from_byte(0x24) == Some(SysexStatus::DataLoadError),
        SysexStatus::DataFormatError.spec_byte() == 0x26,
        SysexStatus::spec_from_byte(0x26) == Some(SysexStatus::DataFormatError),
        SysexStatus::UserDataSizeError.spec_byte() == 0x27,
        SysexStatus::spec_from_byte(0x27) == Some(SysexStatus::UserDataSizeError),
        SysexStatus::UserDataCrcError.spec_byte() == 0x28,
        SysexStatus::spec_from_byte(0x28) == Some(SysexStatus::UserDataCrcError),
        SysexStatus::UserTargetError.spec_byte() == 0x29,
        SysexStatus::spec_from_byte(0x29) == Some(SysexStatus::UserTargetError),
        SysexStatus::UserApiError.spec_byte() == 0x2A,
        SysexStatus::spec_from_byte(0x2A) == Some(SysexStatus::UserApiError),
        SysexStatus::UserLoadSizeError.spec_byte() == 0x2B,
        SysexStatus::spec_from_byte(0x2B) == Some(SysexStatus::UserLoadSizeError),
        SysexStatus::UserModuleError.spec_byte() == 0x2C,
        SysexStatus::spec_from_byte(0x2C) == Some(SysexStatus::UserModuleError),
        SysexStatus::UserSlotError.spec_byte() == 0x2D,
        SysexStatus::spec_from_byte(0x2D) == Some(SysexStatus::UserSlotError),
        SysexStatus::UserFormatError.spec_byte() == 0x2E,
        SysexStatus::spec_from_byte(0x2E) == Some(SysexStatus::UserFormatError),
        SysexStatus::UserInternalError.spec_byte() == 0x2F,
        SysexStatus::spec_from_byte(0x2F) == Some(SysexStatus::UserInternalError),
        forall|b: u8| (b < 0x23 || b == 0x25 || b > 0x2F) ==> SysexStatus::spec_from_byte(b) is None,
{
}


/// The layout that [`parse_sysex`] reads: a frame it accepts starts
/// `F0 42 3g 00 01 51` and ends with `F7`; the channel is the low nibble
/// `g` of byte 2, the function ID is byte 6, and the data is the 7-bit
/// decoding of the bytes from 7 up to the `F7`.
pub proof fn lemma_parse_layout(b: Seq<u8>, frame: SysexFrame)
    requires
        parses_as(b, Ok::<SysexFrame, Error>(frame)),
    ensures
        b.len() >= 8,
        b[0] == 0xF0 && b[1] == 0x42 && b[2] & 0xF0 == 0x30 && b[3] == 0x00 && b[4] == 0x01 && b[5] == 0x51,
        b[b.len() - 1] == 0xF7,
        frame.channel.value_of() == b[2] & 0x0F,
        frame.function_id == b[6],
        frame.data@ == spec_decode_7bit(b.subrange(7, b.len() - 1)),
{
}

} // verus!
