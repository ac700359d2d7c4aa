//! Device identity messages: the Universal Non-Realtime Identity Request and
//! Reply, and the Korg Search Device Request and Reply.

use vstd::prelude::*;

use crate::error::{Error, SysexError};
use crate::message::types::U4;
use crate::sysex::helpers::{read_u16_le, u16_le_value};

verus! {

// ---------------------------------------------------------------------------
// Universal Non-Realtime Identity Request / Reply
// ---------------------------------------------------------------------------

/// Build a Universal Non-Realtime Identity Request: `[F0, 7E, channel, 06,
/// 01, F7]`.
pub fn build_identity_request(channel: U4) -> (msg: Vec<u8>)
    ensures
        msg@ == seq![0xF0u8, 0x7Eu8, channel.value_of(), 0x06u8, 0x01u8, 0xF7u8],
{
    let msg = vec![0xF0, 0x7E, channel.value(), 0x06, 0x01, 0xF7];
    assert(msg@ =~= seq![0xF0u8, 0x7Eu8, channel.value_of(), 0x06u8, 0x01u8, 0xF7u8]);
    msg
}

/// A parsed Universal Non-Realtime Identity Reply: `[F0, 7E, channel, 06,
/// 02, manufacturer, family lo, family hi, member lo, member hi, ver0, ver1,
/// ver2, ver3, F7]`.
#[derive(Debug, Clone, PartialEq, Eq)]
pub struct IdentityReply {
    /// MIDI channel of the reply.
    pub channel: U4,
    /// Manufacturer ID (0x42 for Korg).
    pub manufacturer_id: u8,
    /// Device family ID (little-endian u16).
    pub family_id: u16,
    /// Device member ID (little-endian u16).
    pub member_id: u16,
    /// Firmware version bytes `[major, minor, micro, build]`.
    pub version: [u8; 4],
}

/// Length of an identity or search device reply.
pub const REPLY_LEN: usize = 15;

/// The first check of an identity reply that `b` fails, if any: its
/// length, the `F0` start, the `F7` end, the non-realtime ID `7E`, the
/// sub-IDs `06 02`, then the channel (0--15).
pub open spec fn identity_fault(b: Seq<u8>) -> Option<SysexError> {
    if b.len() < 15 {
        Some(SysexError::PayloadTooShort { expected: 15, actual: b.len() as usize })
    } else if b[0] != 0xF0 {
        Some(SysexError::InvalidHeader { offset: 0, found: b[0] })
    } else if b.last() != 0xF7 {
        Some(SysexError::InvalidHeader { offset: (b.len() - 1) as usize, found: b.last() })
    } else if b[1] != 0x7E {
        Some(SysexError::InvalidHeader { offset: 1, found: b[1] })
    } else if b[3] != 0x06 {
        Some(SysexError::InvalidHeader { offset: 3, found: b[3] })
    } else if b[4] != 0x02 {
        Some(SysexError::InvalidHeader { offset: 4, found: b[4] })
    } else if b[2] > 15 {
        Some(SysexError::InvalidHeader { offset: 2, found: b[2] })
    } else {
        None
    }
}

/// What [`parse_identity_reply`] returns for `b`.
pub open spec fn identity_parses_as(b: Seq<u8>, r: Result<IdentityReply, Error>) -> bool {
    match identity_fault(b) {
        Some(f) => r == Err::<IdentityReply, Error>(Error::Sysex(f)),
        None => r matches Ok(reply) && {
            &&& reply.channel.value_of() == b[2]
            &&& reply.manufacturer_id == b[5]
            &&& reply.family_id == u16_le_value(b[6], b[7])
            &&& reply.member_id == u16_le_value(b[8], b[9])
            &&& reply.version@ == b.subrange(10, 14)
        },
    }
}

/// Parse a Universal Non-Realtime Identity Reply.
pub fn parse_identity_reply(bytes: &[u8]) -> (r: Result<IdentityReply, Error>)
    ensures
        identity_parses_as(bytes@, r),
{
    let n = bytes.len();
    if n < REPLY_LEN {
        return Err(Error::Sysex(SysexError::PayloadTooShort { expected: REPLY_LEN, actual: n }));
    }
    if bytes[0] != 0xF0 {
        return Err(Error::Sysex(SysexError::InvalidHeader { offset: 0, found: bytes[0] }));
    }
    let last = bytes[n - 1];
    if last != 0xF7 {
        return Err(Error::Sysex(SysexError::InvalidHeader { offset: n - 1, found: last }));
    }
    if bytes[1] != 0x7E {
        return Err(Error::Sysex(SysexError::InvalidHeader { offset: 1, found: bytes[1] }));
    }
    if bytes[3] != 0x06 {
        return Err(Error::Sysex(SysexError::InvalidHeader { offset: 3, found: bytes[3] }));
    }
    if bytes[4] != 0x02 {
        return Err(Error::Sysex(SysexError::InvalidHeader { offset: 4, found: bytes[4] }));
    }
    let channel = match U4::new(bytes[2]) {
        Ok(c) => c,
        Err(_) => {
            return Err(Error::Sysex(SysexError::InvalidHeader { offset: 2, found: bytes[2] }));
        },
    };
    let version = [bytes[10], bytes[11], bytes[12], bytes[13]];
    assert(version@ =~= bytes@.subrange(10, 14));
    Ok(IdentityReply {
        channel,
        manufacturer_id: bytes[5],
        family_id: read_u16_le(bytes, 6),
        member_id: read_u16_le(bytes, 8),
        version,
    })
}

// ---------------------------------------------------------------------------
// Korg Search Device Request / Reply
// ---------------------------------------------------------------------------

/// Build a Korg Search Device Request: `[F0, 42, 50, 00, echo_id, F7]`; the
/// device echoes `echo_id` in its reply.
pub fn build_search_device(echo_id: u8) -> (msg: Vec<u8>)
    ensures
        msg@ == seq![0xF0u8, 0x42u8, 0x50u8, 0x00u8, echo_id, 0xF7u8],
{
    let msg = vec![0xF0, 0x42, 0x50, 0x00, echo_id, 0xF7];
    assert(msg@ =~= seq![0xF0u8, 0x42u8, 0x50u8, 0x00u8, echo_id, 0xF7u8]);
    msg
}

/// A parsed Korg Search Device Reply: `[F0, 42, 50, 01, echo_id, channel,
/// family lo, family hi, member lo, member hi, ver0, ver1, ver2, ver3, F7]`.
#[derive(Debug, Clone, PartialEq, Eq)]
pub struct SearchDeviceReply {
    /// The echo ID of the request.
    pub echo_id: u8,
    /// MIDI channel the device uses.
    pub channel: U4,
    /// Device family ID (little-endian u16).
    pub family_id: u16,
    /// Device member ID (little-endian u16).
    pub member_id: u16,
    /// Firmware version bytes `[major, minor, micro, build]`.
    pub version: [u8; 4],
}

/// The first check of a search device reply that `b` fails, if any: its
/// length, the `F0` start, the `F7` end, the Korg ID `42`, the search byte
/// `50`, the reply byte `01`, then the channel (0--15).
pub open spec fn search_reply_fault(b: Seq<u8>) -> Option<SysexError> {
    if b.len() < 15 {
        Some(SysexError::PayloadTooShort { expected: 15, actual: b.len() as usize })
    } else if b[0] != 0xF0 {
        Some(SysexError::InvalidHeader { offset: 0, found: b[0] })
    } else if b.last() != 0xF7 {
        Some(SysexError::InvalidHeader { offset: (b.len() - 1) as usize, found: b.last() })
    } else if b[1] != 0x42 {
        Some(SysexError::InvalidHeader { offset: 1, found: b[1] })
    } else if b[2] != 0x50 {
        Some(SysexError::InvalidHeader { offset: 2, found: b[2] })
    } else if b[3] != 0x01 {
        Some(SysexError::InvalidHeader { offset: 3, found: b[3] })
    } else if b[5] > 15 {
        Some(SysexError::InvalidHeader { offset: 5, found: b[5] })
    } else {
        None
    }
}

/// What [`parse_search_device_reply`] returns for `b`.
pub open spec fn search_reply_parses_as(b: Seq<u8>, r: Result<SearchDeviceReply, Error>) -> bool {
    match search_reply_fault(b) {
        Some(f) => r == Err::<SearchDeviceReply, Error>(Error::Sysex(f)),
        None => r matches Ok(reply) && {
            &&& reply.echo_id == b[4]
            &&& reply.channel.value_of() == b[5]
            &&& reply.family_id == u16_le_value(b[6], b[7])
            &&& reply.member_id == u16_le_value(b[8], b[9])
            &&& reply.version@ == b.subrange(10, 14)
        },
    }
}

/// Parse a Korg Search Device Reply.
pub fn parse_search_device_reply(bytes: &[u8]) -> (r: Result<SearchDeviceReply, Error>)
    ensures
        search_reply_parses_as(bytes@, r),
{
    let n = bytes.len();
    if n < REPLY_LEN {
        return Err(Error::Sysex(SysexError::PayloadTooShort { expected: REPLY_LEN, actual: n }));
    }
    if bytes[0] != 0xF0 {
        return Err(Error::Sysex(SysexError::InvalidHeader { offset: 0, found: bytes[0] }));
    }
    let last = bytes[n - 1];
    if last != 0xF7 {
        return Err(Error::Sysex(SysexError::InvalidHeader { offset: n - 1, found: last }));
    }
    if bytes[1] != 0x42 {
        return Err(Error::Sysex(SysexError::InvalidHeader { offset: 1, found: bytes[1] }));
    }
    if bytes[2] != 0x50 {
        return Err(Error::Sysex(SysexError::InvalidHeader { offset: 2, found: bytes[2] }));
    }
    if bytes[3] != 0x01 {
        return Err(Error::Sysex(SysexError::InvalidHeader { offset: 3, found: bytes[3] }));
    }
    let channel = match U4::new(bytes[5]) {
        Ok(c) => c,
        Err(_) => {
            return Err(Error::Sysex(SysexError::InvalidHeader { offset: 5, found: bytes[5] }));
        },
    };
    let version = [bytes[10], bytes[11], bytes[12], bytes[13]];
    assert(version@ =~= bytes@.subrange(10, 14));
    Ok(SearchDeviceReply {
        echo_id: bytes[4],
        channel,
        family_id: read_u16_le(bytes, 6),
        member_id: read_u16_le(bytes, 8),
        version,
    })
}


/// A little-endian word read from two bytes.
proof fn lemma_u16_le_value(b0: u8, b1: u8)
    ensures
        u16_le_value(b0, b1) as int == b0 as int + b1 as int * 256,
{
    assert((b0 as u16) | ((b1 as u16) << 8u16) == (b0 as u16) + (b1 as u16) * 256) by (bit_vector);
}

/// The layout of a Universal Identity Reply: the channel at 2, the
/// manufacturer at 5, the device family and member as little-endian words
/// at 6--7 and 8--9, and the 4 version bytes at 10--13; and a reply that
/// [`parse_identity_reply`] accepts starts `F0 7E <ch> 06 02` and ends with
/// `F7`.
pub proof fn lemma_identity_layout(b: Seq<u8>, reply: IdentityReply)
    requires
        identity_parses_as(b, Ok::<IdentityReply, Error>(reply)),
    ensures
        b.len() >= 15 && b[0] == 0xF0 && b[1] == 0x7E && b[3] == 0x06 && b[4] == 0x02 && b.last() == 0xF7,
        reply.channel.value_of() == b[2],
        reply.manufacturer_id == b[5],
        reply.family_id as int == b[6] as int + b[7] as int * 256,
        reply.member_id as int == b[8] as int + b[9] as int * 256,
        reply.version@ == seq![b[10], b[11], b[12], b[13]],
{
    lemma_u16_le_value(b[6], b[7]);
    lemma_u16_le_value(b[8], b[9]);
    assert(b.subrange(10, 14) =~= seq![b[10], b[11], b[12], b[13]]);
}

/// The layout of a Korg Search Device Reply: the echo ID at 4, the channel
/// at 5, the device family and member as little-endian words at 6--7 and
/// 8--9, and the 4 version bytes at 10--13; and a reply that
/// [`parse_search_device_reply`] accepts starts `F0 42 50 01` and ends with
/// `F7`.
pub proof fn lemma_search_reply_layout(b: Seq<u8>, reply: SearchDeviceReply)
    requires
        search_reply_parses_as(b, Ok::<SearchDeviceReply, Error>(reply)),
    ensures
        b.len() >= 15 && b[0] == 0xF0 && b[1] == 0x42 && b[2] == 0x50 && b[3] == 0x01 && b.last() == 0xF7,
        reply.echo_id == b[4],
        reply.channel.value_of() == b[5],
        reply.family_id as int == b[6] as int + b[7] as int * 256,
        reply.member_id as int == b[8] as int + b[9] as int * 256,
        reply.version@ == seq![b[10], b[11], b[12], b[13]],
{
    lemma_u16_le_value(b[6], b[7]);
    lemma_u16_le_value(b[8], b[9]);
    assert(b.subrange(10, 14) =~= seq![b[10], b[11], b[12], b[13]]);
}

} // verus!
