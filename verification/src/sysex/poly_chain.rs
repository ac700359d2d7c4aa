//! Poly Chain SysEx messages, which linked units exchange to share voices.
//!
//! ```text
//! Note On  (0x60): [F0, 42, 3g, 00, 01, 51, 60, slot, note, velocity, hh, mm, ll, F7]
//! Note Off (0x61): [F0, 42, 3g, 00, 01, 51, 61, slot, mute, F7]
//! ```
//!
//! The voice slot is 2 bits (0--3); the pitch is 21 bits, split over three
//! 7-bit bytes, high first.

use vstd::prelude::*;

use crate::error::{Error, SysexError};
use crate::message::types::{U4, U7};
use crate::sysex::frame::{frame_bytes, POLY_CHAIN_NOTE_OFF, POLY_CHAIN_NOTE_ON};
use crate::sysex::{DEVICE_ID, KORG_ID};

verus! {

// ---------------------------------------------------------------------------
// U2
// ---------------------------------------------------------------------------

/// A 2-bit unsigned integer (0--3): a poly chain voice slot.
#[derive(Debug, Clone, Copy, PartialEq, Eq, Hash, PartialOrd, Ord, Structural)]
pub struct U2(u8);

impl U2 {
    #[verifier::type_invariant]
    spec fn in_range(self) -> bool {
        self.0 <= 3
    }

    /// The value held.
    pub closed spec fn value_of(self) -> u8 {
        self.0
    }

    /// The smallest value (0).
    pub const MIN: u8 = 0;

    /// The largest value (3).
    pub const MAX: u8 = 3;

    /// Creates a `U2` when `value` is at most 3, and reports the value as
    /// out of range otherwise.
    pub fn new(value: u8) -> (r: Result<Self, Error>)
        ensures
            value <= 3 ==> (r matches Ok(c) && c.value_of() == value),
            value > 3 ==> r == Error::out_of_range_result::<Self>("U2", value as i64, 0, 3),
    {
        if value > Self::MAX {
            return Err(Error::OutOfRange { name: "U2", value: value as i64, min: 0, max: 3 });
        }
        Ok(U2(value))
    }

    /// The value held (0--3).
    pub fn value(self) -> (v: u8)
        ensures
            v == self.value_of(),
            v <= 3,
    {
        proof {
            use_type_invariant(&self);
        }
        self.0
    }

    /// Two slots holding the same value are the same slot.
    pub proof fn lemma_value_determines(a: Self, b: Self)
        ensures
            a.value_of() == b.value_of() ==> a == b,
    {
    }

    /// The value in decimal.
    pub fn to_string(&self) -> (s: String)
        ensures
            s@ == crate::text::decimal_text(self.value_of() as nat),
    {
        crate::text::decimal_string_usize(self.0 as usize)
    }
}

impl TryFrom<u8> for U2 {
    type Error = Error;

    /// The same as [`U2::new`].
    fn try_from(value: u8) -> (r: Result<Self, Error>) {
        Self::new(value)
    }
}

impl vstd::std_specs::convert::TryFromSpecImpl<u8> for U2 {
    open spec fn obeys_try_from_spec() -> bool {
        true
    }

    closed spec fn try_from_spec(v: u8) -> Result<U2, Error> {
        if v <= 3 {
            Ok(U2(v))
        } else {
            Error::out_of_range_result::<U2>("U2", v as i64, 0, 3)
        }
    }
}

impl From<U2> for u8 {
    /// The value held.
    fn from(val: U2) -> (v: u8) {
        val.value()
    }
}

impl vstd::std_specs::convert::FromSpecImpl<U2> for u8 {
    open spec fn obeys_from_spec() -> bool {
        true
    }

    open spec fn from_spec(v: U2) -> u8 {
        v.value_of()
    }
}

// ---------------------------------------------------------------------------
// Messages
// ---------------------------------------------------------------------------

/// The largest 21-bit pitch.
pub const PITCH_MAX: u32 = 0x1F_FFFF;

/// A poly chain note-on (function 0x60): voice slot, note, velocity and a
/// 21-bit pitch.
#[derive(Debug, Clone, Copy, PartialEq, Eq, Structural)]
pub struct PolyChainNoteOn {
    /// Voice slot (0--3).
    pub voice_slot: U2,
    /// MIDI note number (0--127).
    pub note: U7,
    /// Velocity (0--127).
    pub velocity: U7,
    /// 21-bit pitch (0--2_097_151).
    pub pitch: u32,
}

/// A poly chain note-off (function 0x61): release the voice in a slot.
#[derive(Debug, Clone, Copy, PartialEq, Eq, Structural)]
pub struct PolyChainNoteOff {
    /// Voice slot (0--3).
    pub voice_slot: U2,
    /// Whether to mute the voice at once.
    pub mute: bool,
}

/// The three 7-bit bytes of a 21-bit pitch, high first.
pub open spec fn pitch_bytes(pitch: u32) -> Seq<u8> {
    seq![((pitch / 16384) % 128) as u8, ((pitch / 128) % 128) as u8, (pitch % 128) as u8]
}

/// The pitch of three 7-bit bytes, high first; their high bits are ignored.
pub open spec fn pitch_of(h: u8, m: u8, l: u8) -> u32 {
    ((h % 128) * 16384 + (m % 128) * 128 + l % 128) as u32
}

/// The payload of a Poly Chain Note On: voice slot, note, velocity, and
/// the pitch's three 7-bit bytes.
pub open spec fn note_on_payload(n: PolyChainNoteOn) -> Seq<u8> {
    seq![n.voice_slot.value_of(), n.note.value_of(), n.velocity.value_of()] + pitch_bytes(n.pitch)
}

/// The payload of a Poly Chain Note Off: voice slot and mute flag.
pub open spec fn note_off_payload(n: PolyChainNoteOff) -> Seq<u8> {
    seq![n.voice_slot.value_of(), if n.mute { 1u8 } else { 0u8 }]
}

/// Build a Poly Chain Note On (function 0x60); fails when the pitch does
/// not fit in 21 bits.
pub fn build_note_on(channel: U4, note_on: &PolyChainNoteOn) -> (r: Result<Vec<u8>, Error>)
    ensures
        note_on.pitch > PITCH_MAX ==> r == Error::out_of_range_result::<Vec<u8>>("pitch", note_on.pitch as i64, 0, 0x1F_FFFF),
        note_on.pitch <= PITCH_MAX ==> (r matches Ok(msg) && msg@ == frame_bytes(
            channel.value_of(),
            POLY_CHAIN_NOTE_ON,
            note_on_payload(*note_on),
        )),
{
    if note_on.pitch > PITCH_MAX {
        return Err(Error::OutOfRange { name: "pitch", value: note_on.pitch as i64, min: 0, max: 0x1F_FFFF });
    }
    let pitch = note_on.pitch;
    assert(((pitch >> 14u32) & 0x7F) as u8 == ((pitch / 16384) % 128) as u8 && ((pitch >> 7u32) & 0x7F) as u8 == ((pitch
        / 128) % 128) as u8 && (pitch & 0x7F) as u8 == (pitch % 128) as u8) by (bit_vector);
    let msg = vec![
        0xF0,
        KORG_ID,
        0x30 | channel.value(),
        DEVICE_ID[0],
        DEVICE_ID[1],
        DEVICE_ID[2],
        POLY_CHAIN_NOTE_ON,
        note_on.voice_slot.value(),
        note_on.note.value(),
        note_on.velocity.value(),
        ((pitch >> 14) & 0x7F) as u8,
        ((pitch >> 7) & 0x7F) as u8,
        (pitch & 0x7F) as u8,
        0xF7,
    ];
    assert(msg@ =~= frame_bytes(
        channel.value_of(),
        POLY_CHAIN_NOTE_ON,
        note_on_payload(*note_on),
    ));
    Ok(msg)
}

/// Build a Poly Chain Note Off (function 0x61); the mute flag is sent as 0
/// or 1.
pub fn build_note_off(channel: U4, note_off: &PolyChainNoteOff) -> (msg: Vec<u8>)
    ensures
        msg@ == frame_bytes(channel.value_of(), POLY_CHAIN_NOTE_OFF, note_off_payload(*note_off)),
{
    let mute: u8 = if note_off.mute { 1 } else { 0 };
    let msg = vec![
        0xF0,
        KORG_ID,
        0x30 | channel.value(),
        DEVICE_ID[0],
        DEVICE_ID[1],
        DEVICE_ID[2],
        POLY_CHAIN_NOTE_OFF,
        note_off.voice_slot.value(),
        mute,
        0xF7,
    ];
    assert(msg@ =~= frame_bytes(
        channel.value_of(),
        POLY_CHAIN_NOTE_OFF,
        note_off_payload(*note_off),
    ));
    msg
}

/// The first check of the Korg header (`F0 42 3g 00 01 51`) that `b` fails.
pub open spec fn korg_header_fault(b: Seq<u8>) -> Option<SysexError> {
    if b[0] != 0xF0 {
        Some(SysexError::InvalidHeader { offset: 0, found: b[0] })
    } else if b[1] != 0x42 {
        Some(SysexError::InvalidHeader { offset: 1, found: b[1] })
    } else if b[2] & 0xF0 != 0x30 {
        Some(SysexError::InvalidHeader { offset: 2, found: b[2] })
    } else if b[3] != 0x00 {
        Some(SysexError::InvalidHeader { offset: 3, found: b[3] })
    } else if b[4] != 0x01 {
        Some(SysexError::InvalidHeader { offset: 4, found: b[4] })
    } else if b[5] != 0x51 {
        Some(SysexError::InvalidHeader { offset: 5, found: b[5] })
    } else {
        None
    }
}

/// Check the Korg header of `bytes`.
fn validate_header(bytes: &[u8]) -> (r: Result<(), Error>)
    requires
        bytes@.len() >= 6,
    ensures
        match korg_header_fault(bytes@) {
            Some(f) => r == Err::<(), Error>(Error::Sysex(f)),
            None => r == Ok::<(), Error>(()),
        },
{
    if bytes[0] != 0xF0 {
        return Err(Error::Sysex(SysexError::InvalidHeader { offset: 0, found: bytes[0] }));
    }
    if bytes[1] != KORG_ID {
        return Err(Error::Sysex(SysexError::InvalidHeader { offset: 1, found: bytes[1] }));
    }
    if bytes[2] & 0xF0 != 0x30 {
        return Err(Error::Sysex(SysexError::InvalidHeader { offset: 2, found: bytes[2] }));
    }
    if bytes[3] != DEVICE_ID[0] {
        return Err(Error::Sysex(SysexError::InvalidHeader { offset: 3, found: bytes[3] }));
    }
    if bytes[4] != DEVICE_ID[1] {
        return Err(Error::Sysex(SysexError::InvalidHeader { offset: 4, found: bytes[4] }));
    }
    if bytes[5] != DEVICE_ID[2] {
        return Err(Error::Sysex(SysexError::InvalidHeader { offset: 5, found: bytes[5] }));
    }
    Ok(())
}

/// The first check of a poly chain message with function ID `fid` and
/// length at least `len` that `b` fails: its length, the Korg header, the
/// function ID, the `F7` end, then the voice slot.
pub open spec fn poly_fault(b: Seq<u8>, len: nat, fid: u8) -> Option<Error> {
    if b.len() < len {
        Some(Error::Sysex(SysexError::PayloadTooShort { expected: len as usize, actual: b.len() as usize }))
    } else if let Some(f) = korg_header_fault(b) {
        Some(Error::Sysex(f))
    } else if b[6] != fid {
        Some(Error::Sysex(SysexError::WrongFunctionId { expected: fid, found: b[6] }))
    } else if b.last() != 0xF7 {
        Some(Error::Sysex(SysexError::InvalidHeader { offset: (b.len() - 1) as usize, found: b.last() }))
    } else if b[7] > 3 {
        Some(Error::OutOfRange { name: "U2", value: b[7] as i64, min: 0, max: 3 })
    } else {
        None
    }
}

/// What [`parse_note_on`] returns for `b`.
pub open spec fn note_on_parses_as(b: Seq<u8>, r: Result<PolyChainNoteOn, Error>) -> bool {
    if let Some(e) = poly_fault(b, 14, POLY_CHAIN_NOTE_ON) {
        r == Err::<PolyChainNoteOn, Error>(e)
    } else if b[8] > 127 {
        r == Error::out_of_range_result::<PolyChainNoteOn>("U7", b[8] as i64, 0, 127)
    } else if b[9] > 127 {
        r == Error::out_of_range_result::<PolyChainNoteOn>("U7", b[9] as i64, 0, 127)
    } else {
        r matches Ok(n) && {
            &&& n.voice_slot.value_of() == b[7]
            &&& n.note.value_of() == b[8]
            &&& n.velocity.value_of() == b[9]
            &&& n.pitch == pitch_of(b[10], b[11], b[12])
        }
    }
}

/// Parse a Poly Chain Note On (function 0x60).
pub fn parse_note_on(bytes: &[u8]) -> (r: Result<PolyChainNoteOn, Error>)
    ensures
        note_on_parses_as(bytes@, r),
{
    let n = bytes.len();
    if n < 14 {
        return Err(Error::Sysex(SysexError::PayloadTooShort { expected: 14, actual: n }));
    }
    validate_header(bytes)?;
    if bytes[6] != POLY_CHAIN_NOTE_ON {
        return Err(Error::Sysex(SysexError::WrongFunctionId { expected: POLY_CHAIN_NOTE_ON, found: bytes[6] }));
    }
    let last = bytes[n - 1];
    if last != 0xF7 {
        return Err(Error::Sysex(SysexError::InvalidHeader { offset: n - 1, found: last }));
    }
    let voice_slot = U2::new(bytes[7])?;
    let note = U7::new(bytes[8])?;
    let velocity = U7::new(bytes[9])?;
    let (h, m, l) = (bytes[10], bytes[11], bytes[12]);
    assert(((((h & 0x7F) as u32) << 14u32) | (((m & 0x7F) as u32) << 7u32) | ((l & 0x7F) as u32)) as int == (h % 128)
        * 16384 + (m % 128) * 128 + l % 128) by (bit_vector);
    let pitch = (((h & 0x7F) as u32) << 14) | (((m & 0x7F) as u32) << 7) | ((l & 0x7F) as u32);
    Ok(PolyChainNoteOn { voice_slot, note, velocity, pitch })
}

/// What [`parse_note_off`] returns for `b`.
pub open spec fn note_off_parses_as(b: Seq<u8>, r: Result<PolyChainNoteOff, Error>) -> bool {
    match poly_fault(b, 10, POLY_CHAIN_NOTE_OFF) {
        Some(e) => r == Err::<PolyChainNoteOff, Error>(e),
        None => r matches Ok(n) && n.voice_slot.value_of() == b[7] && n.mute == (b[8] != 0),
    }
}

/// Parse a Poly Chain Note Off (function 0x61); any nonzero mute byte
/// means mute.
pub fn parse_note_off(bytes: &[u8]) -> (r: Result<PolyChainNoteOff, Error>)
    ensures
        note_off_parses_as(bytes@, r),
{
    let n = bytes.len();
    if n < 10 {
        return Err(Error::Sysex(SysexError::PayloadTooShort { expected: 10, actual: n }));
    }
    validate_header(bytes)?;
    if bytes[6] != POLY_CHAIN_NOTE_OFF {
        return Err(Error::Sysex(SysexError::WrongFunctionId { expected: POLY_CHAIN_NOTE_OFF, found: bytes[6] }));
    }
    let last = bytes[n - 1];
    if last != 0xF7 {
        return Err(Error::Sysex(SysexError::InvalidHeader { offset: n - 1, found: last }));
    }
    let voice_slot = U2::new(bytes[7])?;
    Ok(PolyChainNoteOff { voice_slot, mute: bytes[8] != 0 })
}

// ---------------------------------------------------------------------------
// Laws
// ---------------------------------------------------------------------------

/// The channel byte `3g` passes the header check and keeps the channel.
proof fn lemma_channel_byte(channel: u8)
    requires
        channel <= 15,
    ensures
        (0x30u8 | channel) & 0xF0 == 0x30,
{
    assert(channel <= 15 ==> (0x30u8 | channel) & 0xF0 == 0x30) by (bit_vector);
}

/// Parsing a note-on that [`build_note_on`] built gives back the note-on.
pub proof fn lemma_note_on_round_trip(channel: U4, n: PolyChainNoteOn, r: Result<PolyChainNoteOn, Error>)
    requires
        channel.value_of() <= 15,
        n.voice_slot.value_of() <= 3,
        n.note.value_of() <= 127,
        n.velocity.value_of() <= 127,
        n.pitch <= PITCH_MAX,
        note_on_parses_as(
            frame_bytes(
                channel.value_of(),
                POLY_CHAIN_NOTE_ON,
                note_on_payload(n),
            ),
            r,
        ),
    ensures
        r == Ok::<PolyChainNoteOn, Error>(n),
{
    lemma_channel_byte(channel.value_of());
    let p = n.pitch;
    assert(pitch_of(((p / 16384) % 128) as u8, ((p / 128) % 128) as u8, (p % 128) as u8) == p);
    if let Ok(m) = r {
        U2::lemma_value_determines(m.voice_slot, n.voice_slot);
        U7::lemma_value_determines(m.note, n.note);
        U7::lemma_value_determines(m.velocity, n.velocity);
    }
}

/// Parsing a note-off that [`build_note_off`] built gives back the note-off.
pub proof fn lemma_note_off_round_trip(channel: U4, n: PolyChainNoteOff, r: Result<PolyChainNoteOff, Error>)
    requires
        channel.value_of() <= 15,
        n.voice_slot.value_of() <= 3,
        note_off_parses_as(
            frame_bytes(channel.value_of(), POLY_CHAIN_NOTE_OFF, note_off_payload(n)),
            r,
        ),
    ensures
        r == Ok::<PolyChainNoteOff, Error>(n),
{
    lemma_channel_byte(channel.value_of());
    if let Ok(m) = r {
        U2::lemma_value_determines(m.voice_slot, n.voice_slot);
    }
}


/// The payload of a Poly Chain Note On: the voice slot, the note, the
/// velocity, then the 21-bit pitch as three 7-bit bytes, bits 14--20 first,
/// then bits 7--13, then bits 0--6. This is what [`build_note_on`] sends
/// (after the 7-byte Korg header, see `lemma_frame_layout`) and what
/// [`parse_note_on`] reads at offsets 7--12.
pub proof fn lemma_note_on_layout(n: PolyChainNoteOn, b: Seq<u8>, m: PolyChainNoteOn)
    requires
        note_on_parses_as(b, Ok::<PolyChainNoteOn, Error>(m)),
    ensures
        ({
            let p = note_on_payload(n);
            &&& p.len() == 6
            &&& p[0] == n.voice_slot.value_of() && p[1] == n.note.value_of() && p[2] == n.velocity.value_of()
            &&& p[3] as int == (n.pitch as int / 16384) % 128
            &&& p[4] as int == (n.pitch as int / 128) % 128
            &&& p[5] as int == n.pitch as int % 128
        }),
        m.voice_slot.value_of() == b[7],
        m.note.value_of() == b[8],
        m.velocity.value_of() == b[9],
        m.pitch as int == (b[10] as int % 128) * 16384 + (b[11] as int % 128) * 128 + b[12] as int % 128,
{
}

/// The payload of a Poly Chain Note Off: the voice slot, then the mute
/// flag as 0 or 1; [`parse_note_off`] reads the slot at 7 and takes any
/// nonzero byte at 8 as mute.
pub proof fn lemma_note_off_layout(n: PolyChainNoteOff, b: Seq<u8>, m: PolyChainNoteOff)
    requires
        note_off_parses_as(b, Ok::<PolyChainNoteOff, Error>(m)),
    ensures
        ({
            let p = note_off_payload(n);
            &&& p[0] == n.voice_slot.value_of()
            &&& p[1] == 1 <==> n.mute
            &&& p[1] == 0 <==> !n.mute
        }),
        m.voice_slot.value_of() == b[7],
        m.mute == (b[8] != 0),
{
}

} // verus!
