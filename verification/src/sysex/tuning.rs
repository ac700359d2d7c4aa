//! Tuning data: the user scale (128 notes, 384 bytes), the user
//! octave (12 notes, 36 bytes), and the MIDI Tuning Standard (MTS)
//! Bulk Tuning Dump and Single Note Tuning Change messages.
//!
//! Each note is 3 bytes: the semitone, then the high and low 7 bits of a
//! 14-bit fraction of a semitone (0..16383 for 0..100 cents).

use vstd::prelude::*;

use crate::codec::spec_encode_7bit;
use crate::error::{Error, SysexError};
use crate::message::types::U4;
use crate::sysex::frame::{
    build_sysex, build_sysex_request, dump_parses_as, frame_bytes, lemma_frame_round_trip, parse_sysex,
    USER_OCTAVE_DUMP, USER_OCTAVE_REQUEST, USER_SCALE_DUMP, USER_SCALE_REQUEST,
};
use vstd::string::StringSliceAdditionalSpecFns;

verus! {

// ---------------------------------------------------------------------------
// CentOffset
// ---------------------------------------------------------------------------

/// A pitch: a semitone number and a 14-bit fraction of a semitone
/// (0..16383 for 0..100 cents).
#[derive(Debug, Clone, Copy, PartialEq, Eq, Structural)]
pub struct CentOffset {
    /// Semitone number.
    pub semitone: u8,
    /// Fraction of a semitone (0--16383; 16384 would be 100 cents).
    pub fraction: u16,
}

/// The offset that the three bytes `semitone`, `hi`, `lo` encode: the
/// fraction is the low 7 bits of `hi` above the low 7 bits of `lo`.
pub open spec fn cent_of(semitone: u8, hi: u8, lo: u8) -> CentOffset {
    CentOffset { semitone, fraction: ((hi % 128) * 128 + lo % 128) as u16 }
}

/// The three bytes of `c`: the semitone, then bits 7--13 and bits 0--6 of
/// the low 14 bits of the fraction.
pub open spec fn cent_bytes(c: CentOffset) -> Seq<u8> {
    seq![c.semitone, ((c.fraction % 16384) / 128) as u8, (c.fraction % 128) as u8]
}

/// The bytes of a table of offsets, 3 per note.
pub open spec fn offsets_bytes(s: Seq<CentOffset>) -> Seq<u8> {
    Seq::new(3 * s.len(), |i: int| cent_bytes(s[i / 3])[i % 3])
}

/// The `n` offsets encoded by the bytes of `b` from offset `start`.
pub open spec fn offsets_from(b: Seq<u8>, start: int, n: nat) -> Seq<CentOffset> {
    Seq::new(n, |k: int| cent_of(b[start + 3 * k], b[start + 3 * k + 1], b[start + 3 * k + 2]))
}

impl CentOffset {
    /// Parse an offset from its 3 bytes; the high bit of the two fraction
    /// bytes is ignored.
    pub fn from_bytes(bytes: &[u8; 3]) -> (c: Self)
        ensures
            c == cent_of(bytes@[0], bytes@[1], bytes@[2]),
    {
        let hi = bytes[1];
        let lo = bytes[2];
        assert(((((hi & 0x7F) as u16) << 7u16) | ((lo & 0x7F) as u16)) as int == (hi % 128) * 128 + lo % 128) by (bit_vector);
        CentOffset { semitone: bytes[0], fraction: (((hi & 0x7F) as u16) << 7) | ((lo & 0x7F) as u16) }
    }

    /// Serialize to 3 bytes; only the low 14 bits of the fraction are kept.
    pub fn to_bytes(&self) -> (b: [u8; 3])
        ensures
            b@ == cent_bytes(*self),
    {
        let frac = self.fraction & 0x3FFF;
        let f = self.fraction;
        assert(((f & 0x3FFF) >> 7u16) as u8 == ((f % 16384) / 128) as u8 && ((f & 0x3FFF) & 0x7F) as u8 == (f % 128) as u8) by (bit_vector);
        let b = [self.semitone, (frac >> 7) as u8, (frac & 0x7F) as u8];
        assert(b@ =~= cent_bytes(*self));
        b
    }
}

/// Reading back the bytes of an offset whose fraction fits in 14 bits gives
/// the offset, and writing back the offset read from bytes whose fraction
/// bytes are 7-bit gives the bytes.
pub proof fn lemma_cent_round_trip(c: CentOffset, semitone: u8, hi: u8, lo: u8)
    ensures
        c.fraction <= 16383 ==> cent_of(cent_bytes(c)[0], cent_bytes(c)[1], cent_bytes(c)[2]) == c,
        hi < 128 && lo < 128 ==> cent_bytes(cent_of(semitone, hi, lo)) == seq![semitone, hi, lo],
{
    let f = c.fraction;
    if f <= 16383 {
        assert(((f % 16384) / 128) < 128 && (f % 128) < 128);
        assert((((f % 16384) / 128) as u8 % 128) * 128 + ((f % 128) as u8) % 128 == f);
    }
    if hi < 128 && lo < 128 {
        let g = cent_of(semitone, hi, lo);
        assert(g.fraction == hi * 128 + lo);
        assert((g.fraction % 16384) / 128 == hi);
        assert(g.fraction % 128 == lo);
        assert(cent_bytes(g) =~= seq![semitone, hi, lo]);
    }
}

/// The offset encoded by the 3 bytes at `off`.
fn cent_at(data: &[u8], off: usize) -> (c: CentOffset)
    requires
        off + 3 <= data@.len(),
    ensures
        c == cent_of(data@[off as int], data@[off + 1], data@[off + 2]),
{
    let b = [data[off], data[off + 1], data[off + 2]];
    CentOffset::from_bytes(&b)
}

/// Append the bytes of the offsets `notes` to `out`.
fn push_offsets(out: &mut Vec<u8>, notes: &[CentOffset])
    requires
        old(out)@.len() + 3 * notes@.len() <= usize::MAX,
    ensures
        final(out)@ == old(out)@ + offsets_bytes(notes@),
{
    let ghost start = out@;
    let mut k: usize = 0;
    while k < notes.len()
        invariant
            k <= notes@.len(),
            start.len() + 3 * notes@.len() <= usize::MAX,
            out@.len() == start.len() + 3 * k,
            forall|i: int| 0 <= i < start.len() ==> #[trigger] out@[i] == start[i],
            forall|i: int| 0 <= i < 3 * k ==> #[trigger] out@[start.len() + i] == cent_bytes(notes@[i / 3])[i % 3],
        decreases notes@.len() - k,
    {
        let b = notes[k].to_bytes();
        out.push(b[0]);
        out.push(b[1]);
        out.push(b[2]);
        proof {
            assert forall|i: int| 0 <= i < 3 * (k + 1) implies #[trigger] out@[start.len() + i] == cent_bytes(notes@[i / 3])[i % 3] by {
                if i >= 3 * k {
                    assert(i / 3 == k);
                    assert(b@[i % 3] == out@[start.len() + i]);
                }
            }
        }
        k = k + 1;
    }
    assert forall|i: int| 0 <= i < out@.len() implies #[trigger] out@[i] == (start + offsets_bytes(notes@))[i] by {
        if i >= start.len() {
            assert(out@[start.len() + (i - start.len())] == cent_bytes(notes@[(i - start.len()) / 3])[(i - start.len()) % 3]);
        }
    }
    assert(out@ =~= start + offsets_bytes(notes@));
}

// ---------------------------------------------------------------------------
// UserScale
// ---------------------------------------------------------------------------

/// A 128-note user scale: each note's absolute pitch.
#[derive(Debug, Clone, PartialEq)]
pub struct UserScale(pub [CentOffset; 128]);

/// What a table parser of `n` notes returns for the blob `b`: too short,
/// or the offsets encoded by its first `3 * n` bytes.
pub open spec fn table_parses_as(b: Seq<u8>, n: nat, r: Result<Seq<CentOffset>, Error>) -> bool {
    if b.len() < 3 * n {
        r == Err::<Seq<CentOffset>, Error>(Error::Sysex(SysexError::PayloadTooShort { expected: (3 * n) as usize, actual: b.len() as usize }))
    } else {
        r == Ok::<Seq<CentOffset>, Error>(offsets_from(b, 0, n))
    }
}

/// What [`UserScale::from_bytes`] returns for `b`.
pub open spec fn scale_parses_as(b: Seq<u8>, r: Result<UserScale, Error>) -> bool {
    match r {
        Ok(s) => table_parses_as(b, 128, Ok::<Seq<CentOffset>, Error>(s.0@)),
        Err(e) => table_parses_as(b, 128, Err::<Seq<CentOffset>, Error>(e)),
    }
}

/// The parser of user scale blobs, as a relation between bytes and results.
pub open spec fn scale_blob_parser() -> spec_fn(Seq<u8>, Result<UserScale, Error>) -> bool {
    |b: Seq<u8>, r: Result<UserScale, Error>| scale_parses_as(b, r)
}

impl UserScale {
    /// Size of the blob in bytes.
    pub const BLOB_SIZE: usize = 384;

    /// Parse a user scale from the first 384 bytes of `data`; fails when
    /// fewer are given.
    pub fn from_bytes(data: &[u8]) -> (r: Result<Self, Error>)
        ensures
            scale_parses_as(data@, r),
    {
        let n = data.len();
        if n < Self::BLOB_SIZE {
            return Err(Error::Sysex(SysexError::PayloadTooShort { expected: Self::BLOB_SIZE, actual: n }));
        }
        let mut notes = [CentOffset { semitone: 0, fraction: 0 }; 128];
        let mut k: usize = 0;
        while k < 128
            invariant
                k <= 128,
                n == data@.len(),
                n >= 384,
                forall|a: int| 0 <= a < k ==> #[trigger] notes@[a] == offsets_from(data@, 0, 128)[a],
            decreases 128 - k,
        {
            notes[k] = cent_at(data, 3 * k);
            k = k + 1;
        }
        assert(notes@ =~= offsets_from(data@, 0, 128));
        Ok(UserScale(notes))
    }

    /// Serialize to the 384-byte blob.
    pub fn to_bytes(&self) -> (out: Vec<u8>)
        ensures
            out@ == offsets_bytes(self.0@),
    {
        let mut out: Vec<u8> = Vec::with_capacity(Self::BLOB_SIZE);
        push_offsets(&mut out, self.0.as_slice());
        assert(out@ =~= offsets_bytes(self.0@));
        out
    }

    /// The equal-tempered scale: note `k` at semitone `k`, fraction 0.
    pub fn equal_temperament() -> (s: Self)
        ensures
            forall|k: int| 0 <= k < 128 ==> #[trigger] s.0@[k] == (CentOffset { semitone: k as u8, fraction: 0 }),
    {
        let mut notes = [CentOffset { semitone: 0, fraction: 0 }; 128];
        let mut k: usize = 0;
        while k < 128
            invariant
                k <= 128,
                forall|a: int| 0 <= a < k ==> #[trigger] notes@[a] == (CentOffset { semitone: a as u8, fraction: 0 }),
            decreases 128 - k,
        {
            notes[k] = CentOffset { semitone: k as u8, fraction: 0 };
            k = k + 1;
        }
        UserScale(notes)
    }
}

// ---------------------------------------------------------------------------
// UserOctave
// ---------------------------------------------------------------------------

/// A 12-note user octave: pitch offsets for one octave, repeated across the
/// keyboard.
#[derive(Debug, Clone, PartialEq)]
pub struct UserOctave(pub [CentOffset; 12]);

/// What [`UserOctave::from_bytes`] returns for `b`.
pub open spec fn octave_parses_as(b: Seq<u8>, r: Result<UserOctave, Error>) -> bool {
    match r {
        Ok(o) => table_parses_as(b, 12, Ok::<Seq<CentOffset>, Error>(o.0@)),
        Err(e) => table_parses_as(b, 12, Err::<Seq<CentOffset>, Error>(e)),
    }
}

/// The parser of user octave blobs, as a relation between bytes and results.
pub open spec fn octave_blob_parser() -> spec_fn(Seq<u8>, Result<UserOctave, Error>) -> bool {
    |b: Seq<u8>, r: Result<UserOctave, Error>| octave_parses_as(b, r)
}

impl UserOctave {
    /// Size of the blob in bytes.
    pub const BLOB_SIZE: usize = 36;

    /// Parse a user octave from the first 36 bytes of `data`; fails when
    /// fewer are given.
    pub fn from_bytes(data: &[u8]) -> (r: Result<Self, Error>)
        ensures
            octave_parses_as(data@, r),
    {
        let n = data.len();
        if n < Self::BLOB_SIZE {
            return Err(Error::Sysex(SysexError::PayloadTooShort { expected: Self::BLOB_SIZE, actual: n }));
        }
        let mut notes = [CentOffset { semitone: 0, fraction: 0 }; 12];
        let mut k: usize = 0;
        while k < 12
            invariant
                k <= 12,
                n == data@.len(),
                n >= 36,
                forall|a: int| 0 <= a < k ==> #[trigger] notes@[a] == offsets_from(data@, 0, 12)[a],
            decreases 12 - k,
        {
            notes[k] = cent_at(data, 3 * k);
            k = k + 1;
        }
        assert(notes@ =~= offsets_from(data@, 0, 12));
        Ok(UserOctave(notes))
    }

    /// Serialize to the 36-byte blob.
    pub fn to_bytes(&self) -> (out: Vec<u8>)
        ensures
            out@ == offsets_bytes(self.0@),
    {
        let mut out: Vec<u8> = Vec::with_capacity(Self::BLOB_SIZE);
        push_offsets(&mut out, self.0.as_slice());
        assert(out@ =~= offsets_bytes(self.0@));
        out
    }

    /// The equal-tempered octave: note `k` at semitone `k`, fraction 0.
    pub fn equal_temperament() -> (o: Self)
        ensures
            forall|k: int| 0 <= k < 12 ==> #[trigger] o.0@[k] == (CentOffset { semitone: k as u8, fraction: 0 }),
    {
        let mut notes = [CentOffset { semitone: 0, fraction: 0 }; 12];
        let mut k: usize = 0;
        while k < 12
            invariant
                k <= 12,
                forall|a: int| 0 <= a < k ==> #[trigger] notes@[a] == (CentOffset { semitone: a as u8, fraction: 0 }),
            decreases 12 - k,
        {
            notes[k] = CentOffset { semitone: k as u8, fraction: 0 };
            k = k + 1;
        }
        UserOctave(notes)
    }
}

// ---------------------------------------------------------------------------
// Korg SysEx dumps
// ---------------------------------------------------------------------------

/// Build a SysEx user scale request (function 0x14).
pub fn build_user_scale_request(channel: U4) -> (msg: Vec<u8>)
    ensures
        msg@ == frame_bytes(channel.value_of(), USER_SCALE_REQUEST, Seq::empty()),
{
    build_sysex_request(channel, USER_SCALE_REQUEST)
}

/// Build a SysEx user scale dump (function 0x44): the 384-byte blob, 7-bit
/// encoded.
pub fn build_user_scale_dump(channel: U4, scale: &UserScale) -> (msg: Vec<u8>)
    ensures
        msg@ == frame_bytes(channel.value_of(), USER_SCALE_DUMP, spec_encode_7bit(offsets_bytes(scale.0@))),
{
    let blob = scale.to_bytes();
    build_sysex(channel, USER_SCALE_DUMP, blob.as_slice())
}

/// Parse a SysEx user scale dump (function 0x44).
pub fn parse_user_scale_dump(bytes: &[u8]) -> (r: Result<UserScale, Error>)
    ensures
        dump_parses_as(bytes@, USER_SCALE_DUMP, scale_blob_parser(), r),
{
    let parsed = parse_sysex(bytes)?;
    if parsed.function_id != USER_SCALE_DUMP {
        return Err(Error::Sysex(SysexError::WrongFunctionId { expected: USER_SCALE_DUMP, found: parsed.function_id }));
    }
    UserScale::from_bytes(parsed.data.as_slice())
}

/// Build a SysEx user octave request (function 0x15).
pub fn build_user_octave_request(channel: U4) -> (msg: Vec<u8>)
    ensures
        msg@ == frame_bytes(channel.value_of(), USER_OCTAVE_REQUEST, Seq::empty()),
{
    build_sysex_request(channel, USER_OCTAVE_REQUEST)
}

/// Build a SysEx user octave dump (function 0x45): the 36-byte blob, 7-bit
/// encoded.
pub fn build_user_octave_dump(channel: U4, octave: &UserOctave) -> (msg: Vec<u8>)
    ensures
        msg@ == frame_bytes(channel.value_of(), USER_OCTAVE_DUMP, spec_encode_7bit(offsets_bytes(octave.0@))),
{
    let blob = octave.to_bytes();
    build_sysex(channel, USER_OCTAVE_DUMP, blob.as_slice())
}

/// Parse a SysEx user octave dump (function 0x45).
pub fn parse_user_octave_dump(bytes: &[u8]) -> (r: Result<UserOctave, Error>)
    ensures
        dump_parses_as(bytes@, USER_OCTAVE_DUMP, octave_blob_parser(), r),
{
    let parsed = parse_sysex(bytes)?;
    if parsed.function_id != USER_OCTAVE_DUMP {
        return Err(Error::Sysex(SysexError::WrongFunctionId { expected: USER_OCTAVE_DUMP, found: parsed.function_id }));
    }
    UserOctave::from_bytes(parsed.data.as_slice())
}

// ---------------------------------------------------------------------------
// MIDI Tuning Standard (MTS)
// ---------------------------------------------------------------------------

/// The XOR of all bytes of `s`.
pub open spec fn xor_all(s: Seq<u8>) -> u8
    decreases s.len(),
{
    if s.len() == 0 {
        0
    } else {
        xor_all(s.drop_last()) ^ s.last()
    }
}

/// The 16 name bytes of an MTS bulk dump: the first 16 bytes of `name`,
/// each with its high bit cleared, padded with spaces.
pub open spec fn mts_name(name: Seq<u8>) -> Seq<u8> {
    Seq::new(16, |i: int| if i < name.len() { name[i] & 0x7F } else { 0x20u8 })
}

/// `b` with the high bit of each byte cleared.
pub open spec fn seven_bit_bytes(b: Seq<u8>) -> Seq<u8> {
    Seq::new(b.len(), |i: int| b[i] & 0x7F)
}

/// The bytes of an MTS bulk dump before its checksum: `F0 7E`, the device
/// ID, `08 01`, the program, the name, the 384 bytes of the scale, every
/// byte after `F0 7E` with its high bit cleared.
pub open spec fn mts_bulk_body(device_id: u8, program: u8, name: Seq<u8>, scale: Seq<CentOffset>) -> Seq<u8> {
    seq![0xF0u8, 0x7Eu8, device_id & 0x7F, 0x08u8, 0x01u8, program & 0x7F] + mts_name(name) + seven_bit_bytes(
        offsets_bytes(scale),
    )
}

/// An MTS Bulk Tuning Dump: the body, then the XOR of its bytes after
/// `F0 7E` with the high bit cleared, then `F7`.
pub open spec fn mts_bulk_bytes(device_id: u8, program: u8, name: Seq<u8>, scale: Seq<CentOffset>) -> Seq<u8> {
    let body = mts_bulk_body(device_id, program, name, scale);
    body + seq![xor_all(body.subrange(2, body.len() as int)) & 0x7F, 0xF7u8]
}

/// Build an MTS Bulk Tuning Dump: `[F0, 7E, device_id, 08, 01, program,
/// name (16), data (384), checksum, F7]`. The name is cut or space-padded to
/// 16 bytes; the checksum is the XOR of all bytes from the device ID to the
/// last data byte.
pub fn build_mts_bulk_dump(device_id: u8, program: u8, name: &str, scale: &UserScale) -> (msg: Vec<u8>)
    ensures
        msg@ == mts_bulk_bytes(device_id, program, name.spec_bytes(), scale.0@),
{
    let mut msg: Vec<u8> = Vec::with_capacity(408);
    msg.push(0xF0);
    msg.push(0x7E);
    msg.push(device_id & 0x7F);
    msg.push(0x08);
    msg.push(0x01);
    msg.push(program & 0x7F);
    let name_bytes = name.as_bytes();
    let mut i: usize = 0;
    while i < 16
        invariant
            i <= 16,
            name_bytes@ == name.spec_bytes(),
            msg@ == seq![0xF0u8, 0x7Eu8, device_id & 0x7F, 0x08u8, 0x01u8, program & 0x7F] + mts_name(name_bytes@).take(i as int),
        decreases 16 - i,
    {
        let b: u8 = if i < name_bytes.len() { name_bytes[i] & 0x7F } else { 0x20 };
        msg.push(b);
        assert(mts_name(name_bytes@).take(i + 1) =~= mts_name(name_bytes@).take(i as int).push(b));
        i = i + 1;
    }
    assert(mts_name(name_bytes@).take(16) =~= mts_name(name_bytes@));
    let mut data: Vec<u8> = Vec::new();
    push_offsets(&mut data, scale.0.as_slice());
    assert(data@ =~= offsets_bytes(scale.0@));
    let ghost head = msg@;
    let mut k: usize = 0;
    while k < data.len()
        invariant
            k <= data@.len(),
            data@.len() == 384,
            msg@ == head + seven_bit_bytes(data@).take(k as int),
        decreases data@.len() - k,
    {
        let b = data[k] & 0x7F;
        msg.push(b);
        assert(seven_bit_bytes(data@).take(k + 1) =~= seven_bit_bytes(data@).take(k as int).push(b));
        k = k + 1;
    }
    assert(seven_bit_bytes(data@).take(384) =~= seven_bit_bytes(data@));
    let ghost body = msg@;
    assert(body == mts_bulk_body(device_id, program, name.spec_bytes(), scale.0@));
    let mut checksum: u8 = 0;
    let mut j: usize = 2;
    while j < msg.len()
        invariant
            2 <= j <= msg@.len(),
            msg@ == body,
            checksum == xor_all(body.subrange(2, j as int)),
        decreases msg@.len() - j,
    {
        assert(body.subrange(2, j + 1).drop_last() =~= body.subrange(2, j as int));
        checksum = checksum ^ msg[j];
        j = j + 1;
    }
    msg.push(checksum & 0x7F);
    msg.push(0xF7);
    msg
}

/// The first check of an MTS bulk dump that `b` fails, if any: its length
/// (408), `F0 7E`, the sub-IDs `08 01`, the `F7` end, then the checksum
/// (the XOR of the bytes from offset 2 up to the checksum, high bit
/// cleared, against the byte before `F7`).
pub open spec fn mts_bulk_fault(b: Seq<u8>) -> Option<SysexError> {
    if b.len() < 408 {
        Some(SysexError::PayloadTooShort { expected: 408, actual: b.len() as usize })
    } else if b[0] != 0xF0 {
        Some(SysexError::InvalidHeader { offset: 0, found: b[0] })
    } else if b[1] != 0x7E {
        Some(SysexError::InvalidHeader { offset: 1, found: b[1] })
    } else if b[3] != 0x08 {
        Some(SysexError::InvalidHeader { offset: 3, found: b[3] })
    } else if b[4] != 0x01 {
        Some(SysexError::InvalidHeader { offset: 4, found: b[4] })
    } else if b.last() != 0xF7 {
        Some(SysexError::InvalidHeader { offset: (b.len() - 1) as usize, found: b.last() })
    } else if xor_all(b.subrange(2, b.len() - 2)) & 0x7F != b[b.len() - 2] {
        Some(SysexError::ChecksumMismatch { expected: xor_all(b.subrange(2, b.len() - 2)) & 0x7F, actual: b[b.len() - 2] })
    } else {
        None
    }
}

/// What [`parse_mts_bulk_dump`] returns for `b`: its first fault, or the
/// scale of the 384 bytes from offset 22.
pub open spec fn mts_bulk_parses_as(b: Seq<u8>, r: Result<UserScale, Error>) -> bool {
    match mts_bulk_fault(b) {
        Some(f) => r == Err::<UserScale, Error>(Error::Sysex(f)),
        None => r matches Ok(s) && s.0@ == offsets_from(b, 22, 128),
    }
}

/// Parse an MTS Bulk Tuning Dump into a user scale.
pub fn parse_mts_bulk_dump(bytes: &[u8]) -> (r: Result<UserScale, Error>)
    ensures
        mts_bulk_parses_as(bytes@, r),
{
    let n = bytes.len();
    if n < 408 {
        return Err(Error::Sysex(SysexError::PayloadTooShort { expected: 408, actual: n }));
    }
    if bytes[0] != 0xF0 {
        return Err(Error::Sysex(SysexError::InvalidHeader { offset: 0, found: bytes[0] }));
    }
    if bytes[1] != 0x7E {
        return Err(Error::Sysex(SysexError::InvalidHeader { offset: 1, found: bytes[1] }));
    }
    if bytes[3] != 0x08 {
        return Err(Error::Sysex(SysexError::InvalidHeader { offset: 3, found: bytes[3] }));
    }
    if bytes[4] != 0x01 {
        return Err(Error::Sysex(SysexError::InvalidHeader { offset: 4, found: bytes[4] }));
    }
    let last = bytes[n - 1];
    if last != 0xF7 {
        return Err(Error::Sysex(SysexError::InvalidHeader { offset: n - 1, found: last }));
    }
    let checksum_idx = n - 2;
    let mut computed: u8 = 0;
    let mut j: usize = 2;
    while j < checksum_idx
        invariant
            2 <= j <= checksum_idx,
            checksum_idx == n - 2,
            n == bytes@.len(),
            computed == xor_all(bytes@.subrange(2, j as int)),
        decreases checksum_idx - j,
    {
        assert(bytes@.subrange(2, j + 1).drop_last() =~= bytes@.subrange(2, j as int));
        computed = computed ^ bytes[j];
        j = j + 1;
    }
    computed = computed & 0x7F;
    let stored = bytes[checksum_idx];
    if computed != stored {
        return Err(Error::Sysex(SysexError::ChecksumMismatch { expected: computed, actual: stored }));
    }
    let mut notes = [CentOffset { semitone: 0, fraction: 0 }; 128];
    let mut k: usize = 0;
    while k < 128
        invariant
            k <= 128,
            n == bytes@.len(),
            n >= 408,
            forall|a: int| 0 <= a < k ==> #[trigger] notes@[a] == offsets_from(bytes@, 22, 128)[a],
        decreases 128 - k,
    {
        notes[k] = cent_at(bytes, 22 + 3 * k);
        k = k + 1;
    }
    assert(notes@ =~= offsets_from(bytes@, 22, 128));
    Ok(UserScale(notes))
}

/// The number of changes that an MTS Single Note Tuning Change carries for
/// `n` changes given: at most 127.
pub open spec fn mts_change_count(n: nat) -> nat {
    if n < 127 {
        n
    } else {
        127
    }
}

/// The 4 bytes of a change: the key, then the bytes of the offset, each
/// with the high bit cleared.
pub open spec fn change_bytes(c: (u8, CentOffset)) -> Seq<u8> {
    seq![c.0 & 0x7F, cent_bytes(c.1)[0] & 0x7F, cent_bytes(c.1)[1] & 0x7F, cent_bytes(c.1)[2] & 0x7F]
}

/// An MTS Single Note Tuning Change for the changes `changes`: `F0 7E`,
/// the device ID, `08 02`, the program, the count, 4 bytes per change, `F7`.
pub open spec fn mts_single_bytes(device_id: u8, program: u8, changes: Seq<(u8, CentOffset)>) -> Seq<u8> {
    let count = mts_change_count(changes.len());
    seq![0xF0u8, 0x7Eu8, device_id & 0x7F, 0x08u8, 0x02u8, program & 0x7F, count as u8] + Seq::new(
        4 * count,
        |i: int| change_bytes(changes[i / 4])[i % 4],
    ) + seq![0xF7u8]
}

/// Build an MTS Single Note Tuning Change: `[F0, 7E, device_id, 08, 02,
/// program, count, (key, semitone, fraction hi, fraction lo) * count, F7]`;
/// at most the first 127 changes are sent.
pub fn build_mts_single_note_change(device_id: u8, program: u8, changes: &[(u8, CentOffset)]) -> (msg: Vec<u8>)
    ensures
        msg@ == mts_single_bytes(device_id, program, changes@),
{
    let count: usize = if changes.len() < 127 { changes.len() } else { 127 };
    let mut msg: Vec<u8> = Vec::with_capacity(8 + count * 4);
    msg.push(0xF0);
    msg.push(0x7E);
    msg.push(device_id & 0x7F);
    msg.push(0x08);
    msg.push(0x02);
    msg.push(program & 0x7F);
    msg.push(count as u8);
    let ghost head = msg@;
    let ghost body = Seq::new(4 * count as nat, |i: int| change_bytes(changes@[i / 4])[i % 4]);
    let mut k: usize = 0;
    while k < count
        invariant
            k <= count,
            count <= 127,
            count <= changes@.len(),
            head.len() == 7,
            body == Seq::new(4 * count as nat, |i: int| change_bytes(changes@[i / 4])[i % 4]),
            msg@.len() == 7 + 4 * k,
            forall|i: int| 0 <= i < 7 ==> #[trigger] msg@[i] == head[i],
            forall|i: int| 0 <= i < 4 * k ==> #[trigger] msg@[7 + i] == body[i],
        decreases count - k,
    {
        let (key, co) = changes[k];
        let b = co.to_bytes();
        msg.push(key & 0x7F);
        msg.push(b[0] & 0x7F);
        msg.push(b[1] & 0x7F);
        msg.push(b[2] & 0x7F);
        proof {
            assert(changes@[k as int] == (key, co));
            assert(change_bytes(changes@[k as int]) =~= seq![key & 0x7F, b@[0] & 0x7F, b@[1] & 0x7F, b@[2] & 0x7F]);
            assert forall|i: int| 0 <= i < 4 * (k + 1) implies #[trigger] msg@[7 + i] == body[i] by {
                if i >= 4 * k {
                    assert(i / 4 == k && i % 4 == i - 4 * k);
                    assert(body[i] == change_bytes(changes@[k as int])[i - 4 * k]);
                }
            }
        }
        k = k + 1;
    }
    msg.push(0xF7);
    assert(count as nat == mts_change_count(changes@.len()));
    assert forall|i: int| 0 <= i < msg@.len() implies #[trigger] msg@[i] == mts_single_bytes(device_id, program, changes@)[i] by {
        if 7 <= i < 7 + 4 * count {
            assert(msg@[7 + (i - 7)] == body[i - 7]);
        }
    }
    assert(msg@ =~= mts_single_bytes(device_id, program, changes@));
    msg
}

/// The first check of an MTS Single Note Tuning Change that `b` fails, if
/// any: its length (8), `F0 7E`, the sub-IDs `08 02`, the `F7` end, then the
/// length that its count of changes needs.
pub open spec fn mts_single_fault(b: Seq<u8>) -> Option<SysexError> {
    if b.len() < 8 {
        Some(SysexError::PayloadTooShort { expected: 8, actual: b.len() as usize })
    } else if b[0] != 0xF0 {
        Some(SysexError::InvalidHeader { offset: 0, found: b[0] })
    } else if b[1] != 0x7E {
        Some(SysexError::InvalidHeader { offset: 1, found: b[1] })
    } else if b[3] != 0x08 {
        Some(SysexError::InvalidHeader { offset: 3, found: b[3] })
    } else if b[4] != 0x02 {
        Some(SysexError::InvalidHeader { offset: 4, found: b[4] })
    } else if b.last() != 0xF7 {
        Some(SysexError::InvalidHeader { offset: (b.len() - 1) as usize, found: b.last() })
    } else if b.len() < 8 + 4 * b[6] {
        Some(SysexError::PayloadTooShort { expected: (8 + 4 * b[6]) as usize, actual: b.len() as usize })
    } else {
        None
    }
}

/// The change at index `k` of the changes in `b`.
pub open spec fn change_at(b: Seq<u8>, k: int) -> (u8, CentOffset) {
    (b[7 + 4 * k], cent_of(b[8 + 4 * k], b[9 + 4 * k], b[10 + 4 * k]))
}

/// What [`parse_mts_single_note_change`] returns for `b`: its first fault,
/// or the changes that its count announces.
pub open spec fn mts_single_parses_as(b: Seq<u8>, r: Result<Vec<(u8, CentOffset)>, Error>) -> bool {
    match mts_single_fault(b) {
        Some(f) => r == Err::<Vec<(u8, CentOffset)>, Error>(Error::Sysex(f)),
        None => r matches Ok(v) && v@ == Seq::new(b[6] as nat, |k: int| change_at(b, k)),
    }
}

/// Parse an MTS Single Note Tuning Change into `(key, offset)` pairs.
pub fn parse_mts_single_note_change(bytes: &[u8]) -> (r: Result<Vec<(u8, CentOffset)>, Error>)
    ensures
        mts_single_parses_as(bytes@, r),
{
    let n = bytes.len();
    if n < 8 {
        return Err(Error::Sysex(SysexError::PayloadTooShort { expected: 8, actual: n }));
    }
    if bytes[0] != 0xF0 {
        return Err(Error::Sysex(SysexError::InvalidHeader { offset: 0, found: bytes[0] }));
    }
    if bytes[1] != 0x7E {
        return Err(Error::Sysex(SysexError::InvalidHeader { offset: 1, found: bytes[1] }));
    }
    if bytes[3] != 0x08 {
        return Err(Error::Sysex(SysexError::InvalidHeader { offset: 3, found: bytes[3] }));
    }
    if bytes[4] != 0x02 {
        return Err(Error::Sysex(SysexError::InvalidHeader { offset: 4, found: bytes[4] }));
    }
    let last = bytes[n - 1];
    if last != 0xF7 {
        return Err(Error::Sysex(SysexError::InvalidHeader { offset: n - 1, found: last }));
    }
    let count = bytes[6] as usize;
    let needed = 7 + count * 4 + 1;
    if n < needed {
        return Err(Error::Sysex(SysexError::PayloadTooShort { expected: needed, actual: n }));
    }
    let mut changes: Vec<(u8, CentOffset)> = Vec::with_capacity(count);
    let mut k: usize = 0;
    while k < count
        invariant
            k <= count,
            count == bytes@[6],
            n == bytes@.len(),
            n >= 8 + 4 * count,
            changes@ == Seq::new(k as nat, |a: int| change_at(bytes@, a)),
        decreases count - k,
    {
        let off = 7 + 4 * k;
        let key = bytes[off];
        let co = cent_at(bytes, off + 1);
        changes.push((key, co));
        assert(changes@ =~= Seq::new((k + 1) as nat, |a: int| change_at(bytes@, a)));
        k = k + 1;
    }
    Ok(changes)
}

// ---------------------------------------------------------------------------
// Laws of the tuning tables
// ---------------------------------------------------------------------------

/// Every fraction of the table `s` fits in 14 bits.
pub open spec fn fractions_fit(s: Seq<CentOffset>) -> bool {
    forall|k: int| 0 <= k < s.len() ==> #[trigger] s[k].fraction <= 16383
}

/// Reading back the bytes of a table whose fractions fit in 14 bits gives
/// the table.
pub proof fn lemma_table_round_trip(s: Seq<CentOffset>)
    requires
        fractions_fit(s),
    ensures
        offsets_from(offsets_bytes(s), 0, s.len()) == s,
{
    let b = offsets_bytes(s);
    assert forall|k: int| 0 <= k < s.len() implies #[trigger] offsets_from(b, 0, s.len())[k] == s[k] by {
        lemma_cent_round_trip(s[k], 0, 0, 0);
        assert((3 * k) / 3 == k && (3 * k) % 3 == 0);
        assert((3 * k + 1) / 3 == k && (3 * k + 1) % 3 == 1);
        assert((3 * k + 2) / 3 == k && (3 * k + 2) % 3 == 2);
    }
    assert(offsets_from(b, 0, s.len()) =~= s);
}

/// Writing back the table read from a blob whose fraction bytes are 7-bit
/// gives the blob's first `3 * n` bytes.
pub proof fn lemma_table_rewrite(b: Seq<u8>, n: nat)
    requires
        b.len() >= 3 * n,
        forall|i: int| 0 <= i < 3 * n && i % 3 != 0 ==> #[trigger] b[i] < 128,
    ensures
        offsets_bytes(offsets_from(b, 0, n)) == b.subrange(0, 3 * n as int),
{
    let t = offsets_from(b, 0, n);
    assert forall|i: int| 0 <= i < 3 * n implies #[trigger] offsets_bytes(t)[i] == b[i] by {
        let k = i / 3;
        assert(3 * k <= i < 3 * k + 3);
        assert(b[3 * k + 1] < 128 && b[3 * k + 2] < 128);
        lemma_cent_round_trip(t[k], b[3 * k], b[3 * k + 1], b[3 * k + 2]);
        assert(cent_bytes(t[k]) == seq![b[3 * k], b[3 * k + 1], b[3 * k + 2]]);
    }
    assert(offsets_bytes(t) =~= b.subrange(0, 3 * n as int));
}

/// Parsing a user scale dump that [`build_user_scale_dump`] built gives back
/// the scale, when its fractions fit in 14 bits.
pub proof fn lemma_user_scale_dump_round_trip(channel: u8, scale: UserScale, r: Result<UserScale, Error>)
    requires
        channel <= 15,
        fractions_fit(scale.0@),
        dump_parses_as(frame_bytes(channel, USER_SCALE_DUMP, spec_encode_7bit(offsets_bytes(scale.0@))), USER_SCALE_DUMP, scale_blob_parser(), r),
    ensures
        r == Ok::<UserScale, Error>(scale),
{
    lemma_frame_round_trip(channel, USER_SCALE_DUMP, offsets_bytes(scale.0@));
    lemma_table_round_trip(scale.0@);
    if let Ok(t) = r {
        assert(t.0 =~= scale.0);
    }
}

/// Parsing a user octave dump that [`build_user_octave_dump`] built gives
/// back the octave, when its fractions fit in 14 bits.
pub proof fn lemma_user_octave_dump_round_trip(channel: u8, octave: UserOctave, r: Result<UserOctave, Error>)
    requires
        channel <= 15,
        fractions_fit(octave.0@),
        dump_parses_as(frame_bytes(channel, USER_OCTAVE_DUMP, spec_encode_7bit(offsets_bytes(octave.0@))), USER_OCTAVE_DUMP, octave_blob_parser(), r),
    ensures
        r == Ok::<UserOctave, Error>(octave),
{
    lemma_frame_round_trip(channel, USER_OCTAVE_DUMP, offsets_bytes(octave.0@));
    lemma_table_round_trip(octave.0@);
    if let Ok(t) = r {
        assert(t.0 =~= octave.0);
    }
}

/// Every note of `s` has a 7-bit semitone and a 14-bit fraction, so that an
/// MTS message carries it unchanged.
pub open spec fn mts_representable(s: Seq<CentOffset>) -> bool {
    forall|k: int| 0 <= k < s.len() ==> #[trigger] s[k].semitone < 128 && s[k].fraction <= 16383
}

/// Parsing an MTS Bulk Tuning Dump that [`build_mts_bulk_dump`] built gives
/// back the scale, when its semitones are 7-bit and its fractions fit in 14
/// bits.
pub proof fn lemma_mts_bulk_round_trip(device_id: u8, program: u8, name: Seq<u8>, scale: UserScale, r: Result<UserScale, Error>)
    requires
        mts_representable(scale.0@),
        mts_bulk_parses_as(mts_bulk_bytes(device_id, program, name, scale.0@), r),
    ensures
        r == Ok::<UserScale, Error>(scale),
{
    let s = scale.0@;
    let body = mts_bulk_body(device_id, program, name, s);
    let b = mts_bulk_bytes(device_id, program, name, s);
    let data = offsets_bytes(s);
    assert(body.len() == 406);
    assert(b.len() == 408);
    assert(b.subrange(2, 406) =~= body.subrange(2, 406));
    assert(b[406] == xor_all(body.subrange(2, 406)) & 0x7F);
    assert(b[0] == 0xF0 && b[1] == 0x7E && b[3] == 0x08 && b[4] == 0x01 && b.last() == 0xF7);
    assert(mts_bulk_fault(b) is None);
    assert forall|k: int| 0 <= k < 128 implies #[trigger] offsets_from(b, 22, 128)[k] == s[k] by {
        lemma_cent_round_trip(s[k], 0, 0, 0);
        let c = cent_bytes(s[k]);
        assert(c[0] < 128 && c[1] < 128 && c[2] < 128);
        assert(c[0] & 0x7F == c[0] && c[1] & 0x7F == c[1] && c[2] & 0x7F == c[2]) by {
            let (x, y, z) = (c[0], c[1], c[2]);
            assert(x < 128 && y < 128 && z < 128 ==> x & 0x7F == x && y & 0x7F == y && z & 0x7F == z) by (bit_vector);
        }
        assert((3 * k) / 3 == k && (3 * k) % 3 == 0);
        assert((3 * k + 1) / 3 == k && (3 * k + 1) % 3 == 1);
        assert((3 * k + 2) / 3 == k && (3 * k + 2) % 3 == 2);
        assert(b[22 + 3 * k] == data[3 * k] & 0x7F);
        assert(b[23 + 3 * k] == data[3 * k + 1] & 0x7F);
        assert(b[24 + 3 * k] == data[3 * k + 2] & 0x7F);
    }
    if let Ok(t) = r {
        assert(t.0@ =~= s);
        assert(t.0 =~= scale.0);
    }
}

/// Parsing an MTS Single Note Tuning Change that
/// [`build_mts_single_note_change`] built gives back the changes sent (at
/// most the first 127), when their keys and semitones are 7-bit and their
/// fractions fit in 14 bits.
pub proof fn lemma_mts_single_round_trip(device_id: u8, program: u8, changes: Seq<(u8, CentOffset)>, r: Result<Vec<(u8, CentOffset)>, Error>)
    requires
        forall|k: int| 0 <= k < changes.len() ==> #[trigger] changes[k].0 < 128 && changes[k].1.semitone < 128 && changes[k].1.fraction <= 16383,
        mts_single_parses_as(mts_single_bytes(device_id, program, changes), r),
    ensures
        r matches Ok(v) && v@ == changes.take(mts_change_count(changes.len()) as int),
{
    let count = mts_change_count(changes.len());
    let b = mts_single_bytes(device_id, program, changes);
    assert(b.len() == 8 + 4 * count);
    assert(b[6] == count);
    assert(b[0] == 0xF0 && b[1] == 0x7E && b[3] == 0x08 && b[4] == 0x02 && b.last() == 0xF7);
    assert(mts_single_fault(b) is None);
    assert forall|k: int| 0 <= k < count implies #[trigger] change_at(b, k) == changes[k] by {
        let c = changes[k];
        lemma_cent_round_trip(c.1, 0, 0, 0);
        let cb = cent_bytes(c.1);
        assert(cb[1] < 128 && cb[2] < 128);
        assert(c.0 & 0x7F == c.0 && cb[0] & 0x7F == cb[0] && cb[1] & 0x7F == cb[1] && cb[2] & 0x7F == cb[2]) by {
            let (w, x, y, z) = (c.0, cb[0], cb[1], cb[2]);
            assert(w < 128 && x < 128 && y < 128 && z < 128 ==> w & 0x7F == w && x & 0x7F == x && y & 0x7F == y && z & 0x7F == z) by (bit_vector);
        }
        assert((4 * k) / 4 == k && (4 * k) % 4 == 0);
        assert((4 * k + 1) / 4 == k && (4 * k + 1) % 4 == 1);
        assert((4 * k + 2) / 4 == k && (4 * k + 2) % 4 == 2);
        assert((4 * k + 3) / 4 == k && (4 * k + 3) % 4 == 3);
        assert(b[7 + 4 * k] == change_bytes(c)[0]);
        assert(b[8 + 4 * k] == change_bytes(c)[1]);
        assert(b[9 + 4 * k] == change_bytes(c)[2]);
        assert(b[10 + 4 * k] == change_bytes(c)[3]);
    }
    if let Ok(v) = r {
        assert(v@ =~= changes.take(count as int));
    }
}


/// Replacing one byte of `s` changes its XOR by the old and the new byte.
proof fn lemma_xor_all_update(s: Seq<u8>, i: int, v: u8)
    requires
        0 <= i < s.len(),
    ensures
        xor_all(s.update(i, v)) == xor_all(s) ^ s[i] ^ v,
    decreases s.len(),
{
    let t = s.update(i, v);
    let x = xor_all(s.drop_last());
    let (si, last) = (s[i], s.last());
    if i == s.len() - 1 {
        assert(t.drop_last() =~= s.drop_last());
        assert((x ^ v) == (x ^ si) ^ si ^ v) by (bit_vector);
    } else {
        assert(t.drop_last() =~= s.drop_last().update(i, v));
        lemma_xor_all_update(s.drop_last(), i, v);
        assert((x ^ si ^ v) ^ last == (x ^ last) ^ si ^ v) by (bit_vector);
    }
}

/// An MTS Bulk Tuning Dump that passes every check fails one once any one
/// of bits 0 to 6 of a byte between the header's `F0 7E` and the checksum
/// is flipped: the header or the checksum no longer matches.
pub proof fn lemma_mts_bulk_detects_bit_flip(b: Seq<u8>, i: int, k: u8)
    requires
        mts_bulk_fault(b) is None,
        2 <= i < b.len() - 2,
        k < 7,
    ensures
        mts_bulk_fault(b.update(i, b[i] ^ (1u8 << k))) is Some,
{
    let n = b.len();
    let bi = b[i];
    let bit: u8 = 1u8 << k;
    let c = b.update(i, bi ^ bit);
    assert(bit != 0 && bit & 0x7F == bit) by (bit_vector)
        requires
            bit == 1u8 << k,
            k < 7,
    ;
    if i != 3 && i != 4 {
        assert(c.subrange(2, n - 2) =~= b.subrange(2, n - 2).update(i - 2, bi ^ bit));
        lemma_xor_all_update(b.subrange(2, n - 2), i - 2, bi ^ bit);
        let x = xor_all(b.subrange(2, n - 2));
        assert(b.subrange(2, n - 2)[i - 2] == bi);
        assert((x ^ bi ^ (bi ^ bit)) & 0x7F != x & 0x7F) by (bit_vector)
            requires
                bit != 0,
                bit & 0x7F == bit,
        ;
        assert(c[n - 2] == b[n - 2]);
        assert(c.last() == b.last());
    } else {
        assert(bi ^ bit != bi) by (bit_vector)
            requires
                bit != 0,
        ;
    }
}


/// Clearing the high bit of a byte keeps its value modulo 128.
proof fn lemma_low_seven(x: u8)
    ensures
        (x & 0x7F) as int == x as int % 128,
{
    assert(x & 0x7F == x % 128) by (bit_vector);
}

/// The layout of an MTS Single Note Tuning Change that
/// [`build_mts_single_note_change`] builds (MIDI Tuning Standard): the
/// header `F0 7E`, device ID, `08 02`, program, the number of changes (at
/// most 127), then for change `k` at offset `7 + 4k` the key, the
/// semitone, bits 7--13 of the fraction and bits 0--6 of the fraction,
/// each 7-bit, and `F7`.
pub proof fn lemma_mts_single_build_layout(device_id: u8, program: u8, changes: Seq<(u8, CentOffset)>)
    ensures
        ({
            let m = mts_single_bytes(device_id, program, changes);
            let n = if changes.len() < 127 { changes.len() as int } else { 127int };
            &&& m.len() == 8 + 4 * n
            &&& m[0] == 0xF0 && m[1] == 0x7E && m[2] as int == device_id as int % 128 && m[3] == 0x08 && m[4] == 0x02
            &&& m[5] as int == program as int % 128 && m[6] as int == n && m[7 + 4 * n] == 0xF7
            &&& forall|k: int|
                0 <= k < n ==> {
                    &&& m[7 + 4 * k] as int == (#[trigger] changes[k]).0 as int % 128
                    &&& m[8 + 4 * k] as int == changes[k].1.semitone as int % 128
                    &&& m[9 + 4 * k] as int == (changes[k].1.fraction as int % 16384) / 128
                    &&& m[10 + 4 * k] as int == changes[k].1.fraction as int % 128
                }
        }),
{
    let m = mts_single_bytes(device_id, program, changes);
    let n = if changes.len() < 127 { changes.len() as int } else { 127int };
    lemma_low_seven(device_id);
    lemma_low_seven(program);
    assert forall|k: int|
        0 <= k < n implies {
            &&& m[7 + 4 * k] as int == (#[trigger] changes[k]).0 as int % 128
            &&& m[8 + 4 * k] as int == changes[k].1.semitone as int % 128
            &&& m[9 + 4 * k] as int == (changes[k].1.fraction as int % 16384) / 128
            &&& m[10 + 4 * k] as int == changes[k].1.fraction as int % 128
        } by {
        let c = changes[k];
        let cb = cent_bytes(c.1);
        assert((4 * k) / 4 == k && (4 * k) % 4 == 0);
        assert((4 * k + 1) / 4 == k && (4 * k + 1) % 4 == 1);
        assert((4 * k + 2) / 4 == k && (4 * k + 2) % 4 == 2);
        assert((4 * k + 3) / 4 == k && (4 * k + 3) % 4 == 3);
        lemma_low_seven(c.0);
        lemma_low_seven(cb[0]);
        lemma_low_seven(cb[1]);
        lemma_low_seven(cb[2]);
        assert(m[7 + 4 * k] == change_bytes(c)[0]);
        assert(m[8 + 4 * k] == change_bytes(c)[1]);
        assert(m[9 + 4 * k] == change_bytes(c)[2]);
        assert(m[10 + 4 * k] == change_bytes(c)[3]);
    }
}

/// The layout that [`parse_mts_single_note_change`] reads: change `k` is
/// the key at offset `7 + 4k`, the semitone at `8 + 4k`, and the fraction
/// with bits 7--13 from `9 + 4k` and bits 0--6 from `10 + 4k`.
pub proof fn lemma_mts_single_parse_layout(b: Seq<u8>, v: Vec<(u8, CentOffset)>)
    requires
        mts_single_parses_as(b, Ok::<Vec<(u8, CentOffset)>, Error>(v)),
    ensures
        v@.len() == b[6],
        forall|k: int|
            0 <= k < v@.len() ==> {
                &&& (#[trigger] v@[k]).0 == b[7 + 4 * k]
                &&& v@[k].1.semitone == b[8 + 4 * k]
                &&& v@[k].1.fraction as int == (b[9 + 4 * k] as int % 128) * 128 + b[10 + 4 * k] as int % 128
            },
{
}


/// The layout of a tuning table as [`UserScale::to_bytes`] and
/// [`UserOctave::to_bytes`] write it: 3 bytes per note, the semitone, then
/// bits 7--13 and bits 0--6 of the fraction (in 1/16384 semitone).
pub proof fn lemma_table_write_layout(t: Seq<CentOffset>)
    ensures
        offsets_bytes(t).len() == 3 * t.len(),
        forall|k: int|
            0 <= k < t.len() ==> {
                &&& offsets_bytes(t)[3 * k] == (#[trigger] t[k]).semitone
                &&& offsets_bytes(t)[3 * k + 1] as int == (t[k].fraction as int % 16384) / 128
                &&& offsets_bytes(t)[3 * k + 2] as int == t[k].fraction as int % 128
            },
{
    assert forall|k: int|
        0 <= k < t.len() implies {
            &&& offsets_bytes(t)[3 * k] == (#[trigger] t[k]).semitone
            &&& offsets_bytes(t)[3 * k + 1] as int == (t[k].fraction as int % 16384) / 128
            &&& offsets_bytes(t)[3 * k + 2] as int == t[k].fraction as int % 128
        } by {
        assert((3 * k) / 3 == k && (3 * k) % 3 == 0);
        assert((3 * k + 1) / 3 == k && (3 * k + 1) % 3 == 1);
        assert((3 * k + 2) / 3 == k && (3 * k + 2) % 3 == 2);
    }
}

/// The layout that [`UserScale::from_bytes`] and [`UserOctave::from_bytes`]
/// read: note `k` has the semitone at `3k`, and the fraction with bits
/// 7--13 from `3k + 1` and bits 0--6 from `3k + 2`.
pub proof fn lemma_table_read_layout(b: Seq<u8>, n: nat, t: Seq<CentOffset>)
    requires
        table_parses_as(b, n, Ok::<Seq<CentOffset>, Error>(t)),
    ensures
        t.len() == n,
        forall|k: int|
            0 <= k < n ==> {
                &&& (#[trigger] t[k]).semitone == b[3 * k]
                &&& t[k].fraction as int == (b[3 * k + 1] as int % 128) * 128 + b[3 * k + 2] as int % 128
            },
{
}

/// The bytes of an MTS bulk dump, part by part.
proof fn lemma_mts_bulk_body_parts(device_id: u8, program: u8, name: Seq<u8>, t: Seq<CentOffset>)
    requires
        t.len() == 128,
    ensures
        ({
            let m = mts_bulk_bytes(device_id, program, name, t);
            &&& m.len() == 408
            &&& m[0] == 0xF0 && m[1] == 0x7E && m[2] == device_id & 0x7F && m[3] == 0x08 && m[4] == 0x01
            &&& m[5] == program & 0x7F
            &&& m.subrange(6, 22) == mts_name(name)
            &&& m[406] == xor_all(m.subrange(2, 406)) & 0x7F && m[407] == 0xF7
            &&& forall|j: int| 0 <= j < 384 ==> #[trigger] m[22 + j] == offsets_bytes(t)[j] & 0x7F
        }),
{
    let body = mts_bulk_body(device_id, program, name, t);
    let m = mts_bulk_bytes(device_id, program, name, t);
    assert(offsets_bytes(t).len() == 384);
    assert(body.len() == 406);
    assert(m.subrange(6, 22) =~= mts_name(name));
    assert(m.subrange(2, 406) =~= body.subrange(2, 406));
    assert forall|j: int| 0 <= j < 384 implies #[trigger] m[22 + j] == offsets_bytes(t)[j] & 0x7F by {
        assert(m[22 + j] == body[22 + j]);
        assert(body[22 + j] == seven_bit_bytes(offsets_bytes(t))[j]);
    }
}

/// The layout of an MTS Bulk Tuning Dump that [`build_mts_bulk_dump`]
/// builds (MIDI Tuning Standard): `F0 7E`, the device ID, `08 01`, the
/// program at 5, the 16-byte name at 6--21, from 22 three bytes per note
/// (semitone, fraction bits 7--13, fraction bits 0--6), each 7-bit, the
/// checksum at 406 and `F7` at 407.
pub proof fn lemma_mts_bulk_build_layout(device_id: u8, program: u8, name: Seq<u8>, t: Seq<CentOffset>)
    requires
        t.len() == 128,
    ensures
        ({
            let m = mts_bulk_bytes(device_id, program, name, t);
            &&& m.len() == 408
            &&& m[0] == 0xF0 && m[1] == 0x7E && m[2] as int == device_id as int % 128 && m[3] == 0x08 && m[4] == 0x01
            &&& m[5] as int == program as int % 128
            &&& m.subrange(6, 22) == mts_name(name)
            &&& m[406] == xor_all(m.subrange(2, 406)) & 0x7F && m[407] == 0xF7
            &&& forall|k: int|
                0 <= k < 128 ==> {
                    &&& m[22 + 3 * k] as int == (#[trigger] t[k]).semitone as int % 128
                    &&& m[23 + 3 * k] as int == (t[k].fraction as int % 16384) / 128
                    &&& m[24 + 3 * k] as int == t[k].fraction as int % 128
                }
        }),
{
    lemma_mts_bulk_body_parts(device_id, program, name, t);
    lemma_low_seven(device_id);
    lemma_low_seven(program);
    lemma_mts_scale_part(mts_bulk_bytes(device_id, program, name, t), t);
}

/// The scale part of an MTS bulk dump `m`, from offset 22.
proof fn lemma_mts_scale_part(m: Seq<u8>, t: Seq<CentOffset>)
    requires
        t.len() == 128,
        m.len() == 408,
        forall|j: int| 0 <= j < 384 ==> #[trigger] m[22 + j] == offsets_bytes(t)[j] & 0x7F,
    ensures
        forall|k: int|
            0 <= k < 128 ==> {
                &&& m[22 + 3 * k] as int == (#[trigger] t[k]).semitone as int % 128
                &&& m[23 + 3 * k] as int == (t[k].fraction as int % 16384) / 128
                &&& m[24 + 3 * k] as int == t[k].fraction as int % 128
            },
{
    assert forall|k: int|
        0 <= k < 128 implies {
            &&& m[22 + 3 * k] as int == (#[trigger] t[k]).semitone as int % 128
            &&& m[23 + 3 * k] as int == (t[k].fraction as int % 16384) / 128
            &&& m[24 + 3 * k] as int == t[k].fraction as int % 128
        } by {
        let c = cent_bytes(t[k]);
        assert((3 * k) / 3 == k && (3 * k) % 3 == 0);
        assert((3 * k + 1) / 3 == k && (3 * k + 1) % 3 == 1);
        assert((3 * k + 2) / 3 == k && (3 * k + 2) % 3 == 2);
        assert(m[22 + 3 * k] == offsets_bytes(t)[3 * k] & 0x7F);
        assert(m[22 + (3 * k + 1)] == offsets_bytes(t)[3 * k + 1] & 0x7F);
        assert(m[22 + (3 * k + 2)] == offsets_bytes(t)[3 * k + 2] & 0x7F);
        lemma_low_seven(c[0]);
        lemma_low_seven(c[1]);
        lemma_low_seven(c[2]);
    }
}

/// The layout that [`parse_mts_bulk_dump`] reads: note `k` has the
/// semitone at `22 + 3k`, and the fraction with bits 7--13 from `23 + 3k`
/// and bits 0--6 from `24 + 3k`.
pub proof fn lemma_mts_bulk_parse_layout(b: Seq<u8>, s: UserScale)
    requires
        mts_bulk_parses_as(b, Ok::<UserScale, Error>(s)),
    ensures
        s.0@.len() == 128,
        forall|k: int|
            0 <= k < 128 ==> {
                &&& (#[trigger] s.0@[k]).semitone == b[22 + 3 * k]
                &&& s.0@[k].fraction as int == (b[23 + 3 * k] as int % 128) * 128 + b[24 + 3 * k] as int % 128
            },
{
    assert forall|k: int| 0 <= k < 128 implies {
        &&& (#[trigger] s.0@[k]).semitone == b[22 + 3 * k]
        &&& s.0@[k].fraction as int == (b[23 + 3 * k] as int % 128) * 128 + b[24 + 3 * k] as int % 128
    } by {
        assert(s.0@[k] == offsets_from(b, 22, 128)[k]);
    }
}

} // verus!
