//! The 1024-byte program blob: [`SynthParams`] (offsets 0--155) and
//! [`SequencerParams`] (offsets 156--1023), the [`ProgramNumber`] of a stored
//! program, and the SysEx messages that request and carry program data.

pub mod file;
pub mod sequencer;
pub mod synth;

pub use sequencer::{MotionSlotConfig, SequencerParams, StepEvent};
pub use synth::{ProgramName, SynthParams};

use vstd::prelude::*;

use crate::codec::{all_seven_bit, decode_7bit, encode_7bit, is_codec_error, spec_decode_7bit, spec_encode_7bit};
use crate::error::{Error, SysexError};
use crate::message::types::U4;
use crate::sysex::frame::{
    build_sysex, build_sysex_request, dump_parses_as, frame_bytes, frame_header_fault, header_bytes,
    lemma_frame_round_trip, parse_sysex,
    CURRENT_PROGRAM_DUMP, CURRENT_PROGRAM_REQUEST, PROGRAM_DATA_DUMP, PROGRAM_DATA_REQUEST,
};
use crate::sysex::{DEVICE_ID, KORG_ID};
use crate::sysex::program::sequencer::{
    is_default_sequencer, lemma_seq_read_layout, lemma_seq_round_trip, lemma_seq_write_layout, seq_bytes, seq_parses_as,
    zero_seq_block,
};
use crate::sysex::program::synth::{
    is_default_synth, synth_bytes, synth_fault, synth_in_range, synth_parses_as, zero_block, lemma_synth_read_layout,
    lemma_synth_rewrite, lemma_synth_round_trip, lemma_synth_write_layout,
};

verus! {

// ---------------------------------------------------------------------------
// ProgramNumber
// ---------------------------------------------------------------------------

/// A program number (0--499) addressing one of the 500 stored programs,
/// in 5 banks of 100.
#[derive(Debug, Clone, Copy, PartialEq, Eq, PartialOrd, Ord, Hash, Structural)]
pub struct ProgramNumber(u16);

impl ProgramNumber {
    #[verifier::type_invariant]
    spec fn in_range(self) -> bool {
        self.0 <= 499
    }

    /// The number held.
    pub closed spec fn value_of(self) -> u16 {
        self.0
    }

    /// The largest program number.
    pub const MAX: u16 = 499;

    /// Create a program number; fails when `n` exceeds 499.
    pub fn new(n: u16) -> (r: Result<Self, Error>)
        ensures
            n <= 499 ==> (r matches Ok(p) && p.value_of() == n),
            n > 499 ==> r == Err::<Self, Error>(Error::Sysex(SysexError::InvalidProgramNumber(n))),
    {
        if n > Self::MAX {
            return Err(Error::Sysex(SysexError::InvalidProgramNumber(n)));
        }
        Ok(ProgramNumber(n))
    }

    /// The program number (0--499).
    pub fn value(self) -> (v: u16)
        ensures
            v == self.value_of(),
            v <= 499,
    {
        proof {
            use_type_invariant(&self);
        }
        self.0
    }

    /// The bank (0--4) of 100 programs that holds this program.
    pub fn bank(self) -> (b: u8)
        ensures
            b == self.value_of() / 100,
            b <= 4,
    {
        proof {
            use_type_invariant(&self);
        }
        (self.0 / 100) as u8
    }

    /// The slot of this program within its bank (0--99).
    pub fn slot_in_bank(self) -> (s: u8)
        ensures
            s == self.value_of() % 100,
    {
        (self.0 % 100) as u8
    }

    /// Two program numbers with the same value are the same.
    pub proof fn lemma_value_determines(a: Self, b: Self)
        ensures
            a.value_of() == b.value_of() ==> a == b,
    {
    }

    /// The number in decimal.
    pub fn to_string(&self) -> (s: String)
        ensures
            s@ == crate::text::decimal_text(self.value_of() as nat),
    {
        crate::text::decimal_string_usize(self.0 as usize)
    }
}

// ---------------------------------------------------------------------------
// ProgramData
// ---------------------------------------------------------------------------

/// The 1024 bytes that the synth and sequencer parameters `synth`, `seq`
/// write over the blob `base`, or over zeros when there is none.
pub open spec fn program_bytes_over(synth: SynthParams, seq: SequencerParams, base: Option<Seq<u8>>) -> Seq<u8> {
    match base {
        Some(raw) => synth_bytes(synth, raw.subrange(0, 156)) + seq_bytes(seq, raw.subrange(156, 1024)),
        None => synth_bytes(synth, zero_block()) + seq_bytes(seq, zero_seq_block()),
    }
}

/// A complete 1024-byte program blob: [`SynthParams`] and
/// [`SequencerParams`].
///
/// A blob parsed from bytes keeps those bytes, and [`ProgramData::to_bytes`]
/// writes the parameters over them, so that bits the parameters do not
/// model (the reserved bytes, the upper 6 bits of the high byte of 10-bit
/// values, the upper 4 bits of byte 148) survive a round trip. Equality
/// compares the parameters only.
#[derive(Debug, Clone)]
pub struct ProgramData {
    /// Synth parameters (offsets 0--155).
    pub synth: SynthParams,
    /// Sequencer parameters (offsets 156--1023).
    pub sequencer: SequencerParams,
    /// The blob this data was parsed from, if any.
    raw_blob: Option<[u8; 1024]>,
}

/// What [`ProgramData::from_bytes`] returns for `b`: too short, the first
/// fault of the synth block, or the parameters of both blocks with `b` kept
/// as the base.
pub open spec fn program_parses_as(b: Seq<u8>, r: Result<ProgramData, Error>) -> bool {
    if b.len() < 1024 {
        r == Err::<ProgramData, Error>(Error::Sysex(SysexError::PayloadTooShort { expected: 1024, actual: b.len() as usize }))
    } else {
        match r {
            Ok(d) => {
                &&& synth_parses_as(b.subrange(0, 156), Ok::<SynthParams, Error>(d.synth_of()))
                &&& seq_parses_as(b.subrange(156, 1024), Ok::<SequencerParams, Error>(d.sequencer_of()))
                &&& d.base_of() == Some(b.subrange(0, 1024))
            },
            Err(e) => synth_fault(b.subrange(0, 156)) == Some(e),
        }
    }
}

/// The parser of program blobs, as a relation between bytes and results.
pub open spec fn program_blob_parser() -> spec_fn(Seq<u8>, Result<ProgramData, Error>) -> bool {
    |b: Seq<u8>, r: Result<ProgramData, Error>| program_parses_as(b, r)
}

impl ProgramData {
    /// Total size of a program blob in bytes.
    pub const SIZE: usize = 1024;

    /// The synth parameters.
    pub closed spec fn synth_of(self) -> SynthParams {
        self.synth
    }

    /// The sequencer parameters.
    pub closed spec fn sequencer_of(self) -> SequencerParams {
        self.sequencer
    }

    /// The synth parameters, for verified code outside this module.
    pub fn synth(&self) -> (s: &SynthParams)
        ensures
            *s == self.synth_of(),
    {
        &self.synth
    }

    /// The sequencer parameters, for verified code outside this module.
    pub fn sequencer(&self) -> (q: &SequencerParams)
        ensures
            *q == self.sequencer_of(),
    {
        &self.sequencer
    }

    /// The blob that this data was parsed from, if any.
    pub closed spec fn base_of(self) -> Option<Seq<u8>> {
        match self.raw_blob {
            Some(raw) => Some(raw@),
            None => None,
        }
    }

    /// The 1024 bytes that [`ProgramData::to_bytes`] writes.
    pub open spec fn spec_bytes(self) -> Seq<u8> {
        program_bytes_over(self.synth_of(), self.sequencer_of(), self.base_of())
    }

    /// Program data from synth and sequencer parameters, with no base blob:
    /// [`ProgramData::to_bytes`] then writes over zeros.
    pub fn new(synth: SynthParams, sequencer: SequencerParams) -> (d: Self)
        ensures
            d.synth_of() == synth,
            d.sequencer_of() == sequencer,
            d.base_of() is None,
    {
        ProgramData { synth, sequencer, raw_blob: None }
    }

    /// Parse a program blob from the first 1024 bytes of `bytes`, keeping
    /// those bytes as the base for [`ProgramData::to_bytes`].
    ///
    /// Fails when fewer than 1024 bytes are given, or with the first fault
    /// of the synth block; the sequencer block accepts every byte pattern.
    pub fn from_bytes(bytes: &[u8]) -> (r: Result<Self, Error>)
        ensures
            program_parses_as(bytes@, r),
    {
        let n = bytes.len();
        if n < Self::SIZE {
            return Err(Error::Sysex(SysexError::PayloadTooShort { expected: Self::SIZE, actual: n }));
        }
        let synth = SynthParams::from_bytes(vstd::slice::slice_subrange(bytes, 0, 156))?;
        let sequencer = match SequencerParams::from_bytes(vstd::slice::slice_subrange(bytes, 156, 1024)) {
            Ok(s) => s,
            Err(e) => {
                return Err(e);
            },
        };
        let mut raw = [0u8; 1024];
        let mut i: usize = 0;
        while i < 1024
            invariant
                i <= 1024,
                n == bytes@.len(),
                n >= 1024,
                forall|j: int| 0 <= j < i ==> #[trigger] raw@[j] == bytes@[j],
            decreases 1024 - i,
        {
            raw[i] = bytes[i];
            i = i + 1;
        }
        assert(raw@ =~= bytes@.subrange(0, 1024));
        Ok(ProgramData { synth, sequencer, raw_blob: Some(raw) })
    }

    /// Serialize to 1024 bytes: the parameters written over the blob this
    /// data was parsed from, or over zeros when there is none.
    pub fn to_bytes(&self) -> (out: Vec<u8>)
        ensures
            out@ == self.spec_bytes(),
    {
        let mut synth_block: [u8; 156];
        let mut seq_block: Vec<u8>;
        match &self.raw_blob {
            Some(raw) => {
                let mut synth_base = [0u8; 156];
                let mut i: usize = 0;
                while i < 156
                    invariant
                        i <= 156,
                        raw@.len() == 1024,
                        forall|j: int| 0 <= j < i ==> #[trigger] synth_base@[j] == raw@[j],
                    decreases 156 - i,
                {
                    synth_base[i] = raw[i];
                    i = i + 1;
                }
                assert(synth_base@ =~= raw@.subrange(0, 156));
                synth_block = self.synth.to_bytes_with_base(&synth_base);
                seq_block = self.sequencer.to_bytes_with_base(vstd::slice::slice_subrange(raw.as_slice(), 156, 1024));
            },
            None => {
                synth_block = self.synth.to_bytes();
                seq_block = self.sequencer.to_bytes();
            },
        }
        let mut out: Vec<u8> = Vec::with_capacity(Self::SIZE);
        let mut i: usize = 0;
        while i < 156
            invariant
                i <= 156,
                out@ == synth_block@.take(i as int),
            decreases 156 - i,
        {
            out.push(synth_block[i]);
            assert(synth_block@.take(i + 1) =~= synth_block@.take(i as int).push(synth_block@[i as int]));
            i = i + 1;
        }
        assert(synth_block@.take(156) =~= synth_block@);
        out.append(&mut seq_block);
        out
    }
}

impl Default for ProgramData {
    /// Default synth and sequencer parameters, with no base blob.
    fn default() -> (d: Self)
        ensures
            is_default_synth(d.synth_of()),
            is_default_sequencer(d.sequencer_of()),
            d.base_of() is None,
    {
        ProgramData { synth: SynthParams::default(), sequencer: SequencerParams::default(), raw_blob: None }
    }
}

impl PartialEq for ProgramData {
    /// Two program blobs are equal when their synth and sequencer
    /// parameters are; the kept base blob is not compared.
    fn eq(&self, other: &Self) -> (r: bool) {
        self.synth == other.synth && self.sequencer == other.sequencer
    }
}

impl vstd::std_specs::cmp::PartialEqSpecImpl for ProgramData {
    open spec fn obeys_eq_spec() -> bool {
        true
    }

    open spec fn eq_spec(&self, other: &ProgramData) -> bool {
        self.synth_of() == other.synth_of() && self.sequencer_of() == other.sequencer_of()
    }
}

// ---------------------------------------------------------------------------
// SysEx builders and parsers
// ---------------------------------------------------------------------------

/// The two bytes that address program `n` in a request or dump: bits 0--6,
/// then bits 7--13.
pub open spec fn program_number_bytes(n: u16) -> Seq<u8> {
    seq![(n % 128) as u8, ((n / 128) % 128) as u8]
}

/// The program number that a stored-program dump addresses: the byte at
/// offset 7 ORed with the byte at offset 8 shifted left by 7.
pub open spec fn dump_number(b: Seq<u8>) -> u16 {
    (b[7] as u16) | ((b[8] as u16) << 7u16)
}

/// The wire payload of a stored-program dump: the bytes between the two
/// program-number bytes and `F7`.
pub open spec fn dump_wire(b: Seq<u8>) -> Seq<u8> {
    b.subrange(9, b.len() - 1)
}

/// What [`parse_program_dump`] returns for `b`: a short message, the first
/// header fault, the wrong function ID, a number above 499, a codec error,
/// or what [`ProgramData::from_bytes`] returns for the decoded blob, with
/// the number.
pub open spec fn program_dump_parses_as(b: Seq<u8>, r: Result<(ProgramNumber, ProgramData), Error>) -> bool {
    if b.len() < 10 {
        r == Err::<(ProgramNumber, ProgramData), Error>(
            Error::Sysex(SysexError::PayloadTooShort { expected: 10, actual: b.len() as usize }),
        )
    } else if let Some(fault) = frame_header_fault(b) {
        r == Err::<(ProgramNumber, ProgramData), Error>(Error::Sysex(fault))
    } else if b[6] != PROGRAM_DATA_DUMP {
        r == Err::<(ProgramNumber, ProgramData), Error>(
            Error::Sysex(SysexError::WrongFunctionId { expected: PROGRAM_DATA_DUMP, found: b[6] }),
        )
    } else if dump_number(b) > 499 {
        r == Err::<(ProgramNumber, ProgramData), Error>(Error::Sysex(SysexError::InvalidProgramNumber(dump_number(b))))
    } else if !all_seven_bit(dump_wire(b)) {
        r matches Err(e) && is_codec_error(dump_wire(b), e)
    } else {
        match r {
            Ok((number, data)) => number.value_of() == dump_number(b) && program_parses_as(
                spec_decode_7bit(dump_wire(b)),
                Ok::<ProgramData, Error>(data),
            ),
            Err(e) => program_parses_as(spec_decode_7bit(dump_wire(b)), Err::<ProgramData, Error>(e)),
        }
    }
}

/// Build a SysEx message requesting the current program:
/// `[F0, 42, 3g, 00, 01, 51, 10, F7]`.
pub fn build_current_program_request(channel: U4) -> (msg: Vec<u8>)
    ensures
        msg@ == frame_bytes(channel.value_of(), CURRENT_PROGRAM_REQUEST, Seq::empty()),
{
    build_sysex_request(channel, CURRENT_PROGRAM_REQUEST)
}

/// Build a SysEx current program dump: the 1024-byte blob, 7-bit encoded,
/// in a frame with function ID [`CURRENT_PROGRAM_DUMP`].
pub fn build_current_program_dump(channel: U4, data: &ProgramData) -> (msg: Vec<u8>)
    ensures
        msg@ == frame_bytes(channel.value_of(), CURRENT_PROGRAM_DUMP, spec_encode_7bit(data.spec_bytes())),
{
    let raw = data.to_bytes();
    build_sysex(channel, CURRENT_PROGRAM_DUMP, raw.as_slice())
}

/// Parse a SysEx current program dump into [`ProgramData`].
pub fn parse_current_program_dump(bytes: &[u8]) -> (r: Result<ProgramData, Error>)
    ensures
        dump_parses_as(bytes@, CURRENT_PROGRAM_DUMP, program_blob_parser(), r),
{
    let frame = parse_sysex(bytes)?;
    if frame.function_id != CURRENT_PROGRAM_DUMP {
        return Err(Error::Sysex(SysexError::WrongFunctionId { expected: CURRENT_PROGRAM_DUMP, found: frame.function_id }));
    }
    ProgramData::from_bytes(frame.data.as_slice())
}

/// The two program-number bytes of `n`.
fn number_bytes(n: u16) -> (b: (u8, u8))
    ensures
        b.0 == n % 128,
        b.1 == (n / 128) % 128,
{
    assert((n & 0x7F) == n % 128 && ((n >> 7u16) & 0x7F) == (n / 128) % 128) by (bit_vector);
    ((n & 0x7F) as u8, ((n >> 7) & 0x7F) as u8)
}

/// Build a SysEx message requesting stored program `number`:
/// `[F0, 42, 3g, 00, 01, 51, 1C, lsb, msb, F7]`.
pub fn build_program_request(channel: U4, number: ProgramNumber) -> (msg: Vec<u8>)
    ensures
        msg@ == frame_bytes(channel.value_of(), PROGRAM_DATA_REQUEST, program_number_bytes(number.value_of())),
{
    let (lsb, msb) = number_bytes(number.value());
    let msg = vec![
        0xF0,
        KORG_ID,
        0x30 | channel.value(),
        DEVICE_ID[0],
        DEVICE_ID[1],
        DEVICE_ID[2],
        PROGRAM_DATA_REQUEST,
        lsb,
        msb,
        0xF7,
    ];
    assert(msg@ =~= frame_bytes(channel.value_of(), PROGRAM_DATA_REQUEST, program_number_bytes(number.value_of())));
    msg
}

/// Build a SysEx stored program dump: the two program-number bytes, then
/// the 1024-byte blob, 7-bit encoded, in a frame with function ID
/// [`PROGRAM_DATA_DUMP`].
pub fn build_program_dump(channel: U4, number: ProgramNumber, data: &ProgramData) -> (msg: Vec<u8>)
    ensures
        msg@ == frame_bytes(
            channel.value_of(),
            PROGRAM_DATA_DUMP,
            program_number_bytes(number.value_of()) + spec_encode_7bit(data.spec_bytes()),
        ),
{
    let raw = data.to_bytes();
    let encoded = encode_7bit(raw.as_slice());
    let (lsb, msb) = number_bytes(number.value());
    let mut msg: Vec<u8> = Vec::new();
    msg.push(0xF0);
    msg.push(KORG_ID);
    msg.push(0x30 | channel.value());
    msg.push(DEVICE_ID[0]);
    msg.push(DEVICE_ID[1]);
    msg.push(DEVICE_ID[2]);
    msg.push(PROGRAM_DATA_DUMP);
    msg.push(lsb);
    msg.push(msb);
    let ghost prefix = header_bytes(channel.value_of()).push(PROGRAM_DATA_DUMP) + program_number_bytes(number.value_of());
    assert(msg@ =~= prefix);
    let mut i: usize = 0;
    while i < encoded.len()
        invariant
            i <= encoded@.len(),
            msg@ == prefix + encoded@.take(i as int),
        decreases encoded@.len() - i,
    {
        msg.push(encoded[i]);
        assert(encoded@.take(i + 1) =~= encoded@.take(i as int).push(encoded@[i as int]));
        i = i + 1;
    }
    msg.push(0xF7);
    assert(encoded@.take(encoded@.len() as int) =~= encoded@);
    assert(msg@ =~= frame_bytes(
        channel.value_of(),
        PROGRAM_DATA_DUMP,
        program_number_bytes(number.value_of()) + spec_encode_7bit(data.spec_bytes()),
    ));
    msg
}

/// Parse a SysEx stored program dump into its program number and data.
pub fn parse_program_dump(bytes: &[u8]) -> (r: Result<(ProgramNumber, ProgramData), Error>)
    ensures
        program_dump_parses_as(bytes@, r),
{
    let n = bytes.len();
    if n < 10 {
        return Err(Error::Sysex(SysexError::PayloadTooShort { expected: 10, actual: n }));
    }
    if bytes[0] != 0xF0 {
        return Err(Error::Sysex(SysexError::InvalidHeader { offset: 0, found: bytes[0] }));
    }
    let last = bytes[n - 1];
    if last != 0xF7 {
        return Err(Error::Sysex(SysexError::InvalidHeader { offset: n - 1, found: last }));
    }
    if bytes[1] != KORG_ID {
        return Err(Error::Sysex(SysexError::InvalidHeader { offset: 1, found: bytes[1] }));
    }
    if bytes[2] & 0xF0 != 0x30 {
        return Err(Error::Sysex(SysexError::InvalidHeader { offset: 2, found: bytes[2] }));
    }
    if bytes[3] != DEVICE_ID[0] {
        return Err(Error::Sysex(SysexError::InvalidHeader { offset: 3, found: bytes[3] }));
    }
    if bytes[4] != DEVICE_ID[1] {
        return Err(Error::Sysex(SysexError::InvalidHeader { offset: 4, found: bytes[4] }));
    }
    if bytes[5] != DEVICE_ID[2] {
        return Err(Error::Sysex(SysexError::InvalidHeader { offset: 5, found: bytes[5] }));
    }
    if bytes[6] != PROGRAM_DATA_DUMP {
        return Err(Error::Sysex(SysexError::WrongFunctionId { expected: PROGRAM_DATA_DUMP, found: bytes[6] }));
    }
    let number = ProgramNumber::new((bytes[7] as u16) | ((bytes[8] as u16) << 7))?;
    let decoded = decode_7bit(vstd::slice::slice_subrange(bytes, 9, n - 1))?;
    let data = ProgramData::from_bytes(decoded.as_slice())?;
    Ok((number, data))
}

// ---------------------------------------------------------------------------
// Laws of program data
// ---------------------------------------------------------------------------

/// A blob kept as base is 1024 bytes long.
proof fn lemma_base_len(d: ProgramData)
    ensures
        d.base_of() matches Some(raw) ==> raw.len() == 1024,
        d.spec_bytes().len() == 1024,
{
}

/// Writing program data parsed from a blob back over that blob gives its
/// 1024 bytes back unchanged.
pub proof fn lemma_program_rewrite(b: Seq<u8>, d: ProgramData)
    requires
        program_parses_as(b, Ok::<ProgramData, Error>(d)),
    ensures
        d.spec_bytes() == b.subrange(0, 1024),
{
    let raw = b.subrange(0, 1024);
    let sb = b.subrange(0, 156);
    let qb = b.subrange(156, 1024);
    lemma_synth_rewrite(sb, d.synth_of());
    assert(raw.subrange(0, 156) =~= sb.subrange(0, 156));
    assert(raw.subrange(156, 1024) =~= qb.subrange(0, 868));
    assert(d.spec_bytes() =~= raw);
}

/// Reading back the bytes of program data with in-range synth parameters
/// gives data equal to it (same synth and sequencer parameters), whether
/// it was written over a kept blob or over zeros.
pub proof fn lemma_program_round_trip(d: ProgramData, r: Result<ProgramData, Error>)
    requires
        synth_in_range(d.synth_of()),
        program_parses_as(d.spec_bytes(), r),
    ensures
        r matches Ok(e) && e.synth_of() == d.synth_of() && e.sequencer_of() == d.sequencer_of(),
{
    lemma_base_len(d);
    let x = d.spec_bytes();
    let (sbase, qbase) = match d.base_of() {
        Some(raw) => (raw.subrange(0, 156), raw.subrange(156, 1024)),
        None => (zero_block(), zero_seq_block()),
    };
    let sx = synth_bytes(d.synth_of(), sbase);
    let qx = seq_bytes(d.sequencer_of(), qbase);
    assert(x =~= sx + qx);
    assert(x.subrange(0, 156) =~= sx);
    assert(x.subrange(156, 1024) =~= qx);
    match r {
        Ok(e) => {
            lemma_synth_round_trip(d.synth_of(), sbase, Ok::<SynthParams, Error>(e.synth_of()));
            lemma_seq_round_trip(d.sequencer_of(), qbase, Ok::<SequencerParams, Error>(e.sequencer_of()));
        },
        Err(err) => {
            lemma_synth_round_trip(d.synth_of(), sbase, Err::<SynthParams, Error>(err));
        },
    }
}

/// Parsing a current program dump that [`build_current_program_dump`] built
/// gives back data equal to the data sent.
pub proof fn lemma_current_program_dump_round_trip(channel: u8, d: ProgramData, r: Result<ProgramData, Error>)
    requires
        channel <= 15,
        synth_in_range(d.synth_of()),
        dump_parses_as(
            frame_bytes(channel, CURRENT_PROGRAM_DUMP, spec_encode_7bit(d.spec_bytes())),
            CURRENT_PROGRAM_DUMP,
            program_blob_parser(),
            r,
        ),
    ensures
        r matches Ok(e) && e.synth_of() == d.synth_of() && e.sequencer_of() == d.sequencer_of(),
{
    lemma_frame_round_trip(channel, CURRENT_PROGRAM_DUMP, d.spec_bytes());
    lemma_program_round_trip(d, r);
}

/// The two program-number bytes of a number up to 499 read back as it.
proof fn lemma_number_bytes(n: u16)
    requires
        n <= 499,
    ensures
        (((n % 128) as u8) as u16) | (((((n / 128) % 128) as u8) as u16) << 7u16) == n,
        (n % 128) as u8 & 0x80 == 0,
        ((n / 128) % 128) as u8 & 0x80 == 0,
{
    assert(n <= 499 ==> (((n % 128) as u8) as u16) | (((((n / 128) % 128) as u8) as u16) << 7u16) == n) by (bit_vector);
    assert(n <= 499 ==> ((n % 128) as u8 & 0x80 == 0 && ((n / 128) % 128) as u8 & 0x80 == 0)) by (bit_vector);
}

/// Parsing a stored program dump that [`build_program_dump`] built gives
/// back the program number and data equal to the data sent.
pub proof fn lemma_program_dump_round_trip(
    channel: u8,
    number: ProgramNumber,
    d: ProgramData,
    r: Result<(ProgramNumber, ProgramData), Error>,
)
    requires
        channel <= 15,
        number.value_of() <= 499,
        synth_in_range(d.synth_of()),
        program_dump_parses_as(
            frame_bytes(channel, PROGRAM_DATA_DUMP, program_number_bytes(number.value_of()) + spec_encode_7bit(d.spec_bytes())),
            r,
        ),
    ensures
        r matches Ok((m, e)) && m == number && e.synth_of() == d.synth_of() && e.sequencer_of() == d.sequencer_of(),
{
    let n = number.value_of();
    let enc = spec_encode_7bit(d.spec_bytes());
    let payload = program_number_bytes(n) + enc;
    let b = frame_bytes(channel, PROGRAM_DATA_DUMP, payload);
    lemma_frame_round_trip(channel, PROGRAM_DATA_DUMP, d.spec_bytes());
    crate::codec::lemma_encode_decode_round_trip(d.spec_bytes());
    lemma_number_bytes(n);
    let other = frame_bytes(channel, PROGRAM_DATA_DUMP, enc);
    assert(b.len() == other.len() + 2);
    assert forall|i: int| 0 <= i < 7 implies #[trigger] b[i] == other[i] by {}
    assert(b.last() == 0xF7);
    assert(frame_header_fault(b) == frame_header_fault(other));
    assert(b[7] == (n % 128) as u8 && b[8] == ((n / 128) % 128) as u8);
    assert(dump_wire(b) =~= enc);
    match r {
        Ok((m, e)) => {
            ProgramNumber::lemma_value_determines(m, number);
            lemma_program_round_trip(d, Ok::<ProgramData, Error>(e));
        },
        Err(err) => {
            lemma_program_round_trip(d, Err::<ProgramData, Error>(err));
        },
    }
}


/// The program number of a stored-program message: 7 bits low first, then
/// the high bits, as [`build_program_request`] and [`build_program_dump`]
/// send it and [`parse_program_dump`] reads it (from offsets 7 and 8).
pub proof fn lemma_program_number_layout(n: u16, b: Seq<u8>, r: Result<(ProgramNumber, ProgramData), Error>)
    requires
        program_dump_parses_as(b, r),
    ensures
        n < 16384 ==> program_number_bytes(n)[0] < 128 && program_number_bytes(n)[1] < 128
            && program_number_bytes(n)[0] as int + program_number_bytes(n)[1] as int * 128 == n as int,
        r matches Ok(x) ==> (b[7] < 128 ==> x.0.value_of() as int == b[7] as int + b[8] as int * 128),
{
    let (b7, b8) = (b[7], b[8]);
    assert(b7 < 128 ==> (b7 as u16) | ((b8 as u16) << 7u16) == (b7 as u16) + (b8 as u16) * 128) by (bit_vector);
}


/// The program blob holds the synth block at offsets 0--155 and the
/// sequencer block at 156--1023: for instance the cutoff velocity at 128,
/// the amp velocity at 129, the tempo at 162--163 and the first note of
/// the first step at 190, as [`ProgramData::from_bytes`] reads them and
/// [`ProgramData::to_bytes`] writes them.
pub proof fn lemma_program_layout(b: Seq<u8>, d: ProgramData, e: ProgramData)
    requires
        program_parses_as(b, Ok::<ProgramData, Error>(d)),
    ensures
        d.synth_of().cutoff_velocity == b[128],
        d.synth_of().amp_velocity == b[129],
        d.sequencer_of().bpm as int == b[162] as int + b[163] as int * 256,
        d.sequencer_of().steps@[0].notes@[0] == b[190],
        e.spec_bytes().len() == 1024,
        e.spec_bytes()[128] == e.synth_of().cutoff_velocity,
        e.spec_bytes()[129] == e.synth_of().amp_velocity,
        e.spec_bytes()[162] as int + e.spec_bytes()[163] as int * 256 == e.sequencer_of().bpm as int,
        e.spec_bytes()[190] == e.sequencer_of().steps@[0].notes@[0],
{
    lemma_synth_read_layout(b.subrange(0, 156), d.synth_of());
    lemma_seq_read_layout(b.subrange(156, 1024), d.sequencer_of());
    assert(b.subrange(156, 1024).subrange(0, 868) =~= b.subrange(156, 1024));
    lemma_base_len(e);
    let (sb, qb) = match e.base_of() {
        Some(raw) => (raw.subrange(0, 156), raw.subrange(156, 1024)),
        None => (zero_block(), zero_seq_block()),
    };
    lemma_synth_write_layout(e.synth_of(), sb);
    lemma_seq_write_layout(e.sequencer_of(), qb);
    assert(e.spec_bytes() == synth_bytes(e.synth_of(), sb) + seq_bytes(e.sequencer_of(), qb));
    assert(e.spec_bytes()[162] == seq_bytes(e.sequencer_of(), qb)[6]);
    assert(e.spec_bytes()[163] == seq_bytes(e.sequencer_of(), qb)[7]);
    assert(e.spec_bytes()[190] == seq_bytes(e.sequencer_of(), qb)[34]);
    assert(seq_bytes(e.sequencer_of(), qb)[34int + 52int * 0int + 0int] == e.sequencer_of().steps@[0].notes@[0]);
}

} // verus!
