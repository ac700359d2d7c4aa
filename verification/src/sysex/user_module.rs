//! User module management for the logue SDK: module IDs and their slot
//! counts, the user module info (9 bytes), slot status (32
//! bytes) and slot data (header and payload with a CRC32), and the
//! SysEx requests and replies that carry them.
//!
//! | Module     | ID | Slots |
//! |------------|:--:|:-----:|
//! | Mod FX     | 1  | 16    |
//! | Delay FX   | 2  | 8     |
//! | Reverb FX  | 3  | 8     |
//! | Oscillator | 4  | 16    |

use vstd::prelude::*;

use crate::error::{Error, SysexError};
use crate::message::types::U4;
use crate::codec::spec_encode_7bit;
use crate::sysex::frame::{
    build_sysex_request, dump_parses_as, frame_bytes, header_bytes, lemma_frame_round_trip, parse_sysex, CLEAR_USER_MODULE, CLEAR_USER_SLOT, SWAP_USER_DATA,
    USER_API_VERSION_REQUEST, USER_MODULE_INFO_REPLY, USER_MODULE_INFO_REQUEST, USER_SLOT_DATA_REPLY,
    USER_SLOT_DATA_REQUEST, USER_SLOT_STATUS_REPLY, USER_SLOT_STATUS_REQUEST,
};
use crate::sysex::{DEVICE_ID, KORG_ID};
use vstd::utf8::{decode_utf8, encode_utf8, valid_utf8};

verus! {

// ---------------------------------------------------------------------------
// UserModuleId
// ---------------------------------------------------------------------------

/// User module categories of the logue SDK.
#[derive(Debug, Clone, Copy, PartialEq, Eq, Hash, Structural)]
#[non_exhaustive]
pub enum UserModuleId {
    /// Modulation effect (ID 1, 16 slots).
    ModFx,
    /// Delay effect (ID 2, 8 slots).
    DelayFx,
    /// Reverb effect (ID 3, 8 slots).
    ReverbFx,
    /// User oscillator (ID 4, 16 slots).
    Osc,
}

impl UserModuleId {
    /// The wire byte of the module ID.
    pub open spec fn spec_byte(self) -> u8 {
        match self {
            UserModuleId::ModFx => 1,
            UserModuleId::DelayFx => 2,
            UserModuleId::ReverbFx => 3,
            UserModuleId::Osc => 4,
        }
    }

    /// The number of slots of the module type.
    pub open spec fn spec_max_slots(self) -> u8 {
        match self {
            UserModuleId::ModFx | UserModuleId::Osc => 16,
            UserModuleId::DelayFx | UserModuleId::ReverbFx => 8,
        }
    }

    /// The module ID with wire byte `b`, or the invalid-ID error.
    pub open spec fn spec_from_byte(b: u8) -> Result<UserModuleId, Error> {
        match b {
            1 => Ok(UserModuleId::ModFx),
            2 => Ok(UserModuleId::DelayFx),
            3 => Ok(UserModuleId::ReverbFx),
            4 => Ok(UserModuleId::Osc),
            _ => Err(Error::Sysex(SysexError::InvalidModuleId(b))),
        }
    }

    /// The display name of the module type.
    pub open spec fn spec_label(self) -> Seq<char> {
        match self {
            UserModuleId::ModFx => "Mod FX"@,
            UserModuleId::DelayFx => "Delay FX"@,
            UserModuleId::ReverbFx => "Reverb FX"@,
            UserModuleId::Osc => "Oscillator"@,
        }
    }

    /// The number of slots available for this module type.
    pub fn max_slots(self) -> (n: u8)
        ensures
            n == self.spec_max_slots(),
    {
        match self {
            UserModuleId::ModFx | UserModuleId::Osc => 16,
            UserModuleId::DelayFx | UserModuleId::ReverbFx => 8,
        }
    }

    /// Parse a module ID from its wire byte; fails unless it is 1--4.
    pub fn from_byte(b: u8) -> (r: Result<Self, Error>)
        ensures
            r == Self::spec_from_byte(b),
    {
        match b {
            1 => Ok(UserModuleId::ModFx),
            2 => Ok(UserModuleId::DelayFx),
            3 => Ok(UserModuleId::ReverbFx),
            4 => Ok(UserModuleId::Osc),
            _ => Err(Error::Sysex(SysexError::InvalidModuleId(b))),
        }
    }

    /// The wire byte of the module ID.
    pub fn to_byte(self) -> (b: u8)
        ensures
            b == self.spec_byte(),
    {
        match self {
            UserModuleId::ModFx => 1,
            UserModuleId::DelayFx => 2,
            UserModuleId::ReverbFx => 3,
            UserModuleId::Osc => 4,
        }
    }

    /// The display name of the module type.
    pub fn to_string(&self) -> (s: String)
        ensures
            s@ == self.spec_label(),
    {
        match self {
            UserModuleId::ModFx => String::from_str("Mod FX"),
            UserModuleId::DelayFx => String::from_str("Delay FX"),
            UserModuleId::ReverbFx => String::from_str("Reverb FX"),
            UserModuleId::Osc => String::from_str("Oscillator"),
        }
    }
}

/// Reading a module ID back from its wire byte gives the same ID, and a
/// byte that reads as an ID is that ID's wire byte.
pub proof fn lemma_module_byte_round_trip(m: UserModuleId, b: u8)
    ensures
        UserModuleId::spec_from_byte(m.spec_byte()) == Ok::<UserModuleId, Error>(m),
        UserModuleId::spec_from_byte(b) matches Ok(n) ==> n.spec_byte() == b,
{
}

// ---------------------------------------------------------------------------
// Little-endian u32
// ---------------------------------------------------------------------------

/// The little-endian `u32` of the 4 bytes of `b` at `off`.
pub open spec fn u32_le_at(b: Seq<u8>, off: int) -> u32 {
    (b[off] + b[off + 1] * 256 + b[off + 2] * 65536 + b[off + 3] * 16777216) as u32
}

/// The 4 little-endian bytes of `v`.
pub open spec fn u32_le_bytes(v: u32) -> Seq<u8> {
    seq![(v % 256) as u8, ((v / 256) % 256) as u8, ((v / 65536) % 256) as u8, (v / 16777216) as u8]
}

/// Reading back the little-endian bytes of a `u32` gives the value.
pub proof fn lemma_u32_le(v: u32)
    ensures
        u32_le_at(u32_le_bytes(v), 0) == v,
{
    let b = u32_le_bytes(v);
    assert(b[0] + b[1] * 256 + b[2] * 65536 + b[3] * 16777216 == v) by (nonlinear_arith)
        requires
            b[0] == v % 256,
            b[1] == (v / 256) % 256,
            b[2] == (v / 65536) % 256,
            b[3] == v / 16777216,
            v < 4294967296,
    {
        assert(v == v % 256 + 256 * (v / 256));
        assert(v / 256 == (v / 256) % 256 + 256 * (v / 65536));
        assert(v / 65536 == (v / 65536) % 256 + 256 * (v / 16777216));
    }
}

/// Writing back the little-endian `u32` read at `off` gives the same four
/// bytes.
pub proof fn lemma_u32_le_rewrite(b: Seq<u8>, off: int)
    requires
        0 <= off,
        off + 4 <= b.len(),
    ensures
        u32_le_bytes(u32_le_at(b, off)) == b.subrange(off, off + 4),
{
    let (b0, b1, b2, b3) = (b[off], b[off + 1], b[off + 2], b[off + 3]);
    let v: int = b0 + b1 * 256 + b2 * 65536 + b3 * 16777216;
    assert(0 <= v < 4294967296);
    assert(v % 256 == b0 && (v / 256) % 256 == b1 && (v / 65536) % 256 == b2 && v / 16777216 == b3) by (nonlinear_arith)
        requires
            v == b0 + b1 * 256 + b2 * 65536 + b3 * 16777216,
            b0 < 256,
            b1 < 256,
            b2 < 256,
            b3 < 256,
    {
    }
    assert(u32_le_bytes(u32_le_at(b, off)) =~= b.subrange(off, off + 4));
}

/// Read a little-endian `u32` at `offset`.
pub fn read_u32_le(data: &[u8], offset: usize) -> (v: u32)
    requires
        offset + 4 <= data@.len(),
    ensures
        v == u32_le_at(data@, offset as int),
{
    let (b0, b1, b2, b3) = (data[offset], data[offset + 1], data[offset + 2], data[offset + 3]);
    assert(((b0 as u32) | ((b1 as u32) << 8u32) | ((b2 as u32) << 16u32) | ((b3 as u32) << 24u32)) as int == b0
        + b1 * 256 + b2 * 65536 + b3 * 16777216) by (bit_vector);
    (b0 as u32) | ((b1 as u32) << 8) | ((b2 as u32) << 16) | ((b3 as u32) << 24)
}

/// Write `value` as a little-endian `u32` at `offset`.
pub fn write_u32_le(data: &mut [u8], offset: usize, value: u32)
    requires
        offset + 4 <= old(data)@.len(),
    ensures
        final(data)@ == old(data)@.update(offset as int, u32_le_bytes(value)[0]).update(offset + 1, u32_le_bytes(value)[1]).update(
            offset + 2,
            u32_le_bytes(value)[2],
        ).update(offset + 3, u32_le_bytes(value)[3]),
{
    assert((value & 0xFF) as u8 == (value % 256) as u8 && ((value >> 8u32) & 0xFF) as u8 == ((value / 256) % 256) as u8
        && ((value >> 16u32) & 0xFF) as u8 == ((value / 65536) % 256) as u8 && ((value >> 24u32) & 0xFF) as u8 == (value
        / 16777216) as u8) by (bit_vector);
    data[offset] = (value & 0xFF) as u8;
    data[offset + 1] = ((value >> 8) & 0xFF) as u8;
    data[offset + 2] = ((value >> 16) & 0xFF) as u8;
    data[offset + 3] = ((value >> 24) & 0xFF) as u8;
}

// ---------------------------------------------------------------------------
// UserModuleInfo
// ---------------------------------------------------------------------------

/// User module info: size limits and free slots of a module type.
#[derive(Debug, Clone, PartialEq, Eq, Structural)]
pub struct UserModuleInfo {
    /// Maximum size in bytes of slot data.
    pub max_slot_size: u32,
    /// Maximum size in bytes of program data.
    pub max_program_size: u32,
    /// Number of available (empty) slots.
    pub available_slot_count: u8,
}

/// The 9 bytes of `i`.
pub open spec fn info_bytes(i: UserModuleInfo) -> Seq<u8> {
    u32_le_bytes(i.max_slot_size) + u32_le_bytes(i.max_program_size) + seq![i.available_slot_count]
}

/// What [`UserModuleInfo::from_bytes`] returns for `b`.
pub open spec fn info_parses_as(b: Seq<u8>, r: Result<UserModuleInfo, Error>) -> bool {
    if b.len() < 9 {
        r == Err::<UserModuleInfo, Error>(Error::Sysex(SysexError::PayloadTooShort { expected: 9, actual: b.len() as usize }))
    } else {
        r == Ok::<UserModuleInfo, Error>(
            UserModuleInfo { max_slot_size: u32_le_at(b, 0), max_program_size: u32_le_at(b, 4), available_slot_count: b[8] },
        )
    }
}

/// The parser of module info blobs, as a relation between bytes and results.
pub open spec fn info_blob_parser() -> spec_fn(Seq<u8>, Result<UserModuleInfo, Error>) -> bool {
    |b: Seq<u8>, r: Result<UserModuleInfo, Error>| info_parses_as(b, r)
}

impl UserModuleInfo {
    /// Size of the blob in bytes.
    pub const BLOB_SIZE: usize = 9;

    /// Parse from the first 9 bytes of `data`; fails when fewer are given.
    pub fn from_bytes(data: &[u8]) -> (r: Result<Self, Error>)
        ensures
            info_parses_as(data@, r),
    {
        if data.len() < Self::BLOB_SIZE {
            return Err(Error::Sysex(SysexError::PayloadTooShort { expected: Self::BLOB_SIZE, actual: data.len() }));
        }
        Ok(UserModuleInfo {
            max_slot_size: read_u32_le(data, 0),
            max_program_size: read_u32_le(data, 4),
            available_slot_count: data[8],
        })
    }

    /// Serialize to the 9-byte blob.
    pub fn to_bytes(&self) -> (out: Vec<u8>)
        ensures
            out@ == info_bytes(*self),
    {
        let mut out = vec![0u8; 9];
        write_u32_le(out.as_mut_slice(), 0, self.max_slot_size);
        write_u32_le(out.as_mut_slice(), 4, self.max_program_size);
        out.set(8, self.available_slot_count);
        assert(out@ =~= info_bytes(*self));
        out
    }
}

/// Reading back the bytes of module info gives the same info.
pub proof fn lemma_info_round_trip(i: UserModuleInfo)
    ensures
        info_parses_as(info_bytes(i), Ok::<UserModuleInfo, Error>(i)),
{
    let b = info_bytes(i);
    lemma_u32_le(i.max_slot_size);
    lemma_u32_le(i.max_program_size);
    assert(u32_le_at(b, 0) == u32_le_at(u32_le_bytes(i.max_slot_size), 0));
    assert(u32_le_at(b, 4) == u32_le_at(u32_le_bytes(i.max_program_size), 0));
}

// ---------------------------------------------------------------------------
// UserSlotStatus
// ---------------------------------------------------------------------------

/// The characters that `String::from_utf8_lossy` makes of `bytes`.
pub uninterp spec fn utf8_lossy(bytes: Seq<u8>) -> Seq<char>;

/// Decodes `bytes` with std's `String::from_utf8_lossy`, which replaces each
/// invalid UTF-8 sequence by U+FFFD and, by its documentation, decodes bytes
/// that are valid UTF-8 exactly as `from_utf8` does. What it makes of
/// invalid sequences is left to the name.
#[verifier::external_body]
fn lossy_string(bytes: &[u8]) -> (s: String)
    ensures
        s@ == utf8_lossy(bytes@),
        valid_utf8(bytes@) ==> s@ == decode_utf8(bytes@),
{
    String::from_utf8_lossy(bytes).into_owned()
}

/// Status of a user module slot: the program loaded in it.
#[derive(Debug, PartialEq, Eq)]
pub struct UserSlotStatus {
    /// Platform identifier.
    pub platform_id: u8,
    /// Module type.
    pub module_id: UserModuleId,
    /// API version (major, minor, patch).
    pub api_version: (u8, u8, u8),
    /// Developer ID.
    pub developer_id: u32,
    /// Program ID.
    pub program_id: u32,
    /// Program version (major, minor, patch).
    pub program_version: (u8, u8, u8),
    /// Program name (up to 16 bytes, NUL-terminated in the blob).
    pub program_name: String,
}

impl Clone for UserSlotStatus {
    /// A copy with the same fields and the same name.
    fn clone(&self) -> (c: Self)
        ensures
            c.platform_id == self.platform_id,
            c.module_id == self.module_id,
            c.api_version == self.api_version,
            c.developer_id == self.developer_id,
            c.program_id == self.program_id,
            c.program_version == self.program_version,
            c.program_name@ == self.program_name@,
    {
        UserSlotStatus {
            platform_id: self.platform_id,
            module_id: self.module_id,
            api_version: self.api_version,
            developer_id: self.developer_id,
            program_id: self.program_id,
            program_version: self.program_version,
            program_name: self.program_name.clone(),
        }
    }
}

/// The index of the first zero byte of `s`, or its length when it has none.
pub open spec fn first_zero(s: Seq<u8>) -> nat
    decreases s.len(),
{
    if s.len() == 0 {
        0
    } else if s[0] == 0 {
        0
    } else {
        1 + first_zero(s.drop_first())
    }
}

/// The bytes of the program name field of a status blob: those of offsets
/// 16--31 before the first zero.
pub open spec fn status_name_bytes(b: Seq<u8>) -> Seq<u8> {
    b.subrange(16, 16 + first_zero(b.subrange(16, 32)) as int)
}

/// The first check of a status blob that `b` fails: its length, then its
/// module ID.
pub open spec fn status_fault(b: Seq<u8>) -> Option<Error> {
    if b.len() < 32 {
        Some(Error::Sysex(SysexError::PayloadTooShort { expected: 32, actual: b.len() as usize }))
    } else if let Err(e) = UserModuleId::spec_from_byte(b[1]) {
        Some(e)
    } else {
        None
    }
}

/// What [`UserSlotStatus::from_bytes`] returns for `b`.
pub open spec fn status_parses_as(b: Seq<u8>, r: Result<UserSlotStatus, Error>) -> bool {
    match status_fault(b) {
        Some(e) => r == Err::<UserSlotStatus, Error>(e),
        None => r matches Ok(s) && {
            &&& s.platform_id == b[0]
            &&& UserModuleId::spec_from_byte(b[1]) == Ok::<UserModuleId, Error>(s.module_id)
            &&& s.api_version == (b[2], b[3], b[4])
            &&& s.developer_id == u32_le_at(b, 5)
            &&& s.program_id == u32_le_at(b, 9)
            &&& s.program_version == (b[13], b[14], b[15])
            &&& s.program_name@ == utf8_lossy(status_name_bytes(b))
            &&& valid_utf8(status_name_bytes(b)) ==> s.program_name@ == decode_utf8(status_name_bytes(b))
        },
    }
}

/// The parser of slot status blobs, as a relation between bytes and results.
pub open spec fn status_blob_parser() -> spec_fn(Seq<u8>, Result<UserSlotStatus, Error>) -> bool {
    |b: Seq<u8>, r: Result<UserSlotStatus, Error>| status_parses_as(b, r)
}

/// The byte at offset `i` of the 32-byte blob of `s`: the name's UTF-8
/// bytes fill offsets 16 on, cut at 16 bytes, zero after them.
pub open spec fn status_byte_at(s: UserSlotStatus, i: int) -> u8 {
    let name = encode_utf8(s.program_name@);
    if i == 0 {
        s.platform_id
    } else if i == 1 {
        s.module_id.spec_byte()
    } else if i == 2 {
        s.api_version.0
    } else if i == 3 {
        s.api_version.1
    } else if i == 4 {
        s.api_version.2
    } else if i < 9 {
        u32_le_bytes(s.developer_id)[i - 5]
    } else if i < 13 {
        u32_le_bytes(s.program_id)[i - 9]
    } else if i == 13 {
        s.program_version.0
    } else if i == 14 {
        s.program_version.1
    } else if i == 15 {
        s.program_version.2
    } else if i - 16 < name.len() {
        name[i - 16]
    } else {
        0
    }
}

/// The 32 bytes of `s`.
pub open spec fn status_bytes(s: UserSlotStatus) -> Seq<u8> {
    Seq::new(32, |i: int| status_byte_at(s, i))
}

impl UserSlotStatus {
    /// Size of the blob in bytes.
    pub const BLOB_SIZE: usize = 32;

    /// Parse from the first 32 bytes of `data`; fails when fewer are given
    /// or the module ID is not 1--4. The name is the bytes of offsets 16--31
    /// before the first zero, decoded as UTF-8 with invalid sequences
    /// replaced.
    pub fn from_bytes(data: &[u8]) -> (r: Result<Self, Error>)
        ensures
            status_parses_as(data@, r),
    {
        if data.len() < Self::BLOB_SIZE {
            return Err(Error::Sysex(SysexError::PayloadTooShort { expected: Self::BLOB_SIZE, actual: data.len() }));
        }
        let module_id = UserModuleId::from_byte(data[1])?;
        let field = vstd::slice::slice_subrange(data, 16, 32);
        let mut len: usize = 0;
        assert(field@.skip(0) =~= field@);
        while len < 16 && field[len] != 0
            invariant
                len <= 16,
                field@.len() == 16,
                first_zero(field@) == len + first_zero(field@.skip(len as int)),
            decreases 16 - len,
        {
            assert(field@.skip(len as int).drop_first() =~= field@.skip(len + 1));
            len = len + 1;
        }
        proof {
            if len < 16 {
                assert(field@.skip(len as int)[0] == field@[len as int]);
            } else {
                assert(field@.skip(16).len() == 0);
            }
        }
        let program_name = lossy_string(vstd::slice::slice_subrange(data, 16, 16 + len));
        Ok(UserSlotStatus {
            platform_id: data[0],
            module_id,
            api_version: (data[2], data[3], data[4]),
            developer_id: read_u32_le(data, 5),
            program_id: read_u32_le(data, 9),
            program_version: (data[13], data[14], data[15]),
            program_name,
        })
    }

    /// Serialize to the 32-byte blob; the name's UTF-8 bytes are cut at 16
    /// and the rest of the field is zero.
    pub fn to_bytes(&self) -> (out: Vec<u8>)
        ensures
            out@ == status_bytes(*self),
    {
        let mut out = vec![0u8; 32];
        out.set(0, self.platform_id);
        out.set(1, self.module_id.to_byte());
        out.set(2, self.api_version.0);
        out.set(3, self.api_version.1);
        out.set(4, self.api_version.2);
        write_u32_le(out.as_mut_slice(), 5, self.developer_id);
        write_u32_le(out.as_mut_slice(), 9, self.program_id);
        out.set(13, self.program_version.0);
        out.set(14, self.program_version.1);
        out.set(15, self.program_version.2);
        let name = self.program_name.as_str().as_bytes();
        let copy_len: usize = if name.len() < 16 { name.len() } else { 16 };
        let mut i: usize = 0;
        while i < copy_len
            invariant
                i <= copy_len,
                copy_len <= 16,
                copy_len <= name@.len(),
                name@ == encode_utf8(self.program_name@),
                out@.len() == 32,
                forall|j: int| 0 <= j < 16 ==> #[trigger] out@[j] == status_byte_at(*self, j),
                forall|j: int| 16 <= j < 16 + i ==> #[trigger] out@[j] == status_byte_at(*self, j),
                forall|j: int| 16 + i <= j < 32 ==> #[trigger] out@[j] == 0,
            decreases copy_len - i,
        {
            out.set(16 + i, name[i]);
            i = i + 1;
        }
        assert(out@ =~= status_bytes(*self));
        out
    }
}

// ---------------------------------------------------------------------------
// UserSlotData
// ---------------------------------------------------------------------------

/// `n` steps of the bitwise CRC-32 register `c`: each shifts it right by
/// one and XORs in the reflected IEEE polynomial `0xEDB88320` when the bit
/// shifted out was set.
pub open spec fn crc32_bits(c: u32, n: nat) -> u32
    decreases n,
{
    if n == 0 {
        c
    } else {
        let d = crc32_bits(c, (n - 1) as nat);
        if d & 1 == 1 {
            (d >> 1) ^ 0xEDB8_8320
        } else {
            d >> 1
        }
    }
}

/// The CRC-32 register after `data`, from the initial value `0xFFFFFFFF`:
/// each byte is XORed into the low bits, then eight steps follow.
pub open spec fn crc32_register(data: Seq<u8>) -> u32
    decreases data.len(),
{
    if data.len() == 0 {
        0xFFFF_FFFF
    } else {
        crc32_bits(crc32_register(data.drop_last()) ^ (data.last() as u32), 8)
    }
}

/// The CRC-32 (IEEE, reflected, the checksum of zip and Ethernet) of
/// `data`: the final register, inverted.
pub open spec fn crc32_of(data: Seq<u8>) -> u32 {
    crc32_register(data) ^ 0xFFFF_FFFF
}

/// Compute the CRC32 (IEEE polynomial, as used by the logue SDK) of `data`
/// with `crc32fast::hash`, which computes the standard reflected CRC-32
/// stated by [`crc32_of`].
#[verifier::external_body]
pub fn compute_crc32(data: &[u8]) -> (c: u32)
    ensures
        c == crc32_of(data@),
{
    crc32fast::hash(data)
}

/// User slot data: the payload size and CRC32 (8-byte header),
/// then the module binary.
#[derive(Debug, Clone, PartialEq, Eq)]
pub struct UserSlotData {
    /// Declared payload size in bytes.
    pub payload_size: u32,
    /// CRC32 of the payload.
    pub crc32: u32,
    /// The payload bytes.
    pub payload: Vec<u8>,
}

/// What [`UserSlotData::from_bytes`] returns for `b`: too short for the
/// header, too short for the declared payload, a CRC32 that does not match
/// the payload, or the header fields and the payload.
pub open spec fn slot_data_parses_as(b: Seq<u8>, r: Result<UserSlotData, Error>) -> bool {
    if b.len() < 8 {
        r == Err::<UserSlotData, Error>(Error::Sysex(SysexError::PayloadTooShort { expected: 8, actual: b.len() as usize }))
    } else if b.len() < 8 + u32_le_at(b, 0) {
        r == Err::<UserSlotData, Error>(
            Error::Sysex(SysexError::PayloadTooShort { expected: saturating_usize(8 + u32_le_at(b, 0)), actual: b.len() as usize }),
        )
    } else {
        checked_slot_data(u32_le_at(b, 0), u32_le_at(b, 4), b.subrange(8, 8 + u32_le_at(b, 0)), crc32_of(b.subrange(8, 8 + u32_le_at(b, 0))), r)
    }
}

/// `v` as a `usize`, or the largest `usize` when it does not fit.
pub open spec fn saturating_usize(v: int) -> usize {
    if v <= usize::MAX {
        v as usize
    } else {
        usize::MAX
    }
}

/// What [`UserSlotData::from_checked_parts`] returns for the header fields
/// `size`, `crc`, the payload and the CRC32 `computed` of the payload.
pub open spec fn checked_slot_data(size: u32, crc: u32, payload: Seq<u8>, computed: u32, r: Result<UserSlotData, Error>) -> bool {
    if computed != crc {
        r == Err::<UserSlotData, Error>(Error::Sysex(SysexError::Crc32Mismatch { expected: crc, actual: computed }))
    } else {
        r matches Ok(d) && d.payload_size == size && d.crc32 == crc && d.payload@ == payload
    }
}

/// The parser of slot data blobs, as a relation between bytes and results.
pub open spec fn slot_data_blob_parser() -> spec_fn(Seq<u8>, Result<UserSlotData, Error>) -> bool {
    |b: Seq<u8>, r: Result<UserSlotData, Error>| slot_data_parses_as(b, r)
}

/// The bytes of `d`: the header, then the payload.
pub open spec fn slot_data_bytes(d: UserSlotData) -> Seq<u8> {
    u32_le_bytes(d.payload_size) + u32_le_bytes(d.crc32) + d.payload@
}

impl UserSlotData {
    /// Size of the header (payload size and CRC32).
    pub const HEADER_SIZE: usize = 8;

    /// Slot data from header fields, a payload, and the CRC32 `computed` of
    /// that payload: fails when it differs from the header's CRC32.
    pub fn from_checked_parts(payload_size: u32, crc32: u32, payload: Vec<u8>, computed: u32) -> (r: Result<Self, Error>)
        ensures
            checked_slot_data(payload_size, crc32, payload@, computed, r),
    {
        if computed != crc32 {
            return Err(Error::Sysex(SysexError::Crc32Mismatch { expected: crc32, actual: computed }));
        }
        Ok(UserSlotData { payload_size, crc32, payload })
    }

    /// Parse from the header and the payload that it declares; fails when
    /// either is cut short or the payload's CRC32 does not match.
    pub fn from_bytes(data: &[u8]) -> (r: Result<Self, Error>)
        ensures
            slot_data_parses_as(data@, r),
    {
        let n = data.len();
        if n < Self::HEADER_SIZE {
            return Err(Error::Sysex(SysexError::PayloadTooShort { expected: Self::HEADER_SIZE, actual: n }));
        }
        let payload_size = read_u32_le(data, 0);
        let crc32 = read_u32_le(data, 4);
        if n - Self::HEADER_SIZE < payload_size as usize {
            let expected = Self::HEADER_SIZE.saturating_add(payload_size as usize);
            return Err(Error::Sysex(SysexError::PayloadTooShort { expected, actual: n }));
        }
        let payload_end = Self::HEADER_SIZE + payload_size as usize;
        let body = vstd::slice::slice_subrange(data, Self::HEADER_SIZE, payload_end);
        let payload = vstd::slice::slice_to_vec(body);
        let computed = compute_crc32(body);
        Self::from_checked_parts(payload_size, crc32, payload, computed)
    }

    /// Serialize to the header, then the payload.
    pub fn to_bytes(&self) -> (out: Vec<u8>)
        ensures
            out@ == slot_data_bytes(*self),
    {
        let mut header = [0u8; 8];
        write_u32_le(&mut header, 0, self.payload_size);
        write_u32_le(&mut header, 4, self.crc32);
        let mut out: Vec<u8> = Vec::new();
        let mut i: usize = 0;
        while i < 8
            invariant
                i <= 8,
                out@ == header@.take(i as int),
            decreases 8 - i,
        {
            out.push(header[i]);
            assert(header@.take(i + 1) =~= header@.take(i as int).push(header@[i as int]));
            i = i + 1;
        }
        let mut j: usize = 0;
        while j < self.payload.len()
            invariant
                j <= self.payload@.len(),
                out@ == header@ + self.payload@.take(j as int),
            decreases self.payload@.len() - j,
        {
            out.push(self.payload[j]);
            assert(self.payload@.take(j + 1) =~= self.payload@.take(j as int).push(self.payload@[j as int]));
            j = j + 1;
        }
        assert(header@ =~= u32_le_bytes(self.payload_size) + u32_le_bytes(self.crc32));
        assert(self.payload@.take(self.payload@.len() as int) =~= self.payload@);
        out
    }

    /// Slot data for `payload`, with its size and CRC32.
    pub fn from_payload(payload: Vec<u8>) -> (d: Self)
        ensures
            d.payload@ == payload@,
            d.payload_size == payload@.len() as u32,
            d.crc32 == crc32_of(payload@),
    {
        let crc32 = compute_crc32(payload.as_slice());
        let payload_size = payload.len() as u32;
        UserSlotData { payload_size, crc32, payload }
    }
}

// ---------------------------------------------------------------------------
// Slot validation and requests
// ---------------------------------------------------------------------------

/// Whether `slot` is a valid slot index for `module`.
pub open spec fn slot_error(module: UserModuleId, slot: u8) -> Option<Error> {
    if slot >= module.spec_max_slots() {
        Some(Error::Sysex(SysexError::InvalidSlotIndex { slot, max: module.spec_max_slots() }))
    } else {
        None
    }
}

/// Check that `slot` is below the slot count of `module`.
pub fn validate_slot(module: UserModuleId, slot: u8) -> (r: Result<(), Error>)
    ensures
        match slot_error(module, slot) {
            Some(e) => r == Err::<(), Error>(e),
            None => r == Ok::<(), Error>(()),
        },
{
    if slot >= module.max_slots() {
        return Err(Error::Sysex(SysexError::InvalidSlotIndex { slot, max: module.max_slots() }));
    }
    Ok(())
}

/// A Korg SysEx message with the function ID `function_id` and the raw
/// (not 7-bit encoded) data bytes `data`.
fn raw_message(channel: U4, function_id: u8, data: &[u8]) -> (msg: Vec<u8>)
    ensures
        msg@ == frame_bytes(channel.value_of(), function_id, data@),
{
    let mut msg: Vec<u8> = vec![0xF0, KORG_ID, 0x30 | channel.value(), DEVICE_ID[0], DEVICE_ID[1], DEVICE_ID[2], function_id];
    assert(msg@ =~= header_bytes(channel.value_of()).push(function_id));
    let mut i: usize = 0;
    while i < data.len()
        invariant
            i <= data@.len(),
            msg@ == header_bytes(channel.value_of()).push(function_id) + data@.take(i as int),
        decreases data@.len() - i,
    {
        msg.push(data[i]);
        assert(data@.take(i + 1) =~= data@.take(i as int).push(data@[i as int]));
        i = i + 1;
    }
    msg.push(0xF7);
    assert(data@.take(data@.len() as int) =~= data@);
    assert(msg@ =~= frame_bytes(channel.value_of(), function_id, data@));
    msg
}

/// The result of a slot command: the message for the raw data `data`, or
/// the error of the first invalid slot.
pub open spec fn slot_command(channel: U4, function_id: u8, data: Seq<u8>, err: Option<Error>, r: Result<Vec<u8>, Error>) -> bool {
    match err {
        Some(e) => r == Err::<Vec<u8>, Error>(e),
        None => r matches Ok(msg) && msg@ == frame_bytes(channel.value_of(), function_id, data),
    }
}

/// Build a User API Version Request (function 0x17).
pub fn build_api_version_request(channel: U4) -> (msg: Vec<u8>)
    ensures
        msg@ == frame_bytes(channel.value_of(), USER_API_VERSION_REQUEST, Seq::empty()),
{
    build_sysex_request(channel, USER_API_VERSION_REQUEST)
}

/// Build a User Module Info Request (function 0x18):
/// `[F0, 42, 3g, 00, 01, 51, 18, mm, F7]`, the module ID sent raw.
pub fn build_module_info_request(channel: U4, module: UserModuleId) -> (msg: Vec<u8>)
    ensures
        msg@ == frame_bytes(channel.value_of(), USER_MODULE_INFO_REQUEST, seq![module.spec_byte()]),
{
    let data = [module.to_byte()];
    raw_message(channel, USER_MODULE_INFO_REQUEST, data.as_slice())
}

/// Build a User Slot Status Request (function 0x19):
/// `[F0, 42, 3g, 00, 01, 51, 19, mm, ss, F7]`; fails on an invalid slot.
pub fn build_slot_status_request(channel: U4, module: UserModuleId, slot: u8) -> (r: Result<Vec<u8>, Error>)
    ensures
        slot_command(channel, USER_SLOT_STATUS_REQUEST, seq![module.spec_byte(), slot], slot_error(module, slot), r),
{
    validate_slot(module, slot)?;
    let data = [module.to_byte(), slot];
    assert(data@ =~= seq![module.spec_byte(), slot]);
    Ok(raw_message(channel, USER_SLOT_STATUS_REQUEST, data.as_slice()))
}

/// Build a User Slot Data Request (function 0x1A):
/// `[F0, 42, 3g, 00, 01, 51, 1A, mm, ss, F7]`; fails on an invalid slot.
pub fn build_slot_data_request(channel: U4, module: UserModuleId, slot: u8) -> (r: Result<Vec<u8>, Error>)
    ensures
        slot_command(channel, USER_SLOT_DATA_REQUEST, seq![module.spec_byte(), slot], slot_error(module, slot), r),
{
    validate_slot(module, slot)?;
    let data = [module.to_byte(), slot];
    assert(data@ =~= seq![module.spec_byte(), slot]);
    Ok(raw_message(channel, USER_SLOT_DATA_REQUEST, data.as_slice()))
}

/// Build a Clear User Slot command (function 0x1B):
/// `[F0, 42, 3g, 00, 01, 51, 1B, mm, ss, F7]`; fails on an invalid slot.
pub fn build_clear_slot(channel: U4, module: UserModuleId, slot: u8) -> (r: Result<Vec<u8>, Error>)
    ensures
        slot_command(channel, CLEAR_USER_SLOT, seq![module.spec_byte(), slot], slot_error(module, slot), r),
{
    validate_slot(module, slot)?;
    let data = [module.to_byte(), slot];
    assert(data@ =~= seq![module.spec_byte(), slot]);
    Ok(raw_message(channel, CLEAR_USER_SLOT, data.as_slice()))
}

/// Build a Clear User Module command (function 0x1D), which clears every
/// slot of the module type: `[F0, 42, 3g, 00, 01, 51, 1D, mm, F7]`.
pub fn build_clear_module(channel: U4, module: UserModuleId) -> (msg: Vec<u8>)
    ensures
        msg@ == frame_bytes(channel.value_of(), CLEAR_USER_MODULE, seq![module.spec_byte()]),
{
    let data = [module.to_byte()];
    raw_message(channel, CLEAR_USER_MODULE, data.as_slice())
}

/// Build a Swap User Data command (function 0x1E), which swaps two slots
/// of a module type: `[F0, 42, 3g, 00, 01, 51, 1E, mm, sa, sb, F7]`; fails
/// on the first invalid slot.
pub fn build_swap_slots(channel: U4, module: UserModuleId, slot_a: u8, slot_b: u8) -> (r: Result<Vec<u8>, Error>)
    ensures
        slot_command(
            channel,
            SWAP_USER_DATA,
            seq![module.spec_byte(), slot_a, slot_b],
            if slot_error(module, slot_a) is Some { slot_error(module, slot_a) } else { slot_error(module, slot_b) },
            r,
        ),
{
    validate_slot(module, slot_a)?;
    validate_slot(module, slot_b)?;
    let data = [module.to_byte(), slot_a, slot_b];
    assert(data@ =~= seq![module.spec_byte(), slot_a, slot_b]);
    Ok(raw_message(channel, SWAP_USER_DATA, data.as_slice()))
}

// ---------------------------------------------------------------------------
// Reply parsers
// ---------------------------------------------------------------------------

/// Parse a User Module Info Reply (function 0x48).
pub fn parse_module_info_reply(bytes: &[u8]) -> (r: Result<UserModuleInfo, Error>)
    ensures
        dump_parses_as(bytes@, USER_MODULE_INFO_REPLY, info_blob_parser(), r),
{
    let parsed = parse_sysex(bytes)?;
    if parsed.function_id != USER_MODULE_INFO_REPLY {
        return Err(Error::Sysex(SysexError::WrongFunctionId { expected: USER_MODULE_INFO_REPLY, found: parsed.function_id }));
    }
    UserModuleInfo::from_bytes(parsed.data.as_slice())
}

/// Parse a User Slot Status Reply (function 0x49).
pub fn parse_slot_status_reply(bytes: &[u8]) -> (r: Result<UserSlotStatus, Error>)
    ensures
        dump_parses_as(bytes@, USER_SLOT_STATUS_REPLY, status_blob_parser(), r),
{
    let parsed = parse_sysex(bytes)?;
    if parsed.function_id != USER_SLOT_STATUS_REPLY {
        return Err(Error::Sysex(SysexError::WrongFunctionId { expected: USER_SLOT_STATUS_REPLY, found: parsed.function_id }));
    }
    UserSlotStatus::from_bytes(parsed.data.as_slice())
}

/// Parse a User Slot Data Reply (function 0x4A).
pub fn parse_slot_data_reply(bytes: &[u8]) -> (r: Result<UserSlotData, Error>)
    ensures
        dump_parses_as(bytes@, USER_SLOT_DATA_REPLY, slot_data_blob_parser(), r),
{
    let parsed = parse_sysex(bytes)?;
    if parsed.function_id != USER_SLOT_DATA_REPLY {
        return Err(Error::Sysex(SysexError::WrongFunctionId { expected: USER_SLOT_DATA_REPLY, found: parsed.function_id }));
    }
    UserSlotData::from_bytes(parsed.data.as_slice())
}

// ---------------------------------------------------------------------------
// Laws of user module data
// ---------------------------------------------------------------------------

/// Reading back the bytes of a slot status whose name is at most 16 UTF-8
/// bytes, none of them zero, gives the same status.
pub proof fn lemma_status_round_trip(s: UserSlotStatus, r: Result<UserSlotStatus, Error>)
    requires
        encode_utf8(s.program_name@).len() <= 16,
        forall|i: int| 0 <= i < encode_utf8(s.program_name@).len() ==> #[trigger] encode_utf8(s.program_name@)[i] != 0,
        status_parses_as(status_bytes(s), r),
    ensures
        r matches Ok(t) && {
            &&& t.platform_id == s.platform_id
            &&& t.module_id == s.module_id
            &&& t.api_version == s.api_version
            &&& t.developer_id == s.developer_id
            &&& t.program_id == s.program_id
            &&& t.program_version == s.program_version
            &&& t.program_name@ == s.program_name@
        },
{
    let b = status_bytes(s);
    let name = encode_utf8(s.program_name@);
    lemma_module_byte_round_trip(s.module_id, 0);
    lemma_u32_le(s.developer_id);
    lemma_u32_le(s.program_id);
    assert(b.subrange(5, 9) =~= u32_le_bytes(s.developer_id));
    assert(u32_le_at(b, 5) == u32_le_at(b.subrange(5, 9), 0));
    assert(b.subrange(9, 13) =~= u32_le_bytes(s.program_id));
    assert(u32_le_at(b, 9) == u32_le_at(b.subrange(9, 13), 0));
    let field = b.subrange(16, 32);
    assert forall|k: int| 0 <= k <= name.len() implies #[trigger] first_zero(field.skip(k)) == name.len() - k by {
        lemma_first_zero_after(field, name, k);
    }
    assert(field.skip(0) =~= field);
    assert(status_name_bytes(b) =~= name);
    vstd::utf8::encode_utf8_decode_utf8(s.program_name@);
    vstd::utf8::encode_utf8_valid_utf8(s.program_name@);
    assert(b[1] == s.module_id.spec_byte());
}

/// In a name field that holds `name` and zeros after it, the first zero
/// from index `k` on is `name.len() - k` away.
proof fn lemma_first_zero_after(field: Seq<u8>, name: Seq<u8>, k: int)
    requires
        field.len() == 16,
        name.len() <= 16,
        0 <= k <= name.len(),
        forall|i: int| 0 <= i < name.len() ==> #[trigger] field[i] == name[i] && name[i] != 0,
        forall|i: int| name.len() <= i < 16 ==> #[trigger] field[i] == 0,
    ensures
        first_zero(field.skip(k)) == name.len() - k,
    decreases name.len() - k,
{
    if k < name.len() {
        assert(field.skip(k)[0] == field[k]);
        assert(field.skip(k).drop_first() =~= field.skip(k + 1));
        lemma_first_zero_after(field, name, k + 1);
    } else if k < 16 {
        assert(field.skip(k)[0] == field[k]);
    }
}

/// Reading back the bytes of slot data made from a payload gives that
/// data back.
pub proof fn lemma_slot_data_round_trip(payload: Seq<u8>, d: UserSlotData, r: Result<UserSlotData, Error>)
    requires
        payload.len() <= u32::MAX,
        d.payload@ == payload,
        d.payload_size == payload.len(),
        d.crc32 == crc32_of(payload),
        slot_data_parses_as(slot_data_bytes(d), r),
    ensures
        r matches Ok(e) && e.payload_size == d.payload_size && e.crc32 == d.crc32 && e.payload@ == payload,
{
    let b = slot_data_bytes(d);
    lemma_u32_le(d.payload_size);
    lemma_u32_le(d.crc32);
    assert(b.subrange(0, 4) =~= u32_le_bytes(d.payload_size));
    assert(u32_le_at(b, 0) == u32_le_at(b.subrange(0, 4), 0));
    assert(b.subrange(4, 8) =~= u32_le_bytes(d.crc32));
    assert(u32_le_at(b, 4) == u32_le_at(b.subrange(4, 8), 0));
    assert(b.subrange(8, 8 + payload.len() as int) =~= payload);
}

/// Parsing a module info reply that carries the bytes of `info` gives it
/// back.
pub proof fn lemma_module_info_reply_round_trip(channel: u8, info: UserModuleInfo, r: Result<UserModuleInfo, Error>)
    requires
        channel <= 15,
        dump_parses_as(frame_bytes(channel, USER_MODULE_INFO_REPLY, spec_encode_7bit(info_bytes(info))), USER_MODULE_INFO_REPLY, info_blob_parser(), r),
    ensures
        r == Ok::<UserModuleInfo, Error>(info),
{
    lemma_frame_round_trip(channel, USER_MODULE_INFO_REPLY, info_bytes(info));
    lemma_info_round_trip(info);
}


/// The layout of a user slot status blob (logue SDK): platform at offset 0,
/// module ID at 1, the SDK API version (major, minor, patch) at 2--4, the
/// developer ID and the program ID as little-endian 32-bit words at 5--8
/// and 9--12, the unit's version (major, minor, patch) at 13--15, and the
/// name from 16. This is what a status that
/// [`UserSlotStatus::from_bytes`] accepts holds.
pub proof fn lemma_status_read_layout(b: Seq<u8>, s: UserSlotStatus)
    requires
        status_parses_as(b, Ok::<UserSlotStatus, Error>(s)),
    ensures
        s.platform_id == b[0],
        s.module_id.spec_byte() == b[1],
        s.api_version.0 == b[2] && s.api_version.1 == b[3] && s.api_version.2 == b[4],
        s.developer_id as int == b[5] as int + b[6] as int * 256 + b[7] as int * 65536 + b[8] as int * 16777216,
        s.program_id as int == b[9] as int + b[10] as int * 256 + b[11] as int * 65536 + b[12] as int * 16777216,
        s.program_version.0 == b[13] && s.program_version.1 == b[14] && s.program_version.2 == b[15],
{
    assert(b[5] + b[6] * 256 + b[7] * 65536 + b[8] * 16777216 < 4294967296);
    assert(b[9] + b[10] * 256 + b[11] * 65536 + b[12] * 16777216 < 4294967296);
    lemma_module_byte_round_trip(s.module_id, b[1]);
}

/// The layout of the blob that [`UserSlotStatus::to_bytes`] writes: each
/// field at the offset that [`lemma_status_read_layout`] reads it from.
pub proof fn lemma_status_write_layout(s: UserSlotStatus)
    ensures
        status_bytes(s).len() == 32,
        status_bytes(s)[0] == s.platform_id,
        status_bytes(s)[1] == s.module_id.spec_byte(),
        status_bytes(s)[2] == s.api_version.0 && status_bytes(s)[3] == s.api_version.1 && status_bytes(s)[4] == s.api_version.2,
        status_bytes(s)[5] as int + status_bytes(s)[6] as int * 256 + status_bytes(s)[7] as int * 65536 + status_bytes(s)[8] as int
            * 16777216 == s.developer_id as int,
        status_bytes(s)[9] as int + status_bytes(s)[10] as int * 256 + status_bytes(s)[11] as int * 65536 + status_bytes(s)[12] as int
            * 16777216 == s.program_id as int,
        status_bytes(s)[13] == s.program_version.0 && status_bytes(s)[14] == s.program_version.1 && status_bytes(s)[15]
            == s.program_version.2,
{
    lemma_u32_le(s.developer_id);
    lemma_u32_le(s.program_id);
    let b = status_bytes(s);
    assert(b.subrange(5, 9) =~= u32_le_bytes(s.developer_id));
    assert(b.subrange(9, 13) =~= u32_le_bytes(s.program_id));
    assert(u32_le_at(u32_le_bytes(s.developer_id), 0) == s.developer_id);
}


/// The layout of a user module info blob (logue SDK): the maximum slot
/// size and the maximum program size as little-endian 32-bit words at
/// 0--3 and 4--7, and the number of available slots at 8. This is what a
/// module info that [`UserModuleInfo::from_bytes`] accepts holds, and where
/// [`UserModuleInfo::to_bytes`] writes each field.
pub proof fn lemma_info_layout(b: Seq<u8>, i: UserModuleInfo, j: UserModuleInfo)
    requires
        info_parses_as(b, Ok::<UserModuleInfo, Error>(i)),
    ensures
        i.max_slot_size as int == b[0] as int + b[1] as int * 256 + b[2] as int * 65536 + b[3] as int * 16777216,
        i.max_program_size as int == b[4] as int + b[5] as int * 256 + b[6] as int * 65536 + b[7] as int * 16777216,
        i.available_slot_count == b[8],
        info_bytes(j).len() == 9,
        info_bytes(j)[0] as int + info_bytes(j)[1] as int * 256 + info_bytes(j)[2] as int * 65536 + info_bytes(j)[3] as int * 16777216 == j.max_slot_size as int,
        info_bytes(j)[4] as int + info_bytes(j)[5] as int * 256 + info_bytes(j)[6] as int * 65536 + info_bytes(j)[7] as int * 16777216 == j.max_program_size as int,
        info_bytes(j)[8] == j.available_slot_count,
{
    assert(b[0] as int + b[1] as int * 256 + b[2] as int * 65536 + b[3] as int * 16777216 < 4294967296);
    assert(b[4] as int + b[5] as int * 256 + b[6] as int * 65536 + b[7] as int * 16777216 < 4294967296);
    lemma_u32_le(j.max_slot_size);
    lemma_u32_le(j.max_program_size);
    let w = info_bytes(j);
    assert(w.subrange(0, 4) =~= u32_le_bytes(j.max_slot_size));
    assert(w.subrange(4, 8) =~= u32_le_bytes(j.max_program_size));
}

/// The layout of user slot data (logue SDK): the payload size and the
/// CRC-32 of the payload as little-endian 32-bit words at 0--3 and 4--7,
/// then the payload. Slot data that [`UserSlotData::from_bytes`] accepts
/// holds those fields, with a payload whose CRC-32 is the one stated;
/// [`UserSlotData::to_bytes`] writes each field there.
pub proof fn lemma_slot_data_layout(b: Seq<u8>, d: UserSlotData, e: UserSlotData)
    requires
        slot_data_parses_as(b, Ok::<UserSlotData, Error>(d)),
    ensures
        d.payload_size as int == b[0] as int + b[1] as int * 256 + b[2] as int * 65536 + b[3] as int * 16777216,
        d.crc32 as int == b[4] as int + b[5] as int * 256 + b[6] as int * 65536 + b[7] as int * 16777216,
        d.payload@ == b.subrange(8, 8 + d.payload_size as int),
        d.crc32 == crc32_of(d.payload@),
        slot_data_bytes(e).len() == 8 + e.payload@.len(),
        slot_data_bytes(e)[0] as int + slot_data_bytes(e)[1] as int * 256 + slot_data_bytes(e)[2] as int * 65536 + slot_data_bytes(e)[3] as int * 16777216 == e.payload_size as int,
        slot_data_bytes(e)[4] as int + slot_data_bytes(e)[5] as int * 256 + slot_data_bytes(e)[6] as int * 65536 + slot_data_bytes(e)[7] as int * 16777216 == e.crc32 as int,
        slot_data_bytes(e).subrange(8, 8 + e.payload@.len() as int) == e.payload@,
{
    assert(b[0] as int + b[1] as int * 256 + b[2] as int * 65536 + b[3] as int * 16777216 < 4294967296);
    assert(b[4] as int + b[5] as int * 256 + b[6] as int * 65536 + b[7] as int * 16777216 < 4294967296);
    lemma_u32_le(e.payload_size);
    lemma_u32_le(e.crc32);
    let w = slot_data_bytes(e);
    assert(w.subrange(0, 4) =~= u32_le_bytes(e.payload_size));
    assert(w.subrange(4, 8) =~= u32_le_bytes(e.crc32));
    assert(w.subrange(8, 8 + e.payload@.len() as int) =~= e.payload@);
}


/// The module IDs of the logue SDK: 1 modulation effect, 2 delay effect,
/// 3 reverb effect, 4 oscillator; no other byte is a module.
pub proof fn lemma_module_id_values()
    ensures
        UserModuleId::ModFx.spec_byte() == 1,
        UserModuleId::DelayFx.spec_byte() == 2,
        UserModuleId::ReverbFx.spec_byte() == 3,
        UserModuleId::Osc.spec_byte() == 4,
        UserModuleId::spec_from_byte(1) == Ok::<UserModuleId, Error>(UserModuleId::ModFx),
        UserModuleId::spec_from_byte(2) == Ok::<UserModuleId, Error>(UserModuleId::DelayFx),
        UserModuleId::spec_from_byte(3) == Ok::<UserModuleId, Error>(UserModuleId::ReverbFx),
        UserModuleId::spec_from_byte(4) == Ok::<UserModuleId, Error>(UserModuleId::Osc),
        forall|b: u8| (b == 0 || b > 4) ==> UserModuleId::spec_from_byte(b) is Err,
{
}

} // verus!
