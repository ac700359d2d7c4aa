//! The `.mnlgxdprog` and `.mnlgxdlib` files: zip archives that hold one raw
//! 1024-byte program blob per entry, named `Prog_000.prog_bin`,
//! `Prog_001.prog_bin`, ..., and for a library a `FileInformation.xml`.
//! The archives are made and read in memory with the `zip` crate.

use std::io::{Cursor, Read, Write};

use vstd::prelude::*;
use zip::write::SimpleFileOptions;
use zip::{CompressionMethod, ZipArchive, ZipWriter};

use crate::error::Error;
use crate::sysex::program::synth::synth_in_range;
use crate::sysex::program::{lemma_base_len, lemma_program_round_trip, program_parses_as, ProgramData};
use crate::text::{decimal_string_usize, decimal_text, digit_char};
use vstd::string::StringSliceAdditionalSpecFns;
use vstd::utf8::{encode_utf8, encode_utf8_decode_utf8, is_ascii_chars, is_ascii_chars_encode_utf8};

verus! {

// ---------------------------------------------------------------------------
// The zip container
// ---------------------------------------------------------------------------

/// An in-memory byte stream.
#[verifier::external_type_specification]
#[verifier::external_body]
#[verifier::reject_recursive_types(T)]
pub struct ExCursor<T>(Cursor<T>);

/// A reader of a zip archive.
#[verifier::external_type_specification]
#[verifier::external_body]
#[verifier::reject_recursive_types(R)]
pub struct ExZipArchive<R>(ZipArchive<R>);

/// A zip archive being written in memory. Verus refuses `zip::ZipWriter`
/// as a declared type (its parameter is bound by `std::io` traits), so the
/// writer is held here, out of Verus's sight, and described by
/// [`zip_written`].
#[verifier::external_body]
pub struct ArchiveWriter {
    writer: ZipWriter<Cursor<Vec<u8>>>,
}

/// The names of the entries of the zip archive held in `bytes`, in the
/// order of its central directory.
pub uninterp spec fn zip_entry_names(bytes: Seq<u8>) -> Seq<Seq<char>>;

/// The contents, decompressed, of the entry `name` of the zip archive held
/// in `bytes`.
pub uninterp spec fn zip_entry_data(bytes: Seq<u8>, name: Seq<char>) -> Seq<u8>;

/// The bytes that an archive reader was opened on.
pub uninterp spec fn zip_source(a: ZipArchive<Cursor<Vec<u8>>>) -> Seq<u8>;

/// The entries, each a name and the contents written to it so far, that a
/// writer holds, in the order they were started.
pub uninterp spec fn zip_written(w: ArchiveWriter) -> Seq<(Seq<char>, Seq<u8>)>;

/// A writer has an entry open for its contents.
pub uninterp spec fn zip_entry_open(w: ArchiveWriter) -> bool;

/// The bytes hold a zip archive that opens.
pub uninterp spec fn zip_opens(bytes: Seq<u8>) -> bool;

/// Entry `i` of the archive held in `bytes` can be looked up by its index.
pub uninterp spec fn zip_index_reads(bytes: Seq<u8>, i: int) -> bool;

/// The entry `name` of the archive held in `bytes` can be looked up and
/// its contents read.
pub uninterp spec fn zip_entry_reads(bytes: Seq<u8>, name: Seq<char>) -> bool;

/// The archive held in `b` opens, and each of its entries can be looked up
/// by index and by name and read.
pub open spec fn archive_reads_all(b: Seq<u8>) -> bool {
    &&& zip_opens(b)
    &&& forall|i: int| 0 <= i < zip_entry_names(b).len() ==> zip_index_reads(b, i) && zip_entry_reads(
        b,
        #[trigger] zip_entry_names(b)[i],
    )
}

/// A bound on the size of an archive of `entries`: their contents, their
/// names at four bytes a character, and 128 bytes of headers for each.
pub open spec fn archive_load(entries: Seq<(Seq<char>, Seq<u8>)>) -> int
    decreases entries.len(),
{
    if entries.len() == 0 {
        0
    } else {
        archive_load(entries.drop_last()) + entries.last().1.len() + 4 * entries.last().0.len() + 128
    }
}

/// The load up to which writing an archive in memory cannot fail: 1 GiB,
/// well below the 4 GiB at which the zip format needs its large-file
/// extension.
pub open spec fn archive_load_limit() -> int {
    0x4000_0000
}

/// The names of a list of written entries.
pub open spec fn written_names(entries: Seq<(Seq<char>, Seq<u8>)>) -> Seq<Seq<char>> {
    entries.map_values(|e: (Seq<char>, Seq<u8>)| e.0)
}

/// A name that an archive gives back unchanged: not empty, ASCII only, and
/// not ending with `/` (which marks a directory).
pub open spec fn is_plain_entry_name(name: Seq<char>) -> bool {
    &&& name.len() > 0
    &&& is_ascii_chars(name)
    &&& name.last() != '/'
}

/// Open the zip archive held in `bytes` (`zip::ZipArchive::new` on an
/// in-memory cursor). Claimed: it succeeds exactly when the bytes hold an
/// archive that opens, which depends on the bytes alone; on success the
/// reader reads those bytes, and the entry names are distinct (the crate
/// keys the entries by name). The error is the crate's message.
#[verifier::external_body]
fn zip_open(bytes: Vec<u8>) -> (r: Result<ZipArchive<Cursor<Vec<u8>>>, String>)
    ensures
        r is Ok <==> zip_opens(bytes@),
        r matches Ok(a) ==> zip_source(a) == bytes@ && zip_entry_names(bytes@).no_duplicates(),
{
    ZipArchive::new(Cursor::new(bytes)).map_err(|e| e.to_string())
}

/// The number of entries of an archive (`zip::ZipArchive::len`).
#[verifier::external_body]
fn zip_len(a: &ZipArchive<Cursor<Vec<u8>>>) -> (n: usize)
    ensures
        n == zip_entry_names(zip_source(*a)).len(),
{
    a.len()
}

/// The name of entry `i` (`zip::ZipArchive::by_index`, then the entry's
/// `name`). Claimed: it succeeds exactly for an index of an entry that can
/// be looked up, which depends on the archive's bytes and the index alone;
/// on success the name is that of entry `i`. Looking an entry up moves the
/// reader's position only, not the bytes it reads.
#[verifier::external_body]
fn zip_name_at(a: &mut ZipArchive<Cursor<Vec<u8>>>, i: usize) -> (r: Result<String, String>)
    ensures
        zip_source(*final(a)) == zip_source(*old(a)),
        r is Ok <==> i < zip_entry_names(zip_source(*old(a))).len() && zip_index_reads(zip_source(*old(a)), i as int),
        i >= zip_entry_names(zip_source(*old(a))).len() ==> r is Err,
        r matches Ok(s) ==> i < zip_entry_names(zip_source(*old(a))).len() && s@ == zip_entry_names(
            zip_source(*old(a)),
        )[i as int],
{
    a.by_index(i).map(|f| f.name().to_string()).map_err(|e| e.to_string())
}

/// Why reading an entry failed: the crate's message, from looking the entry
/// up or from reading its contents.
enum EntryFault {
    Lookup(String),
    Read(String),
}

/// The contents of the entry `name` (`zip::ZipArchive::by_name`, then
/// `read_to_end` on the entry). Claimed: a name that no entry has fails at
/// the lookup; it succeeds exactly for a name of an entry that can be read,
/// which depends on the archive's bytes and the name alone; on success the
/// bytes are the entry's decompressed contents.
#[verifier::external_body]
fn zip_read_entry(a: &mut ZipArchive<Cursor<Vec<u8>>>, name: &str) -> (r: Result<Vec<u8>, EntryFault>)
    ensures
        zip_source(*final(a)) == zip_source(*old(a)),
        r is Ok <==> zip_entry_names(zip_source(*old(a))).contains(name@) && zip_entry_reads(
            zip_source(*old(a)),
            name@,
        ),
        !zip_entry_names(zip_source(*old(a))).contains(name@) ==> r matches Err(EntryFault::Lookup(_)),
        r matches Ok(d) ==> zip_entry_names(zip_source(*old(a))).contains(name@) && d@ == zip_entry_data(
            zip_source(*old(a)),
            name@,
        ),
{
    let mut entry = match a.by_name(name) {
        Ok(entry) => entry,
        Err(e) => return Err(EntryFault::Lookup(e.to_string())),
    };
    let mut buf: Vec<u8> = Vec::new();
    match entry.read_to_end(&mut buf) {
        Ok(_) => Ok(buf),
        Err(e) => Err(EntryFault::Read(e.to_string())),
    }
}

/// A writer of a new, empty archive in memory (`zip::ZipWriter::new` on an
/// empty cursor).
#[verifier::external_body]
fn zip_writer_new() -> (w: ArchiveWriter)
    ensures
        zip_written(w) == Seq::<(Seq<char>, Seq<u8>)>::empty(),
{
    ArchiveWriter { writer: ZipWriter::new(Cursor::new(Vec::new())) }
}

/// Start a deflate-compressed entry named `name`
/// (`zip::ZipWriter::start_file`). The crate panics on a name longer than
/// 65535 bytes, which is left out. Claimed: on success no earlier entry
/// had that name (the crate refuses a duplicate), the new entry, still
/// empty, comes last and is open; a new name succeeds while the archive's
/// load stays within [`archive_load_limit`] (writes to memory do not fail,
/// and the sizes stay below the zip format's 4 GiB limits).
#[verifier::external_body]
fn zip_start_entry(w: &mut ArchiveWriter, name: &str) -> (r: Result<(), String>)
    requires
        name.spec_bytes().len() <= 65535,
    ensures
        r is Ok ==> !written_names(zip_written(*old(w))).contains(name@) && zip_written(*final(w)) == zip_written(
            *old(w),
        ).push((name@, Seq::<u8>::empty())) && zip_entry_open(*final(w)),
        !written_names(zip_written(*old(w))).contains(name@) && archive_load(
            zip_written(*old(w)).push((name@, Seq::<u8>::empty())),
        ) <= archive_load_limit() ==> r is Ok,
{
    let options = SimpleFileOptions::default().compression_method(CompressionMethod::Deflated);
    w.writer.start_file(name, options).map_err(|e| e.to_string())
}

/// Write `data` to the entry last started (`write_all` of `std::io::Write`
/// on the writer). Claimed: on success the data is appended to the
/// contents of the last entry, which stays open; non-empty data needs a
/// started entry, and with no entry started nothing changes. With an entry
/// open it succeeds while the archive's load stays within
/// [`archive_load_limit`].
#[verifier::external_body]
fn zip_write_all(w: &mut ArchiveWriter, data: &[u8]) -> (r: Result<(), String>)
    ensures
        r is Ok ==> zip_entry_open(*final(w)) == zip_entry_open(*old(w)),
        zip_entry_open(*old(w)) && zip_written(*old(w)).len() > 0 && archive_load(
            zip_written(*old(w)).drop_last().push((zip_written(*old(w)).last().0, zip_written(*old(w)).last().1 + data@)),
        ) <= archive_load_limit() ==> r is Ok,
        r is Ok && data@.len() > 0 ==> zip_written(*old(w)).len() > 0,
        r is Ok && zip_written(*old(w)).len() == 0 ==> zip_written(*final(w)) == zip_written(*old(w)),
        r is Ok && zip_written(*old(w)).len() > 0 ==> zip_written(*final(w)) == zip_written(
            *old(w),
        ).drop_last().push((zip_written(*old(w)).last().0, zip_written(*old(w)).last().1 + data@)),
{
    w.writer.write_all(data).map_err(|e| e.to_string())
}

/// Finish the archive and hand back its bytes (`zip::ZipWriter::finish`,
/// then the cursor's buffer). Claimed: it succeeds while the archive's load
/// stays within [`archive_load_limit`]; when every entry has a plain name,
/// the archive read back opens, each entry can be looked up and read, and
/// it lists the entries in the order they were written, each with the
/// contents written to it.
#[verifier::external_body]
fn zip_finish(w: ArchiveWriter) -> (r: Result<Vec<u8>, String>)
    ensures
        archive_load(zip_written(w)) <= archive_load_limit() ==> r is Ok,
        r matches Ok(b) ==> (forall|i: int| 0 <= i < zip_written(w).len() ==> is_plain_entry_name(
            #[trigger] zip_written(w)[i].0,
        )) ==> {
            &&& archive_reads_all(b@)
            &&& zip_entry_names(b@) == written_names(zip_written(w))
            &&& forall|i: int| 0 <= i < zip_written(w).len() ==> zip_entry_data(b@, #[trigger] zip_written(w)[i].0)
                == zip_written(w)[i].1
        },
{
    w.writer.finish().map(|c| c.into_inner()).map_err(|e| e.to_string())
}

/// A zip error: `context`, a colon, and the crate's message.
fn zip_fault(context: &str, message: String) -> (e: Error)
    ensures
        e matches Error::Zip(m) && m@ == context@ + ": "@ + message@,
{
    proof {
        reveal_strlit(": ");
    }
    let mut m = String::from_str(context);
    m.append(": ");
    m.append(message.as_str());
    Error::Zip(m)
}


/// The name of the entry that holds program `index`: `Prog_`, the index in
/// decimal padded with zeros to at least 3 digits, `.prog_bin`.
pub open spec fn prog_entry_text(index: nat) -> Seq<char> {
    "Prog_"@ + (if index < 10 {
        "00"@
    } else if index < 100 {
        "0"@
    } else {
        ""@
    }) + decimal_text(index) + ".prog_bin"@
}

/// The name of the archive entry that holds program `index`.
pub fn prog_entry_name(index: usize) -> (s: String)
    ensures
        s@ == prog_entry_text(index as nat),
{
    proof {
        reveal_strlit("");
    }
    let mut s = String::from_str("Prog_");
    if index < 10 {
        s.append("00");
    } else if index < 100 {
        s.append("0");
    }
    s.append(decimal_string_usize(index).as_str());
    s.append(".prog_bin");
    s
}

/// The bytes of the suffix `.prog_bin`.
pub open spec fn prog_suffix() -> Seq<u8> {
    seq![0x2Eu8, 0x70u8, 0x72u8, 0x6Fu8, 0x67u8, 0x5Fu8, 0x62u8, 0x69u8, 0x6Eu8]
}

/// Whether an entry named `name` holds a program: its name ends with
/// `.prog_bin`.
pub open spec fn is_prog_name(name: Seq<char>) -> bool {
    let b = encode_utf8(name);
    b.len() >= 9 && b.subrange(b.len() - 9, b.len() as int) == prog_suffix()
}

/// Whether an archive entry holds a program: its name ends with `.prog_bin`.
pub fn is_prog_entry(name: &str) -> (b: bool)
    ensures
        b == is_prog_name(name@),
{
    let bytes = name.as_bytes();
    let n = bytes.len();
    if n < 9 {
        return false;
    }
    let suffix: [u8; 9] = [0x2E, 0x70, 0x72, 0x6F, 0x67, 0x5F, 0x62, 0x69, 0x6E];
    assert(suffix@ =~= prog_suffix());
    let mut i: usize = 0;
    while i < 9
        invariant
            i <= 9,
            n == bytes@.len(),
            n >= 9,
            bytes@ == name.spec_bytes(),
            suffix@ == prog_suffix(),
            forall|j: int| 0 <= j < i ==> #[trigger] bytes@[n - 9 + j] == suffix@[j],
        decreases 9 - i,
    {
        if bytes[n - 9 + i] != suffix[i] {
            assert(bytes@.subrange(n - 9, n as int)[i as int] == bytes@[n - 9 + i]);
            assert(suffix@[i as int] == prog_suffix()[i as int]);
            assert(bytes@.subrange(n - 9, n as int)[i as int] != prog_suffix()[i as int]);
            return false;
        }
        i = i + 1;
    }
    assert forall|j: int| 0 <= j < 9 implies #[trigger] bytes@.subrange(n - 9, n as int)[j] == prog_suffix()[j] by {
        assert(bytes@[n - 9 + j] == suffix@[j]);
    }
    assert(bytes@.subrange(n - 9, n as int) =~= prog_suffix());
    true
}

/// The `FileInformation.xml` of a library of `count` programs.
pub open spec fn library_info_text(count: nat) -> Seq<char> {
    "<?xml version=\"1.0\" encoding=\"UTF-8\"?>\n<KorgMSLibrarian_Data>\n<Product>minilogue xd</Product>\n<Contents NumProgramData=\""@
        + decimal_text(count) + "\"/>\n</KorgMSLibrarian_Data>\n"@
}

/// The `FileInformation.xml` of a library of `count` programs.
pub fn library_info_xml(count: usize) -> (s: String)
    ensures
        s@ == library_info_text(count as nat),
{
    let mut s = String::from_str(
        "<?xml version=\"1.0\" encoding=\"UTF-8\"?>\n<KorgMSLibrarian_Data>\n<Product>minilogue xd</Product>\n<Contents NumProgramData=\"",
    );
    s.append(decimal_string_usize(count).as_str());
    s.append("\"/>\n</KorgMSLibrarian_Data>\n");
    s
}

/// The decimal digits of `n` are ASCII digits.
proof fn lemma_decimal_text_digits(n: nat)
    ensures
        decimal_text(n).len() > 0,
        forall|i: int| 0 <= i < decimal_text(n).len() ==> '0' <= #[trigger] decimal_text(n)[i] <= '9',
    decreases n,
{
    if n >= 10 {
        lemma_decimal_text_digits(n / 10);
    }
}

/// Every entry name of a program is plain.
proof fn lemma_prog_entry_plain(index: nat)
    ensures
        is_plain_entry_name(prog_entry_text(index)),
{
    reveal_strlit("Prog_");
    reveal_strlit("00");
    reveal_strlit("0");
    reveal_strlit("");
    reveal_strlit(".prog_bin");
    lemma_decimal_text_digits(index);
    let pad = if index < 10 {
        "00"@
    } else if index < 100 {
        "0"@
    } else {
        ""@
    };
    let t = prog_entry_text(index);
    assert(t == "Prog_"@ + pad + decimal_text(index) + ".prog_bin"@);
    assert forall|i: int| 0 <= i < t.len() implies '\0' <= #[trigger] t[i] <= '\u{7f}' by {
        if i < 5 + pad.len() {
            assert(t[i] == ("Prog_"@ + pad)[i]);
        } else if i < 5 + pad.len() + decimal_text(index).len() {
            assert(t[i] == decimal_text(index)[i - 5 - pad.len()]);
        } else {
            assert(t[i] == ".prog_bin"@[i - 5 - pad.len() - decimal_text(index).len()]);
        }
    }
    assert(t.last() == 'n');
}

/// The archive `b` holds exactly one entry, `Prog_000.prog_bin`, whose
/// contents are the raw blob of `data`.
pub open spec fn holds_program(b: Seq<u8>, data: ProgramData) -> bool {
    &&& archive_reads_all(b)
    &&& zip_entry_names(b) == seq![prog_entry_text(0)]
    &&& zip_entry_data(b, prog_entry_text(0)) == data.spec_bytes()
}

/// The bytes of a `.mnlgxdprog` file holding `data`: a zip archive with the
/// raw blob as its one deflate-compressed entry, `Prog_000.prog_bin`. The
/// archive is written in memory and stays far below the zip format's size
/// limits, so it is always written.
pub fn write_prog_file(data: &ProgramData) -> (r: Result<Vec<u8>, Error>)
    ensures
        r matches Ok(b) && holds_program(b@, *data),
{
    let mut w = zip_writer_new();
    let name = prog_entry_name(0);
    proof {
        lemma_prog_entry_len(0);
        lemma_base_len(*data);
        let first = seq![(prog_entry_text(0), Seq::<u8>::empty())];
        assert(Seq::<(Seq<char>, Seq<u8>)>::empty().push((prog_entry_text(0), Seq::<u8>::empty())) =~= first);
        assert(first.drop_last() =~= Seq::<(Seq<char>, Seq<u8>)>::empty());
        reveal_with_fuel(archive_load, 2);
        assert(archive_load(first) == 4 * 17 + 128);
        assert(written_names(Seq::<(Seq<char>, Seq<u8>)>::empty()) =~= Seq::<Seq<char>>::empty());
    }
    if let Err(e) = zip_start_entry(&mut w, name.as_str()) {
        return Err(zip_fault("failed to create entry", e));
    }
    let raw = data.to_bytes();
    proof {
        let full = seq![(prog_entry_text(0), data.spec_bytes())];
        assert(zip_written(w).drop_last().push((zip_written(w).last().0, zip_written(w).last().1 + raw@)) =~= full);
        assert(full.drop_last() =~= Seq::<(Seq<char>, Seq<u8>)>::empty());
        reveal_with_fuel(archive_load, 2);
        assert(archive_load(full) == 1024 + 4 * 17 + 128);
    }
    if let Err(e) = zip_write_all(&mut w, raw.as_slice()) {
        return Err(zip_fault("failed to write entry", e));
    }
    let ghost written = zip_written(w);
    proof {
        lemma_prog_entry_plain(0);
        assert(written =~= seq![(prog_entry_text(0), data.spec_bytes())]);
        assert(written.drop_last() =~= Seq::<(Seq<char>, Seq<u8>)>::empty());
        reveal_with_fuel(archive_load, 2);
        assert(archive_load(written) == 1024 + 4 * 17 + 128);
        assert(written_names(written) =~= seq![prog_entry_text(0)]);
    }
    match zip_finish(w) {
        Ok(b) => {
            assert(written[0].0 == prog_entry_text(0));
            Ok(b)
        },
        Err(e) => Err(zip_fault("failed to finalize archive", e)),
    }
}

/// Reading the `.mnlgxdprog` archive `b` gives `r`: a zip error when it
/// does not open, has no entry `Prog_000.prog_bin` or that entry cannot be
/// read, and otherwise what [`ProgramData::from_bytes`] gives on that
/// entry's contents.
pub open spec fn prog_file_reads_as(b: Seq<u8>, r: Result<ProgramData, Error>) -> bool {
    if zip_opens(b) && zip_entry_names(b).contains(prog_entry_text(0)) && zip_entry_reads(b, prog_entry_text(0)) {
        program_parses_as(zip_entry_data(b, prog_entry_text(0)), r)
    } else {
        r matches Err(Error::Zip(_))
    }
}

/// Read the program of a `.mnlgxdprog` file: the raw blob in its entry
/// `Prog_000.prog_bin` ([`prog_file_reads_as`]).
pub fn read_prog_file(bytes: Vec<u8>) -> (r: Result<ProgramData, Error>)
    ensures
        prog_file_reads_as(bytes@, r),
{
    let ghost source = bytes@;
    let mut a = match zip_open(bytes) {
        Ok(a) => a,
        Err(e) => return Err(zip_fault("failed to open archive", e)),
    };
    let name = prog_entry_name(0);
    match zip_read_entry(&mut a, name.as_str()) {
        Ok(buf) => ProgramData::from_bytes(buf.as_slice()),
        Err(EntryFault::Lookup(e)) => {
            let mut context = String::from_str("missing ");
            context.append(name.as_str());
            Err(zip_fault(context.as_str(), e))
        },
        Err(EntryFault::Read(e)) => Err(zip_fault("failed to read prog_bin", e)),
    }
}


// ---------------------------------------------------------------------------
// Order of entry names
// ---------------------------------------------------------------------------

/// `a` comes before `b` in lexicographic byte order.
pub open spec fn bytes_lt(a: Seq<u8>, b: Seq<u8>) -> bool
    decreases a.len(),
{
    if a.len() == 0 {
        b.len() > 0
    } else if b.len() == 0 {
        false
    } else if a[0] != b[0] {
        a[0] < b[0]
    } else {
        bytes_lt(a.drop_first(), b.drop_first())
    }
}

/// `a` comes before `b` in the order of `String`: that of their UTF-8 bytes.
pub open spec fn name_lt(a: Seq<char>, b: Seq<char>) -> bool {
    bytes_lt(encode_utf8(a), encode_utf8(b))
}

proof fn lemma_bytes_lt_irreflexive(a: Seq<u8>)
    ensures
        !bytes_lt(a, a),
    decreases a.len(),
{
    if a.len() > 0 {
        lemma_bytes_lt_irreflexive(a.drop_first());
    }
}

proof fn lemma_bytes_lt_asymmetric(a: Seq<u8>, b: Seq<u8>)
    ensures
        !(bytes_lt(a, b) && bytes_lt(b, a)),
    decreases a.len(),
{
    if a.len() > 0 && b.len() > 0 && a[0] == b[0] {
        lemma_bytes_lt_asymmetric(a.drop_first(), b.drop_first());
    }
}

proof fn lemma_bytes_lt_transitive(a: Seq<u8>, b: Seq<u8>, c: Seq<u8>)
    requires
        bytes_lt(a, b),
        bytes_lt(b, c),
    ensures
        bytes_lt(a, c),
    decreases a.len(),
{
    if a.len() > 0 && b.len() > 0 && c.len() > 0 && a[0] == b[0] && b[0] == c[0] {
        lemma_bytes_lt_transitive(a.drop_first(), b.drop_first(), c.drop_first());
    }
}

proof fn lemma_bytes_lt_total(a: Seq<u8>, b: Seq<u8>)
    requires
        a != b,
    ensures
        bytes_lt(a, b) || bytes_lt(b, a),
    decreases a.len(),
{
    if a.len() == 0 {
        assert(b.len() > 0) by {
            if b.len() == 0 {
                assert(a =~= b);
            }
        }
    } else if b.len() > 0 && a[0] == b[0] {
        if a.drop_first() == b.drop_first() {
            assert(a =~= seq![a[0]] + a.drop_first());
            assert(b =~= seq![b[0]] + b.drop_first());
        }
        lemma_bytes_lt_total(a.drop_first(), b.drop_first());
    }
}

/// Distinct names are ordered one way or the other, and never both.
proof fn lemma_name_order(a: Seq<char>, b: Seq<char>)
    ensures
        !name_lt(a, a),
        !(name_lt(a, b) && name_lt(b, a)),
        a != b ==> name_lt(a, b) || name_lt(b, a),
{
    lemma_bytes_lt_irreflexive(encode_utf8(a));
    lemma_bytes_lt_asymmetric(encode_utf8(a), encode_utf8(b));
    if a != b {
        encode_utf8_decode_utf8(a);
        encode_utf8_decode_utf8(b);
        lemma_bytes_lt_total(encode_utf8(a), encode_utf8(b));
    }
}

/// Each name comes before the next.
pub open spec fn names_ascending(s: Seq<Seq<char>>) -> bool {
    forall|i: int, j: int| 0 <= i < j < s.len() ==> name_lt(#[trigger] s[i], #[trigger] s[j])
}

/// Two ascending lists of the same names are equal.
proof fn lemma_ascending_unique(s: Seq<Seq<char>>, t: Seq<Seq<char>>)
    requires
        names_ascending(s),
        names_ascending(t),
        forall|x: Seq<char>| s.contains(x) <==> t.contains(x),
    ensures
        s == t,
    decreases s.len(),
{
    if s.len() == 0 {
        if t.len() > 0 {
            assert(t.contains(t[0]));
        }
        assert(s =~= t);
    } else {
        assert(s.contains(s[0]));
        let m = t.index_of(s[0]);
        assert(t.contains(t[0]));
        let k = s.index_of(t[0]);
        if s[0] != t[0] {
            assert(m > 0 && k > 0);
            assert(name_lt(t[0], t[m]));
            assert(name_lt(s[0], s[k]));
            lemma_name_order(s[0], t[0]);
            assert(false);
        }
        let s1 = s.drop_first();
        let t1 = t.drop_first();
        assert forall|x: Seq<char>| s1.contains(x) <==> t1.contains(x) by {
            if s1.contains(x) {
                let i = s1.index_of(x);
                assert(s[i + 1] == x);
                assert(name_lt(s[0], s[i + 1]));
                lemma_name_order(x, x);
                assert(t.contains(x));
                let j = t.index_of(x);
                assert(j != 0);
                assert(t1[j - 1] == x);
            }
            if t1.contains(x) {
                let i = t1.index_of(x);
                assert(t[i + 1] == x);
                assert(name_lt(t[0], t[i + 1]));
                lemma_name_order(x, x);
                assert(s.contains(x));
                let j = s.index_of(x);
                assert(j != 0);
                assert(s1[j - 1] == x);
            }
        }
        assert(names_ascending(s1)) by {
            assert forall|i: int, j: int| 0 <= i < j < s1.len() implies name_lt(#[trigger] s1[i], #[trigger] s1[j]) by {
                assert(s1[i] == s[i + 1] && s1[j] == s[j + 1]);
            }
        }
        assert(names_ascending(t1)) by {
            assert forall|i: int, j: int| 0 <= i < j < t1.len() implies name_lt(#[trigger] t1[i], #[trigger] t1[j]) by {
                assert(t1[i] == t[i + 1] && t1[j] == t[j + 1]);
            }
        }
        lemma_ascending_unique(s1, t1);
        assert(s =~= seq![s[0]] + s1);
        assert(t =~= seq![t[0]] + t1);
    }
}

/// Whether `a` comes before `b` in byte order.
fn bytes_less(a: &[u8], b: &[u8]) -> (r: bool)
    ensures
        r == bytes_lt(a@, b@),
{
    let mut i: usize = 0;
    assert(a@.skip(0) =~= a@ && b@.skip(0) =~= b@);
    while i < a.len() && i < b.len() && a[i] == b[i]
        invariant
            i <= a@.len(),
            i <= b@.len(),
            bytes_lt(a@, b@) == bytes_lt(a@.skip(i as int), b@.skip(i as int)),
        decreases a.len() - i,
    {
        assert(a@.skip(i as int).drop_first() =~= a@.skip(i + 1));
        assert(b@.skip(i as int).drop_first() =~= b@.skip(i + 1));
        i = i + 1;
    }
    if i == a.len() {
        i < b.len()
    } else if i == b.len() {
        false
    } else {
        a[i] < b[i]
    }
}

/// The texts of a list of strings.
pub open spec fn texts_of(v: Seq<String>) -> Seq<Seq<char>> {
    v.map_values(|s: String| s@)
}

/// Insert `name`, which is not among them, into ascending `names` at its
/// place.
fn insert_in_order(names: &mut Vec<String>, name: String)
    requires
        names_ascending(texts_of(old(names)@)),
        !texts_of(old(names)@).contains(name@),
    ensures
        names_ascending(texts_of(final(names)@)),
        forall|x: Seq<char>| texts_of(final(names)@).contains(x) <==> (texts_of(old(names)@).contains(x) || x == name@),
{
    let ghost old_texts = texts_of(names@);
    let key = name.as_str().as_bytes();
    let mut k: usize = 0;
    loop
        invariant
            k <= names@.len(),
            names@ == old(names)@,
            old_texts == texts_of(names@),
            key@ == encode_utf8(name@),
            !old_texts.contains(name@),
            forall|j: int| 0 <= j < k ==> name_lt(#[trigger] old_texts[j], name@),
        ensures
            k <= names@.len(),
            names@ == old(names)@,
            forall|j: int| 0 <= j < k ==> name_lt(#[trigger] old_texts[j], name@),
            k < names@.len() ==> name_lt(name@, old_texts[k as int]),
        decreases names.len() - k,
    {
        if k == names.len() {
            break;
        }
        let here = names[k].as_str().as_bytes();
        assert(old_texts[k as int] == names@[k as int]@);
        if bytes_less(key, here) {
            break;
        }
        proof {
            assert(old_texts.contains(old_texts[k as int]));
            assert(here@ == encode_utf8(old_texts[k as int]));
            lemma_name_order(old_texts[k as int], name@);
        }
        k = k + 1;
    }
    let ghost new_text = name@;
    names.insert(k, name);
    let ghost t = texts_of(names@);
    assert(t =~= old_texts.insert(k as int, new_text));
    assert forall|i: int, j: int| 0 <= i < j < t.len() implies name_lt(#[trigger] t[i], #[trigger] t[j]) by {
        if j < k {
        } else if i < k && j == k {
        } else if i < k {
            assert(name_lt(old_texts[i], new_text));
            assert(name_lt(new_text, old_texts[k as int]));
            lemma_bytes_lt_transitive(encode_utf8(old_texts[i]), encode_utf8(new_text), encode_utf8(old_texts[k as int]));
            if j - 1 > k {
                lemma_bytes_lt_transitive(encode_utf8(old_texts[i]), encode_utf8(old_texts[k as int]), encode_utf8(old_texts[j - 1]));
            }
        } else if i == k {
            if j - 1 > k {
                lemma_bytes_lt_transitive(encode_utf8(new_text), encode_utf8(old_texts[k as int]), encode_utf8(old_texts[j - 1]));
            }
        } else {
        }
    }
    assert forall|x: Seq<char>| t.contains(x) <==> (old_texts.contains(x) || x == new_text) by {
        if t.contains(x) {
            let i = t.index_of(x);
            if i < k {
                assert(old_texts[i] == x);
            } else if i > k {
                assert(old_texts[i - 1] == x);
            }
        }
        if old_texts.contains(x) {
            let i = old_texts.index_of(x);
            if i < k {
                assert(t[i] == x);
            } else {
                assert(t[i + 1] == x);
            }
        }
        if x == new_text {
            assert(t[k as int] == x);
        }
    }
}


// ---------------------------------------------------------------------------
// Libraries
// ---------------------------------------------------------------------------

/// `order` lists the program entries among `names`, each once, in name
/// order.
pub open spec fn is_program_order(names: Seq<Seq<char>>, order: Seq<Seq<char>>) -> bool {
    &&& names_ascending(order)
    &&& forall|x: Seq<char>| #[trigger] order.contains(x) <==> (names.contains(x) && is_prog_name(x))
}

/// The program entries among `names`, in name order (there is only one such
/// list: see [`lemma_program_order_unique`]).
pub open spec fn program_order(names: Seq<Seq<char>>) -> Seq<Seq<char>> {
    choose|order: Seq<Seq<char>>| is_program_order(names, order)
}

/// The program entries of a list of names come in one order only.
pub proof fn lemma_program_order_unique(names: Seq<Seq<char>>, s: Seq<Seq<char>>, t: Seq<Seq<char>>)
    requires
        is_program_order(names, s),
        is_program_order(names, t),
    ensures
        s == t,
{
    assert forall|x: Seq<char>| s.contains(x) <==> t.contains(x) by {
        assert(s.contains(x) <==> (names.contains(x) && is_prog_name(x)));
        assert(t.contains(x) <==> (names.contains(x) && is_prog_name(x)));
    }
    lemma_ascending_unique(s, t);
}

/// The raw blob of the entry `name` of archive `b` parses as some program.
pub open spec fn entry_parses(b: Seq<u8>, name: Seq<char>) -> bool {
    exists|p: ProgramData| program_parses_as(zip_entry_data(b, name), Ok::<ProgramData, Error>(p))
}

/// Reading the programs of the entries `order` of archive `b` gives `r`:
/// the program of each entry when all parse, else the error of the first
/// that does not.
pub open spec fn library_reads_as(b: Seq<u8>, order: Seq<Seq<char>>, r: Result<Vec<ProgramData>, Error>) -> bool {
    match r {
        Ok(ps) => ps@.len() == order.len() && forall|i: int|
            0 <= i < order.len() ==> program_parses_as(
                zip_entry_data(b, #[trigger] order[i]),
                Ok::<ProgramData, Error>(ps@[i]),
            ),
        Err(e) => exists|k: int|
            0 <= k < order.len() && program_parses_as(zip_entry_data(b, order[k]), Err::<ProgramData, Error>(e))
                && forall|i: int| 0 <= i < k ==> entry_parses(b, #[trigger] order[i]),
    }
}

/// A zip error whose context is `prefix` followed by `name`.
fn zip_fault_at(prefix: &str, name: &str, message: String) -> (e: Error)
    ensures
        e is Zip,
{
    let mut context = String::from_str(prefix);
    context.append(name);
    zip_fault(context.as_str(), message)
}

/// The names among `names` that end with `.prog_bin`, in name order: the
/// order in which a library's programs are read. The names are distinct, as
/// those of an archive's entries are.
pub fn program_entry_order(names: &[String]) -> (order: Vec<String>)
    requires
        texts_of(names@).no_duplicates(),
    ensures
        is_program_order(texts_of(names@), texts_of(order@)),
        texts_of(order@) == program_order(texts_of(names@)),
{
    let ghost all = texts_of(names@);
    let mut order: Vec<String> = Vec::new();
    let mut i: usize = 0;
    assert(texts_of(order@) =~= Seq::<Seq<char>>::empty());
    while i < names.len()
        invariant
            i <= names@.len(),
            all == texts_of(names@),
            all.no_duplicates(),
            names_ascending(texts_of(order@)),
            forall|x: Seq<char>| #[trigger] texts_of(order@).contains(x) <==> (all.take(i as int).contains(x) && is_prog_name(x)),
        decreases names.len() - i,
    {
        let name = names[i].clone();
        let ghost before = texts_of(order@);
        let ghost prefix = all.take(i as int);
        let ghost next = all.take(i + 1);
        proof {
            assert(name@ == all[i as int]);
            if prefix.contains(name@) {
                let j = prefix.index_of(name@);
                assert(prefix[j] == all[j]);
                assert(false);
            }
            assert forall|x: Seq<char>| next.contains(x) <==> (prefix.contains(x) || x == name@) by {
                if next.contains(x) {
                    let j = next.index_of(x);
                    if j < i {
                        assert(prefix[j] == x);
                    }
                }
                if prefix.contains(x) {
                    let j = prefix.index_of(x);
                    assert(next[j] == x);
                }
                if x == name@ {
                    assert(next[i as int] == x);
                }
            }
        }
        let ghost text = name@;
        let wanted = is_prog_entry(name.as_str());
        if wanted {
            insert_in_order(&mut order, name);
        }
        proof {
            assert forall|x: Seq<char>| #[trigger] texts_of(order@).contains(x) <==> (next.contains(x) && is_prog_name(x)) by {
                assert(before.contains(x) <==> (prefix.contains(x) && is_prog_name(x)));
                assert(next.contains(x) <==> (prefix.contains(x) || x == text));
            }
        }
        i = i + 1;
    }
    let ghost found = texts_of(order@);
    proof {
        assert(all.take(names@.len() as int) =~= all);
        assert forall|x: Seq<char>| #[trigger] found.contains(x) <==> (all.contains(x) && is_prog_name(x)) by {
            assert(found.contains(x) <==> (all.take(names@.len() as int).contains(x) && is_prog_name(x)));
        }
        assert(is_program_order(all, found));
        let chosen = program_order(all);
        assert(is_program_order(all, chosen));
        lemma_program_order_unique(all, chosen, found);
    }
    order
}

/// Reading the `.mnlgxdlib` archive `b` gives `r`: a zip error, or what
/// [`library_reads_as`] says of its program entries in name order; the
/// latter when the archive opens and each of its entries can be read.
pub open spec fn lib_file_reads_as(b: Seq<u8>, r: Result<Vec<ProgramData>, Error>) -> bool {
    &&& (r matches Err(Error::Zip(_))) || library_reads_as(b, program_order(zip_entry_names(b)), r)
    &&& archive_reads_all(b) ==> library_reads_as(b, program_order(zip_entry_names(b)), r)
}

/// Read the programs of a `.mnlgxdlib` file: the raw blob of each entry
/// whose name ends with `.prog_bin`, taken in name order
/// ([`lib_file_reads_as`]).
pub fn read_lib_file(bytes: Vec<u8>) -> (r: Result<Vec<ProgramData>, Error>)
    ensures
        lib_file_reads_as(bytes@, r),
{
    let ghost source = bytes@;
    let mut a = match zip_open(bytes) {
        Ok(a) => a,
        Err(e) => return Err(zip_fault("failed to open archive", e)),
    };
    let ghost names = zip_entry_names(source);
    let n = zip_len(&a);
    let mut all: Vec<String> = Vec::new();
    let mut i: usize = 0;
    while i < n
        invariant
            i <= n,
            names == zip_entry_names(source),
            names.no_duplicates(),
            source == bytes@,
            n == names.len(),
            zip_source(a) == source,
            texts_of(all@) == names.take(i as int),
        decreases n - i,
    {
        let name = match zip_name_at(&mut a, i) {
            Ok(s) => s,
            Err(e) => {
                assert(!archive_reads_all(source)) by {
                    assert(!zip_index_reads(source, i as int));
                    assert(zip_entry_names(source)[i as int] == names[i as int]);
                }
                return Err(zip_fault_at("failed to read entry ", decimal_string_usize(i).as_str(), e));
            },
        };
        let ghost text = name@;
        assert(text == names[i as int]);
        let ghost earlier = all@;
        all.push(name);
        assert(texts_of(all@) =~= texts_of(earlier).push(text));
        assert(texts_of(all@) =~= names.take(i + 1));
        i = i + 1;
    }
    assert(texts_of(all@) =~= names);
    let order = program_entry_order(all.as_slice());
    let ghost found = texts_of(order@);
    assert(is_program_order(names, found));
    let mut programs: Vec<ProgramData> = Vec::new();
    let mut k: usize = 0;
    while k < order.len()
        invariant
            k <= order@.len(),
            found == texts_of(order@),
            found == program_order(zip_entry_names(source)),
            source == bytes@,
            zip_source(a) == source,
            is_program_order(zip_entry_names(source), found),
            programs@.len() == k,
            forall|j: int| 0 <= j < k ==> program_parses_as(zip_entry_data(source, #[trigger] found[j]), Ok::<ProgramData, Error>(programs@[j])),
        decreases order.len() - k,
    {
        assert(found[k as int] == order@[k as int]@);
        proof {
            assert(found.contains(found[k as int]));
        }
        let got = zip_read_entry(&mut a, order[k].as_str());
        if got.is_err() {
            assert(!archive_reads_all(source)) by {
                let names = zip_entry_names(source);
                let idx = names.index_of(found[k as int]);
                assert(names[idx] == found[k as int]);
            }
        }
        let buf = match got {
            Ok(buf) => buf,
            Err(EntryFault::Lookup(e)) => return Err(zip_fault_at("failed to read ", order[k].as_str(), e)),
            Err(EntryFault::Read(e)) => return Err(zip_fault_at("failed to read ", order[k].as_str(), e)),
        };
        match ProgramData::from_bytes(buf.as_slice()) {
            Ok(p) => programs.push(p),
            Err(e) => {
                proof {
                    assert forall|j: int| 0 <= j < k implies entry_parses(source, #[trigger] found[j]) by {
                        assert(program_parses_as(zip_entry_data(source, found[j]), Ok::<ProgramData, Error>(programs@[j])));
                    }
                    assert(program_parses_as(zip_entry_data(source, found[k as int]), Err::<ProgramData, Error>(e)));
                    assert(library_reads_as(source, found, Err(e)));
                }
                return Err(e);
            },
        }
        k = k + 1;
    }
    Ok(programs)
}

/// The entry names of a library of `count` programs: `Prog_000.prog_bin`
/// onwards, then `FileInformation.xml`.
pub open spec fn library_names(count: nat) -> Seq<Seq<char>> {
    Seq::new(count, |i: int| prog_entry_text(i as nat)).push("FileInformation.xml"@)
}

/// The archive `b` holds the library of `programs`: the entries of
/// [`library_names`], the raw blob of each program in turn, and the
/// `FileInformation.xml` of [`library_info_text`].
pub open spec fn holds_library(b: Seq<u8>, programs: Seq<ProgramData>) -> bool {
    &&& archive_reads_all(b)
    &&& zip_entry_names(b) == library_names(programs.len())
    &&& forall|i: int| 0 <= i < programs.len() ==> zip_entry_data(b, prog_entry_text(i as nat)) == #[trigger] programs[i].spec_bytes()
    &&& zip_entry_data(b, "FileInformation.xml"@) == encode_utf8(library_info_text(programs.len()))
}

/// UTF-8 takes at most four bytes a character.
proof fn lemma_encode_utf8_len(chars: Seq<char>)
    ensures
        encode_utf8(chars).len() <= 4 * chars.len(),
    decreases chars.len(),
{
    if chars.len() > 0 {
        lemma_encode_utf8_len(chars.drop_first());
    }
}

/// The `FileInformation.xml` of a library of a `usize` count of programs
/// is at most 1024 bytes.
proof fn lemma_library_info_len(count: nat)
    requires
        count <= usize::MAX,
    ensures
        encode_utf8(library_info_text(count)).len() <= 1024,
{
    reveal_strlit("<?xml version=\"1.0\" encoding=\"UTF-8\"?>\n<KorgMSLibrarian_Data>\n<Product>minilogue xd</Product>\n<Contents NumProgramData=\"");
    reveal_strlit("\"/>\n</KorgMSLibrarian_Data>\n");
    assert(pow10(20) == 100000000000000000000) by {
        reveal_with_fuel(pow10, 21);
    }
    lemma_decimal_text_len(count, 20);
    lemma_encode_utf8_len(library_info_text(count));
}

/// The name `FileInformation.xml`: 19 ASCII characters, a plain entry name
/// that is no program's.
proof fn lemma_info_name()
    ensures
        encode_utf8("FileInformation.xml"@).len() == 19,
        is_plain_entry_name("FileInformation.xml"@),
        forall|i: nat| prog_entry_text(i) != "FileInformation.xml"@,
{
    reveal_strlit("FileInformation.xml");
    reveal_strlit("Prog_");
    assert(is_ascii_chars("FileInformation.xml"@));
    is_ascii_chars_encode_utf8("FileInformation.xml"@);
    assert forall|i: nat| prog_entry_text(i) != "FileInformation.xml"@ by {
        assert(prog_entry_text(i)[0] == 'P');
    }
}

/// The bytes of a `.mnlgxdlib` file holding `programs`: a zip archive with
/// the raw blob of program `i` in entry `Prog_<i>.prog_bin`, then a
/// `FileInformation.xml` that gives their number. Only the zip writer can
/// fail, and not for up to 800000 programs: their names are distinct and
/// their archive's load stays within [`archive_load_limit`].
pub fn write_lib_file(programs: &[ProgramData]) -> (r: Result<Vec<u8>, Error>)
    ensures
        r matches Ok(b) ==> holds_library(b@, programs@),
        r matches Err(e) ==> e is Zip,
        programs@.len() <= 800_000 ==> r is Ok,
{
    let mut w = zip_writer_new();
    let ghost entries = Seq::new(programs@.len(), |j: int| (prog_entry_text(j as nat), programs@[j].spec_bytes()));
    let ghost step: int = 1300int;
    let mut i: usize = 0;
    assert(zip_written(w) =~= entries.take(0));
    proof {
        lemma_info_name();
    }
    while i < programs.len()
        invariant
            i <= programs@.len(),
            step == 1300,
            entries == Seq::new(programs@.len(), |j: int| (prog_entry_text(j as nat), programs@[j].spec_bytes())),
            zip_written(w) == entries.take(i as int),
            programs@.len() <= 800_000 ==> archive_load(zip_written(w)) <= i * step,
            forall|k: nat| prog_entry_text(k) != "FileInformation.xml"@,
        decreases programs.len() - i,
    {
        let name = prog_entry_name(i);
        let ghost before = zip_written(w);
        proof {
            lemma_prog_entry_len(i as nat);
            lemma_base_len(programs@[i as int]);
            assert forall|j: int| 0 <= j < i implies #[trigger] written_names(before)[j] != name@ by {
                assert(written_names(before)[j] == prog_entry_text(j as nat));
                if prog_entry_text(j as nat) == prog_entry_text(i as nat) {
                    lemma_prog_entry_injective(j as nat, i as nat);
                }
            }
            if programs@.len() <= 800_000 {
                let pushed = before.push((name@, Seq::<u8>::empty()));
                assert(pushed.drop_last() =~= before);
                assert(archive_load(pushed) <= i * step + 4 * 37 + 128);
                assert(i * step + step <= 800_000 * step) by (nonlinear_arith)
                    requires
                        i < 800_000,
                        step > 0,
                ;
            }
        }
        if let Err(e) = zip_start_entry(&mut w, name.as_str()) {
            return Err(zip_fault_at("failed to create entry ", name.as_str(), e));
        }
        let raw = programs[i].to_bytes();
        proof {
            let full = before.push((name@, raw@));
            assert(zip_written(w).drop_last().push((zip_written(w).last().0, zip_written(w).last().1 + raw@)) =~= full);
            assert(full.drop_last() =~= before);
        }
        if let Err(e) = zip_write_all(&mut w, raw.as_slice()) {
            return Err(zip_fault_at("failed to write ", name.as_str(), e));
        }
        assert(Seq::<u8>::empty() + raw@ =~= raw@);
        assert(zip_written(w) =~= entries.take(i + 1));
        assert(zip_written(w).drop_last() =~= before);
        i = i + 1;
    }
    let info = "FileInformation.xml";
    let ghost before = zip_written(w);
    let ghost xml_bytes = encode_utf8(library_info_text(programs@.len()));
    proof {
        reveal_strlit("FileInformation.xml");
        lemma_library_info_len(programs@.len());
        assert(entries.take(programs@.len() as int) =~= entries);
        assert forall|j: int| 0 <= j < before.len() implies #[trigger] written_names(before)[j] != info@ by {
            assert(written_names(before)[j] == prog_entry_text(j as nat));
        }
        let pushed = before.push((info@, Seq::<u8>::empty()));
        assert(pushed.drop_last() =~= before);
        let full = before.push((info@, xml_bytes));
        assert(full.drop_last() =~= before);
        if programs@.len() <= 800_000 {
            assert(programs@.len() * step <= 800_000 * step) by (nonlinear_arith)
                requires
                    programs@.len() <= 800_000,
                    step > 0,
            ;
        }
    }
    if let Err(e) = zip_start_entry(&mut w, info) {
        return Err(zip_fault("failed to create FileInformation.xml", e));
    }
    let xml = library_info_xml(programs.len());
    proof {
        assert(zip_written(w).drop_last().push((zip_written(w).last().0, zip_written(w).last().1 + xml_bytes))
            =~= before.push((info@, xml_bytes)));
    }
    if let Err(e) = zip_write_all(&mut w, xml.as_str().as_bytes()) {
        return Err(zip_fault("failed to write FileInformation.xml", e));
    }
    let ghost written = zip_written(w);
    proof {
        assert(Seq::<u8>::empty() + xml_bytes =~= xml_bytes);
        assert(written =~= entries.push(("FileInformation.xml"@, xml_bytes)));
        assert(written.drop_last() =~= before);
        assert forall|j: int| 0 <= j < written.len() implies is_plain_entry_name(#[trigger] written[j].0) by {
            if j < programs@.len() {
                lemma_prog_entry_plain(j as nat);
            } else {
                assert(written[j].0 == "FileInformation.xml"@);
            }
        }
        assert(written_names(written) =~= library_names(programs@.len() as nat));
    }
    match zip_finish(w) {
        Ok(b) => {
            proof {
                assert forall|j: int| 0 <= j < programs@.len() implies zip_entry_data(b@, prog_entry_text(j as nat))
                    == #[trigger] programs@[j].spec_bytes() by {
                    assert(written[j].0 == prog_entry_text(j as nat));
                }
                assert(written[programs@.len() as int].0 == "FileInformation.xml"@);
            }
            Ok(b)
        },
        Err(e) => Err(zip_fault("failed to finalize archive", e)),
    }
}

// ---------------------------------------------------------------------------
// Round trips
// ---------------------------------------------------------------------------

/// A written `.mnlgxdprog` file reads back as the program written: a
/// program with the same synth and sequencer parameters (for synth
/// parameters in range).
pub proof fn lemma_prog_file_round_trip(data: ProgramData, b: Seq<u8>, r: Result<ProgramData, Error>)
    requires
        synth_in_range(data.synth_of()),
        holds_program(b, data),
        prog_file_reads_as(b, r),
    ensures
        r matches Ok(e) && e.synth_of() == data.synth_of() && e.sequencer_of() == data.sequencer_of(),
{
    assert(zip_entry_names(b)[0] == prog_entry_text(0));
    assert(zip_entry_names(b).contains(prog_entry_text(0)));
    lemma_program_round_trip(data, r);
}

/// The entry name of program `i < 1000` spelled out: `Prog_`, three digits,
/// `.prog_bin`.
proof fn lemma_prog_entry_digits(i: nat)
    requires
        i < 1000,
    ensures
        prog_entry_text(i) == "Prog_"@ + seq![digit_char(i / 100), digit_char((i / 10) % 10), digit_char(i % 10)]
            + ".prog_bin"@,
{
    reveal_strlit("00");
    reveal_strlit("0");
    reveal_strlit("");
    let d = seq![digit_char(i / 100), digit_char((i / 10) % 10), digit_char(i % 10)];
    if i < 10 {
        assert(("00"@ + decimal_text(i)) =~= d);
    } else if i < 100 {
        assert(decimal_text(i / 10) == seq![digit_char(i / 10)]);
        assert(("0"@ + decimal_text(i)) =~= d);
    } else {
        assert(i / 10 / 10 == i / 100);
        assert(decimal_text(i / 10 / 10) == seq![digit_char(i / 100)]);
        assert(decimal_text(i / 10) =~= seq![digit_char(i / 100), digit_char((i / 10) % 10)]);
        assert((""@ + decimal_text(i)) =~= d);
    }
    assert(prog_entry_text(i) =~= "Prog_"@ + d + ".prog_bin"@);
}

/// Byte order from the first position where two sequences differ.
proof fn lemma_bytes_lt_at(a: Seq<u8>, b: Seq<u8>, k: int)
    requires
        0 <= k < a.len(),
        k < b.len(),
        forall|m: int| 0 <= m < k ==> a[m] == b[m],
        a[k] < b[k],
    ensures
        bytes_lt(a, b),
    decreases k,
{
    if k > 0 {
        lemma_bytes_lt_at(a.drop_first(), b.drop_first(), k - 1);
    }
}

/// The UTF-8 bytes of program `i`'s entry name.
proof fn lemma_prog_entry_bytes(i: nat)
    requires
        i < 1000,
    ensures
        encode_utf8(prog_entry_text(i)).len() == 17,
        encode_utf8(prog_entry_text(i)).subrange(0, 5) == encode_utf8(prog_entry_text(0)).subrange(0, 5),
        encode_utf8(prog_entry_text(i))[5] == 48 + i / 100,
        encode_utf8(prog_entry_text(i))[6] == 48 + (i / 10) % 10,
        encode_utf8(prog_entry_text(i))[7] == 48 + i % 10,
        encode_utf8(prog_entry_text(i)).subrange(8, 17) == prog_suffix(),
{
    reveal_strlit("Prog_");
    reveal_strlit(".prog_bin");
    lemma_prog_entry_digits(i);
    lemma_prog_entry_digits(0);
    lemma_prog_entry_plain(i);
    lemma_prog_entry_plain(0);
    let t = prog_entry_text(i);
    let z = prog_entry_text(0);
    is_ascii_chars_encode_utf8(t);
    is_ascii_chars_encode_utf8(z);
    assert(t.len() == 17);
    assert(encode_utf8(t).subrange(0, 5) =~= encode_utf8(z).subrange(0, 5)) by {
        assert forall|m: int| 0 <= m < 5 implies encode_utf8(t)[m] == encode_utf8(z)[m] by {
            assert(t[m] == z[m]);
        }
    }
    assert(t[5] == digit_char(i / 100));
    assert(t[6] == digit_char((i / 10) % 10));
    assert(t[7] == digit_char(i % 10));
    assert(encode_utf8(t).subrange(8, 17) =~= prog_suffix()) by {
        assert forall|m: int| 8 <= m < 17 implies encode_utf8(t)[m] == prog_suffix()[m - 8] by {
            assert(t[m] == ".prog_bin"@[m - 8]);
        }
    }
}

/// Program entry names below 1000 come in the order of their numbers.
proof fn lemma_prog_entries_ascend(i: nat, j: nat)
    requires
        i < j < 1000,
    ensures
        name_lt(prog_entry_text(i), prog_entry_text(j)),
{
    lemma_prog_entry_bytes(i);
    lemma_prog_entry_bytes(j);
    let a = encode_utf8(prog_entry_text(i));
    let b = encode_utf8(prog_entry_text(j));
    assert forall|m: int| 0 <= m < 5 implies a[m] == b[m] by {
        assert(a[m] == a.subrange(0, 5)[m] && b[m] == b.subrange(0, 5)[m]);
    }
    assert(i / 100 <= j / 100) by (nonlinear_arith)
        requires
            i < j,
    ;
    if i / 100 < j / 100 {
        lemma_bytes_lt_at(a, b, 5);
    } else {
        assert((i / 10) % 10 <= (j / 10) % 10) by (nonlinear_arith)
            requires
                i < j,
                i / 100 == j / 100,
        ;
        if (i / 10) % 10 < (j / 10) % 10 {
            lemma_bytes_lt_at(a, b, 6);
        } else {
            assert(i % 10 < j % 10) by (nonlinear_arith)
                requires
                    i < j,
                    i / 100 == j / 100,
                    (i / 10) % 10 == (j / 10) % 10,
            ;
            lemma_bytes_lt_at(a, b, 7);
        }
    }
}


/// The program entries of a library of at most 1000 programs, in name
/// order, are its program entries in the order written.
proof fn lemma_library_order(count: nat)
    requires
        count <= 1000,
    ensures
        program_order(library_names(count)) == Seq::new(count, |i: int| prog_entry_text(i as nat)),
{
    let names = library_names(count);
    let order = Seq::new(count, |i: int| prog_entry_text(i as nat));
    let info = "FileInformation.xml"@;
    assert(!is_prog_name(info)) by {
        reveal_strlit("FileInformation.xml");
        assert(is_ascii_chars(info));
        is_ascii_chars_encode_utf8(info);
        let e = encode_utf8(info);
        assert(e.len() == 19);
        assert(e.subrange(10, 19)[0] == 0x61);
    }
    assert forall|i: int, j: int| 0 <= i < j < order.len() implies name_lt(#[trigger] order[i], #[trigger] order[j]) by {
        lemma_prog_entries_ascend(i as nat, j as nat);
    }
    assert forall|x: Seq<char>| #[trigger] order.contains(x) <==> (names.contains(x) && is_prog_name(x)) by {
        if order.contains(x) {
            let k = order.index_of(x);
            lemma_prog_entry_bytes(k as nat);
            assert(names[k] == x);
        }
        if names.contains(x) && is_prog_name(x) {
            let k = names.index_of(x);
            if k < count {
                assert(order[k] == x);
            } else {
                assert(x == info);
            }
        }
    }
    assert(is_program_order(names, order));
    let chosen = program_order(names);
    lemma_program_order_unique(names, chosen, order);
}

/// A written `.mnlgxdlib` file of at most 1000 programs reads back as the
/// programs written, in the order written: one program per program
/// written, each with the same synth and sequencer parameters (for synth
/// parameters in range).
pub proof fn lemma_lib_file_round_trip(programs: Seq<ProgramData>, b: Seq<u8>, r: Result<Vec<ProgramData>, Error>)
    requires
        programs.len() <= 1000,
        forall|i: int| 0 <= i < programs.len() ==> synth_in_range(#[trigger] programs[i].synth_of()),
        holds_library(b, programs),
        lib_file_reads_as(b, r),
    ensures
        r matches Ok(ps) && ps@.len() == programs.len() && forall|i: int|
            0 <= i < programs.len() ==> (#[trigger] ps@[i]).synth_of() == programs[i].synth_of() && ps@[i].sequencer_of()
                == programs[i].sequencer_of(),
{
    lemma_library_order(programs.len());
    let order = Seq::new(programs.len(), |i: int| prog_entry_text(i as nat));
    assert(library_reads_as(b, order, r));
    match r {
        Ok(ps) => {
            assert forall|i: int| 0 <= i < programs.len() implies (#[trigger] ps@[i]).synth_of() == programs[i].synth_of()
                && ps@[i].sequencer_of() == programs[i].sequencer_of() by {
                assert(order[i] == prog_entry_text(i as nat));
                assert(zip_entry_data(b, order[i]) == programs[i].spec_bytes());
                lemma_program_round_trip(programs[i], Ok(ps@[i]));
            }
        },
        Err(e) => {
            let k = choose|k: int|
                0 <= k < order.len() && program_parses_as(zip_entry_data(b, order[k]), Err::<ProgramData, Error>(e))
                    && forall|i: int| 0 <= i < k ==> entry_parses(b, #[trigger] order[i]);
            assert(order[k] == prog_entry_text(k as nat));
            assert(zip_entry_data(b, order[k]) == programs[k].spec_bytes());
            lemma_program_round_trip(programs[k], Err(e));
        },
    }
}


/// Ten to the power `k`.
pub open spec fn pow10(k: nat) -> nat
    decreases k,
{
    if k == 0 {
        1
    } else {
        10 * pow10((k - 1) as nat)
    }
}

/// A number below ten to the power `k` has at most `k` decimal digits.
proof fn lemma_decimal_text_len(n: nat, k: nat)
    requires
        k >= 1,
        n < pow10(k),
    ensures
        decimal_text(n).len() <= k,
    decreases k,
{
    if n >= 10 {
        assert(k >= 2) by {
            if k == 1 {
                assert(pow10(1) == 10) by {
                    reveal_with_fuel(pow10, 2);
                }
            }
        }
        assert(n / 10 < pow10((k - 1) as nat));
        lemma_decimal_text_len(n / 10, (k - 1) as nat);
    }
}

/// The entry name of a program numbered by a `usize` is at most 37 ASCII
/// characters, and 17 below 1000.
proof fn lemma_prog_entry_len(index: nat)
    requires
        index <= usize::MAX,
    ensures
        encode_utf8(prog_entry_text(index)).len() == prog_entry_text(index).len(),
        prog_entry_text(index).len() <= 37,
        index < 1000 ==> prog_entry_text(index).len() == 17,
{
    reveal_strlit("Prog_");
    reveal_strlit("00");
    reveal_strlit("0");
    reveal_strlit("");
    reveal_strlit(".prog_bin");
    lemma_prog_entry_plain(index);
    is_ascii_chars_encode_utf8(prog_entry_text(index));
    assert(pow10(20) == 100000000000000000000) by {
        reveal_with_fuel(pow10, 21);
    }
    lemma_decimal_text_len(index, 20);
    if index < 1000 {
        lemma_prog_entry_digits(index);
    }
}


/// The number that a string of decimal digits stands for.
pub open spec fn digits_value(s: Seq<char>) -> nat
    decreases s.len(),
{
    if s.len() == 0 {
        0
    } else {
        digits_value(s.drop_last()) * 10 + ((s.last() as u32) - 48) as nat
    }
}

/// The decimal digits of `n` stand for `n`.
proof fn lemma_decimal_text_value(n: nat)
    ensures
        digits_value(decimal_text(n)) == n,
    decreases n,
{
    let d = n % 10;
    assert((digit_char(d) as u32) == 48 + d);
    assert(decimal_text(n).last() == digit_char(d));
    let t = decimal_text(n);
    assert(((t.last() as u32) - 48) as nat == d);
    if n < 10 {
        assert(t.drop_last() =~= Seq::<char>::empty());
        assert(digits_value(t) == digits_value(t.drop_last()) * 10 + d);
    } else {
        lemma_decimal_text_value(n / 10);
        assert(t.drop_last() =~= decimal_text(n / 10));
        assert(digits_value(t) == (n / 10) * 10 + d);
        assert((n / 10) * 10 + n % 10 == n);
    }
}

/// Zeros in front of digits do not change the number they stand for.
proof fn lemma_leading_zeros(z: Seq<char>, s: Seq<char>)
    requires
        forall|i: int| 0 <= i < z.len() ==> z[i] == '0',
    ensures
        digits_value(z + s) == digits_value(s),
    decreases z.len() + s.len(),
{
    if s.len() == 0 {
        assert(z + s =~= z);
        if z.len() > 0 {
            lemma_leading_zeros(z.drop_last(), s);
            assert(z.drop_last() + s =~= z.drop_last());
        }
    } else {
        assert((z + s).drop_last() =~= z + s.drop_last());
        lemma_leading_zeros(z, s.drop_last());
    }
}

/// Distinct program numbers have distinct entry names.
proof fn lemma_prog_entry_injective(i: nat, j: nat)
    requires
        prog_entry_text(i) == prog_entry_text(j),
    ensures
        i == j,
{
    reveal_strlit("Prog_");
    reveal_strlit("00");
    reveal_strlit("0");
    reveal_strlit("");
    reveal_strlit(".prog_bin");
    let pad = |n: nat| if n < 10 {
        "00"@
    } else if n < 100 {
        "0"@
    } else {
        ""@
    };
    let mi = pad(i) + decimal_text(i);
    let mj = pad(j) + decimal_text(j);
    assert(prog_entry_text(i) =~= "Prog_"@ + mi + ".prog_bin"@);
    assert(prog_entry_text(j) =~= "Prog_"@ + mj + ".prog_bin"@);
    let t = prog_entry_text(i);
    assert(mi =~= t.subrange(5, t.len() - 9));
    assert(mj =~= t.subrange(5, t.len() - 9));
    lemma_leading_zeros(pad(i), decimal_text(i));
    lemma_leading_zeros(pad(j), decimal_text(j));
    lemma_decimal_text_value(i);
    lemma_decimal_text_value(j);
}

} // verus!
