//! Korg 7-bit SysEx codec.
//!
//! Every group of 7 data bytes travels as 8 wire bytes: the first wire byte
//! holds bit 7 of each data byte of the group (bit `i` for data byte `i`),
//! the following wire bytes hold the data bytes with bit 7 cleared. A final
//! partial group of `n` bytes takes `n + 1` wire bytes.

use vstd::prelude::*;

use crate::error::{high_bit_message, high_bit_text, Error};

verus! {

/// The high-bit byte of a group: bit `i` is bit 7 of `chunk[i]`, for the
/// first `n` bytes of the chunk.
pub open spec fn msb_byte(chunk: Seq<u8>, n: nat) -> u8
    decreases n,
{
    if n == 0 {
        0
    } else {
        let rest = msb_byte(chunk, (n - 1) as nat);
        if chunk[n - 1] & 0x80 != 0 {
            rest | (1u8 << ((n - 1) as u8))
        } else {
            rest
        }
    }
}

/// The wire bytes of one group of at most 7 data bytes.
pub open spec fn encode_group(chunk: Seq<u8>) -> Seq<u8> {
    seq![msb_byte(chunk, chunk.len())] + chunk.map_values(|b: u8| b & 0x7F)
}

/// The Korg 7-bit encoding of `data`.
pub open spec fn spec_encode_7bit(data: Seq<u8>) -> Seq<u8>
    decreases data.len(),
{
    if data.len() == 0 {
        Seq::empty()
    } else if data.len() <= 7 {
        encode_group(data)
    } else {
        encode_group(data.take(7)) + spec_encode_7bit(data.skip(7))
    }
}

/// The number of wire bytes that `n` data bytes take.
pub open spec fn encoded_len(n: nat) -> nat {
    (n / 7) * 8 + if n % 7 > 0 { n % 7 + 1 } else { 0 }
}

/// The encoding has the documented length: `8` wire bytes per full group
/// and `n + 1` for a final partial group of `n` bytes.
pub proof fn lemma_encode_len(data: Seq<u8>)
    ensures
        spec_encode_7bit(data).len() == encoded_len(data.len()),
    decreases data.len(),
{
    if data.len() > 7 {
        lemma_encode_len(data.skip(7));
        assert(data.skip(7).len() == data.len() - 7);
        assert((data.len() - 7) as nat / 7 == data.len() / 7 - 1);
        assert((data.len() - 7) as nat % 7 == data.len() % 7);
    }
}

proof fn lemma_encode_step(data: Seq<u8>, start: int)
    requires
        0 <= start < data.len(),
    ensures
        ({
            let end = if data.len() - start > 7 { start + 7 } else { data.len() as int };
            spec_encode_7bit(data.skip(start)) == encode_group(data.subrange(start, end))
                + spec_encode_7bit(data.skip(end))
        }),
{
    let rest = data.skip(start);
    if data.len() - start > 7 {
        assert(rest.take(7) =~= data.subrange(start, start + 7));
        assert(rest.skip(7) =~= data.skip(start + 7));
    } else {
        assert(rest =~= data.subrange(start, data.len() as int));
        assert(data.skip(data.len() as int) =~= Seq::<u8>::empty());
        assert(encode_group(rest) + Seq::<u8>::empty() =~= encode_group(rest));
    }
}

/// Encode 8-bit data to the Korg 7-bit SysEx wire format.
///
/// Every group of 7 input bytes becomes 8 wire bytes; a final partial group
/// of `n` bytes becomes `n + 1` wire bytes. Any byte sequence can be encoded.
pub fn encode_7bit(data: &[u8]) -> (wire: Vec<u8>)
    ensures
        wire@ == spec_encode_7bit(data@),
        wire@.len() == encoded_len(data@.len()),
{
    let n = data.len();
    let mut out: Vec<u8> = Vec::new();
    let mut start: usize = 0;
    assert(data@.skip(0) =~= data@);
    while start < n
        invariant
            start <= n,
            n == data@.len(),
            spec_encode_7bit(data@) == out@ + spec_encode_7bit(data@.skip(start as int)),
        decreases n - start,
    {
        let end: usize = if n - start > 7 { start + 7 } else { n };
        let ghost chunk = data@.subrange(start as int, end as int);
        proof {
            lemma_encode_step(data@, start as int);
        }
        let mut msb: u8 = 0;
        let mut i: usize = start;
        while i < end
            invariant
                start <= i <= end,
                end <= n,
                end - start <= 7,
                n == data@.len(),
                chunk == data@.subrange(start as int, end as int),
                msb == msb_byte(chunk, (i - start) as nat),
            decreases end - i,
        {
            let b = data[i];
            let k: u8 = (i - start) as u8;
            assert(chunk[k as int] == b);
            if b & 0x80 != 0 {
                msb = msb | (1u8 << k);
            }
            i = i + 1;
        }
        let ghost before = out@;
        out.push(msb);
        i = start;
        while i < end
            invariant
                start <= i <= end,
                end <= n,
                n == data@.len(),
                chunk == data@.subrange(start as int, end as int),
                out@ == before + seq![msb_byte(chunk, chunk.len())]
                    + chunk.take((i - start) as int).map_values(|b: u8| b & 0x7F),
            decreases end - i,
        {
            let ghost prev = out@;
            out.push(data[i] & 0x7F);
            assert(chunk.take((i + 1 - start) as int).map_values(|b: u8| b & 0x7F)
                =~= chunk.take((i - start) as int).map_values(|b: u8| b & 0x7F).push(data@[i as int] & 0x7F));
            i = i + 1;
        }
        assert(chunk.take(chunk.len() as int) =~= chunk);
        assert(out@ =~= before + encode_group(chunk));
        start = end;
    }
    assert(data@.skip(n as int) =~= Seq::<u8>::empty());
    assert(out@ =~= out@ + Seq::<u8>::empty());
    proof {
        lemma_encode_len(data@);
    }
    out
}

/// Every wire byte has bit 7 clear, as MIDI SysEx data bytes must.
pub open spec fn all_seven_bit(wire: Seq<u8>) -> bool {
    forall|i: int| 0 <= i < wire.len() ==> #[trigger] wire[i] & 0x80 == 0
}

/// `pos` is the first offset whose wire byte has bit 7 set.
pub open spec fn is_first_high_bit(wire: Seq<u8>, pos: int) -> bool {
    &&& 0 <= pos < wire.len()
    &&& wire[pos] & 0x80 != 0
    &&& forall|j: int| 0 <= j < pos ==> #[trigger] wire[j] & 0x80 == 0
}

/// `e` is the codec error that names the first wire byte of `wire` with its
/// high bit set.
pub open spec fn is_codec_error(wire: Seq<u8>, e: Error) -> bool {
    e matches Error::Codec(m) && exists|pos: int|
        #[trigger] is_first_high_bit(wire, pos) && m@ == high_bit_text(pos as usize, wire[pos])
}

/// The data bytes of one wire group: low bits from `lows`, bit 7 of data
/// byte `j` from bit `j` of `msb`.
pub open spec fn decode_group(msb: u8, lows: Seq<u8>) -> Seq<u8> {
    Seq::new(
        lows.len(),
        |j: int| lows[j] | (if msb & (1u8 << (j as u8)) != 0 { 0x80u8 } else { 0u8 }),
    )
}

/// The data bytes that the wire bytes `wire` decode to.
pub open spec fn spec_decode_7bit(wire: Seq<u8>) -> Seq<u8>
    decreases wire.len(),
{
    if wire.len() == 0 {
        Seq::empty()
    } else if wire.len() <= 8 {
        decode_group(wire[0], wire.subrange(1, wire.len() as int))
    } else {
        decode_group(wire[0], wire.subrange(1, 8)) + spec_decode_7bit(wire.skip(8))
    }
}

proof fn lemma_decode_step(wire: Seq<u8>, pos: int)
    requires
        0 <= pos < wire.len(),
    ensures
        ({
            let end = if wire.len() - pos > 8 { pos + 8 } else { wire.len() as int };
            spec_decode_7bit(wire.skip(pos)) == decode_group(wire[pos], wire.subrange(pos + 1, end))
                + spec_decode_7bit(wire.skip(end))
        }),
{
    let rest = wire.skip(pos);
    if wire.len() - pos > 8 {
        assert(rest.subrange(1, 8) =~= wire.subrange(pos + 1, pos + 8));
        assert(rest.skip(8) =~= wire.skip(pos + 8));
    } else {
        assert(rest.subrange(1, rest.len() as int) =~= wire.subrange(pos + 1, wire.len() as int));
        assert(wire.skip(wire.len() as int) =~= Seq::<u8>::empty());
        let g = decode_group(wire[pos], wire.subrange(pos + 1, wire.len() as int));
        assert(g + Seq::<u8>::empty() =~= g);
    }
}

/// Decode Korg 7-bit SysEx wire format back to 8-bit data.
///
/// Fails with [`Error::Codec`] when a wire byte has bit 7 set, naming the
/// first such byte; all valid wire bytes are in 0x00..=0x7F.
pub fn decode_7bit(data: &[u8]) -> (r: Result<Vec<u8>, Error>)
    ensures
        match r {
            Ok(v) => all_seven_bit(data@) && v@ == spec_decode_7bit(data@),
            Err(e) => !all_seven_bit(data@) && is_codec_error(data@, e),
        },
{
    if data.is_empty() {
        return Ok(Vec::new());
    }
    let n = data.len();
    let mut pos: usize = 0;
    while pos < n
        invariant
            pos <= n,
            n == data@.len(),
            forall|j: int| 0 <= j < pos ==> #[trigger] data@[j] & 0x80 == 0,
        decreases n - pos,
    {
        let b = data[pos];
        if b & 0x80 != 0 {
            assert(is_first_high_bit(data@, pos as int));
            return Err(Error::Codec(high_bit_message(pos, b)));
        }
        pos = pos + 1;
    }
    let mut out: Vec<u8> = Vec::new();
    pos = 0;
    assert(data@.skip(0) =~= data@);
    while pos < n
        invariant
            pos <= n,
            n == data@.len(),
            spec_decode_7bit(data@) == out@ + spec_decode_7bit(data@.skip(pos as int)),
        decreases n - pos,
    {
        proof {
            lemma_decode_step(data@, pos as int);
        }
        let msb = data[pos];
        let start = pos + 1;
        let group_len: usize = if n - start > 7 { 7 } else { n - start };
        let ghost lows = data@.subrange(start as int, (start + group_len) as int);
        let ghost before = out@;
        let mut i: usize = 0;
        while i < group_len
            invariant
                i <= group_len <= 7,
                start + group_len <= n,
                n == data@.len(),
                lows == data@.subrange(start as int, (start + group_len) as int),
                out@ == before + decode_group(msb, lows).take(i as int),
            decreases group_len - i,
        {
            let lo = data[start + i];
            let hi: u8 = if msb & (1u8 << (i as u8)) != 0 { 0x80 } else { 0x00 };
            out.push(lo | hi);
            assert(decode_group(msb, lows).take(i + 1) =~= decode_group(msb, lows).take(i as int).push(lo | hi));
            i = i + 1;
        }
        assert(decode_group(msb, lows).take(group_len as int) =~= decode_group(msb, lows));
        pos = start + group_len;
    }
    assert(data@.skip(n as int) =~= Seq::<u8>::empty());
    assert(out@ =~= out@ + Seq::<u8>::empty());
    Ok(out)
}

proof fn lemma_or_bit(x: u8, k: u8, j: u8)
    by (bit_vector)
    requires
        k < 7,
        j < 7,
        x < (1u8 << k),
    ensures
        ((x | (1u8 << k)) & (1u8 << j) != 0) == (j == k || x & (1u8 << j) != 0),
        (x | (1u8 << k)) < (1u8 << ((k + 1) as u8)),
        x < (1u8 << ((k + 1) as u8)),
        x & (1u8 << k) == 0,
{
}

proof fn lemma_msb_bits(chunk: Seq<u8>, n: nat)
    requires
        n <= 7,
        n <= chunk.len(),
    ensures
        msb_byte(chunk, n) < (1u8 << (n as u8)),
        forall|j: u8| j < n ==> ((msb_byte(chunk, n) & (1u8 << j) != 0) == (#[trigger] chunk[j as int] & 0x80 != 0)),
    decreases n,
{
    if n > 0 {
        let k = (n - 1) as u8;
        let x = msb_byte(chunk, (n - 1) as nat);
        lemma_msb_bits(chunk, (n - 1) as nat);
        assert forall|j: u8| j < n implies ((msb_byte(chunk, n) & (1u8 << j) != 0) == (#[trigger] chunk[j as int] & 0x80 != 0)) by {
            lemma_or_bit(x, k, j);
        }
        lemma_or_bit(x, k, 0);
    } else {
        assert(msb_byte(chunk, 0) == 0);
        assert((0u8) < (1u8 << 0u8)) by (bit_vector);
    }
}

proof fn lemma_byte_split(b: u8)
    ensures
        ((b & 0x7F) | (if b & 0x80 != 0 { 0x80u8 } else { 0u8 })) == b,
        (b & 0x7F) & 0x80 == 0,
        (1u8 << 7u8) == 0x80,
{
    assert(((b & 0x7F) | (if b & 0x80 != 0 { 0x80u8 } else { 0u8 })) == b && (b & 0x7F) & 0x80 == 0 && (1u8 << 7u8) == 0x80)
        by (bit_vector);
}

proof fn lemma_group_round_trip(chunk: Seq<u8>)
    requires
        0 < chunk.len() <= 7,
    ensures
        ({
            let g = encode_group(chunk);
            &&& g.len() == chunk.len() + 1
            &&& all_seven_bit(g)
            &&& decode_group(g[0], g.subrange(1, g.len() as int)) == chunk
        }),
{
    let g = encode_group(chunk);
    lemma_msb_bits(chunk, chunk.len());
    let n = chunk.len();
    assert((1u8 << (n as u8)) <= 0x80) by {
        assert(n as u8 <= 7);
        let m = n as u8;
        assert(m <= 7 ==> (1u8 << m) <= 0x80) by (bit_vector);
    }
    assert forall|i: int| 0 <= i < g.len() implies #[trigger] g[i] & 0x80 == 0 by {
        if i == 0 {
            let x = msb_byte(chunk, n);
            assert(x < 0x80 ==> x & 0x80 == 0) by (bit_vector);
        } else {
            lemma_byte_split(chunk[i - 1]);
        }
    }
    let d = decode_group(g[0], g.subrange(1, g.len() as int));
    assert forall|j: int| 0 <= j < n implies #[trigger] d[j] == chunk[j] by {
        lemma_byte_split(chunk[j]);
        assert(chunk[(j as u8) as int] == chunk[j]);
    }
    assert(d =~= chunk);
}

/// Decoding what [`encode_7bit`] produced gives back the original data, and
/// every encoded byte is a valid 7-bit SysEx data byte.
pub proof fn lemma_encode_decode_round_trip(data: Seq<u8>)
    ensures
        all_seven_bit(spec_encode_7bit(data)),
        spec_decode_7bit(spec_encode_7bit(data)) == data,
    decreases data.len(),
{
    if data.len() == 0 {
    } else if data.len() <= 7 {
        lemma_group_round_trip(data);
    } else {
        let head = data.take(7);
        let tail = data.skip(7);
        lemma_group_round_trip(head);
        lemma_encode_decode_round_trip(tail);
        let g = encode_group(head);
        let w = spec_encode_7bit(data);
        assert(w == g + spec_encode_7bit(tail));
        assert(w.skip(8) =~= spec_encode_7bit(tail));
        assert(w.subrange(1, 8) =~= g.subrange(1, 8));
        assert forall|i: int| 0 <= i < w.len() implies #[trigger] w[i] & 0x80 == 0 by {
            if i < 8 {
                assert(w[i] == g[i]);
            } else {
                assert(w[i] == spec_encode_7bit(tail)[i - 8]);
            }
        }
        assert(head + tail =~= data);
    }
}


/// The bits of a high-bit byte at or above `m` are clear.
proof fn lemma_msb_byte_high(chunk: Seq<u8>, m: nat, k: nat)
    requires
        m <= k < 8,
        m <= chunk.len(),
    ensures
        msb_byte(chunk, m) & (1u8 << (k as u8)) == 0,
    decreases m,
{
    let b0 = k as u8;
    assert(b0 < 8 ==> 0u8 & (1u8 << b0) == 0) by (bit_vector);
    if m > 0 {
        lemma_msb_byte_high(chunk, (m - 1) as nat, k);
        let rest = msb_byte(chunk, (m - 1) as nat);
        let a = (m - 1) as u8;
        let b = k as u8;
        assert(a < b && b < 8 && rest & (1u8 << b) == 0 ==> (rest | (1u8 << a)) & (1u8 << b) == 0) by (bit_vector);
    }
}

/// Bit `j` of the high-bit byte of a group is bit 7 of its byte `j`.
proof fn lemma_msb_byte_bit(chunk: Seq<u8>, n: nat, j: nat)
    requires
        j < n <= 8,
        n <= chunk.len(),
    ensures
        (msb_byte(chunk, n) & (1u8 << (j as u8)) != 0) == (chunk[j as int] & 0x80 != 0),
    decreases n,
{
    let rest = msb_byte(chunk, (n - 1) as nat);
    let a = (n - 1) as u8;
    let b = j as u8;
    if j == n - 1 {
        lemma_msb_byte_high(chunk, (n - 1) as nat, j);
        assert(b < 8 && rest & (1u8 << b) == 0 ==> (rest | (1u8 << b)) & (1u8 << b) != 0) by (bit_vector);
    } else {
        lemma_msb_byte_bit(chunk, (n - 1) as nat, j);
        assert(a < 8 && b < 8 && a != b ==> (rest | (1u8 << a)) & (1u8 << b) == rest & (1u8 << b)) by (bit_vector);
    }
}

/// The first group of the encoding of `data`: wire byte `1 + j` is data
/// byte `j` with bit 7 cleared, and bit `j` of wire byte 0 is its bit 7.
proof fn lemma_encode_first_group(data: Seq<u8>, i: int)
    requires
        0 <= i < data.len(),
        i < 7,
    ensures
        spec_encode_7bit(data)[1 + i] == data[i] & 0x7F,
        (spec_encode_7bit(data)[0] & (1u8 << (i as u8)) != 0) == (data[i] & 0x80 != 0),
{
    let chunk = if data.len() <= 7 { data } else { data.take(7) };
    let g = encode_group(chunk);
    assert(chunk[i] == data[i]);
    lemma_msb_byte_bit(chunk, chunk.len(), i as nat);
    if data.len() > 7 {
        assert(spec_encode_7bit(data) == g + spec_encode_7bit(data.skip(7)));
    }
    assert(spec_encode_7bit(data)[1 + i] == g[1 + i]);
    assert(spec_encode_7bit(data)[0] == g[0]);
}

/// After the first full group, the encoding of `data` is that of the rest.
proof fn lemma_encode_rest(data: Seq<u8>, x: int)
    requires
        data.len() > 7,
        0 <= x < spec_encode_7bit(data.skip(7)).len(),
    ensures
        spec_encode_7bit(data)[8 + x] == spec_encode_7bit(data.skip(7))[x],
{
    let g = encode_group(data.take(7));
    assert(g.len() == 8);
    assert(spec_encode_7bit(data) == g + spec_encode_7bit(data.skip(7)));
}

/// The layout of the Korg 7-bit encoding (MIDI implementation, note 1):
/// data byte `i`, in group `g = i / 7` at place `j = i % 7`, travels as
/// wire byte `8g + 1 + j` with bit 7 cleared, and its bit 7 as bit `j` of
/// wire byte `8g`.
pub proof fn lemma_encode_layout(data: Seq<u8>, i: int)
    requires
        0 <= i < data.len(),
    ensures
        spec_encode_7bit(data)[8 * (i / 7) + 1 + i % 7] == data[i] & 0x7F,
        (spec_encode_7bit(data)[8 * (i / 7)] & (1u8 << ((i % 7) as u8)) != 0) == (data[i] & 0x80 != 0),
    decreases i,
{
    if i < 7 {
        assert(i / 7 == 0 && i % 7 == i);
        lemma_encode_first_group(data, i);
    } else {
        let rest = data.skip(7);
        let i2 = i - 7;
        assert(rest[i2] == data[i]);
        assert(i / 7 == i2 / 7 + 1 && i % 7 == i2 % 7);
        lemma_encode_layout(rest, i2);
        lemma_encode_len(rest);
        assert(8 * (i2 / 7) + 1 + i2 % 7 < spec_encode_7bit(rest).len()) by {
            assert(encoded_len(rest.len()) == (rest.len() / 7) * 8 + if rest.len() % 7 > 0 { rest.len() % 7 + 1 } else { 0 });
            assert(i2 / 7 < rest.len() / 7 || (i2 / 7 == rest.len() / 7 && i2 % 7 < rest.len() % 7)) by (nonlinear_arith)
                requires
                    0 <= i2 < rest.len(),
            ;
        }
        lemma_encode_rest(data, 8 * (i2 / 7) + 1 + i2 % 7);
        lemma_encode_rest(data, 8 * (i2 / 7));
        assert(8 * (i / 7) == 8 + 8 * (i2 / 7));
    }
}


/// The layout that the 7-bit decoding reads: wire byte `8g + 1 + j` (with
/// `j < 7`) gives data byte `7g + j`, whose bit 7 is bit `j` of wire byte
/// `8g`.
pub proof fn lemma_decode_layout(wire: Seq<u8>, g: int, j: int)
    requires
        0 <= g,
        0 <= j < 7,
        8 * g + 1 + j < wire.len(),
    ensures
        7 * g + j < spec_decode_7bit(wire).len(),
        spec_decode_7bit(wire)[7 * g + j] == wire[8 * g + 1 + j] | (if wire[8 * g] & (1u8 << (j as u8)) != 0 {
            0x80u8
        } else {
            0u8
        }),
    decreases g,
{
    if g == 0 {
        if wire.len() <= 8 {
            assert(spec_decode_7bit(wire) == decode_group(wire[0], wire.subrange(1, wire.len() as int)));
        } else {
            let first = decode_group(wire[0], wire.subrange(1, 8));
            assert(first.len() == 7);
            assert(spec_decode_7bit(wire) == first + spec_decode_7bit(wire.skip(8)));
            assert(spec_decode_7bit(wire)[j] == first[j]);
        }
    } else {
        let rest = wire.skip(8);
        assert(wire.len() > 8);
        lemma_decode_layout(rest, g - 1, j);
        let first = decode_group(wire[0], wire.subrange(1, 8));
        assert(first.len() == 7);
        assert(spec_decode_7bit(wire) == first + spec_decode_7bit(rest));
        assert(rest[8 * (g - 1) + 1 + j] == wire[8 * g + 1 + j]);
        assert(rest[8 * (g - 1)] == wire[8 * g]);
        assert(spec_decode_7bit(wire)[7 * g + j] == spec_decode_7bit(rest)[7 * (g - 1) + j]);
    }
}

} // verus!
