//! The primitive layer of the SCALE wire format: single bytes, booleans,
//! fixed-width and compact integers, and texts.
//!
//! Every primitive has a parser in spec mode, which says what the first bytes
//! of a sequence mean, and a serialiser in spec mode; the numbers have a
//! reader that computes the parser on a slice from a given position.

use vstd::prelude::*;
use vstd::utf8::{decode_utf8, encode_utf8, valid_utf8};

verus! {

/// Why a buffer could not be decoded.
#[derive(Clone, Copy, Debug, PartialEq, Eq, Structural)]
pub enum DecodeError {
    /// The first four bytes are not the metadata magic number.
    BadMagic,
    /// The buffer ended before a field was complete.
    Truncated,
    /// The version tag names no supported schema.
    UnsupportedVersion,
    /// A field's bytes do not have the shape that its type requires.
    Malformed,
}

/// The outcome of parsing a value from the front of a byte sequence: the
/// value and the number of bytes that it occupies.
pub type Parsed<T> = Result<(T, nat), DecodeError>;

/// The outcome of reading a value from a slice: the value and the position
/// behind it.
pub type Read<T> = Result<(T, usize), DecodeError>;

/// A reader's result `r`, started at `pos`, is what the parser found at the
/// front of the bytes from `pos` on.
pub open spec fn reads<T>(r: Read<T>, p: Parsed<T>, pos: usize, len: nat) -> bool {
    match p {
        Ok((v, n)) => r matches Ok((got, end)) && got == v && end == pos + n && pos + n <= len,
        Err(e) => r matches Err(got) && got == e,
    }
}

/// The number that four bytes spell in little-endian order.
pub open spec fn le32(b0: u8, b1: u8, b2: u8, b3: u8) -> int {
    b0 as int + 256 * (b1 as int) + 65536 * (b2 as int) + 16777216 * (b3 as int)
}

/// The four bytes that spell `v` in little-endian order.
pub open spec fn le32_bytes(v: int) -> Seq<u8> {
    seq![
        (v % 256) as u8,
        ((v / 256) % 256) as u8,
        ((v / 65536) % 256) as u8,
        ((v / 16777216) % 256) as u8,
    ]
}

/// One byte.
pub open spec fn parse_u8(s: Seq<u8>) -> Parsed<u32> {
    if s.len() < 1 {
        Err(DecodeError::Truncated)
    } else {
        Ok((s[0] as u32, 1nat))
    }
}

/// A boolean: the byte 0 or the byte 1.
pub open spec fn parse_bool(s: Seq<u8>) -> Parsed<bool> {
    if s.len() < 1 {
        Err(DecodeError::Truncated)
    } else if s[0] == 0 {
        Ok((false, 1nat))
    } else if s[0] == 1 {
        Ok((true, 1nat))
    } else {
        Err(DecodeError::Malformed)
    }
}

/// A 32-bit number in four little-endian bytes.
pub open spec fn parse_word(s: Seq<u8>) -> Parsed<u32> {
    if s.len() < 4 {
        Err(DecodeError::Truncated)
    } else {
        Ok((le32(s[0], s[1], s[2], s[3]) as u32, 4nat))
    }
}

/// A 32-bit number in the compact encoding. The two low bits of the first
/// byte select the width; a number written wider than it needs is refused.
pub open spec fn parse_compact(s: Seq<u8>) -> Parsed<u32> {
    if s.len() < 1 {
        Err(DecodeError::Truncated)
    } else if s[0] % 4 == 0 {
        Ok(((s[0] / 4) as u32, 1nat))
    } else if s[0] % 4 == 1 {
        if s.len() < 2 {
            Err(DecodeError::Truncated)
        } else if le32(s[0], s[1], 0, 0) / 4 > 63 {
            Ok(((le32(s[0], s[1], 0, 0) / 4) as u32, 2nat))
        } else {
            Err(DecodeError::Malformed)
        }
    } else if s[0] % 4 == 2 {
        if s.len() < 4 {
            Err(DecodeError::Truncated)
        } else if le32(s[0], s[1], s[2], s[3]) / 4 > 16383 {
            Ok(((le32(s[0], s[1], s[2], s[3]) / 4) as u32, 4nat))
        } else {
            Err(DecodeError::Malformed)
        }
    } else if s[0] != 3 {
        Err(DecodeError::Malformed)
    } else if s.len() < 5 {
        Err(DecodeError::Truncated)
    } else if le32(s[1], s[2], s[3], s[4]) > 0x3fff_ffff {
        Ok((le32(s[1], s[2], s[3], s[4]) as u32, 5nat))
    } else {
        Err(DecodeError::Malformed)
    }
}

/// Text: a compact count of bytes, then that many bytes of UTF-8.
pub open spec fn parse_text(s: Seq<u8>) -> Parsed<Seq<char>> {
    match parse_compact(s) {
        Err(e) => Err(e),
        Ok((len, n)) => if s.len() - n < len {
            Err(DecodeError::Truncated)
        } else if !valid_utf8(s.subrange(n as int, n + len)) {
            Err(DecodeError::Malformed)
        } else {
            Ok((decode_utf8(s.subrange(n as int, n + len)), n + len as nat))
        },
    }
}

/// The bytes of a text: its length in UTF-8, compact, and its UTF-8.
pub open spec fn text_bytes(t: Seq<char>) -> Seq<u8> {
    compact_bytes(encode_utf8(t).len() as u32) + encode_utf8(t)
}

/// The byte that spells `v`.
pub open spec fn u8_bytes(v: u32) -> Seq<u8> {
    seq![v as u8]
}

/// The byte that spells `b`.
pub open spec fn bool_bytes(b: bool) -> Seq<u8> {
    seq![if b { 1u8 } else { 0u8 }]
}

/// The four little-endian bytes of `v`.
pub open spec fn word_bytes(v: u32) -> Seq<u8> {
    le32_bytes(v as int)
}

/// The compact encoding of `v`: the narrowest of the four widths.
pub open spec fn compact_bytes(v: u32) -> Seq<u8> {
    if v < 64 {
        seq![(4 * v) as u8]
    } else if v < 16384 {
        le32_bytes(4 * v + 1).take(2)
    } else if v < 0x4000_0000 {
        le32_bytes(4 * v + 2)
    } else {
        seq![3u8] + le32_bytes(v as int)
    }
}

/// Reads one byte at `pos`.
pub fn read_u8(buf: &[u8], pos: usize) -> (r: Read<u32>)
    requires
        pos <= buf@.len(),
    ensures
        reads(r, parse_u8(buf@.skip(pos as int)), pos, buf@.len()),
{
    if pos < buf.len() {
        Ok((buf[pos] as u32, pos + 1))
    } else {
        Err(DecodeError::Truncated)
    }
}

/// Reads a boolean at `pos`.
pub fn read_bool(buf: &[u8], pos: usize) -> (r: Read<bool>)
    requires
        pos <= buf@.len(),
    ensures
        reads(r, parse_bool(buf@.skip(pos as int)), pos, buf@.len()),
{
    if pos >= buf.len() {
        Err(DecodeError::Truncated)
    } else if buf[pos] == 0 {
        Ok((false, pos + 1))
    } else if buf[pos] == 1 {
        Ok((true, pos + 1))
    } else {
        Err(DecodeError::Malformed)
    }
}

/// The number that the four bytes from `pos` on spell in little-endian
/// order.
fn word_at(buf: &[u8], pos: usize) -> (v: u32)
    requires
        pos + 4 <= buf@.len(),
    ensures
        v == le32(buf@[pos as int], buf@[pos + 1], buf@[pos + 2], buf@[pos + 3]),
{
    let b0: u32 = buf[pos] as u32;
    let b1: u32 = buf[pos + 1] as u32;
    let b2: u32 = buf[pos + 2] as u32;
    let b3: u32 = buf[pos + 3] as u32;
    b0 + 256 * b1 + 65536 * b2 + 16777216 * b3
}

/// Reads a 32-bit little-endian number at `pos`.
pub fn read_word(buf: &[u8], pos: usize) -> (r: Read<u32>)
    requires
        pos <= buf@.len(),
    ensures
        reads(r, parse_word(buf@.skip(pos as int)), pos, buf@.len()),
{
    if buf.len() - pos < 4 {
        Err(DecodeError::Truncated)
    } else {
        Ok((word_at(buf, pos), pos + 4))
    }
}

/// Reads a compact number at `pos`.
pub fn read_compact(buf: &[u8], pos: usize) -> (r: Read<u32>)
    requires
        pos <= buf@.len(),
    ensures
        reads(r, parse_compact(buf@.skip(pos as int)), pos, buf@.len()),
{
    let left: usize = buf.len() - pos;
    if left < 1 {
        return Err(DecodeError::Truncated);
    }
    let first: u8 = buf[pos];
    let mode: u8 = first % 4;
    if mode == 0 {
        Ok(((first / 4) as u32, pos + 1))
    } else if mode == 1 {
        if left < 2 {
            return Err(DecodeError::Truncated);
        }
        let x: u32 = (first as u32 + 256 * (buf[pos + 1] as u32)) / 4;
        if x > 63 {
            Ok((x, pos + 2))
        } else {
            Err(DecodeError::Malformed)
        }
    } else if mode == 2 {
        if left < 4 {
            return Err(DecodeError::Truncated);
        }
        let x: u32 = word_at(buf, pos) / 4;
        if x > 16383 {
            Ok((x, pos + 4))
        } else {
            Err(DecodeError::Malformed)
        }
    } else if first != 3 {
        Err(DecodeError::Malformed)
    } else if left < 5 {
        Err(DecodeError::Truncated)
    } else {
        let x: u32 = word_at(buf, pos + 1);
        if x > 0x3fff_ffff {
            Ok((x, pos + 5))
        } else {
            Err(DecodeError::Malformed)
        }
    }
}

/// The little-endian bytes of a number spell that number.
pub proof fn lemma_le32_of_bytes(v: u32)
    ensures
        le32_bytes(v as int).len() == 4,
        le32(
            le32_bytes(v as int)[0],
            le32_bytes(v as int)[1],
            le32_bytes(v as int)[2],
            le32_bytes(v as int)[3],
        ) == v,
{
    assert((v % 256) + 256 * ((v / 256) % 256) + 65536 * ((v / 65536) % 256) + 16777216 * ((v
        / 16777216) % 256) == v) by (bit_vector);
}

/// The number that four bytes spell has those bytes.
pub proof fn lemma_bytes_of_le32(b0: u8, b1: u8, b2: u8, b3: u8)
    ensures
        0 <= le32(b0, b1, b2, b3) <= u32::MAX,
        le32_bytes(le32(b0, b1, b2, b3)) == seq![b0, b1, b2, b3],
{
    let x = le32(b0, b1, b2, b3);
    assert(x % 256 == b0 as int);
    assert(x / 256 == b1 as int + 256 * (b2 as int) + 65536 * (b3 as int));
    assert((x / 256) % 256 == b1 as int);
    assert(x / 65536 == b2 as int + 256 * (b3 as int));
    assert((x / 65536) % 256 == b2 as int);
    assert(x / 16777216 == b3 as int);
    assert(le32_bytes(x) =~= seq![b0, b1, b2, b3]);
}

/// What the compact parser accepts, the compact serialiser wrote.
pub proof fn lemma_compact_faithful(s: Seq<u8>)
    requires
        parse_compact(s) is Ok,
    ensures
        parse_compact(s)->Ok_0.1 <= s.len(),
        compact_bytes(parse_compact(s)->Ok_0.0) == s.take(parse_compact(s)->Ok_0.1 as int),
{
    let v = parse_compact(s)->Ok_0.0;
    let n = parse_compact(s)->Ok_0.1;
    if s[0] % 4 == 0 {
        assert(4 * (s[0] / 4) == s[0]);
        assert(compact_bytes(v) =~= s.take(1));
    } else if s[0] % 4 == 1 {
        let x = le32(s[0], s[1], 0, 0);
        lemma_bytes_of_le32(s[0], s[1], 0, 0);
        assert(x % 4 == 1);
        assert(4 * v + 1 == x);
        assert(compact_bytes(v) =~= s.take(2));
    } else if s[0] % 4 == 2 {
        let x = le32(s[0], s[1], s[2], s[3]);
        lemma_bytes_of_le32(s[0], s[1], s[2], s[3]);
        assert(x % 4 == 2);
        assert(4 * v + 2 == x);
        assert(compact_bytes(v) =~= s.take(4));
    } else {
        lemma_bytes_of_le32(s[1], s[2], s[3], s[4]);
        assert(compact_bytes(v) =~= s.take(5));
    }
}

/// What the compact serialiser writes, the compact parser reads back,
/// whatever follows it.
pub proof fn lemma_compact_inverse(v: u32, rest: Seq<u8>)
    ensures
        parse_compact(compact_bytes(v) + rest) == Ok::<(u32, nat), DecodeError>(
            (v, compact_bytes(v).len()),
        ),
{
    let s = compact_bytes(v) + rest;
    if v < 64 {
        assert(s[0] == (4 * v) as u8);
    } else if v < 16384 {
        let x: u32 = (4 * v + 1) as u32;
        lemma_le32_of_bytes(x);
        let b = le32_bytes(x as int);
        assert(b[2] == 0 && b[3] == 0);
        assert(s[0] == b[0] && s[1] == b[1]);
        assert(s[0] % 4 == 1);
    } else if v < 0x4000_0000 {
        let x: u32 = (4 * v + 2) as u32;
        lemma_le32_of_bytes(x);
        let b = le32_bytes(x as int);
        assert(s[0] == b[0] && s[1] == b[1] && s[2] == b[2] && s[3] == b[3]);
        assert(s[0] % 4 == 2);
    } else {
        lemma_le32_of_bytes(v);
        let b = le32_bytes(v as int);
        assert(s[0] == 3u8);
        assert(s[1] == b[0] && s[2] == b[1] && s[3] == b[2] && s[4] == b[3]);
    }
}

/// A compact number cut short is reported as truncated.
pub proof fn lemma_compact_truncated(s: Seq<u8>, k: int)
    requires
        parse_compact(s) is Ok,
        0 <= k < parse_compact(s)->Ok_0.1,
    ensures
        parse_compact(s.take(k)) == Err::<(u32, nat), DecodeError>(DecodeError::Truncated),
{
    if k > 0 {
        assert(s.take(k)[0] == s[0]);
    }
}

/// What the text parser accepts, the text serialiser wrote.
pub proof fn lemma_text_faithful(s: Seq<u8>)
    requires
        parse_text(s) is Ok,
    ensures
        parse_text(s)->Ok_0.1 <= s.len(),
        encode_utf8(parse_text(s)->Ok_0.0).len() <= u32::MAX,
        text_bytes(parse_text(s)->Ok_0.0) == s.take(parse_text(s)->Ok_0.1 as int),
{
    let len = parse_compact(s)->Ok_0.0;
    let n = parse_compact(s)->Ok_0.1;
    let body = s.subrange(n as int, n + len);
    lemma_compact_faithful(s);
    vstd::utf8::decode_utf8_encode_utf8(body);
    assert(s.take(n as int) + body =~= s.take(n + len));
}

/// What the text serialiser writes, the text parser reads back, whatever
/// follows it.
pub proof fn lemma_text_inverse(t: Seq<char>, rest: Seq<u8>)
    requires
        encode_utf8(t).len() <= u32::MAX,
    ensures
        parse_text(text_bytes(t) + rest) == Ok::<(Seq<char>, nat), DecodeError>(
            (t, text_bytes(t).len()),
        ),
{
    let body = encode_utf8(t);
    let head = compact_bytes(body.len() as u32);
    let s = text_bytes(t) + rest;
    assert(s =~= head + (body + rest));
    lemma_compact_inverse(body.len() as u32, body + rest);
    assert(s.subrange(head.len() as int, (head.len() + body.len()) as int) =~= body);
    vstd::utf8::encode_utf8_valid_utf8(t);
    vstd::utf8::encode_utf8_decode_utf8(t);
}

/// A text cut short is reported as truncated.
pub proof fn lemma_text_truncated(s: Seq<u8>, k: int)
    requires
        parse_text(s) is Ok,
        0 <= k < parse_text(s)->Ok_0.1,
    ensures
        parse_text(s.take(k)) == Err::<(Seq<char>, nat), DecodeError>(DecodeError::Truncated),
{
    let len = parse_compact(s)->Ok_0.0;
    let n = parse_compact(s)->Ok_0.1;
    lemma_compact_faithful(s);
    if k < n {
        lemma_compact_truncated(s, k);
    } else {
        lemma_compact_inverse(len, s.subrange(n as int, k));
        assert(s.take(k) =~= s.take(n as int) + s.subrange(n as int, k));
    }
}

} // verus!
