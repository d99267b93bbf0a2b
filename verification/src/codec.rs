//! Byte-level building blocks of the wire format.
//!
//! Every protocol object travels as `brand (4 bytes) || major (2 bytes, big
//! endian) || minor (2 bytes, big endian) || payload`, where the payload is a
//! MessagePack-encoded record. This module holds the MessagePack item
//! encoders and decoders (`bin`, `str`, `nil`) and the envelope header
//! itself, together with the lemmas that make the round trips provable.

use vstd::prelude::*;
use vstd::arithmetic::div_mod::{lemma_div_denominator, lemma_fundamental_div_mod};

verus! {

/// Everything that can go wrong when reading a protocol object off the wire.
#[derive(Debug, Clone, Copy, PartialEq, Eq, Structural)]
pub enum ProtocolError {
    /// The buffer is shorter than the eight-byte envelope header.
    FormatError,
    /// The brand tag names another object type.
    BrandMismatch,
    /// The major version differs from the current one, or the minor version
    /// is newer than the current one.
    VersionError,
    /// The payload bytes do not match the expected record structure.
    DeserializationError,
}

pub const TAG_NIL: u8 = 0xc0;
pub const TAG_BIN8: u8 = 0xc4;
pub const TAG_BIN16: u8 = 0xc5;
pub const TAG_BIN32: u8 = 0xc6;
pub const TAG_STR8: u8 = 0xd9;
pub const TAG_STR16: u8 = 0xda;
pub const TAG_STR32: u8 = 0xdb;
/// MessagePack fixarray header for a two-element array.
pub const TAG_FIXARRAY2: u8 = 0x92;

/// The two bytes of `n` in big-endian order, for `0 <= n < 65536`.
pub open spec fn be2(n: int) -> Seq<u8> {
    seq![(n / 256) as u8, (n % 256) as u8]
}

/// The four bytes of `n` in big-endian order, for `0 <= n < 0x1_0000_0000`.
pub open spec fn be4(n: int) -> Seq<u8> {
    seq![
        (n / 0x1000000) as u8,
        ((n / 0x10000) % 256) as u8,
        ((n / 256) % 256) as u8,
        (n % 256) as u8,
    ]
}

/// The value of the two big-endian bytes at `pos`.
pub open spec fn rd2(b: Seq<u8>, pos: int) -> int {
    b[pos] as int * 256 + b[pos + 1] as int
}

/// The value of the four big-endian bytes at `pos`.
pub open spec fn rd4(b: Seq<u8>, pos: int) -> int {
    b[pos] as int * 0x1000000 + b[pos + 1] as int * 0x10000 + b[pos + 2] as int * 256
        + b[pos + 3] as int
}

pub proof fn lemma_be2(n: int)
    requires
        0 <= n < 65536,
    ensures
        be2(n).len() == 2,
        0 <= n / 256 < 256,
        be2(n)[0] as int == n / 256,
        be2(n)[1] as int == n % 256,
        be2(n)[0] as int * 256 + be2(n)[1] as int == n,
{
    lemma_fundamental_div_mod(n, 256);
    assert(n / 256 < 256) by (nonlinear_arith)
        requires 0 <= n < 65536;
}

pub proof fn lemma_be4(n: int)
    requires
        0 <= n < 0x100000000,
    ensures
        be4(n).len() == 4,
        0 <= n / 0x1000000 < 256,
        be4(n)[0] as int == n / 0x1000000,
        be4(n)[1] as int == (n / 0x10000) % 256,
        be4(n)[2] as int == (n / 256) % 256,
        be4(n)[3] as int == n % 256,
        be4(n)[0] as int * 0x1000000 + be4(n)[1] as int * 0x10000 + be4(n)[2] as int * 256
            + be4(n)[3] as int == n,
{
    lemma_fundamental_div_mod(n, 256);
    lemma_fundamental_div_mod(n / 256, 256);
    lemma_fundamental_div_mod(n / 0x10000, 256);
    lemma_div_denominator(n, 256, 256);
    lemma_div_denominator(n, 0x10000, 256);
    assert(n / 0x1000000 < 256) by (nonlinear_arith)
        requires 0 <= n < 0x100000000;
}

/// A MessagePack item holding the raw bytes `s`, under the given 8-, 16- and
/// 32-bit length tags: the shortest form that fits is emitted.
pub open spec fn enc_item(s: Seq<u8>, t8: u8, t16: u8, t32: u8) -> Seq<u8> {
    if s.len() < 256 {
        seq![t8, s.len() as u8] + s
    } else if s.len() < 65536 {
        seq![t16] + be2(s.len() as int) + s
    } else {
        seq![t32] + be4(s.len() as int) + s
    }
}

/// A MessagePack `bin` item: raw bytes.
pub open spec fn enc_bin(s: Seq<u8>) -> Seq<u8> {
    enc_item(s, TAG_BIN8, TAG_BIN16, TAG_BIN32)
}

/// A MessagePack `str` item, given the string's UTF-8 bytes.
pub open spec fn enc_str(s: Seq<u8>) -> Seq<u8> {
    enc_item(s, TAG_STR8, TAG_STR16, TAG_STR32)
}

/// Reads one length-tagged item at `pos`: the item's bytes and the position
/// just past it, or `None` if no well-formed item starts there.
pub open spec fn spec_read_item(b: Seq<u8>, pos: int, t8: u8, t16: u8, t32: u8) -> Option<
    (Seq<u8>, int),
> {
    if !(0 <= pos < b.len()) {
        None
    } else if b[pos] == t8 {
        if pos + 2 <= b.len() && pos + 2 + (b[pos + 1] as int) <= b.len() {
            Some((b.subrange(pos + 2, pos + 2 + b[pos + 1] as int), pos + 2 + b[pos + 1] as int))
        } else {
            None
        }
    } else if b[pos] == t16 {
        if pos + 3 <= b.len() && pos + 3 + rd2(b, pos + 1) <= b.len() {
            Some((b.subrange(pos + 3, pos + 3 + rd2(b, pos + 1)), pos + 3 + rd2(b, pos + 1)))
        } else {
            None
        }
    } else if b[pos] == t32 {
        if pos + 5 <= b.len() && pos + 5 + rd4(b, pos + 1) <= b.len() {
            Some((b.subrange(pos + 5, pos + 5 + rd4(b, pos + 1)), pos + 5 + rd4(b, pos + 1)))
        } else {
            None
        }
    } else {
        None
    }
}

pub open spec fn spec_read_bin(b: Seq<u8>, pos: int) -> Option<(Seq<u8>, int)> {
    spec_read_item(b, pos, TAG_BIN8, TAG_BIN16, TAG_BIN32)
}

/// Reads a `str` item at `pos`: the one-byte fixstr form (tags `0xa0..=0xbf`,
/// which a general MessagePack writer emits for strings shorter than 32
/// bytes) or a length-tagged form.
pub open spec fn spec_read_str(b: Seq<u8>, pos: int) -> Option<(Seq<u8>, int)> {
    if 0 <= pos < b.len() && 0xa0 <= b[pos] <= 0xbf {
        let n = b[pos] as int - 0xa0;
        if pos + 1 + n <= b.len() {
            Some((b.subrange(pos + 1, pos + 1 + n), pos + 1 + n))
        } else {
            None
        }
    } else {
        spec_read_item(b, pos, TAG_STR8, TAG_STR16, TAG_STR32)
    }
}

/// Reading at the start of an encoded item recovers exactly the item's bytes,
/// whatever stands before and after it.
pub proof fn lemma_read_item_enc(pre: Seq<u8>, s: Seq<u8>, post: Seq<u8>, t8: u8, t16: u8, t32: u8)
    requires
        s.len() < 0x100000000,
        t8 != t16,
        t8 != t32,
        t16 != t32,
    ensures
        spec_read_item(pre + enc_item(s, t8, t16, t32) + post, pre.len() as int, t8, t16, t32)
            == Some((s, pre.len() as int + enc_item(s, t8, t16, t32).len() as int)),
{
    let e = enc_item(s, t8, t16, t32);
    let b = pre + e + post;
    let p = pre.len() as int;
    assert forall|i: int| 0 <= i < e.len() implies b[p + i] == e[i] by {}
    if s.len() < 256 {
        assert(b[p] == t8);
        assert(b[p + 1] as int == s.len());
        assert(b.subrange(p + 2, p + 2 + s.len() as int) =~= s);
    } else if s.len() < 65536 {
        lemma_be2(s.len() as int);
        assert(b[p] == t16);
        assert(rd2(b, p + 1) == s.len());
        assert(b.subrange(p + 3, p + 3 + s.len() as int) =~= s);
    } else {
        lemma_be4(s.len() as int);
        assert(b[p] == t32);
        assert(rd4(b, p + 1) == s.len());
        assert(b.subrange(p + 5, p + 5 + s.len() as int) =~= s);
    }
}

/// What any successful read guarantees: the item fits the four-byte length
/// cap and the end position moves forward and stays in bounds.
pub proof fn lemma_read_item_props(b: Seq<u8>, pos: int, t8: u8, t16: u8, t32: u8)
    ensures
        spec_read_item(b, pos, t8, t16, t32) matches Some(p) ==> p.0.len() < 0x100000000 && pos
            < p.1 <= b.len(),
{
}

/// [`lemma_read_item_props`] for `str` items, the fixstr form included.
pub proof fn lemma_read_str_props(b: Seq<u8>, pos: int)
    ensures
        spec_read_str(b, pos) matches Some(p) ==> p.0.len() < 0x100000000 && pos < p.1 <= b.len(),
{
    lemma_read_item_props(b, pos, TAG_STR8, TAG_STR16, TAG_STR32);
}

/// [`lemma_read_item_props`] for `bin` items.
pub proof fn lemma_read_bin_props(b: Seq<u8>, pos: int)
    ensures
        spec_read_bin(b, pos) matches Some(p) ==> p.0.len() < 0x100000000 && pos < p.1 <= b.len(),
{
    lemma_read_item_props(b, pos, TAG_BIN8, TAG_BIN16, TAG_BIN32);
}

pub proof fn lemma_read_bin_enc(pre: Seq<u8>, s: Seq<u8>, post: Seq<u8>)
    requires
        s.len() < 0x100000000,
    ensures
        spec_read_bin(pre + enc_bin(s) + post, pre.len() as int) == Some(
            (s, pre.len() as int + enc_bin(s).len() as int),
        ),
{
    lemma_read_item_enc(pre, s, post, TAG_BIN8, TAG_BIN16, TAG_BIN32);
}

pub proof fn lemma_read_str_enc(pre: Seq<u8>, s: Seq<u8>, post: Seq<u8>)
    requires
        s.len() < 0x100000000,
    ensures
        spec_read_str(pre + enc_str(s) + post, pre.len() as int) == Some(
            (s, pre.len() as int + enc_str(s).len() as int),
        ),
{
    lemma_read_item_enc(pre, s, post, TAG_STR8, TAG_STR16, TAG_STR32);
    let b = pre + enc_str(s) + post;
    let p = pre.len() as int;
    // the emitted tag is one of the three length-tagged forms, all above the
    // fixstr range, so the fixstr branch is not taken
    assert(b[p] == enc_str(s)[0]);
    assert(enc_str(s)[0] == TAG_STR8 || enc_str(s)[0] == TAG_STR16 || enc_str(s)[0] == TAG_STR32);
}

/// Copies `buf[start..end]` into a fresh vector.
pub fn copy_range(buf: &Vec<u8>, start: usize, end: usize) -> (r: Vec<u8>)
    requires
        start <= end <= buf@.len(),
    ensures
        r@ == buf@.subrange(start as int, end as int),
{
    let mut v: Vec<u8> = Vec::new();
    let mut i: usize = start;
    while i < end
        invariant
            start <= i <= end <= buf@.len(),
            v@ == buf@.subrange(start as int, i as int),
        decreases end - i,
    {
        v.push(buf[i]);
        i = i + 1;
        proof {
            assert(v@ =~= buf@.subrange(start as int, i as int));
        }
    }
    v
}

/// Copies a byte vector.
pub fn clone_bytes(v: &Vec<u8>) -> (r: Vec<u8>)
    ensures
        r@ == v@,
{
    let r = copy_range(v, 0, v.len());
    proof {
        assert(v@.subrange(0, v@.len() as int) =~= v@);
    }
    r
}

/// Appends all of `s` to `out`.
pub fn push_all(out: &mut Vec<u8>, s: &Vec<u8>)
    ensures
        final(out)@ == old(out)@ + s@,
{
    let mut i: usize = 0;
    while i < s.len()
        invariant
            i <= s@.len(),
            out@ == old(out)@ + s@.subrange(0, i as int),
        decreases s@.len() - i,
    {
        out.push(s[i]);
        i = i + 1;
        proof {
            assert(out@ =~= old(out)@ + s@.subrange(0, i as int));
        }
    }
    proof {
        assert(out@ =~= old(out)@ + s@);
    }
}

/// Appends the MessagePack item for `s` under the given tags.
fn write_item(out: &mut Vec<u8>, s: &Vec<u8>, t8: u8, t16: u8, t32: u8)
    requires
        s@.len() < 0x100000000,
    ensures
        final(out)@ == old(out)@ + enc_item(s@, t8, t16, t32),
{
    let n = s.len();
    if n < 256 {
        out.push(t8);
        out.push(n as u8);
    } else if n < 65536 {
        proof {
            lemma_be2(n as int);
        }
        out.push(t16);
        out.push((n / 256) as u8);
        out.push((n % 256) as u8);
    } else {
        proof {
            lemma_be4(n as int);
        }
        out.push(t32);
        out.push((n / 0x1000000) as u8);
        out.push(((n / 0x10000) % 256) as u8);
        out.push(((n / 256) % 256) as u8);
        out.push((n % 256) as u8);
    }
    push_all(out, s);
    proof {
        assert(out@ =~= old(out)@ + enc_item(s@, t8, t16, t32));
    }
}

/// Appends a MessagePack `bin` item holding `s`.
pub fn write_bin(out: &mut Vec<u8>, s: &Vec<u8>)
    requires
        s@.len() < 0x100000000,
    ensures
        final(out)@ == old(out)@ + enc_bin(s@),
{
    write_item(out, s, TAG_BIN8, TAG_BIN16, TAG_BIN32);
}

/// Appends a MessagePack `str` item whose UTF-8 bytes are `s`.
pub fn write_str(out: &mut Vec<u8>, s: &Vec<u8>)
    requires
        s@.len() < 0x100000000,
    ensures
        final(out)@ == old(out)@ + enc_str(s@),
{
    write_item(out, s, TAG_STR8, TAG_STR16, TAG_STR32);
}

/// Reads one length-tagged item at `pos`.
fn read_item(buf: &Vec<u8>, pos: usize, t8: u8, t16: u8, t32: u8) -> (r: Option<(Vec<u8>, usize)>)
    ensures
        match spec_read_item(buf@, pos as int, t8, t16, t32) {
            Some((s, end)) => r matches Some(p) && p.0@ == s && p.1 as int == end,
            None => r is None,
        },
{
    if pos >= buf.len() {
        return None;
    }
    let tag = buf[pos];
    if tag == t8 {
        if buf.len() - pos < 2 {
            return None;
        }
        let n = buf[pos + 1] as usize;
        if buf.len() - (pos + 2) < n {
            return None;
        }
        Some((copy_range(buf, pos + 2, pos + 2 + n), pos + 2 + n))
    } else if tag == t16 {
        if buf.len() - pos < 3 {
            return None;
        }
        let n = (buf[pos + 1] as usize) * 256 + (buf[pos + 2] as usize);
        if buf.len() - (pos + 3) < n {
            return None;
        }
        Some((copy_range(buf, pos + 3, pos + 3 + n), pos + 3 + n))
    } else if tag == t32 {
        if buf.len() - pos < 5 {
            return None;
        }
        let n32 = (buf[pos + 1] as u32) * 0x1000000 + (buf[pos + 2] as u32) * 0x10000 + (buf[pos
            + 3] as u32) * 256 + (buf[pos + 4] as u32);
        if n32 as u64 > (buf.len() - (pos + 5)) as u64 {
            return None;
        }
        let n = n32 as usize;
        Some((copy_range(buf, pos + 5, pos + 5 + n), pos + 5 + n))
    } else {
        None
    }
}

/// Reads a MessagePack `bin` item at `pos`.
pub fn read_bin(buf: &Vec<u8>, pos: usize) -> (r: Option<(Vec<u8>, usize)>)
    ensures
        match spec_read_bin(buf@, pos as int) {
            Some((s, end)) => r matches Some(p) && p.0@ == s && p.1 as int == end,
            None => r is None,
        },
{
    read_item(buf, pos, TAG_BIN8, TAG_BIN16, TAG_BIN32)
}

/// Reads a MessagePack `str` item at `pos`, as its UTF-8 bytes. Both the
/// fixstr form and the length-tagged forms are accepted.
pub fn read_str(buf: &Vec<u8>, pos: usize) -> (r: Option<(Vec<u8>, usize)>)
    ensures
        match spec_read_str(buf@, pos as int) {
            Some((s, end)) => r matches Some(p) && p.0@ == s && p.1 as int == end,
            None => r is None,
        },
{
    if pos < buf.len() {
        let tag = buf[pos];
        if 0xa0 <= tag && tag <= 0xbf {
            let n = (tag - 0xa0) as usize;
            if buf.len() - (pos + 1) < n {
                return None;
            }
            return Some((copy_range(buf, pos + 1, pos + 1 + n), pos + 1 + n));
        }
    }
    read_item(buf, pos, TAG_STR8, TAG_STR16, TAG_STR32)
}

/// The full wire form of one protocol object: brand, both version halves in
/// big-endian order, then the payload.
pub open spec fn spec_envelope(brand: Seq<u8>, major: u16, minor: u16, payload: Seq<u8>) -> Seq<
    u8,
> {
    brand + be2(major as int) + be2(minor as int) + payload
}

/// Header validation: exactly the error taxonomy of the codec. A short buffer
/// is a `FormatError`, a foreign brand a `BrandMismatch`, a foreign major
/// version a `VersionError`; otherwise the minor version and the payload are
/// handed on.
pub open spec fn spec_parse_envelope(brand: Seq<u8>, major: u16, b: Seq<u8>) -> Result<
    (int, Seq<u8>),
    ProtocolError,
> {
    if b.len() < 8 {
        Err(ProtocolError::FormatError)
    } else if b.subrange(0, 4) != brand {
        Err(ProtocolError::BrandMismatch)
    } else if rd2(b, 4) != major as int {
        Err(ProtocolError::VersionError)
    } else {
        Ok((rd2(b, 6), b.skip(8)))
    }
}

/// Parsing an envelope that was just written yields the version and payload
/// that went in.
pub proof fn lemma_parse_envelope_enc(brand: Seq<u8>, major: u16, minor: u16, payload: Seq<u8>)
    requires
        brand.len() == 4,
    ensures
        spec_parse_envelope(brand, major, spec_envelope(brand, major, minor, payload)) == Ok::<
            (int, Seq<u8>),
            ProtocolError,
        >((minor as int, payload)),
{
    let b = spec_envelope(brand, major, minor, payload);
    lemma_be2(major as int);
    lemma_be2(minor as int);
    assert(b.subrange(0, 4) =~= brand);
    assert(b[4] == be2(major as int)[0]);
    assert(b[5] == be2(major as int)[1]);
    assert(b[6] == be2(minor as int)[0]);
    assert(b[7] == be2(minor as int)[1]);
    assert(b.skip(8) =~= payload);
}

/// Version rejection: whatever else the buffer holds, a major version other
/// than the expected one is rejected with `VersionError`.
pub proof fn lemma_envelope_rejects_major(brand: Seq<u8>, major: u16, b: Seq<u8>)
    requires
        b.len() >= 8,
        b.subrange(0, 4) == brand,
        rd2(b, 4) != major as int,
    ensures
        spec_parse_envelope(brand, major, b) == Err::<(int, Seq<u8>), ProtocolError>(
            ProtocolError::VersionError,
        ),
{
}

/// Brand rejection: a wrong brand tag is rejected with `BrandMismatch`,
/// regardless of otherwise-valid version or payload bytes.
pub proof fn lemma_envelope_rejects_brand(brand: Seq<u8>, major: u16, b: Seq<u8>)
    requires
        b.len() >= 8,
        b.subrange(0, 4) != brand,
    ensures
        spec_parse_envelope(brand, major, b) == Err::<(int, Seq<u8>), ProtocolError>(
            ProtocolError::BrandMismatch,
        ),
{
}

/// Frames `payload` in the envelope of the given brand and version.
pub fn write_envelope(brand: &Vec<u8>, major: u16, minor: u16, payload: &Vec<u8>) -> (r: Vec<u8>)
    requires
        brand@.len() == 4,
    ensures
        r@ == spec_envelope(brand@, major, minor, payload@),
{
    proof {
        lemma_be2(major as int);
        lemma_be2(minor as int);
    }
    let mut out: Vec<u8> = Vec::new();
    push_all(&mut out, brand);
    out.push((major / 256) as u8);
    out.push((major % 256) as u8);
    out.push((minor / 256) as u8);
    out.push((minor % 256) as u8);
    push_all(&mut out, payload);
    proof {
        assert(out@ =~= spec_envelope(brand@, major, minor, payload@));
    }
    out
}

/// Validates the envelope header against the given brand and major version
/// and hands back the minor version and the payload bytes.
pub fn parse_envelope(buf: &Vec<u8>, brand: &Vec<u8>, major: u16) -> (r: Result<
    (u16, Vec<u8>),
    ProtocolError,
>)
    requires
        brand@.len() == 4,
    ensures
        match spec_parse_envelope(brand@, major, buf@) {
            Ok((minor, payload)) => r matches Ok(p) && p.0 as int == minor && p.1@ == payload,
            Err(e) => r matches Err(e2) && e2 == e,
        },
{
    if buf.len() < 8 {
        return Err(ProtocolError::FormatError);
    }
    if buf[0] != brand[0] || buf[1] != brand[1] || buf[2] != brand[2] || buf[3] != brand[3] {
        proof {
            assert(buf@.subrange(0, 4)[0] == buf@[0]);
            assert(buf@.subrange(0, 4)[1] == buf@[1]);
            assert(buf@.subrange(0, 4)[2] == buf@[2]);
            assert(buf@.subrange(0, 4)[3] == buf@[3]);
        }
        return Err(ProtocolError::BrandMismatch);
    }
    proof {
        assert(buf@.subrange(0, 4) =~= brand@);
    }
    let major_read: u16 = (buf[4] as u16) * 256 + (buf[5] as u16);
    if major_read != major {
        return Err(ProtocolError::VersionError);
    }
    let minor_read: u16 = (buf[6] as u16) * 256 + (buf[7] as u16);
    let payload = copy_range(buf, 8, buf.len());
    proof {
        assert(payload@ =~= buf@.skip(8));
    }
    Ok((minor_read, payload))
}

} // verus!
