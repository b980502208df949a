//! Binary primitives of the wire encoding: little-endian base-128 varints
//! for `u16` and `u32`, single bytes, and length-prefixed byte strings.
//!
//! Every primitive comes in three parts: a spec-level encoder returning a
//! `Seq<u8>`, a spec-level reader that takes the value off the front of a
//! byte sequence and returns the remainder, and executable functions proved
//! against them. The reading specs accept exactly the canonical encodings,
//! so a successful read pins the bytes down completely.

use vstd::prelude::*;

verus! {

// ---------------------------------------------------------------- u16

/// Canonical varint encoding of a `u16`: seven data bits per byte,
/// least-significant group first, high bit set on every byte but the last.
pub open spec fn spec_varint16(v: u16) -> Seq<u8> {
    if v < 0x80 {
        seq![v as u8]
    } else if v < 0x4000 {
        seq![(v % 0x80 + 0x80) as u8, (v / 0x80) as u8]
    } else {
        seq![
            (v % 0x80 + 0x80) as u8,
            ((v / 0x80) % 0x80 + 0x80) as u8,
            (v / 0x4000) as u8,
        ]
    }
}

/// Reads a canonical `u16` varint off the front of `b`; yields the value
/// and the remaining bytes, or nothing if `b` does not start with one.
pub open spec fn spec_take16(b: Seq<u8>) -> Option<(u16, Seq<u8>)> {
    if b.len() >= 1 && b[0] < 0x80 {
        Some((b[0] as u16, b.skip(1)))
    } else if b.len() >= 2 && b[0] >= 0x80 && b[1] < 0x80 {
        if b[1] == 0 {
            None
        } else {
            Some((((b[0] - 0x80) + b[1] * 0x80) as u16, b.skip(2)))
        }
    } else if b.len() >= 3 && b[0] >= 0x80 && b[1] >= 0x80 && b[2] < 0x80 {
        if b[2] == 0 || b[2] > 3 {
            None
        } else {
            Some((((b[0] - 0x80) + (b[1] - 0x80) * 0x80 + b[2] * 0x4000) as u16, b.skip(3)))
        }
    } else {
        None
    }
}

/// Reading an encoded `u16` from the front of any byte sequence gives the
/// value back and leaves the trailing bytes untouched.
pub proof fn lemma_take16_varint16(v: u16, rest: Seq<u8>)
    ensures
        spec_take16(spec_varint16(v) + rest) == Some((v, rest)),
{
    let b = spec_varint16(v) + rest;
    if v < 0x80 {
        assert(b.skip(1) =~= rest);
    } else if v < 0x4000 {
        assert(b[0] == v % 0x80 + 0x80);
        assert(b[1] == v / 0x80);
        assert(1 <= v / 0x80 < 0x80);
        assert((b[0] - 0x80) + b[1] * 0x80 == v);
        assert(b.skip(2) =~= rest);
    } else {
        assert(b[0] == v % 0x80 + 0x80);
        assert(b[1] == (v / 0x80) % 0x80 + 0x80);
        assert(b[2] == v / 0x4000);
        assert(1 <= v / 0x4000 <= 3);
        assert(v / 0x80 / 0x80 == v / 0x4000) by (nonlinear_arith);
        assert((v / 0x80) % 0x80 + (v / 0x80 / 0x80) * 0x80 == v / 0x80);
        assert((b[0] - 0x80) + (b[1] - 0x80) * 0x80 + b[2] * 0x4000 == v) by (nonlinear_arith)
            requires
                b[0] == v % 0x80 + 0x80,
                b[1] == (v / 0x80) % 0x80 + 0x80,
                b[2] == v / 0x4000,
                v >= 0x4000,
        ;
        assert(b.skip(3) =~= rest);
    }
}

/// Appends the varint encoding of `v` to `out`.
pub fn encode_varint16(v: u16, out: &mut Vec<u8>)
    ensures
        final(out)@ == old(out)@ + spec_varint16(v),
{
    if v < 0x80 {
        out.push(v as u8);
        assert(out@ =~= old(out)@ + spec_varint16(v));
    } else if v < 0x4000 {
        out.push((v % 0x80 + 0x80) as u8);
        out.push((v / 0x80) as u8);
        assert(out@ =~= old(out)@ + spec_varint16(v));
    } else {
        out.push((v % 0x80 + 0x80) as u8);
        out.push(((v / 0x80) % 0x80 + 0x80) as u8);
        out.push((v / 0x4000) as u8);
        assert(out@ =~= old(out)@ + spec_varint16(v));
    }
}

/// Decodes a `u16` varint at position `pos` of `b`; on success returns the
/// value and the position of the first byte after it.
pub fn decode_varint16(b: &Vec<u8>, pos: usize) -> (r: Option<(u16, usize)>)
    requires
        pos <= b@.len(),
    ensures
        (match r {
            Some((v, np)) => pos < np <= b@.len() && spec_take16(b@.skip(pos as int))
                == Some((v, b@.skip(np as int))),
            None => spec_take16(b@.skip(pos as int)) is None,
        }),
{
    let ghost s = b@.skip(pos as int);
    if pos < b.len() && b[pos] < 0x80 {
        assert(s[0] == b@[pos as int]);
        assert(s.skip(1) =~= b@.skip(pos as int + 1));
        Some((b[pos] as u16, pos + 1))
    } else if b.len() - pos >= 2 && b[pos] >= 0x80 && b[pos + 1] < 0x80 {
        assert(s[0] == b@[pos as int] && s[1] == b@[pos as int + 1]);
        if b[pos + 1] == 0 {
            None
        } else {
            assert(s.skip(2) =~= b@.skip(pos as int + 2));
            let v: u16 = (b[pos] - 0x80) as u16 + (b[pos + 1] as u16) * 0x80;
            Some((v, pos + 2))
        }
    } else if b.len() - pos >= 3 && b[pos] >= 0x80 && b[pos + 1] >= 0x80 && b[pos + 2] < 0x80 {
        assert(s[0] == b@[pos as int] && s[1] == b@[pos as int + 1] && s[2] == b@[pos as int + 2]);
        if b[pos + 2] == 0 || b[pos + 2] > 3 {
            None
        } else {
            assert(s.skip(3) =~= b@.skip(pos as int + 3));
            let v: u16 = (b[pos] - 0x80) as u16 + ((b[pos + 1] - 0x80) as u16) * 0x80
                + (b[pos + 2] as u16) * 0x4000;
            Some((v, pos + 3))
        }
    } else {
        assert(s.len() >= 1 ==> s[0] == b@[pos as int]);
        assert(s.len() >= 2 ==> s[1] == b@[pos as int + 1]);
        assert(s.len() >= 3 ==> s[2] == b@[pos as int + 2]);
        None
    }
}

// ---------------------------------------------------------------- u32

/// Canonical varint encoding of a `u32`, one to five bytes.
pub open spec fn spec_varint32(v: u32) -> Seq<u8> {
    if v < 0x80 {
        seq![v as u8]
    } else if v < 0x4000 {
        seq![(v % 0x80 + 0x80) as u8, (v / 0x80) as u8]
    } else if v < 0x20_0000 {
        seq![
            (v % 0x80 + 0x80) as u8,
            ((v / 0x80) % 0x80 + 0x80) as u8,
            (v / 0x4000) as u8,
        ]
    } else if v < 0x1000_0000 {
        seq![
            (v % 0x80 + 0x80) as u8,
            ((v / 0x80) % 0x80 + 0x80) as u8,
            ((v / 0x4000) % 0x80 + 0x80) as u8,
            (v / 0x20_0000) as u8,
        ]
    } else {
        seq![
            (v % 0x80 + 0x80) as u8,
            ((v / 0x80) % 0x80 + 0x80) as u8,
            ((v / 0x4000) % 0x80 + 0x80) as u8,
            ((v / 0x20_0000) % 0x80 + 0x80) as u8,
            (v / 0x1000_0000) as u8,
        ]
    }
}

/// Reads a canonical `u32` varint off the front of `b`.
pub open spec fn spec_take32(b: Seq<u8>) -> Option<(u32, Seq<u8>)> {
    if b.len() >= 1 && b[0] < 0x80 {
        Some((b[0] as u32, b.skip(1)))
    } else if b.len() >= 2 && b[0] >= 0x80 && b[1] < 0x80 {
        if b[1] == 0 {
            None
        } else {
            Some((((b[0] - 0x80) + b[1] * 0x80) as u32, b.skip(2)))
        }
    } else if b.len() >= 3 && b[0] >= 0x80 && b[1] >= 0x80 && b[2] < 0x80 {
        if b[2] == 0 {
            None
        } else {
            Some((((b[0] - 0x80) + (b[1] - 0x80) * 0x80 + b[2] * 0x4000) as u32, b.skip(3)))
        }
    } else if b.len() >= 4 && b[0] >= 0x80 && b[1] >= 0x80 && b[2] >= 0x80 && b[3] < 0x80 {
        if b[3] == 0 {
            None
        } else {
            Some((
                ((b[0] - 0x80) + (b[1] - 0x80) * 0x80 + (b[2] - 0x80) * 0x4000
                    + b[3] * 0x20_0000) as u32,
                b.skip(4),
            ))
        }
    } else if b.len() >= 5 && b[0] >= 0x80 && b[1] >= 0x80 && b[2] >= 0x80 && b[3] >= 0x80
        && b[4] < 0x80 {
        if b[4] == 0 || b[4] > 0x0f {
            None
        } else {
            Some((
                ((b[0] - 0x80) + (b[1] - 0x80) * 0x80 + (b[2] - 0x80) * 0x4000
                    + (b[3] - 0x80) * 0x20_0000 + b[4] * 0x1000_0000) as u32,
                b.skip(5),
            ))
        }
    } else {
        None
    }
}

/// Reading an encoded `u32` from the front of any byte sequence gives the
/// value back and leaves the trailing bytes untouched.
pub proof fn lemma_take32_varint32(v: u32, rest: Seq<u8>)
    ensures
        spec_take32(spec_varint32(v) + rest) == Some((v, rest)),
{
    let b = spec_varint32(v) + rest;
    if v < 0x80 {
        assert(b.skip(1) =~= rest);
    } else if v < 0x4000 {
        assert(1 <= v / 0x80 < 0x80);
        assert((b[0] - 0x80) + b[1] * 0x80 == v);
        assert(b.skip(2) =~= rest);
    } else if v < 0x20_0000 {
        assert(1 <= v / 0x4000 < 0x80) by (nonlinear_arith)
            requires 0x4000 <= v < 0x20_0000;
        assert(v / 0x80 / 0x80 == v / 0x4000) by (nonlinear_arith);
        assert((v / 0x80) % 0x80 + (v / 0x80 / 0x80) * 0x80 == v / 0x80);
        assert((b[0] - 0x80) + (b[1] - 0x80) * 0x80 + b[2] * 0x4000 == v) by (nonlinear_arith)
            requires
                b[0] == v % 0x80 + 0x80,
                b[1] == (v / 0x80) % 0x80 + 0x80,
                b[2] == v / 0x4000,
                v >= 0x4000,
        ;
        assert(b.skip(3) =~= rest);
    } else if v < 0x1000_0000 {
        assert(1 <= v / 0x20_0000 < 0x80) by (nonlinear_arith)
            requires 0x20_0000 <= v < 0x1000_0000;
        assert((b[0] - 0x80) + (b[1] - 0x80) * 0x80 + (b[2] - 0x80) * 0x4000
            + b[3] * 0x20_0000 == v) by (nonlinear_arith)
            requires
                b[0] == v % 0x80 + 0x80,
                b[1] == (v / 0x80) % 0x80 + 0x80,
                b[2] == (v / 0x4000) % 0x80 + 0x80,
                b[3] == v / 0x20_0000,
                v >= 0x20_0000,
        ;
        assert(b.skip(4) =~= rest);
    } else {
        assert(1 <= v / 0x1000_0000 <= 0x0f) by (nonlinear_arith)
            requires 0x1000_0000 <= v <= 0xffff_ffffu32;
        assert((b[0] - 0x80) + (b[1] - 0x80) * 0x80 + (b[2] - 0x80) * 0x4000
            + (b[3] - 0x80) * 0x20_0000 + b[4] * 0x1000_0000 == v) by (nonlinear_arith)
            requires
                b[0] == v % 0x80 + 0x80,
                b[1] == (v / 0x80) % 0x80 + 0x80,
                b[2] == (v / 0x4000) % 0x80 + 0x80,
                b[3] == (v / 0x20_0000) % 0x80 + 0x80,
                b[4] == v / 0x1000_0000,
                v >= 0x1000_0000,
        ;
        assert(b.skip(5) =~= rest);
    }
}

/// Appends the varint encoding of `v` to `out`.
pub fn encode_varint32(v: u32, out: &mut Vec<u8>)
    ensures
        final(out)@ == old(out)@ + spec_varint32(v),
{
    if v < 0x80 {
        out.push(v as u8);
        assert(out@ =~= old(out)@ + spec_varint32(v));
    } else if v < 0x4000 {
        out.push((v % 0x80 + 0x80) as u8);
        out.push((v / 0x80) as u8);
        assert(out@ =~= old(out)@ + spec_varint32(v));
    } else if v < 0x20_0000 {
        out.push((v % 0x80 + 0x80) as u8);
        out.push(((v / 0x80) % 0x80 + 0x80) as u8);
        out.push((v / 0x4000) as u8);
        assert(out@ =~= old(out)@ + spec_varint32(v));
    } else if v < 0x1000_0000 {
        out.push((v % 0x80 + 0x80) as u8);
        out.push(((v / 0x80) % 0x80 + 0x80) as u8);
        out.push(((v / 0x4000) % 0x80 + 0x80) as u8);
        out.push((v / 0x20_0000) as u8);
        assert(out@ =~= old(out)@ + spec_varint32(v));
    } else {
        out.push((v % 0x80 + 0x80) as u8);
        out.push(((v / 0x80) % 0x80 + 0x80) as u8);
        out.push(((v / 0x4000) % 0x80 + 0x80) as u8);
        out.push(((v / 0x20_0000) % 0x80 + 0x80) as u8);
        out.push((v / 0x1000_0000) as u8);
        assert(out@ =~= old(out)@ + spec_varint32(v));
    }
}

/// Decodes a `u32` varint at position `pos` of `b`.
pub fn decode_varint32(b: &Vec<u8>, pos: usize) -> (r: Option<(u32, usize)>)
    requires
        pos <= b@.len(),
    ensures
        (match r {
            Some((v, np)) => pos < np <= b@.len() && spec_take32(b@.skip(pos as int))
                == Some((v, b@.skip(np as int))),
            None => spec_take32(b@.skip(pos as int)) is None,
        }),
{
    let ghost s = b@.skip(pos as int);
    proof {
        if s.len() >= 1 { assert(s[0] == b@[pos as int]); }
        if s.len() >= 2 { assert(s[1] == b@[pos as int + 1]); }
        if s.len() >= 3 { assert(s[2] == b@[pos as int + 2]); }
        if s.len() >= 4 { assert(s[3] == b@[pos as int + 3]); }
        if s.len() >= 5 { assert(s[4] == b@[pos as int + 4]); }
    }
    if pos < b.len() && b[pos] < 0x80 {
        assert(s.skip(1) =~= b@.skip(pos as int + 1));
        Some((b[pos] as u32, pos + 1))
    } else if b.len() - pos >= 2 && b[pos] >= 0x80 && b[pos + 1] < 0x80 {
        if b[pos + 1] == 0 {
            None
        } else {
            assert(s.skip(2) =~= b@.skip(pos as int + 2));
            let v: u32 = (b[pos] - 0x80) as u32 + (b[pos + 1] as u32) * 0x80;
            Some((v, pos + 2))
        }
    } else if b.len() - pos >= 3 && b[pos] >= 0x80 && b[pos + 1] >= 0x80 && b[pos + 2] < 0x80 {
        if b[pos + 2] == 0 {
            None
        } else {
            assert(s.skip(3) =~= b@.skip(pos as int + 3));
            let v: u32 = (b[pos] - 0x80) as u32 + ((b[pos + 1] - 0x80) as u32) * 0x80
                + (b[pos + 2] as u32) * 0x4000;
            Some((v, pos + 3))
        }
    } else if b.len() - pos >= 4 && b[pos] >= 0x80 && b[pos + 1] >= 0x80 && b[pos + 2] >= 0x80
        && b[pos + 3] < 0x80 {
        if b[pos + 3] == 0 {
            None
        } else {
            assert(s.skip(4) =~= b@.skip(pos as int + 4));
            let v: u32 = (b[pos] - 0x80) as u32 + ((b[pos + 1] - 0x80) as u32) * 0x80
                + ((b[pos + 2] - 0x80) as u32) * 0x4000 + (b[pos + 3] as u32) * 0x20_0000;
            Some((v, pos + 4))
        }
    } else if b.len() - pos >= 5 && b[pos] >= 0x80 && b[pos + 1] >= 0x80 && b[pos + 2] >= 0x80
        && b[pos + 3] >= 0x80 && b[pos + 4] < 0x80 {
        if b[pos + 4] == 0 || b[pos + 4] > 0x0f {
            None
        } else {
            assert(s.skip(5) =~= b@.skip(pos as int + 5));
            let v: u32 = (b[pos] - 0x80) as u32 + ((b[pos + 1] - 0x80) as u32) * 0x80
                + ((b[pos + 2] - 0x80) as u32) * 0x4000 + ((b[pos + 3] - 0x80) as u32) * 0x20_0000
                + (b[pos + 4] as u32) * 0x1000_0000;
            Some((v, pos + 5))
        }
    } else {
        None
    }
}

// ---------------------------------------------------------------- bytes

/// A single raw byte.
pub open spec fn spec_take8(b: Seq<u8>) -> Option<(u8, Seq<u8>)> {
    if b.len() >= 1 {
        Some((b[0], b.skip(1)))
    } else {
        None
    }
}

/// Decodes one raw byte at position `pos` of `b`.
pub fn decode_u8(b: &Vec<u8>, pos: usize) -> (r: Option<(u8, usize)>)
    requires
        pos <= b@.len(),
    ensures
        (match r {
            Some((v, np)) => pos < np <= b@.len() && spec_take8(b@.skip(pos as int))
                == Some((v, b@.skip(np as int))),
            None => spec_take8(b@.skip(pos as int)) is None,
        }),
{
    if pos < b.len() {
        assert(b@.skip(pos as int)[0] == b@[pos as int]);
        assert(b@.skip(pos as int).skip(1) =~= b@.skip(pos as int + 1));
        Some((b[pos], pos + 1))
    } else {
        None
    }
}

/// Length-prefixed byte string: a `u16` varint count followed by the bytes.
pub open spec fn spec_chunk(s: Seq<u8>) -> Seq<u8> {
    spec_varint16(s.len() as u16) + s
}

/// Reads a length-prefixed byte string off the front of `b`.
pub open spec fn spec_take_chunk(b: Seq<u8>) -> Option<(Seq<u8>, Seq<u8>)> {
    match spec_take16(b) {
        Some((n, r)) => if r.len() >= n {
            Some((r.take(n as int), r.skip(n as int)))
        } else {
            None
        },
        None => None,
    }
}

/// Reading an encoded byte string from the front of any byte sequence gives
/// the bytes back and leaves the trailing bytes untouched.
pub proof fn lemma_take_chunk(s: Seq<u8>, rest: Seq<u8>)
    requires
        s.len() <= 0xffff,
    ensures
        spec_take_chunk(spec_chunk(s) + rest) == Some((s, rest)),
{
    let n = s.len() as u16;
    assert(spec_chunk(s) + rest =~= spec_varint16(n) + (s + rest));
    lemma_take16_varint16(n, s + rest);
    assert((s + rest).take(n as int) =~= s);
    assert((s + rest).skip(n as int) =~= rest);
}

/// Appends the length-prefixed encoding of `s` to `out`.
pub fn encode_chunk(s: &Vec<u8>, out: &mut Vec<u8>)
    requires
        s@.len() <= 0xffff,
    ensures
        final(out)@ == old(out)@ + spec_chunk(s@),
{
    encode_varint16(s.len() as u16, out);
    let ghost mid = out@;
    let mut i: usize = 0;
    while i < s.len()
        invariant
            i <= s@.len(),
            out@ == mid + s@.take(i as int),
        decreases s@.len() - i,
    {
        out.push(s[i]);
        assert(out@ =~= mid + s@.take(i as int + 1));
        i = i + 1;
    }
    assert(s@.take(s@.len() as int) =~= s@);
    assert(out@ =~= old(out)@ + spec_chunk(s@));
}

/// Decodes a length-prefixed byte string at position `pos` of `b`.
pub fn decode_chunk(b: &Vec<u8>, pos: usize) -> (r: Option<(Vec<u8>, usize)>)
    requires
        pos <= b@.len(),
    ensures
        (match r {
            Some((s, np)) => pos < np <= b@.len() && spec_take_chunk(b@.skip(pos as int))
                == Some((s@, b@.skip(np as int))),
            None => spec_take_chunk(b@.skip(pos as int)) is None,
        }),
{
    match decode_varint16(b, pos) {
        None => None,
        Some((n, p1)) => {
            let ghost rem = b@.skip(p1 as int);
            if b.len() - p1 < n as usize {
                None
            } else {
                let end: usize = p1 + n as usize;
                let mut s: Vec<u8> = Vec::new();
                let mut i: usize = p1;
                while i < end
                    invariant
                        p1 <= i <= end,
                        end <= b@.len(),
                        s@ == b@.subrange(p1 as int, i as int),
                    decreases end - i,
                {
                    s.push(b[i]);
                    assert(s@ =~= b@.subrange(p1 as int, i as int + 1));
                    i = i + 1;
                }
                assert(rem.take(n as int) =~= b@.subrange(p1 as int, end as int));
                assert(rem.skip(n as int) =~= b@.skip(end as int));
                Some((s, end))
            }
        },
    }
}


// ---------------------------------------------------------------- soundness

/// A successful `u16` read pins the bytes down: what was consumed is the
/// canonical encoding of the value returned.
pub proof fn lemma_take16_sound(b: Seq<u8>)
    ensures
        spec_take16(b) matches Some((v, rem)) ==> b == spec_varint16(v) + rem,
{
    if let Some((v, rem)) = spec_take16(b) {
        if b.len() >= 1 && b[0] < 0x80 {
            assert(b =~= spec_varint16(v) + b.skip(1));
        } else if b.len() >= 2 && b[0] >= 0x80 && b[1] < 0x80 {
            assert(v == (b[0] - 0x80) + b[1] * 0x80);
            assert(0x80 <= v < 0x4000);
            assert(v % 0x80 == b[0] - 0x80 && v / 0x80 == b[1]) by (nonlinear_arith)
                requires
                    v == (b[0] - 0x80) + b[1] * 0x80,
                    0 <= b[0] - 0x80 < 0x80,
                    0 < b[1] < 0x80,
            ;
            assert(b =~= spec_varint16(v) + b.skip(2));
        } else {
            assert(v == (b[0] - 0x80) + (b[1] - 0x80) * 0x80 + b[2] * 0x4000);
            assert(0x4000 <= v <= 0xffff) by (nonlinear_arith)
                requires
                    v == (b[0] - 0x80) + (b[1] - 0x80) * 0x80 + b[2] * 0x4000,
                    0 <= b[0] - 0x80 < 0x80,
                    0 <= b[1] - 0x80 < 0x80,
                    1 <= b[2] <= 3,
            ;
            assert(v % 0x80 == b[0] - 0x80 && (v / 0x80) % 0x80 == b[1] - 0x80 && v / 0x4000
                == b[2]) by (nonlinear_arith)
                requires
                    v == (b[0] - 0x80) + (b[1] - 0x80) * 0x80 + b[2] * 0x4000,
                    0 <= b[0] - 0x80 < 0x80,
                    0 <= b[1] - 0x80 < 0x80,
                    1 <= b[2] <= 3,
            ;
            assert(b =~= spec_varint16(v) + b.skip(3));
        }
    }
}

/// A successful `u32` read pins the bytes down likewise.
pub proof fn lemma_take32_sound(b: Seq<u8>)
    ensures
        spec_take32(b) matches Some((v, rem)) ==> b == spec_varint32(v) + rem,
{
    if let Some((v, rem)) = spec_take32(b) {
        if b.len() >= 1 && b[0] < 0x80 {
            assert(b =~= spec_varint32(v) + b.skip(1));
        } else if b.len() >= 2 && b[0] >= 0x80 && b[1] < 0x80 {
            assert(v == (b[0] - 0x80) + b[1] * 0x80);
            assert(v % 0x80 == b[0] - 0x80 && v / 0x80 == b[1]) by (nonlinear_arith)
                requires
                    v == (b[0] - 0x80) + b[1] * 0x80,
                    0 <= b[0] - 0x80 < 0x80,
                    0 < b[1] < 0x80,
            ;
            assert(b =~= spec_varint32(v) + b.skip(2));
        } else if b.len() >= 3 && b[0] >= 0x80 && b[1] >= 0x80 && b[2] < 0x80 {
            assert(v == (b[0] - 0x80) + (b[1] - 0x80) * 0x80 + b[2] * 0x4000);
            assert(0x4000 <= v < 0x20_0000 && v % 0x80 == b[0] - 0x80 && (v / 0x80) % 0x80 == b[1]
                - 0x80 && v / 0x4000 == b[2]) by (nonlinear_arith)
                requires
                    v == (b[0] - 0x80) + (b[1] - 0x80) * 0x80 + b[2] * 0x4000,
                    0 <= b[0] - 0x80 < 0x80,
                    0 <= b[1] - 0x80 < 0x80,
                    1 <= b[2] < 0x80,
            ;
            assert(b =~= spec_varint32(v) + b.skip(3));
        } else if b.len() >= 4 && b[0] >= 0x80 && b[1] >= 0x80 && b[2] >= 0x80 && b[3] < 0x80 {
            assert(v == (b[0] - 0x80) + (b[1] - 0x80) * 0x80 + (b[2] - 0x80) * 0x4000 + b[3]
                * 0x20_0000);
            assert(0x20_0000 <= v < 0x1000_0000 && v % 0x80 == b[0] - 0x80 && (v / 0x80) % 0x80
                == b[1] - 0x80 && (v / 0x4000) % 0x80 == b[2] - 0x80 && v / 0x20_0000 == b[3])
                by (nonlinear_arith)
                requires
                    v == (b[0] - 0x80) + (b[1] - 0x80) * 0x80 + (b[2] - 0x80) * 0x4000 + b[3]
                        * 0x20_0000,
                    0 <= b[0] - 0x80 < 0x80,
                    0 <= b[1] - 0x80 < 0x80,
                    0 <= b[2] - 0x80 < 0x80,
                    1 <= b[3] < 0x80,
            ;
            assert(b =~= spec_varint32(v) + b.skip(4));
        } else {
            assert(v == (b[0] - 0x80) + (b[1] - 0x80) * 0x80 + (b[2] - 0x80) * 0x4000 + (b[3]
                - 0x80) * 0x20_0000 + b[4] * 0x1000_0000);
            assert(0x1000_0000 <= v <= 0xffff_ffff && v % 0x80 == b[0] - 0x80 && (v / 0x80) % 0x80
                == b[1] - 0x80 && (v / 0x4000) % 0x80 == b[2] - 0x80 && (v / 0x20_0000) % 0x80
                == b[3] - 0x80 && v / 0x1000_0000 == b[4]) by (nonlinear_arith)
                requires
                    v == (b[0] - 0x80) + (b[1] - 0x80) * 0x80 + (b[2] - 0x80) * 0x4000 + (b[3]
                        - 0x80) * 0x20_0000 + b[4] * 0x1000_0000,
                    0 <= b[0] - 0x80 < 0x80,
                    0 <= b[1] - 0x80 < 0x80,
                    0 <= b[2] - 0x80 < 0x80,
                    0 <= b[3] - 0x80 < 0x80,
                    1 <= b[4] <= 0x0f,
            ;
            assert(b =~= spec_varint32(v) + b.skip(5));
        }
    }
}

/// A successful byte-string read pins the bytes down: what was consumed is
/// the length prefix and exactly those bytes.
pub proof fn lemma_take_chunk_sound(b: Seq<u8>)
    ensures
        spec_take_chunk(b) matches Some((s, rem)) ==> b == spec_chunk(s) + rem && s.len()
            <= 0xffff,
{
    if let Some((s, rem)) = spec_take_chunk(b) {
        let (n, r) = spec_take16(b).unwrap();
        lemma_take16_sound(b);
        assert(s == r.take(n as int) && rem == r.skip(n as int));
        assert(r =~= s + rem);
        assert(s.len() == n);
        assert(b =~= spec_chunk(s) + rem);
    }
}

} // verus!
