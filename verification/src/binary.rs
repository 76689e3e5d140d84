//! The binary skeleton decoder.
//!
//! Every reader takes the byte buffer and a position and returns the decoded
//! value with the position after it, or a typed error. Each reader is exactly
//! mirrored by a spec function (`sp_*`), and the public entry point is proved
//! equal to the composition of those mirrors.
use vstd::prelude::*;
use crate::num::{Scalar, f32_fixed, f32_to_fixed};
use crate::color::Color;
use crate::geom::Vec2;
use crate::{DecodeError, DecodeKind, Field, ReferenceError, SpinalError};

pub mod animation;
pub mod bone;
pub mod skin;

verus! {

/// A truncation error at `pos`.
pub open spec fn sp_trunc(pos: usize, f: Field) -> SpinalError {
    SpinalError::Decode(DecodeError { offset: pos, field: f, kind: DecodeKind::Truncated })
}

/// An out-of-range value error at `pos`.
pub open spec fn sp_bad(pos: usize, f: Field) -> SpinalError {
    SpinalError::Decode(DecodeError { offset: pos, field: f, kind: DecodeKind::BadValue })
}

/// One byte.
pub open spec fn sp_byte(b: Seq<u8>, pos: usize, f: Field) -> Result<(u8, usize), SpinalError> {
    if pos < b.len() {
        Ok((b[pos as int], (pos + 1) as usize))
    } else {
        Err(sp_trunc(pos, f))
    }
}

pub fn rd_byte(b: &[u8], pos: usize, f: Field) -> (r: Result<(u8, usize), SpinalError>)
    ensures
        r == sp_byte(b@, pos, f),
{
    if pos < b.len() {
        Ok((b[pos], pos + 1))
    } else {
        Err(SpinalError::Decode(DecodeError { offset: pos, field: f, kind: DecodeKind::Truncated }))
    }
}

/// A big-endian `u32`.
pub open spec fn sp_u32_be(b: Seq<u8>, pos: usize, f: Field) -> Result<(u32, usize), SpinalError> {
    if pos + 4 <= b.len() {
        Ok(
            (
                (b[pos as int] as u32) << 24 | (b[pos as int + 1] as u32) << 16 | (b[pos as int + 2] as u32) << 8 | (b[
                    pos as int + 3
                ] as u32),
                (pos + 4) as usize,
            ),
        )
    } else {
        Err(sp_trunc(pos, f))
    }
}

pub fn rd_u32_be(b: &[u8], pos: usize, f: Field) -> (r: Result<(u32, usize), SpinalError>)
    ensures
        r == sp_u32_be(b@, pos, f),
{
    if b.len() >= 4 && pos <= b.len() - 4 {
        let v = (b[pos] as u32) << 24 | (b[pos + 1] as u32) << 16 | (b[pos + 2] as u32) << 8 | (b[pos + 3] as u32);
        Ok((v, pos + 4))
    } else {
        Err(SpinalError::Decode(DecodeError { offset: pos, field: f, kind: DecodeKind::Truncated }))
    }
}

/// A big-endian `u64`.
pub open spec fn sp_u64_be(b: Seq<u8>, pos: usize, f: Field) -> Result<(u64, usize), SpinalError> {
    if pos + 8 <= b.len() {
        Ok(
            (
                (b[pos as int] as u64) << 56 | (b[pos as int + 1] as u64) << 48 | (b[pos as int + 2] as u64) << 40 | (b[
                    pos as int + 3
                ] as u64) << 32 | (b[pos as int + 4] as u64) << 24 | (b[pos as int + 5] as u64) << 16 | (b[pos as int
                    + 6] as u64) << 8 | (b[pos as int + 7] as u64),
                (pos + 8) as usize,
            ),
        )
    } else {
        Err(sp_trunc(pos, f))
    }
}

pub fn rd_u64_be(b: &[u8], pos: usize, f: Field) -> (r: Result<(u64, usize), SpinalError>)
    ensures
        r == sp_u64_be(b@, pos, f),
{
    if b.len() >= 8 && pos <= b.len() - 8 {
        let v = (b[pos] as u64) << 56 | (b[pos + 1] as u64) << 48 | (b[pos + 2] as u64) << 40 | (b[pos + 3] as u64)
            << 32 | (b[pos + 4] as u64) << 24 | (b[pos + 5] as u64) << 16 | (b[pos + 6] as u64) << 8 | (b[pos
            + 7] as u64);
        Ok((v, pos + 8))
    } else {
        Err(SpinalError::Decode(DecodeError { offset: pos, field: f, kind: DecodeKind::Truncated }))
    }
}

/// A variable-length unsigned integer: each byte carries seven low bits, the
/// high bit says more bytes follow, and decoding stops after five bytes even
/// if the fifth still has its high bit set (excess bits are dropped).
pub open spec fn sp_varint(b: Seq<u8>, pos: usize, f: Field) -> Result<(u32, usize), SpinalError> {
    if pos >= b.len() {
        Err(sp_trunc(pos, f))
    } else {
        let b0 = b[pos as int];
        let v0 = (b0 & 0x7f) as u32;
        if b0 & 0x80 == 0 {
            Ok((v0, (pos + 1) as usize))
        } else if pos + 1 >= b.len() {
            Err(sp_trunc((pos + 1) as usize, f))
        } else {
            let b1 = b[pos as int + 1];
            let v1 = v0 | ((b1 & 0x7f) as u32) << 7;
            if b1 & 0x80 == 0 {
                Ok((v1, (pos + 2) as usize))
            } else if pos + 2 >= b.len() {
                Err(sp_trunc((pos + 2) as usize, f))
            } else {
                let b2 = b[pos as int + 2];
                let v2 = v1 | ((b2 & 0x7f) as u32) << 14;
                if b2 & 0x80 == 0 {
                    Ok((v2, (pos + 3) as usize))
                } else if pos + 3 >= b.len() {
                    Err(sp_trunc((pos + 3) as usize, f))
                } else {
                    let b3 = b[pos as int + 3];
                    let v3 = v2 | ((b3 & 0x7f) as u32) << 21;
                    if b3 & 0x80 == 0 {
                        Ok((v3, (pos + 4) as usize))
                    } else if pos + 4 >= b.len() {
                        Err(sp_trunc((pos + 4) as usize, f))
                    } else {
                        let b4 = b[pos as int + 4];
                        let v4 = v3 | ((b4 & 0x7f) as u32) << 28;
                        Ok((v4, (pos + 5) as usize))
                    }
                }
            }
        }
    }
}

pub fn rd_varint(b: &[u8], pos: usize, f: Field) -> (r: Result<(u32, usize), SpinalError>)
    ensures
        r == sp_varint(b@, pos, f),
{
    if pos >= b.len() {
        return Err(SpinalError::Decode(DecodeError { offset: pos, field: f, kind: DecodeKind::Truncated }));
    }
    let b0 = b[pos];
    let v0 = (b0 & 0x7f) as u32;
    if b0 & 0x80 == 0 {
        return Ok((v0, pos + 1));
    }
    if pos + 1 >= b.len() {
        return Err(SpinalError::Decode(DecodeError { offset: pos + 1, field: f, kind: DecodeKind::Truncated }));
    }
    let b1 = b[pos + 1];
    let v1 = v0 | ((b1 & 0x7f) as u32) << 7;
    if b1 & 0x80 == 0 {
        return Ok((v1, pos + 2));
    }
    if pos + 2 >= b.len() {
        return Err(SpinalError::Decode(DecodeError { offset: pos + 2, field: f, kind: DecodeKind::Truncated }));
    }
    let b2 = b[pos + 2];
    let v2 = v1 | ((b2 & 0x7f) as u32) << 14;
    if b2 & 0x80 == 0 {
        return Ok((v2, pos + 3));
    }
    if pos + 3 >= b.len() {
        return Err(SpinalError::Decode(DecodeError { offset: pos + 3, field: f, kind: DecodeKind::Truncated }));
    }
    let b3 = b[pos + 3];
    let v3 = v2 | ((b3 & 0x7f) as u32) << 21;
    if b3 & 0x80 == 0 {
        return Ok((v3, pos + 4));
    }
    if pos + 4 >= b.len() {
        return Err(SpinalError::Decode(DecodeError { offset: pos + 4, field: f, kind: DecodeKind::Truncated }));
    }
    let b4 = b[pos + 4];
    let v4 = v3 | ((b4 & 0x7f) as u32) << 28;
    Ok((v4, pos + 5))
}

/// The bytes that encode `v` as an unsigned varint.
pub open spec fn sp_varint_encode(v: u32) -> Seq<u8>
    decreases v,
    via sp_varint_encode_dec
{
    if v < 0x80 {
        seq![v as u8]
    } else {
        seq![((v & 0x7f) | 0x80) as u8] + sp_varint_encode(v >> 7)
    }
}

#[via_fn]
proof fn sp_varint_encode_dec(v: u32) {
    assert(v >= 0x80 ==> v >> 7 < v) by (bit_vector);
}

/// Encode `v` as an unsigned varint, one to five bytes.
pub fn encode_varint(v: u32) -> (r: Vec<u8>)
    ensures
        r@ =~= sp_varint_encode(v),
    decreases v,
{
    if v < 0x80 {
        let mut r: Vec<u8> = Vec::new();
        r.push(v as u8);
        r
    } else {
        proof {
            assert(v >= 0x80 ==> v >> 7 < v) by (bit_vector);
        }
        let mut r: Vec<u8> = Vec::new();
        r.push(((v & 0x7f) | 0x80) as u8);
        let mut rest = encode_varint(v >> 7);
        r.append(&mut rest);
        r
    }
}

/// Law: decoding an unsigned-varint encoding, placed at the start of any
/// buffer, yields the encoded value back and stops right after it, whatever
/// follows. With the second law below, encode and decode are inverse.
pub proof fn lemma_varint_round_trip(v: u32, rest: Seq<u8>, f: Field)
    ensures
        sp_varint(sp_varint_encode(v) + rest, 0, f) == Ok::<(u32, usize), SpinalError>(
            (v, sp_varint_encode(v).len() as usize),
        ),
{
    reveal_with_fuel(sp_varint_encode, 6);
    let s = sp_varint_encode(v) + rest;
    if v < 0x80 {
        assert((v as u8) & 0x80 == 0 && ((v as u8) & 0x7f) as u32 == v) by (bit_vector)
            requires
                v < 0x80,
        ;
        assert(s[0] == v as u8);
    } else {
        let b0 = ((v & 0x7f) | 0x80) as u8;
        let v1 = v >> 7;
        assert(b0 & 0x80 != 0 && v1 < 0x0200_0000) by (bit_vector)
            requires
                b0 == ((v & 0x7f) | 0x80) as u8,
                v1 == v >> 7,
        ;
        if v1 < 0x80 {
            assert(s.len() == 2 + rest.len() && s[0] == b0 && s[1] == v1 as u8);
            assert((v1 as u8) & 0x80 == 0 && ((b0 & 0x7f) as u32 | (((v1 as u8) & 0x7f) as u32) << 7) == v)
                by (bit_vector)
                requires
                    v1 == v >> 7,
                    v1 < 0x80,
                    0x80 <= v,
                    b0 == ((v & 0x7f) | 0x80) as u8,
            ;
        } else {
            let b1 = ((v1 & 0x7f) | 0x80) as u8;
            let v2 = v1 >> 7;
            assert(b1 & 0x80 != 0) by (bit_vector)
                requires
                    b1 == ((v1 & 0x7f) | 0x80) as u8,
            ;
            if v2 < 0x80 {
                assert(s.len() == 3 + rest.len() && s[0] == b0 && s[1] == b1 && s[2] == v2 as u8);
                assert((v2 as u8) & 0x80 == 0 && ((b0 & 0x7f) as u32 | ((b1 & 0x7f) as u32) << 7 | (((
                v2 as u8) & 0x7f) as u32) << 14) == v) by (bit_vector)
                    requires
                        v1 == v >> 7,
                        v2 == v1 >> 7,
                        v2 < 0x80,
                        0x80 <= v1,
                        b0 == ((v & 0x7f) | 0x80) as u8,
                        b1 == ((v1 & 0x7f) | 0x80) as u8,
                ;
            } else {
                let b2 = ((v2 & 0x7f) | 0x80) as u8;
                let v3 = v2 >> 7;
                assert(b2 & 0x80 != 0) by (bit_vector)
                    requires
                        b2 == ((v2 & 0x7f) | 0x80) as u8,
                ;
                if v3 < 0x80 {
                    assert(s.len() == 4 + rest.len() && s[0] == b0 && s[1] == b1 && s[2] == b2 && s[3] == v3 as u8);
                    assert((v3 as u8) & 0x80 == 0 && ((b0 & 0x7f) as u32 | ((b1 & 0x7f) as u32) << 7 | ((b2
                        & 0x7f) as u32) << 14 | (((v3 as u8) & 0x7f) as u32) << 21) == v) by (bit_vector)
                        requires
                            v1 == v >> 7,
                            v2 == v1 >> 7,
                            v3 == v2 >> 7,
                            v3 < 0x80,
                            0x80 <= v2,
                            b0 == ((v & 0x7f) | 0x80) as u8,
                            b1 == ((v1 & 0x7f) | 0x80) as u8,
                            b2 == ((v2 & 0x7f) | 0x80) as u8,
                    ;
                } else {
                    let b3 = ((v3 & 0x7f) | 0x80) as u8;
                    let v4 = v3 >> 7;
                    assert(v3 < 0x800) by (bit_vector)
                        requires
                            v1 == v >> 7,
                            v2 == v1 >> 7,
                            v3 == v2 >> 7,
                    ;
                    assert(b3 & 0x80 != 0 && v4 < 0x80) by (bit_vector)
                        requires
                            b3 == ((v3 & 0x7f) | 0x80) as u8,
                            v4 == v3 >> 7,
                            v3 < 0x800,
                    ;
                    assert(s.len() == 5 + rest.len() && s[0] == b0 && s[1] == b1 && s[2] == b2 && s[3] == b3 && s[4] == v4 as u8);
                    assert(((b0 & 0x7f) as u32 | ((b1 & 0x7f) as u32) << 7 | ((b2 & 0x7f) as u32) << 14 | ((b3
                        & 0x7f) as u32) << 21 | (((v4 as u8) & 0x7f) as u32) << 28) == v) by (bit_vector)
                        requires
                            v1 == v >> 7,
                            v2 == v1 >> 7,
                            v3 == v2 >> 7,
                            v4 == v3 >> 7,
                            0x80 <= v3,
                            b0 == ((v & 0x7f) | 0x80) as u8,
                            b1 == ((v1 & 0x7f) | 0x80) as u8,
                            b2 == ((v2 & 0x7f) | 0x80) as u8,
                            b3 == ((v3 & 0x7f) | 0x80) as u8,
                    ;
                }
            }
        }
    }
}

/// The signed reading of a decoded varint: the low bit holds the sign.
pub open spec fn sp_zigzag(v: u32) -> int {
    if v & 1 == 1 {
        -((v >> 1) + 1)
    } else {
        (v >> 1) as int
    }
}

/// A variable-length signed integer: an unsigned varint whose low bit set
/// means negative.
pub open spec fn sp_varint_signed(b: Seq<u8>, pos: usize, f: Field) -> Result<(i32, usize), SpinalError> {
    match sp_varint(b, pos, f) {
        Ok((v, p)) => Ok((sp_zigzag(v) as i32, p)),
        Err(e) => Err(e),
    }
}

pub fn rd_varint_signed(b: &[u8], pos: usize, f: Field) -> (r: Result<(i32, usize), SpinalError>)
    ensures
        r == sp_varint_signed(b@, pos, f),
{
    let (v, p) = match rd_varint(b, pos, f) {
        Ok(vp) => vp,
        Err(e) => {
            return Err(e);
        },
    };
    let neg = v & 1 == 1;
    let shifted: i64 = (v >> 1) as i64;
    let z: i64 = if neg {
        -(shifted + 1)
    } else {
        shifted
    };
    proof {
        assert(v >> 1 <= 0x7fffffffu32) by (bit_vector);
    }
    Ok((z as i32, p))
}

/// The unsigned varint value that encodes `x`: the magnitude shifted up,
/// the sign in the low bit.
pub open spec fn sp_zigzag_encode(x: i32) -> u32 {
    if x < 0 {
        (((-(x as int + 1)) as u32) << 1) | 1
    } else {
        (x as u32) << 1
    }
}

/// Encode `x` as a signed varint.
pub fn encode_varint_signed(x: i32) -> (r: Vec<u8>)
    ensures
        r@ =~= sp_varint_encode(sp_zigzag_encode(x)),
{
    let u: u32 = if x < 0 {
        let m: i64 = -(x as i64 + 1);
        ((m as u32) << 1) | 1
    } else {
        (x as u32) << 1
    };
    encode_varint(u)
}

/// Law: the signed reading of the zigzag encoding of any `i32` is that
/// value again; with `lemma_varint_round_trip`, a signed varint written by
/// `encode_varint_signed` decodes to the value it was made from.
pub proof fn lemma_zigzag_round_trip(x: i32)
    ensures
        sp_zigzag(sp_zigzag_encode(x)) == x as int,
{
    if x < 0 {
        let m: u32 = (-(x as int + 1)) as u32;
        assert(0 <= -(x as int + 1) < 0x80000000);
        assert(m as int == -(x as int + 1));
        let u = (m << 1) | 1;
        assert(m <= 0x7fffffffu32 ==> ((m << 1) | 1) & 1 == 1 && (((m << 1) | 1) >> 1) == m) by (bit_vector);
        assert(sp_zigzag(u) == -((m as int) + 1));
    } else {
        let u = (x as u32) << 1;
        assert(x >= 0 ==> ((x as u32) << 1) & 1 == 0 && (((x as u32) << 1) >> 1) == x as u32) by (bit_vector);
    }
}

/// Law: every signed varint written by `encode_varint_signed` decodes, at the
/// start of any buffer that begins with it, to the value it was made from.
pub proof fn lemma_varint_signed_round_trip(x: i32, rest: Seq<u8>, f: Field)
    ensures
        sp_varint_signed(sp_varint_encode(sp_zigzag_encode(x)) + rest, 0, f) == Ok::<(i32, usize), SpinalError>(
            (x, sp_varint_encode(sp_zigzag_encode(x)).len() as usize),
        ),
{
    let u = sp_zigzag_encode(x);
    lemma_varint_round_trip(u, rest, f);
    lemma_zigzag_round_trip(x);
}

/// A boolean byte: 0 or 1.
pub open spec fn sp_bool(b: Seq<u8>, pos: usize, f: Field) -> Result<(bool, usize), SpinalError> {
    match sp_byte(b, pos, f) {
        Ok((v, p)) => {
            if v == 0 {
                Ok((false, p))
            } else if v == 1 {
                Ok((true, p))
            } else {
                Err(sp_bad(pos, f))
            }
        },
        Err(e) => Err(e),
    }
}

pub fn rd_bool(b: &[u8], pos: usize, f: Field) -> (r: Result<(bool, usize), SpinalError>)
    ensures
        r == sp_bool(b@, pos, f),
{
    match rd_byte(b, pos, f) {
        Ok((v, p)) => {
            if v == 0 {
                Ok((false, p))
            } else if v == 1 {
                Ok((true, p))
            } else {
                Err(SpinalError::Decode(DecodeError { offset: pos, field: f, kind: DecodeKind::BadValue }))
            }
        },
        Err(e) => Err(e),
    }
}

/// A big-endian IEEE-754 single-precision number, decoded to fixed point.
pub open spec fn sp_float(b: Seq<u8>, pos: usize, f: Field) -> Result<(Scalar, usize), SpinalError> {
    match sp_u32_be(b, pos, f) {
        Ok((v, p)) => Ok((Scalar { bits: f32_fixed(v) as i64 }, p)),
        Err(e) => Err(e),
    }
}

pub fn rd_float(b: &[u8], pos: usize, f: Field) -> (r: Result<(Scalar, usize), SpinalError>)
    ensures
        r == sp_float(b@, pos, f),
{
    match rd_u32_be(b, pos, f) {
        Ok((v, p)) => Ok((Scalar { bits: f32_to_fixed(v) }, p)),
        Err(e) => Err(e),
    }
}

/// A pair of floats.
pub open spec fn sp_vec2(b: Seq<u8>, pos: usize, f: Field) -> Result<(Vec2, usize), SpinalError> {
    match sp_float(b, pos, f) {
        Ok((x, p)) => match sp_float(b, p, f) {
            Ok((y, p2)) => Ok((Vec2 { x, y }, p2)),
            Err(e) => Err(e),
        },
        Err(e) => Err(e),
    }
}

pub fn rd_vec2(b: &[u8], pos: usize, f: Field) -> (r: Result<(Vec2, usize), SpinalError>)
    ensures
        r == sp_vec2(b@, pos, f),
{
    let (x, p) = match rd_float(b, pos, f) {
        Ok(v) => v,
        Err(e) => {
            return Err(e);
        },
    };
    let (y, p2) = match rd_float(b, p, f) {
        Ok(v) => v,
        Err(e) => {
            return Err(e);
        },
    };
    Ok((Vec2 { x, y }, p2))
}

/// A four-byte RGBA color.
pub open spec fn sp_col(b: Seq<u8>, pos: usize, f: Field) -> Result<(Color, usize), SpinalError> {
    match sp_u32_be(b, pos, f) {
        Ok((v, p)) => Ok((Color(v), p)),
        Err(e) => Err(e),
    }
}

pub fn rd_col(b: &[u8], pos: usize, f: Field) -> (r: Result<(Color, usize), SpinalError>)
    ensures
        r == sp_col(b@, pos, f),
{
    match rd_u32_be(b, pos, f) {
        Ok((v, p)) => Ok((Color(v), p)),
        Err(e) => Err(e),
    }
}

/// A four-byte RGBA color where the all-ones pattern means "absent".
pub open spec fn sp_col_opt(b: Seq<u8>, pos: usize, f: Field) -> Result<(Option<Color>, usize), SpinalError> {
    match sp_u32_be(b, pos, f) {
        Ok((v, p)) => Ok((if v == 0xffffffffu32 { None } else { Some(Color(v)) }, p)),
        Err(e) => Err(e),
    }
}

pub fn rd_col_opt(b: &[u8], pos: usize, f: Field) -> (r: Result<(Option<Color>, usize), SpinalError>)
    ensures
        r == sp_col_opt(b@, pos, f),
{
    match rd_u32_be(b, pos, f) {
        Ok((v, p)) => Ok((if v == 0xffffffff { None } else { Some(Color(v)) }, p)),
        Err(e) => Err(e),
    }
}

/// A bend direction byte: 1 bends positive, 255 (-1) bends negative.
#[derive(Debug, Clone, Copy, PartialEq, Eq, Structural)]
pub enum Bend {
    Positive,
    Negative,
}

pub open spec fn sp_bend(b: Seq<u8>, pos: usize, f: Field) -> Result<(Bend, usize), SpinalError> {
    match sp_byte(b, pos, f) {
        Ok((v, p)) => {
            if v == 1 {
                Ok((Bend::Positive, p))
            } else if v == 255 {
                Ok((Bend::Negative, p))
            } else {
                Err(sp_bad(pos, f))
            }
        },
        Err(e) => Err(e),
    }
}

pub fn rd_bend(b: &[u8], pos: usize, f: Field) -> (r: Result<(Bend, usize), SpinalError>)
    ensures
        r == sp_bend(b@, pos, f),
{
    match rd_byte(b, pos, f) {
        Ok((v, p)) => {
            if v == 1 {
                Ok((Bend::Positive, p))
            } else if v == 255 {
                Ok((Bend::Negative, p))
            } else {
                Err(SpinalError::Decode(DecodeError { offset: pos, field: f, kind: DecodeKind::BadValue }))
            }
        },
        Err(e) => Err(e),
    }
}

/// The lowercase hexadecimal digit for a value below 16.
pub open spec fn spec_hex_char(d: u8) -> char {
    if d == 0 {
        '0'
    } else if d == 1 {
        '1'
    } else if d == 2 {
        '2'
    } else if d == 3 {
        '3'
    } else if d == 4 {
        '4'
    } else if d == 5 {
        '5'
    } else if d == 6 {
        '6'
    } else if d == 7 {
        '7'
    } else if d == 8 {
        '8'
    } else if d == 9 {
        '9'
    } else if d == 10 {
        'a'
    } else if d == 11 {
        'b'
    } else if d == 12 {
        'c'
    } else if d == 13 {
        'd'
    } else if d == 14 {
        'e'
    } else {
        'f'
    }
}

fn hex_char_str(d: u8) -> (r: &'static str)
    requires
        d < 16,
    ensures
        r@ =~= seq![spec_hex_char(d)],
{
    proof {
        reveal_strlit("0");
        reveal_strlit("1");
        reveal_strlit("2");
        reveal_strlit("3");
        reveal_strlit("4");
        reveal_strlit("5");
        reveal_strlit("6");
        reveal_strlit("7");
        reveal_strlit("8");
        reveal_strlit("9");
        reveal_strlit("a");
        reveal_strlit("b");
        reveal_strlit("c");
        reveal_strlit("d");
        reveal_strlit("e");
        reveal_strlit("f");
    }
    match d {
        0 => "0",
        1 => "1",
        2 => "2",
        3 => "3",
        4 => "4",
        5 => "5",
        6 => "6",
        7 => "7",
        8 => "8",
        9 => "9",
        10 => "a",
        11 => "b",
        12 => "c",
        13 => "d",
        14 => "e",
        _ => "f",
    }
}

/// The lowercase hexadecimal digits of `v`, most significant first, without
/// leading zeros (a single `0` for zero).
pub open spec fn spec_hex_u64(v: u64) -> Seq<char>
    decreases v,
{
    if v < 16 {
        seq![spec_hex_char(v as u8)]
    } else {
        spec_hex_u64(v / 16).push(spec_hex_char((v % 16) as u8))
    }
}

/// Format `v` as lowercase hexadecimal digits.
pub fn hex_u64(v: u64) -> (r: String)
    ensures
        r@ =~= spec_hex_u64(v),
    decreases v,
{
    let d: u8 = (v % 16) as u8;
    let s = hex_char_str(d);
    if v < 16 {
        s.to_owned()
    } else {
        let mut r = hex_u64(v / 16);
        r.append(s);
        proof {
            assert(r@ =~= spec_hex_u64(v / 16).push(spec_hex_char(d)));
        }
        r
    }
}

/// Relies on `String::from_utf8`: it succeeds exactly on valid UTF-8 and
/// returns the string whose characters decode those bytes.
#[verifier::external_body]
pub(crate) fn utf8_to_string(v: Vec<u8>) -> (r: Option<String>)
    ensures
        r is Some <==> vstd::utf8::valid_utf8(v@),
        r matches Some(s) ==> s@ == vstd::utf8::decode_utf8(v@),
{
    String::from_utf8(v).ok()
}

/// A length-prefixed, possibly absent string: a varint count, zero meaning
/// absent and one meaning empty; otherwise `count - 1` bytes of UTF-8.
pub open spec fn sp_str_opt(b: Seq<u8>, pos: usize, f: Field) -> Result<(Option<Seq<char>>, usize), SpinalError> {
    match sp_varint(b, pos, f) {
        Ok((n, p)) => {
            if n == 0 {
                Ok((None, p))
            } else if n == 1 {
                Ok((Some(Seq::<char>::empty()), p))
            } else if p + n - 1 <= b.len() {
                let bytes = b.subrange(p as int, p as int + n - 1);
                if vstd::utf8::valid_utf8(bytes) {
                    Ok((Some(vstd::utf8::decode_utf8(bytes)), (p + n - 1) as usize))
                } else {
                    Err(SpinalError::Decode(DecodeError { offset: p, field: f, kind: DecodeKind::InvalidUtf8 }))
                }
            } else {
                Err(sp_trunc(p, f))
            }
        },
        Err(e) => Err(e),
    }
}

pub fn rd_str_opt(b: &[u8], pos: usize, f: Field) -> (r: Result<(Option<String>, usize), SpinalError>)
    ensures
        r matches Ok((s, p)) ==> sp_str_opt(b@, pos, f) matches Ok((ss, pp)) && p == pp && (s matches Some(s1)
            ==> ss matches Some(s2) && s1@ == s2) && (s is None <==> ss is None),
        r matches Err(e) ==> sp_str_opt(b@, pos, f) == Err::<(Option<Seq<char>>, usize), SpinalError>(e),
{
    let (n, p) = match rd_varint(b, pos, f) {
        Ok(v) => v,
        Err(e) => {
            return Err(e);
        },
    };
    if n == 0 {
        return Ok((None, p));
    }
    if n == 1 {
        return Ok((Some(String::new()), p));
    }
    let len: usize = (n - 1) as usize;
    if !(b.len() >= len && p <= b.len() - len) {
        return Err(SpinalError::Decode(DecodeError { offset: p, field: f, kind: DecodeKind::Truncated }));
    }
    let sub = vstd::slice::slice_subrange(b, p, p + len);
    let bytes = vstd::slice::slice_to_vec(sub);
    match utf8_to_string(bytes) {
        Some(s) => Ok((Some(s), p + len)),
        None => Err(SpinalError::Decode(DecodeError { offset: p, field: f, kind: DecodeKind::InvalidUtf8 })),
    }
}

/// A length-prefixed string that must be present.
pub open spec fn sp_str(b: Seq<u8>, pos: usize, f: Field) -> Result<(Seq<char>, usize), SpinalError> {
    match sp_str_opt(b, pos, f) {
        Ok((Some(s), p)) => Ok((s, p)),
        Ok((None, p)) => Err(sp_bad(pos, f)),
        Err(e) => Err(e),
    }
}

pub fn rd_str(b: &[u8], pos: usize, f: Field) -> (r: Result<(String, usize), SpinalError>)
    ensures
        r matches Ok((s, p)) ==> sp_str(b@, pos, f) matches Ok((ss, pp)) && p == pp && s@ == ss,
        r matches Err(e) ==> sp_str(b@, pos, f) == Err::<(Seq<char>, usize), SpinalError>(e),
{
    match rd_str_opt(b, pos, f) {
        Ok((Some(s), p)) => Ok((s, p)),
        Ok((None, _)) => Err(SpinalError::Decode(DecodeError { offset: pos, field: f, kind: DecodeKind::BadValue })),
        Err(e) => Err(e),
    }
}

/// An indirect string reference: a varint index into the string table,
/// zero meaning absent, `n` meaning entry `n - 1`; an index past the table
/// is a reference error.
pub open spec fn sp_str_table_opt(strings: Seq<Seq<char>>, b: Seq<u8>, pos: usize, f: Field) -> Result<
    (Option<Seq<char>>, usize),
    SpinalError,
> {
    match sp_varint(b, pos, f) {
        Ok((idx, p)) => {
            if idx == 0 {
                Ok((None, p))
            } else if idx - 1 < strings.len() {
                Ok((Some(strings[idx - 1]), p))
            } else {
                Err(SpinalError::Reference(ReferenceError::StringIndex(idx as usize)))
            }
        },
        Err(e) => Err(e),
    }
}

pub fn rd_str_table_opt(strings: &Vec<String>, b: &[u8], pos: usize, f: Field) -> (r: Result<
    (Option<String>, usize),
    SpinalError,
>)
    ensures
        r matches Ok((s, p)) ==> sp_str_table_opt(strings.deep_view(), b@, pos, f) matches Ok((ss, pp)) && p == pp
            && (s matches Some(s1) ==> ss matches Some(s2) && s1@ == s2) && (s is None <==> ss is None),
        r matches Err(e) ==> sp_str_table_opt(strings.deep_view(), b@, pos, f) == Err::<
            (Option<Seq<char>>, usize),
            SpinalError,
        >(e),
{
    let (idx, p) = match rd_varint(b, pos, f) {
        Ok(v) => v,
        Err(e) => {
            return Err(e);
        },
    };
    if idx == 0 {
        return Ok((None, p));
    }
    let i: usize = (idx - 1) as usize;
    if i < strings.len() {
        let s: String = strings[i].clone();
        Ok((Some(s), p))
    } else {
        Err(SpinalError::Reference(ReferenceError::StringIndex(idx as usize)))
    }
}

/// A count-prefixed list of varint indices.
pub open spec fn sp_varint_list_rec(b: Seq<u8>, pos: usize, remaining: nat, acc: Seq<usize>) -> Result<
    (Seq<usize>, usize),
    SpinalError,
>
    decreases remaining,
{
    if remaining == 0 {
        Ok((acc, pos))
    } else {
        match sp_varint(b, pos, Field::Count) {
            Ok((v, p)) => sp_varint_list_rec(b, p, (remaining - 1) as nat, acc.push(v as usize)),
            Err(e) => Err(e),
        }
    }
}

pub open spec fn sp_varint_list(b: Seq<u8>, pos: usize) -> Result<(Seq<usize>, usize), SpinalError> {
    match sp_varint(b, pos, Field::Count) {
        Ok((n, p)) => sp_varint_list_rec(b, p, n as nat, Seq::empty()),
        Err(e) => Err(e),
    }
}

pub fn rd_varint_list(b: &[u8], pos: usize) -> (r: Result<(Vec<usize>, usize), SpinalError>)
    ensures
        r matches Ok((v, p)) ==> sp_varint_list(b@, pos) == Ok::<(Seq<usize>, usize), SpinalError>((v@, p)),
        r matches Err(e) ==> sp_varint_list(b@, pos) == Err::<(Seq<usize>, usize), SpinalError>(e),
{
    let (n, p0) = match rd_varint(b, pos, Field::Count) {
        Ok(v) => v,
        Err(e) => {
            return Err(e);
        },
    };
    let mut items: Vec<usize> = Vec::new();
    let mut p: usize = p0;
    let mut i: u32 = 0;
    proof {
        assert(items@ =~= Seq::<usize>::empty());
    }
    while i < n
        invariant
            i <= n,
            items@.len() == i as int,
            sp_varint_list(b@, pos) == sp_varint_list_rec(b@, p, (n - i) as nat, items@),
        decreases n - i,
    {
        proof {
            reveal_with_fuel(sp_varint_list_rec, 2);
        }
        let (v, p2) = match rd_varint(b, p, Field::Count) {
            Ok(v) => v,
            Err(e) => {
                return Err(e);
            },
        };
        items.push(v as usize);
        p = p2;
        i = i + 1;
    }
    proof {
        reveal_with_fuel(sp_varint_list_rec, 2);
    }
    Ok((items, p))
}

/// A count-prefixed list of varint bone indices, each of which must resolve
/// below `limit`.
pub open spec fn sp_bone_list_rec(b: Seq<u8>, pos: usize, remaining: nat, limit: usize, acc: Seq<usize>) -> Result<
    (Seq<usize>, usize),
    SpinalError,
>
    decreases remaining,
{
    if remaining == 0 {
        Ok((acc, pos))
    } else {
        match sp_varint(b, pos, Field::Count) {
            Ok((v, p)) => {
                if (v as usize) < limit {
                    sp_bone_list_rec(b, p, (remaining - 1) as nat, limit, acc.push(v as usize))
                } else {
                    Err(SpinalError::Reference(ReferenceError::BoneIndex(v as usize)))
                }
            },
            Err(e) => Err(e),
        }
    }
}

pub open spec fn sp_bone_list(b: Seq<u8>, pos: usize, limit: usize) -> Result<(Seq<usize>, usize), SpinalError> {
    match sp_varint(b, pos, Field::Count) {
        Ok((n, p)) => sp_bone_list_rec(b, p, n as nat, limit, Seq::empty()),
        Err(e) => Err(e),
    }
}

pub fn rd_bone_list(b: &[u8], pos: usize, limit: usize) -> (r: Result<(Vec<usize>, usize), SpinalError>)
    ensures
        r matches Ok((v, p)) ==> sp_bone_list(b@, pos, limit) == Ok::<(Seq<usize>, usize), SpinalError>((v@, p)),
        r matches Err(e) ==> sp_bone_list(b@, pos, limit) == Err::<(Seq<usize>, usize), SpinalError>(e),
{
    let (n, p0) = match rd_varint(b, pos, Field::Count) {
        Ok(v) => v,
        Err(e) => {
            return Err(e);
        },
    };
    let mut items: Vec<usize> = Vec::new();
    let mut p: usize = p0;
    let mut i: u32 = 0;
    proof {
        assert(items@ =~= Seq::<usize>::empty());
    }
    while i < n
        invariant
            i <= n,
            items@.len() == i as int,
            sp_bone_list(b@, pos, limit) == sp_bone_list_rec(b@, p, (n - i) as nat, limit, items@),
        decreases n - i,
    {
        proof {
            reveal_with_fuel(sp_bone_list_rec, 2);
        }
        let (v, p2) = match rd_varint(b, p, Field::Count) {
            Ok(v) => v,
            Err(e) => {
                return Err(e);
            },
        };
        if !((v as usize) < limit) {
            return Err(SpinalError::Reference(ReferenceError::BoneIndex(v as usize)));
        }
        items.push(v as usize);
        p = p2;
        i = i + 1;
    }
    proof {
        reveal_with_fuel(sp_bone_list_rec, 2);
    }
    Ok((items, p))
}

/// The count-prefixed string table.
pub open spec fn sp_strings_rec(b: Seq<u8>, pos: usize, remaining: nat, acc: Seq<Seq<char>>) -> Result<
    (Seq<Seq<char>>, usize),
    SpinalError,
>
    decreases remaining,
{
    if remaining == 0 {
        Ok((acc, pos))
    } else {
        match sp_str(b, pos, Field::StringTable) {
            Ok((s, p)) => sp_strings_rec(b, p, (remaining - 1) as nat, acc.push(s)),
            Err(e) => Err(e),
        }
    }
}

pub open spec fn sp_strings(b: Seq<u8>, pos: usize) -> Result<(Seq<Seq<char>>, usize), SpinalError> {
    match sp_varint(b, pos, Field::Count) {
        Ok((n, p)) => sp_strings_rec(b, p, n as nat, Seq::empty()),
        Err(e) => Err(e),
    }
}

pub fn rd_strings(b: &[u8], pos: usize) -> (r: Result<(Vec<String>, usize), SpinalError>)
    ensures
        r matches Ok((v, p)) ==> sp_strings(b@, pos) == Ok::<(Seq<Seq<char>>, usize), SpinalError>((v.deep_view(), p)),
        r matches Err(e) ==> sp_strings(b@, pos) == Err::<(Seq<Seq<char>>, usize), SpinalError>(e),
{
    let (n, p0) = match rd_varint(b, pos, Field::Count) {
        Ok(v) => v,
        Err(e) => {
            return Err(e);
        },
    };
    let mut items: Vec<String> = Vec::new();
    let mut p: usize = p0;
    let mut i: u32 = 0;
    proof {
        assert(items.deep_view() =~= Seq::<Seq<char>>::empty());
    }
    while i < n
        invariant
            i <= n,
            items.deep_view().len() == i as int,
            sp_strings(b@, pos) == sp_strings_rec(b@, p, (n - i) as nat, items.deep_view()),
        decreases n - i,
    {
        let ghost acc = items.deep_view();
        proof {
            reveal_with_fuel(sp_strings_rec, 2);
        }
        let (s, p2) = match rd_str(b, p, Field::StringTable) {
            Ok(v) => v,
            Err(e) => {
                return Err(e);
            },
        };
        let ghost sv = s@;
        items.push(s);
        proof {
            assert(items.deep_view() =~= acc.push(sv));
        }
        p = p2;
        i = i + 1;
    }
    proof {
        reveal_with_fuel(sp_strings_rec, 2);
    }
    Ok((items, p))
}

/// An indirect string reference that must be present.
pub open spec fn sp_str_table(strings: Seq<Seq<char>>, b: Seq<u8>, pos: usize, f: Field) -> Result<
    (Seq<char>, usize),
    SpinalError,
> {
    match sp_str_table_opt(strings, b, pos, f) {
        Ok((Some(s), p)) => Ok((s, p)),
        Ok((None, p)) => Err(sp_bad(pos, f)),
        Err(e) => Err(e),
    }
}

/// The info header: hash, version, setup-pose bounds, the flag that gates
/// non-essential data, and, when that flag is set, fps and asset paths.
#[verifier::opaque]
pub open spec fn sp_info(b: Seq<u8>, pos: usize) -> Result<((crate::skeleton::info::SpecInfo, bool), usize), SpinalError> {
    match sp_u64_be(b, pos, Field::Hash) {
        Err(e) => Err(e),
        Ok((hash, p1)) => match sp_str(b, p1, Field::Version) {
            Err(e) => Err(e),
            Ok((version, p2)) => match sp_vec2(b, p2, Field::Origin) {
                Err(e) => Err(e),
                Ok((bottom_left, p3)) => match sp_vec2(b, p3, Field::Size) {
                    Err(e) => Err(e),
                    Ok((size, p4)) => match sp_bool(b, p4, Field::NonEssential) {
                        Err(e) => Err(e),
                        Ok((ne, p5)) => {
                            if !ne {
                                Ok(
                                    (
                                        (
                                            crate::skeleton::info::SpecInfo {
                                                hash: spec_hex_u64(hash),
                                                version,
                                                bottom_left,
                                                size,
                                                fps: None,
                                                images: None,
                                                audio: None,
                                            },
                                            false,
                                        ),
                                        p5,
                                    ),
                                )
                            } else {
                                match sp_float(b, p5, Field::Fps) {
                                    Err(e) => Err(e),
                                    Ok((fps, p6)) => match sp_str(b, p6, Field::Images) {
                                        Err(e) => Err(e),
                                        Ok((images, p7)) => match sp_str(b, p7, Field::Audio) {
                                            Err(e) => Err(e),
                                            Ok((audio, p8)) => Ok(
                                                (
                                                    (
                                                        crate::skeleton::info::SpecInfo {
                                                            hash: spec_hex_u64(hash),
                                                            version,
                                                            bottom_left,
                                                            size,
                                                            fps: Some(fps),
                                                            images: Some(images),
                                                            audio: Some(audio),
                                                        },
                                                        true,
                                                    ),
                                                    p8,
                                                ),
                                            ),
                                        },
                                    },
                                }
                            }
                        },
                    },
                },
            },
        },
    }
}

pub fn rd_info(b: &[u8], pos: usize) -> (r: Result<((crate::skeleton::Info, bool), usize), SpinalError>)
    ensures
        r matches Ok(((info, ne), p)) ==> sp_info(b@, pos) == Ok::<
            ((crate::skeleton::info::SpecInfo, bool), usize),
            SpinalError,
        >(((info@, ne), p)),
        r matches Err(e) ==> sp_info(b@, pos) == Err::<((crate::skeleton::info::SpecInfo, bool), usize), SpinalError>(
            e,
        ),
{
    proof {
        reveal(sp_info);
    }
    let (hash, p1) = match rd_u64_be(b, pos, Field::Hash) {
        Ok(v) => v,
        Err(e) => {
            return Err(e);
        },
    };
    let (version, p2) = match rd_str(b, p1, Field::Version) {
        Ok(v) => v,
        Err(e) => {
            return Err(e);
        },
    };
    let (bottom_left, p3) = match rd_vec2(b, p2, Field::Origin) {
        Ok(v) => v,
        Err(e) => {
            return Err(e);
        },
    };
    let (size, p4) = match rd_vec2(b, p3, Field::Size) {
        Ok(v) => v,
        Err(e) => {
            return Err(e);
        },
    };
    let (ne, p5) = match rd_bool(b, p4, Field::NonEssential) {
        Ok(v) => v,
        Err(e) => {
            return Err(e);
        },
    };
    let hash_text = hex_u64(hash);
    if !ne {
        let info = crate::skeleton::Info {
            hash: hash_text,
            version,
            bottom_left,
            size,
            fps: None,
            images: None,
            audio: None,
        };
        return Ok(((info, false), p5));
    }
    let (fps, p6) = match rd_float(b, p5, Field::Fps) {
        Ok(v) => v,
        Err(e) => {
            return Err(e);
        },
    };
    let (images, p7) = match rd_str(b, p6, Field::Images) {
        Ok(v) => v,
        Err(e) => {
            return Err(e);
        },
    };
    let (audio, p8) = match rd_str(b, p7, Field::Audio) {
        Ok(v) => v,
        Err(e) => {
            return Err(e);
        },
    };
    let info = crate::skeleton::Info {
        hash: hash_text,
        version,
        bottom_left,
        size,
        fps: Some(fps),
        images: Some(images),
        audio: Some(audio),
    };
    Ok(((info, true), p8))
}

/// One slot record: name, owning bone (which must resolve), tint, optional
/// dark tint, default attachment via the string table, and blend mode.
#[verifier::opaque]
pub open spec fn sp_slot(strings: Seq<Seq<char>>, b: Seq<u8>, pos: usize, n_bones: usize) -> Result<
    (crate::skeleton::slot::SpecSlot, usize),
    SpinalError,
> {
    match sp_str(b, pos, Field::SlotName) {
        Err(e) => Err(e),
        Ok((name, p1)) => match sp_varint(b, p1, Field::SlotBone) {
            Err(e) => Err(e),
            Ok((bone, p2)) => {
                if !((bone as usize) < n_bones) {
                    Err(SpinalError::Reference(ReferenceError::BoneIndex(bone as usize)))
                } else {
                    match sp_col(b, p2, Field::SlotColor) {
                        Err(e) => Err(e),
                        Ok((color, p3)) => match sp_col_opt(b, p3, Field::SlotColor) {
                            Err(e) => Err(e),
                            Ok((dark, p4)) => match sp_str_table_opt(strings, b, p4, Field::SlotAttachment) {
                                Err(e) => Err(e),
                                Ok((attachment, p5)) => match sp_varint(b, p5, Field::Blend) {
                                    Err(e) => Err(e),
                                    Ok((blend_v, p6)) => match crate::skeleton::slot::spec_blend_from_repr(blend_v) {
                                        None => Err(sp_bad(p5, Field::Blend)),
                                        Some(blend) => Ok(
                                            (
                                                crate::skeleton::slot::SpecSlot {
                                                    name,
                                                    bone: bone as usize,
                                                    color,
                                                    dark,
                                                    attachment,
                                                    blend,
                                                },
                                                p6,
                                            ),
                                        ),
                                    },
                                },
                            },
                        },
                    }
                }
            },
        },
    }
}

pub fn rd_slot(strings: &Vec<String>, b: &[u8], pos: usize, n_bones: usize) -> (r: Result<
    (crate::skeleton::Slot, usize),
    SpinalError,
>)
    ensures
        r matches Ok((slot, p)) ==> sp_slot(strings.deep_view(), b@, pos, n_bones) == Ok::<
            (crate::skeleton::slot::SpecSlot, usize),
            SpinalError,
        >((slot@, p)),
        r matches Err(e) ==> sp_slot(strings.deep_view(), b@, pos, n_bones) == Err::<
            (crate::skeleton::slot::SpecSlot, usize),
            SpinalError,
        >(e),
{
    proof {
        reveal(sp_slot);
    }
    let (name, p1) = match rd_str(b, pos, Field::SlotName) {
        Ok(v) => v,
        Err(e) => {
            return Err(e);
        },
    };
    let (bone, p2) = match rd_varint(b, p1, Field::SlotBone) {
        Ok(v) => v,
        Err(e) => {
            return Err(e);
        },
    };
    if !((bone as usize) < n_bones) {
        return Err(SpinalError::Reference(ReferenceError::BoneIndex(bone as usize)));
    }
    let (color, p3) = match rd_col(b, p2, Field::SlotColor) {
        Ok(v) => v,
        Err(e) => {
            return Err(e);
        },
    };
    let (dark, p4) = match rd_col_opt(b, p3, Field::SlotColor) {
        Ok(v) => v,
        Err(e) => {
            return Err(e);
        },
    };
    let (attachment, p5) = match rd_str_table_opt(strings, b, p4, Field::SlotAttachment) {
        Ok(v) => v,
        Err(e) => {
            return Err(e);
        },
    };
    let (blend_v, p6) = match rd_varint(b, p5, Field::Blend) {
        Ok(v) => v,
        Err(e) => {
            return Err(e);
        },
    };
    let blend = match crate::skeleton::slot::Blend::from_repr(blend_v) {
        Some(bl) => bl,
        None => {
            return Err(SpinalError::Decode(DecodeError { offset: p5, field: Field::Blend, kind: DecodeKind::BadValue }));
        },
    };
    Ok((crate::skeleton::Slot { name, bone: bone as usize, color, dark, attachment, blend }, p6))
}

/// The slot section: a count, then that many slot records.
pub open spec fn sp_slots_rec(
    strings: Seq<Seq<char>>,
    b: Seq<u8>,
    pos: usize,
    remaining: nat,
    n_bones: usize,
    acc: Seq<crate::skeleton::slot::SpecSlot>,
) -> Result<(Seq<crate::skeleton::slot::SpecSlot>, usize), SpinalError>
    decreases remaining,
{
    if remaining == 0 {
        Ok((acc, pos))
    } else {
        match sp_slot(strings, b, pos, n_bones) {
            Ok((slot, p)) => sp_slots_rec(strings, b, p, (remaining - 1) as nat, n_bones, acc.push(slot)),
            Err(e) => Err(e),
        }
    }
}

pub open spec fn sp_slots(strings: Seq<Seq<char>>, b: Seq<u8>, pos: usize, n_bones: usize) -> Result<
    (Seq<crate::skeleton::slot::SpecSlot>, usize),
    SpinalError,
> {
    match sp_varint(b, pos, Field::Count) {
        Ok((n, p)) => sp_slots_rec(strings, b, p, n as nat, n_bones, Seq::empty()),
        Err(e) => Err(e),
    }
}

pub fn rd_slots(strings: &Vec<String>, b: &[u8], pos: usize, n_bones: usize) -> (r: Result<
    (Vec<crate::skeleton::Slot>, usize),
    SpinalError,
>)
    ensures
        r matches Ok((slots, p)) ==> sp_slots(strings.deep_view(), b@, pos, n_bones) == Ok::<
            (Seq<crate::skeleton::slot::SpecSlot>, usize),
            SpinalError,
        >((slots.deep_view(), p)),
        r matches Err(e) ==> sp_slots(strings.deep_view(), b@, pos, n_bones) == Err::<
            (Seq<crate::skeleton::slot::SpecSlot>, usize),
            SpinalError,
        >(e),
{
    let (n, p0) = match rd_varint(b, pos, Field::Count) {
        Ok(v) => v,
        Err(e) => {
            return Err(e);
        },
    };
    let mut slots: Vec<crate::skeleton::Slot> = Vec::new();
    let mut p: usize = p0;
    let mut i: u32 = 0;
    proof {
        assert(slots.deep_view() =~= Seq::<crate::skeleton::slot::SpecSlot>::empty());
    }
    while i < n
        invariant
            i <= n,
            slots.deep_view().len() == i as int,
            sp_slots(strings.deep_view(), b@, pos, n_bones) == sp_slots_rec(
                strings.deep_view(),
                b@,
                p,
                (n - i) as nat,
                n_bones,
                slots.deep_view(),
            ),
        decreases n - i,
    {
        let ghost acc = slots.deep_view();
        proof {
            reveal_with_fuel(sp_slots_rec, 2);
        }
        let (slot, p2) = match rd_slot(strings, b, p, n_bones) {
            Ok(v) => v,
            Err(e) => {
                return Err(e);
            },
        };
        slots.push(slot);
        proof {
            assert(slots.deep_view() =~= acc.push(slot@));
        }
        p = p2;
        i = i + 1;
    }
    proof {
        reveal_with_fuel(sp_slots_rec, 2);
    }
    Ok((slots, p))
}

/// One IK constraint record: name, order, skin flag, one or two controlled
/// bones, target bone, mix, softness, bend direction, and three flags.
#[verifier::opaque]
pub open spec fn sp_ik(b: Seq<u8>, pos: usize, n_bones: usize) -> Result<
    (crate::skeleton::ik::SpecIk, usize),
    SpinalError,
> {
    match sp_str(b, pos, Field::IkName) {
        Err(e) => Err(e),
        Ok((name, p1)) => match sp_varint(b, p1, Field::IkValue) {
            Err(e) => Err(e),
            Ok((order, p2)) => match sp_bool(b, p2, Field::IkValue) {
                Err(e) => Err(e),
                Ok((skin, p3)) => match sp_bone_list(b, p3, n_bones) {
                    Err(e) => Err(e),
                    Ok((bones, p4)) => {
                        if !(1 <= bones.len() <= 2) {
                            Err(sp_bad(p3, Field::IkBones))
                        } else {
                            match sp_varint(b, p4, Field::IkValue) {
                                Err(e) => Err(e),
                                Ok((target, p5)) => {
                                    if !((target as usize) < n_bones) {
                                        Err(SpinalError::Reference(ReferenceError::BoneIndex(target as usize)))
                                    } else {
                                        match sp_float(b, p5, Field::IkValue) {
                                            Err(e) => Err(e),
                                            Ok((mix, p6)) => match sp_float(b, p6, Field::IkValue) {
                                                Err(e) => Err(e),
                                                Ok((softness, p7)) => match sp_bend(b, p7, Field::Bend) {
                                                    Err(e) => Err(e),
                                                    Ok((bend, p8)) => match sp_bool(b, p8, Field::IkValue) {
                                                        Err(e) => Err(e),
                                                        Ok((compress, p9)) => match sp_bool(b, p9, Field::IkValue) {
                                                            Err(e) => Err(e),
                                                            Ok((stretch, p10)) => match sp_bool(
                                                                b,
                                                                p10,
                                                                Field::IkValue,
                                                            ) {
                                                                Err(e) => Err(e),
                                                                Ok((uniform, p11)) => Ok(
                                                                    (
                                                                        crate::skeleton::ik::SpecIk {
                                                                            name,
                                                                            order,
                                                                            skin,
                                                                            bones,
                                                                            target: target as usize,
                                                                            mix,
                                                                            softness,
                                                                            bend_positive: bend == Bend::Positive,
                                                                            compress,
                                                                            stretch,
                                                                            uniform,
                                                                        },
                                                                        p11,
                                                                    ),
                                                                ),
                                                            },
                                                        },
                                                    },
                                                },
                                            },
                                        }
                                    }
                                },
                            }
                        }
                    },
                },
            },
        },
    }
}

pub fn rd_ik(b: &[u8], pos: usize, n_bones: usize) -> (r: Result<(crate::skeleton::Ik, usize), SpinalError>)
    ensures
        r matches Ok((ik, p)) ==> sp_ik(b@, pos, n_bones) == Ok::<(crate::skeleton::ik::SpecIk, usize), SpinalError>(
            (ik@, p),
        ),
        r matches Err(e) ==> sp_ik(b@, pos, n_bones) == Err::<(crate::skeleton::ik::SpecIk, usize), SpinalError>(e),
{
    proof {
        reveal(sp_ik);
    }
    let (name, p1) = match rd_str(b, pos, Field::IkName) {
        Ok(v) => v,
        Err(e) => {
            return Err(e);
        },
    };
    let (order, p2) = match rd_varint(b, p1, Field::IkValue) {
        Ok(v) => v,
        Err(e) => {
            return Err(e);
        },
    };
    let (skin, p3) = match rd_bool(b, p2, Field::IkValue) {
        Ok(v) => v,
        Err(e) => {
            return Err(e);
        },
    };
    let (bones, p4) = match rd_bone_list(b, p3, n_bones) {
        Ok(v) => v,
        Err(e) => {
            return Err(e);
        },
    };
    if !(1 <= bones.len() && bones.len() <= 2) {
        return Err(SpinalError::Decode(DecodeError { offset: p3, field: Field::IkBones, kind: DecodeKind::BadValue }));
    }
    let (target, p5) = match rd_varint(b, p4, Field::IkValue) {
        Ok(v) => v,
        Err(e) => {
            return Err(e);
        },
    };
    if !((target as usize) < n_bones) {
        return Err(SpinalError::Reference(ReferenceError::BoneIndex(target as usize)));
    }
    let (mix, p6) = match rd_float(b, p5, Field::IkValue) {
        Ok(v) => v,
        Err(e) => {
            return Err(e);
        },
    };
    let (softness, p7) = match rd_float(b, p6, Field::IkValue) {
        Ok(v) => v,
        Err(e) => {
            return Err(e);
        },
    };
    let (bend, p8) = match rd_bend(b, p7, Field::Bend) {
        Ok(v) => v,
        Err(e) => {
            return Err(e);
        },
    };
    let (compress, p9) = match rd_bool(b, p8, Field::IkValue) {
        Ok(v) => v,
        Err(e) => {
            return Err(e);
        },
    };
    let (stretch, p10) = match rd_bool(b, p9, Field::IkValue) {
        Ok(v) => v,
        Err(e) => {
            return Err(e);
        },
    };
    let (uniform, p11) = match rd_bool(b, p10, Field::IkValue) {
        Ok(v) => v,
        Err(e) => {
            return Err(e);
        },
    };
    let ik = crate::skeleton::Ik {
        name,
        order,
        skin,
        bones,
        target: target as usize,
        mix,
        softness,
        bend_positive: matches!(bend, Bend::Positive),
        compress,
        stretch,
        uniform,
    };
    Ok((ik, p11))
}

/// The IK section: a count, then that many constraint records.
pub open spec fn sp_iks_rec(b: Seq<u8>, pos: usize, remaining: nat, n_bones: usize, acc: Seq<crate::skeleton::ik::SpecIk>) -> Result<
    (Seq<crate::skeleton::ik::SpecIk>, usize),
    SpinalError,
>
    decreases remaining,
{
    if remaining == 0 {
        Ok((acc, pos))
    } else {
        match sp_ik(b, pos, n_bones) {
            Ok((ik, p)) => sp_iks_rec(b, p, (remaining - 1) as nat, n_bones, acc.push(ik)),
            Err(e) => Err(e),
        }
    }
}

pub open spec fn sp_iks(b: Seq<u8>, pos: usize, n_bones: usize) -> Result<
    (Seq<crate::skeleton::ik::SpecIk>, usize),
    SpinalError,
> {
    match sp_varint(b, pos, Field::Count) {
        Ok((n, p)) => sp_iks_rec(b, p, n as nat, n_bones, Seq::empty()),
        Err(e) => Err(e),
    }
}

pub fn rd_iks(b: &[u8], pos: usize, n_bones: usize) -> (r: Result<(Vec<crate::skeleton::Ik>, usize), SpinalError>)
    ensures
        r matches Ok((iks, p)) ==> sp_iks(b@, pos, n_bones) == Ok::<
            (Seq<crate::skeleton::ik::SpecIk>, usize),
            SpinalError,
        >((iks.deep_view(), p)),
        r matches Err(e) ==> sp_iks(b@, pos, n_bones) == Err::<(Seq<crate::skeleton::ik::SpecIk>, usize), SpinalError>(
            e,
        ),
{
    let (n, p0) = match rd_varint(b, pos, Field::Count) {
        Ok(v) => v,
        Err(e) => {
            return Err(e);
        },
    };
    let mut iks: Vec<crate::skeleton::Ik> = Vec::new();
    let mut p: usize = p0;
    let mut i: u32 = 0;
    proof {
        assert(iks.deep_view() =~= Seq::<crate::skeleton::ik::SpecIk>::empty());
    }
    while i < n
        invariant
            i <= n,
            iks.deep_view().len() == i as int,
            sp_iks(b@, pos, n_bones) == sp_iks_rec(b@, p, (n - i) as nat, n_bones, iks.deep_view()),
        decreases n - i,
    {
        let ghost acc = iks.deep_view();
        proof {
            reveal_with_fuel(sp_iks_rec, 2);
        }
        let (ik, p2) = match rd_ik(b, p, n_bones) {
            Ok(v) => v,
            Err(e) => {
                return Err(e);
            },
        };
        iks.push(ik);
        proof {
            assert(iks.deep_view() =~= acc.push(ik@));
        }
        p = p2;
        i = i + 1;
    }
    proof {
        reveal_with_fuel(sp_iks_rec, 2);
    }
    Ok((iks, p))
}

/// One transform constraint record.
#[verifier::opaque]
pub open spec fn sp_transform(b: Seq<u8>, pos: usize, n_bones: usize) -> Result<
    (crate::skeleton::transform::SpecTransform, usize),
    SpinalError,
> {
    match sp_str(b, pos, Field::ConstraintName) {
        Err(e) => Err(e),
        Ok((name, p1)) => match sp_varint(b, p1, Field::ConstraintValue) {
            Err(e) => Err(e),
            Ok((order_index, p2)) => match sp_bool(b, p2, Field::ConstraintValue) {
                Err(e) => Err(e),
                Ok((skin_required, p3)) => match sp_bone_list(b, p3, n_bones) {
                    Err(e) => Err(e),
                    Ok((bones, p4)) => match sp_varint(b, p4, Field::ConstraintValue) {
                        Err(e) => Err(e),
                        Ok((target, p5)) => {
                            if !((target as usize) < n_bones) {
                                Err(SpinalError::Reference(ReferenceError::BoneIndex(target as usize)))
                            } else {
                                match sp_bool(b, p5, Field::ConstraintValue) {
                                    Err(e) => Err(e),
                                    Ok((local, p6)) => match sp_bool(b, p6, Field::ConstraintValue) {
                                        Err(e) => Err(e),
                                        Ok((relative, p7)) => match sp_float(b, p7, Field::ConstraintValue) {
                                            Err(e) => Err(e),
                                            Ok((offset_rotation, p8)) => match sp_vec2(b, p8, Field::ConstraintValue) {
                                                Err(e) => Err(e),
                                                Ok((offset_distance, p9)) => match sp_vec2(
                                                    b,
                                                    p9,
                                                    Field::ConstraintValue,
                                                ) {
                                                    Err(e) => Err(e),
                                                    Ok((offset_scale, p10)) => match sp_float(
                                                        b,
                                                        p10,
                                                        Field::ConstraintValue,
                                                    ) {
                                                        Err(e) => Err(e),
                                                        Ok((offset_shear_y, p11)) => match sp_float(
                                                            b,
                                                            p11,
                                                            Field::ConstraintValue,
                                                        ) {
                                                            Err(e) => Err(e),
                                                            Ok((rotate_mix, p12)) => match sp_vec2(
                                                                b,
                                                                p12,
                                                                Field::ConstraintValue,
                                                            ) {
                                                                Err(e) => Err(e),
                                                                Ok((translate_mix, p13)) => match sp_vec2(
                                                                    b,
                                                                    p13,
                                                                    Field::ConstraintValue,
                                                                ) {
                                                                    Err(e) => Err(e),
                                                                    Ok((scale_mix, p14)) => match sp_float(
                                                                        b,
                                                                        p14,
                                                                        Field::ConstraintValue,
                                                                    ) {
                                                                        Err(e) => Err(e),
                                                                        Ok((shear_mix_y, p15)) => Ok(
                                                                            (
                                                                                crate::skeleton::transform::SpecTransform {
                                                                                    name,
                                                                                    order_index,
                                                                                    skin_required,
                                                                                    bones,
                                                                                    target: target as usize,
                                                                                    local,
                                                                                    relative,
                                                                                    offset_rotation,
                                                                                    offset_distance,
                                                                                    offset_scale,
                                                                                    offset_shear_y,
                                                                                    rotate_mix,
                                                                                    translate_mix,
                                                                                    scale_mix,
                                                                                    shear_mix_y,
                                                                                },
                                                                                p15,
                                                                            ),
                                                                        ),
                                                                    },
                                                                },
                                                            },
                                                        },
                                                    },
                                                },
                                            },
                                        },
                                    },
                                }
                            }
                        },
                    },
                },
            },
        },
    }
}

pub fn rd_transform(b: &[u8], pos: usize, n_bones: usize) -> (r: Result<
    (crate::skeleton::Transform, usize),
    SpinalError,
>)
    ensures
        r matches Ok((t, p)) ==> sp_transform(b@, pos, n_bones) == Ok::<
            (crate::skeleton::transform::SpecTransform, usize),
            SpinalError,
        >((t@, p)),
        r matches Err(e) ==> sp_transform(b@, pos, n_bones) == Err::<
            (crate::skeleton::transform::SpecTransform, usize),
            SpinalError,
        >(e),
{
    proof {
        reveal(sp_transform);
    }
    let (name, p1) = match rd_str(b, pos, Field::ConstraintName) {
        Ok(v) => v,
        Err(e) => {
            return Err(e);
        },
    };
    let (order_index, p2) = match rd_varint(b, p1, Field::ConstraintValue) {
        Ok(v) => v,
        Err(e) => {
            return Err(e);
        },
    };
    let (skin_required, p3) = match rd_bool(b, p2, Field::ConstraintValue) {
        Ok(v) => v,
        Err(e) => {
            return Err(e);
        },
    };
    let (bones, p4) = match rd_bone_list(b, p3, n_bones) {
        Ok(v) => v,
        Err(e) => {
            return Err(e);
        },
    };
    let (target, p5) = match rd_varint(b, p4, Field::ConstraintValue) {
        Ok(v) => v,
        Err(e) => {
            return Err(e);
        },
    };
    if !((target as usize) < n_bones) {
        return Err(SpinalError::Reference(ReferenceError::BoneIndex(target as usize)));
    }
    let (local, p6) = match rd_bool(b, p5, Field::ConstraintValue) {
        Ok(v) => v,
        Err(e) => {
            return Err(e);
        },
    };
    let (relative, p7) = match rd_bool(b, p6, Field::ConstraintValue) {
        Ok(v) => v,
        Err(e) => {
            return Err(e);
        },
    };
    let (offset_rotation, p8) = match rd_float(b, p7, Field::ConstraintValue) {
        Ok(v) => v,
        Err(e) => {
            return Err(e);
        },
    };
    let (offset_distance, p9) = match rd_vec2(b, p8, Field::ConstraintValue) {
        Ok(v) => v,
        Err(e) => {
            return Err(e);
        },
    };
    let (offset_scale, p10) = match rd_vec2(b, p9, Field::ConstraintValue) {
        Ok(v) => v,
        Err(e) => {
            return Err(e);
        },
    };
    let (offset_shear_y, p11) = match rd_float(b, p10, Field::ConstraintValue) {
        Ok(v) => v,
        Err(e) => {
            return Err(e);
        },
    };
    let (rotate_mix, p12) = match rd_float(b, p11, Field::ConstraintValue) {
        Ok(v) => v,
        Err(e) => {
            return Err(e);
        },
    };
    let (translate_mix, p13) = match rd_vec2(b, p12, Field::ConstraintValue) {
        Ok(v) => v,
        Err(e) => {
            return Err(e);
        },
    };
    let (scale_mix, p14) = match rd_vec2(b, p13, Field::ConstraintValue) {
        Ok(v) => v,
        Err(e) => {
            return Err(e);
        },
    };
    let (shear_mix_y, p15) = match rd_float(b, p14, Field::ConstraintValue) {
        Ok(v) => v,
        Err(e) => {
            return Err(e);
        },
    };
    let t = crate::skeleton::Transform {
        name,
        order_index,
        skin_required,
        bones,
        target: target as usize,
        local,
        relative,
        offset_rotation,
        offset_distance,
        offset_scale,
        offset_shear_y,
        rotate_mix,
        translate_mix,
        scale_mix,
        shear_mix_y,
    };
    Ok((t, p15))
}

/// The transform-constraint section.
pub open spec fn sp_transforms_rec(
    b: Seq<u8>,
    pos: usize,
    remaining: nat,
    n_bones: usize,
    acc: Seq<crate::skeleton::transform::SpecTransform>,
) -> Result<(Seq<crate::skeleton::transform::SpecTransform>, usize), SpinalError>
    decreases remaining,
{
    if remaining == 0 {
        Ok((acc, pos))
    } else {
        match sp_transform(b, pos, n_bones) {
            Ok((t, p)) => sp_transforms_rec(b, p, (remaining - 1) as nat, n_bones, acc.push(t)),
            Err(e) => Err(e),
        }
    }
}

pub open spec fn sp_transforms(b: Seq<u8>, pos: usize, n_bones: usize) -> Result<
    (Seq<crate::skeleton::transform::SpecTransform>, usize),
    SpinalError,
> {
    match sp_varint(b, pos, Field::Count) {
        Ok((n, p)) => sp_transforms_rec(b, p, n as nat, n_bones, Seq::empty()),
        Err(e) => Err(e),
    }
}

pub fn rd_transforms(b: &[u8], pos: usize, n_bones: usize) -> (r: Result<
    (Vec<crate::skeleton::Transform>, usize),
    SpinalError,
>)
    ensures
        r matches Ok((ts, p)) ==> sp_transforms(b@, pos, n_bones) == Ok::<
            (Seq<crate::skeleton::transform::SpecTransform>, usize),
            SpinalError,
        >((ts.deep_view(), p)),
        r matches Err(e) ==> sp_transforms(b@, pos, n_bones) == Err::<
            (Seq<crate::skeleton::transform::SpecTransform>, usize),
            SpinalError,
        >(e),
{
    let (n, p0) = match rd_varint(b, pos, Field::Count) {
        Ok(v) => v,
        Err(e) => {
            return Err(e);
        },
    };
    let mut ts: Vec<crate::skeleton::Transform> = Vec::new();
    let mut p: usize = p0;
    let mut i: u32 = 0;
    proof {
        assert(ts.deep_view() =~= Seq::<crate::skeleton::transform::SpecTransform>::empty());
    }
    while i < n
        invariant
            i <= n,
            ts.deep_view().len() == i as int,
            sp_transforms(b@, pos, n_bones) == sp_transforms_rec(b@, p, (n - i) as nat, n_bones, ts.deep_view()),
        decreases n - i,
    {
        let ghost acc = ts.deep_view();
        proof {
            reveal_with_fuel(sp_transforms_rec, 2);
        }
        let (t, p2) = match rd_transform(b, p, n_bones) {
            Ok(v) => v,
            Err(e) => {
                return Err(e);
            },
        };
        ts.push(t);
        proof {
            assert(ts.deep_view() =~= acc.push(t@));
        }
        p = p2;
        i = i + 1;
    }
    proof {
        reveal_with_fuel(sp_transforms_rec, 2);
    }
    Ok((ts, p))
}

/// One path constraint record.
#[verifier::opaque]
pub open spec fn sp_path(b: Seq<u8>, pos: usize, n_bones: usize, n_slots: usize) -> Result<
    (crate::skeleton::path::SpecPath, usize),
    SpinalError,
> {
    match sp_str(b, pos, Field::ConstraintName) {
        Err(e) => Err(e),
        Ok((name, p1)) => match sp_varint(b, p1, Field::ConstraintValue) {
            Err(e) => Err(e),
            Ok((order_index, p2)) => match sp_bool(b, p2, Field::ConstraintValue) {
                Err(e) => Err(e),
                Ok((skin_required, p3)) => match sp_bone_list(b, p3, n_bones) {
                    Err(e) => Err(e),
                    Ok((bones, p4)) => match sp_varint(b, p4, Field::ConstraintValue) {
                        Err(e) => Err(e),
                        Ok((target_slot, p5)) => {
                            if !((target_slot as usize) < n_slots) {
                                Err(SpinalError::Reference(ReferenceError::SlotIndex(target_slot as usize)))
                            } else {
                                match sp_varint(b, p5, Field::PathMode) {
                                    Err(e) => Err(e),
                                    Ok((pm, p6)) => match crate::skeleton::path::spec_position_mode_from_repr(pm) {
                                        None => Err(sp_bad(p5, Field::PathMode)),
                                        Some(position_mode) => match sp_varint(b, p6, Field::PathMode) {
                                            Err(e) => Err(e),
                                            Ok((sm, p7)) => match crate::skeleton::path::spec_spacing_mode_from_repr(
                                                sm,
                                            ) {
                                                None => Err(sp_bad(p6, Field::PathMode)),
                                                Some(spacing_mode) => match sp_varint(b, p7, Field::PathMode) {
                                                    Err(e) => Err(e),
                                                    Ok((rm, p8)) => match crate::skeleton::path::spec_rotate_mode_from_repr(
                                                        rm,
                                                    ) {
                                                        None => Err(sp_bad(p7, Field::PathMode)),
                                                        Some(rotate_mode) => match sp_float(
                                                            b,
                                                            p8,
                                                            Field::ConstraintValue,
                                                        ) {
                                                            Err(e) => Err(e),
                                                            Ok((offset_rotation, p9)) => match sp_float(
                                                                b,
                                                                p9,
                                                                Field::ConstraintValue,
                                                            ) {
                                                                Err(e) => Err(e),
                                                                Ok((position, p10)) => match sp_float(
                                                                    b,
                                                                    p10,
                                                                    Field::ConstraintValue,
                                                                ) {
                                                                    Err(e) => Err(e),
                                                                    Ok((spacing, p11)) => match sp_float(
                                                                        b,
                                                                        p11,
                                                                        Field::ConstraintValue,
                                                                    ) {
                                                                        Err(e) => Err(e),
                                                                        Ok((rotate_mix, p12)) => match sp_float(
                                                                            b,
                                                                            p12,
                                                                            Field::ConstraintValue,
                                                                        ) {
                                                                            Err(e) => Err(e),
                                                                            Ok((translate_mix, p13)) => Ok(
                                                                                (
                                                                                    crate::skeleton::path::SpecPath {
                                                                                        name,
                                                                                        order_index,
                                                                                        skin_required,
                                                                                        bones,
                                                                                        target_slot: target_slot as usize,
                                                                                        position_mode,
                                                                                        spacing_mode,
                                                                                        rotate_mode,
                                                                                        offset_rotation,
                                                                                        position,
                                                                                        spacing,
                                                                                        rotate_mix,
                                                                                        translate_mix,
                                                                                    },
                                                                                    p13,
                                                                                ),
                                                                            ),
                                                                        },
                                                                    },
                                                                },
                                                            },
                                                        },
                                                    },
                                                },
                                            },
                                        },
                                    },
                                }
                            }
                        },
                    },
                },
            },
        },
    }
}

pub fn rd_path(b: &[u8], pos: usize, n_bones: usize, n_slots: usize) -> (r: Result<
    (crate::skeleton::Path, usize),
    SpinalError,
>)
    ensures
        r matches Ok((t, p)) ==> sp_path(b@, pos, n_bones, n_slots) == Ok::<
            (crate::skeleton::path::SpecPath, usize),
            SpinalError,
        >((t@, p)),
        r matches Err(e) ==> sp_path(b@, pos, n_bones, n_slots) == Err::<
            (crate::skeleton::path::SpecPath, usize),
            SpinalError,
        >(e),
{
    proof {
        reveal(sp_path);
    }
    let (name, p1) = match rd_str(b, pos, Field::ConstraintName) {
        Ok(v) => v,
        Err(e) => {
            return Err(e);
        },
    };
    let (order_index, p2) = match rd_varint(b, p1, Field::ConstraintValue) {
        Ok(v) => v,
        Err(e) => {
            return Err(e);
        },
    };
    let (skin_required, p3) = match rd_bool(b, p2, Field::ConstraintValue) {
        Ok(v) => v,
        Err(e) => {
            return Err(e);
        },
    };
    let (bones, p4) = match rd_bone_list(b, p3, n_bones) {
        Ok(v) => v,
        Err(e) => {
            return Err(e);
        },
    };
    let (target_slot, p5) = match rd_varint(b, p4, Field::ConstraintValue) {
        Ok(v) => v,
        Err(e) => {
            return Err(e);
        },
    };
    if !((target_slot as usize) < n_slots) {
        return Err(SpinalError::Reference(ReferenceError::SlotIndex(target_slot as usize)));
    }
    let (pm, p6) = match rd_varint(b, p5, Field::PathMode) {
        Ok(v) => v,
        Err(e) => {
            return Err(e);
        },
    };
    let position_mode = match crate::skeleton::path::PathPositionMode::from_repr(pm) {
        Some(m) => m,
        None => {
            return Err(SpinalError::Decode(
                DecodeError { offset: p5, field: Field::PathMode, kind: DecodeKind::BadValue },
            ));
        },
    };
    let (sm, p7) = match rd_varint(b, p6, Field::PathMode) {
        Ok(v) => v,
        Err(e) => {
            return Err(e);
        },
    };
    let spacing_mode = match crate::skeleton::path::PathSpacingMode::from_repr(sm) {
        Some(m) => m,
        None => {
            return Err(SpinalError::Decode(
                DecodeError { offset: p6, field: Field::PathMode, kind: DecodeKind::BadValue },
            ));
        },
    };
    let (rm, p8) = match rd_varint(b, p7, Field::PathMode) {
        Ok(v) => v,
        Err(e) => {
            return Err(e);
        },
    };
    let rotate_mode = match crate::skeleton::path::PathRotateMode::from_repr(rm) {
        Some(m) => m,
        None => {
            return Err(SpinalError::Decode(
                DecodeError { offset: p7, field: Field::PathMode, kind: DecodeKind::BadValue },
            ));
        },
    };
    let (offset_rotation, p9) = match rd_float(b, p8, Field::ConstraintValue) {
        Ok(v) => v,
        Err(e) => {
            return Err(e);
        },
    };
    let (position, p10) = match rd_float(b, p9, Field::ConstraintValue) {
        Ok(v) => v,
        Err(e) => {
            return Err(e);
        },
    };
    let (spacing, p11) = match rd_float(b, p10, Field::ConstraintValue) {
        Ok(v) => v,
        Err(e) => {
            return Err(e);
        },
    };
    let (rotate_mix, p12) = match rd_float(b, p11, Field::ConstraintValue) {
        Ok(v) => v,
        Err(e) => {
            return Err(e);
        },
    };
    let (translate_mix, p13) = match rd_float(b, p12, Field::ConstraintValue) {
        Ok(v) => v,
        Err(e) => {
            return Err(e);
        },
    };
    let t = crate::skeleton::Path {
        name,
        order_index,
        skin_required,
        bones,
        target_slot: target_slot as usize,
        position_mode,
        spacing_mode,
        rotate_mode,
        offset_rotation,
        position,
        spacing,
        rotate_mix,
        translate_mix,
    };
    Ok((t, p13))
}

/// The path-constraint section.
pub open spec fn sp_paths_rec(
    b: Seq<u8>,
    pos: usize,
    remaining: nat,
    n_bones: usize,
    n_slots: usize,
    acc: Seq<crate::skeleton::path::SpecPath>,
) -> Result<(Seq<crate::skeleton::path::SpecPath>, usize), SpinalError>
    decreases remaining,
{
    if remaining == 0 {
        Ok((acc, pos))
    } else {
        match sp_path(b, pos, n_bones, n_slots) {
            Ok((t, p)) => sp_paths_rec(b, p, (remaining - 1) as nat, n_bones, n_slots, acc.push(t)),
            Err(e) => Err(e),
        }
    }
}

pub open spec fn sp_paths(b: Seq<u8>, pos: usize, n_bones: usize, n_slots: usize) -> Result<
    (Seq<crate::skeleton::path::SpecPath>, usize),
    SpinalError,
> {
    match sp_varint(b, pos, Field::Count) {
        Ok((n, p)) => sp_paths_rec(b, p, n as nat, n_bones, n_slots, Seq::empty()),
        Err(e) => Err(e),
    }
}

pub fn rd_paths(b: &[u8], pos: usize, n_bones: usize, n_slots: usize) -> (r: Result<
    (Vec<crate::skeleton::Path>, usize),
    SpinalError,
>)
    ensures
        r matches Ok((ps, p)) ==> sp_paths(b@, pos, n_bones, n_slots) == Ok::<
            (Seq<crate::skeleton::path::SpecPath>, usize),
            SpinalError,
        >((ps.deep_view(), p)),
        r matches Err(e) ==> sp_paths(b@, pos, n_bones, n_slots) == Err::<
            (Seq<crate::skeleton::path::SpecPath>, usize),
            SpinalError,
        >(e),
{
    let (n, p0) = match rd_varint(b, pos, Field::Count) {
        Ok(v) => v,
        Err(e) => {
            return Err(e);
        },
    };
    let mut ps: Vec<crate::skeleton::Path> = Vec::new();
    let mut p: usize = p0;
    let mut i: u32 = 0;
    proof {
        assert(ps.deep_view() =~= Seq::<crate::skeleton::path::SpecPath>::empty());
    }
    while i < n
        invariant
            i <= n,
            ps.deep_view().len() == i as int,
            sp_paths(b@, pos, n_bones, n_slots) == sp_paths_rec(
                b@,
                p,
                (n - i) as nat,
                n_bones,
                n_slots,
                ps.deep_view(),
            ),
        decreases n - i,
    {
        let ghost acc = ps.deep_view();
        proof {
            reveal_with_fuel(sp_paths_rec, 2);
        }
        let (t, p2) = match rd_path(b, p, n_bones, n_slots) {
            Ok(v) => v,
            Err(e) => {
                return Err(e);
            },
        };
        ps.push(t);
        proof {
            assert(ps.deep_view() =~= acc.push(t@));
        }
        p = p2;
        i = i + 1;
    }
    proof {
        reveal_with_fuel(sp_paths_rec, 2);
    }
    Ok((ps, p))
}

/// One event definition: a string-table name, integer, float and string
/// payloads, and audio settings present only when an audio path is.
#[verifier::opaque]
pub open spec fn sp_event(strings: Seq<Seq<char>>, b: Seq<u8>, pos: usize) -> Result<
    (crate::skeleton::event::SpecEvent, usize),
    SpinalError,
> {
    match sp_str_table(strings, b, pos, Field::EventName) {
        Err(e) => Err(e),
        Ok((name, p1)) => match sp_varint_signed(b, p1, Field::EventValue) {
            Err(e) => Err(e),
            Ok((int_val, p2)) => match sp_float(b, p2, Field::EventValue) {
                Err(e) => Err(e),
                Ok((float_val, p3)) => match sp_str_opt(b, p3, Field::EventValue) {
                    Err(e) => Err(e),
                    Ok((string, p4)) => match sp_str_opt(b, p4, Field::Audio) {
                        Err(e) => Err(e),
                        Ok((audio_path, p5)) => {
                            if audio_path is Some {
                                match sp_float(b, p5, Field::Audio) {
                                    Err(e) => Err(e),
                                    Ok((volume, p6)) => match sp_float(b, p6, Field::Audio) {
                                        Err(e) => Err(e),
                                        Ok((balance, p7)) => Ok(
                                            (
                                                crate::skeleton::event::SpecEvent {
                                                    name,
                                                    int: int_val,
                                                    float: float_val,
                                                    string,
                                                    audio_path,
                                                    audio_volume: volume,
                                                    audio_balance: balance,
                                                },
                                                p7,
                                            ),
                                        ),
                                    },
                                }
                            } else {
                                Ok(
                                    (
                                        crate::skeleton::event::SpecEvent {
                                            name,
                                            int: int_val,
                                            float: float_val,
                                            string,
                                            audio_path,
                                            audio_volume: Scalar { bits: 0 },
                                            audio_balance: Scalar { bits: 0 },
                                        },
                                        p5,
                                    ),
                                )
                            }
                        },
                    },
                },
            },
        },
    }
}

pub fn rd_event(strings: &Vec<String>, b: &[u8], pos: usize) -> (r: Result<(crate::skeleton::Event, usize), SpinalError>)
    ensures
        r matches Ok((ev, p)) ==> sp_event(strings.deep_view(), b@, pos) == Ok::<
            (crate::skeleton::event::SpecEvent, usize),
            SpinalError,
        >((ev@, p)),
        r matches Err(e) ==> sp_event(strings.deep_view(), b@, pos) == Err::<
            (crate::skeleton::event::SpecEvent, usize),
            SpinalError,
        >(e),
{
    proof {
        reveal(sp_event);
    }
    let (name, p1) = match rd_str_table(strings, b, pos, Field::EventName) {
        Ok(v) => v,
        Err(e) => {
            return Err(e);
        },
    };
    let (int_val, p2) = match rd_varint_signed(b, p1, Field::EventValue) {
        Ok(v) => v,
        Err(e) => {
            return Err(e);
        },
    };
    let (float_val, p3) = match rd_float(b, p2, Field::EventValue) {
        Ok(v) => v,
        Err(e) => {
            return Err(e);
        },
    };
    let (string, p4) = match rd_str_opt(b, p3, Field::EventValue) {
        Ok(v) => v,
        Err(e) => {
            return Err(e);
        },
    };
    let (audio_path, p5) = match rd_str_opt(b, p4, Field::Audio) {
        Ok(v) => v,
        Err(e) => {
            return Err(e);
        },
    };
    if audio_path.is_some() {
        let (volume, p6) = match rd_float(b, p5, Field::Audio) {
            Ok(v) => v,
            Err(e) => {
                return Err(e);
            },
        };
        let (balance, p7) = match rd_float(b, p6, Field::Audio) {
            Ok(v) => v,
            Err(e) => {
                return Err(e);
            },
        };
        let ev = crate::skeleton::Event {
            name,
            int: int_val,
            float: float_val,
            string,
            audio_path,
            audio_volume: volume,
            audio_balance: balance,
        };
        Ok((ev, p7))
    } else {
        let ev = crate::skeleton::Event {
            name,
            int: int_val,
            float: float_val,
            string,
            audio_path,
            audio_volume: Scalar { bits: 0 },
            audio_balance: Scalar { bits: 0 },
        };
        Ok((ev, p5))
    }
}

/// The event section.
pub open spec fn sp_events_rec(
    strings: Seq<Seq<char>>,
    b: Seq<u8>,
    pos: usize,
    remaining: nat,
    acc: Seq<crate::skeleton::event::SpecEvent>,
) -> Result<(Seq<crate::skeleton::event::SpecEvent>, usize), SpinalError>
    decreases remaining,
{
    if remaining == 0 {
        Ok((acc, pos))
    } else {
        match sp_event(strings, b, pos) {
            Ok((ev, p)) => sp_events_rec(strings, b, p, (remaining - 1) as nat, acc.push(ev)),
            Err(e) => Err(e),
        }
    }
}

pub open spec fn sp_events(strings: Seq<Seq<char>>, b: Seq<u8>, pos: usize) -> Result<
    (Seq<crate::skeleton::event::SpecEvent>, usize),
    SpinalError,
> {
    match sp_varint(b, pos, Field::Count) {
        Ok((n, p)) => sp_events_rec(strings, b, p, n as nat, Seq::empty()),
        Err(e) => Err(e),
    }
}

pub fn rd_events(strings: &Vec<String>, b: &[u8], pos: usize) -> (r: Result<
    (Vec<crate::skeleton::Event>, usize),
    SpinalError,
>)
    ensures
        r matches Ok((evs, p)) ==> sp_events(strings.deep_view(), b@, pos) == Ok::<
            (Seq<crate::skeleton::event::SpecEvent>, usize),
            SpinalError,
        >((evs.deep_view(), p)),
        r matches Err(e) ==> sp_events(strings.deep_view(), b@, pos) == Err::<
            (Seq<crate::skeleton::event::SpecEvent>, usize),
            SpinalError,
        >(e),
{
    let (n, p0) = match rd_varint(b, pos, Field::Count) {
        Ok(v) => v,
        Err(e) => {
            return Err(e);
        },
    };
    let mut evs: Vec<crate::skeleton::Event> = Vec::new();
    let mut p: usize = p0;
    let mut i: u32 = 0;
    proof {
        assert(evs.deep_view() =~= Seq::<crate::skeleton::event::SpecEvent>::empty());
    }
    while i < n
        invariant
            i <= n,
            evs.deep_view().len() == i as int,
            sp_events(strings.deep_view(), b@, pos) == sp_events_rec(
                strings.deep_view(),
                b@,
                p,
                (n - i) as nat,
                evs.deep_view(),
            ),
        decreases n - i,
    {
        let ghost acc = evs.deep_view();
        proof {
            reveal_with_fuel(sp_events_rec, 2);
        }
        let (ev, p2) = match rd_event(strings, b, p) {
            Ok(v) => v,
            Err(e) => {
                return Err(e);
            },
        };
        evs.push(ev);
        proof {
            assert(evs.deep_view() =~= acc.push(ev@));
        }
        p = p2;
        i = i + 1;
    }
    proof {
        reveal_with_fuel(sp_events_rec, 2);
    }
    Ok((evs, p))
}

pub fn rd_str_table(strings: &Vec<String>, b: &[u8], pos: usize, f: Field) -> (r: Result<(String, usize), SpinalError>)
    ensures
        r matches Ok((s, p)) ==> sp_str_table(strings.deep_view(), b@, pos, f) matches Ok((ss, pp)) && p == pp && s@
            == ss,
        r matches Err(e) ==> sp_str_table(strings.deep_view(), b@, pos, f) == Err::<(Seq<char>, usize), SpinalError>(
            e,
        ),
{
    match rd_str_table_opt(strings, b, pos, f) {
        Ok((Some(s), p)) => Ok((s, p)),
        Ok((None, _)) => Err(SpinalError::Decode(DecodeError { offset: pos, field: f, kind: DecodeKind::BadValue })),
        Err(e) => Err(e),
    }
}

/// A whole binary skeleton file: info, string table, bones, slots, IK,
/// transform and path constraints, skins, events and animations, in that
/// order. Trailing bytes are ignored.
#[verifier::opaque]
pub open spec fn sp_skeleton(b: Seq<u8>) -> Result<crate::skeleton::SpecSkeleton, SpinalError> {
    match sp_info(b, 0) {
        Err(e) => Err(e),
        Ok(((info, ne), p1)) => match sp_strings(b, p1) {
            Err(e) => Err(e),
            Ok((strings, p2)) => match crate::binary::bone::sp_bones(b, p2) {
                Err(e) => Err(e),
                Ok((bones, p3)) => match sp_slots(strings, b, p3, bones.len() as usize) {
                    Err(e) => Err(e),
                    Ok((slots, p4)) => match sp_iks(b, p4, bones.len() as usize) {
                        Err(e) => Err(e),
                        Ok((ik, p5)) => match sp_transforms(b, p5, bones.len() as usize) {
                            Err(e) => Err(e),
                            Ok((transforms, p6)) => match sp_paths(
                                b,
                                p6,
                                bones.len() as usize,
                                slots.len() as usize,
                            ) {
                                Err(e) => Err(e),
                                Ok((paths, p7)) => match crate::binary::skin::sp_skins(strings, b, p7, ne) {
                                    Err(e) => Err(e),
                                    Ok((skins, p8)) => match sp_events(strings, b, p8) {
                                        Err(e) => Err(e),
                                        Ok((events, p9)) => match crate::binary::animation::sp_animations(
                                            strings,
                                            b,
                                            p9,
                                        ) {
                                            Err(e) => Err(e),
                                            Ok((animations, _)) => Ok(
                                                crate::skeleton::SpecSkeleton {
                                                    info,
                                                    strings,
                                                    bones,
                                                    bones_tree: crate::skeleton::spec_bones_tree(
                                                        bones,
                                                        bones.len() as int,
                                                    ),
                                                    slots,
                                                    ik,
                                                    transforms,
                                                    paths,
                                                    skins,
                                                    events,
                                                    animations,
                                                },
                                            ),
                                        },
                                    },
                                },
                            },
                        },
                    },
                },
            },
        },
    }
}

/// Law: every bone list a successful parse returns is well formed — each
/// non-root bone's parent index points strictly earlier in the list, and only
/// the first bone is the root.
pub proof fn lemma_sp_bones_rec_well_formed(b: Seq<u8>, pos: usize, remaining: nat, acc: Seq<crate::skeleton::bone::SpecBone>)
    requires
        crate::skeleton::spec_bones_well_formed(acc),
    ensures
        crate::binary::bone::sp_bones_rec(b, pos, remaining, acc) matches Ok(v)
            ==> crate::skeleton::spec_bones_well_formed(v.0),
    decreases remaining,
{
    reveal(crate::binary::bone::sp_bone);
    if remaining != 0 {
        match crate::binary::bone::sp_bone(b, pos, acc.len() == 0, acc.len() as usize) {
            Ok((bone, p)) => {
                let acc2 = acc.push(bone);
                assert forall|i: int| 0 <= i < acc2.len() implies (#[trigger] acc2[i].parent matches Some(q) ==> i > 0
                    && q < i) by {
                    if i < acc.len() {
                        assert(acc2[i] == acc[i]);
                    }
                }
                lemma_sp_bones_rec_well_formed(b, p, (remaining - 1) as nat, acc2);
            },
            Err(_) => {},
        }
    }
}

/// Law: the bone list of every skeleton the binary decoder accepts is well
/// formed, so a pose walk from the root always moves toward lower indices
/// and terminates.
pub proof fn lemma_sp_skeleton_bones_well_formed(b: Seq<u8>)
    ensures
        sp_skeleton(b) matches Ok(s) ==> crate::skeleton::spec_bones_well_formed(s.bones),
{
    reveal(sp_skeleton);
    if sp_skeleton(b) is Ok {
        let p1 = match sp_info(b, 0) {
            Ok(((_, _), p)) => p,
            Err(_) => 0,
        };
        let p2 = match sp_strings(b, p1) {
            Ok((_, p)) => p,
            Err(_) => 0,
        };
        match sp_varint(b, p2, Field::Count) {
            Ok((n, p)) => {
                lemma_sp_bones_rec_well_formed(b, p, n as nat, Seq::empty());
            },
            Err(_) => {},
        }
    }
}

/// Reads a binary skeleton file and returns a [`Skeleton`].
pub struct BinarySkeletonParser;

impl BinarySkeletonParser {
    /// Decode a whole binary skeleton file.
    pub fn parse(b: &[u8]) -> (r: Result<crate::skeleton::Skeleton, SpinalError>)
        ensures
            r matches Ok(s) ==> sp_skeleton(b@) == Ok::<crate::skeleton::SpecSkeleton, SpinalError>(s@)
                && crate::skeleton::spec_bones_well_formed(s@.bones),
            r matches Err(e) ==> sp_skeleton(b@) == Err::<crate::skeleton::SpecSkeleton, SpinalError>(e),
    {
        proof {
            reveal(sp_skeleton);
        }
        let ((info, ne), p1) = match rd_info(b, 0) {
            Ok(v) => v,
            Err(e) => {
                return Err(e);
            },
        };
        let (strings, p2) = match rd_strings(b, p1) {
            Ok(v) => v,
            Err(e) => {
                return Err(e);
            },
        };
        let (bones, p3) = match crate::binary::bone::rd_bones(b, p2) {
            Ok(v) => v,
            Err(e) => {
                return Err(e);
            },
        };
        let (slots, p4) = match rd_slots(&strings, b, p3, bones.len()) {
            Ok(v) => v,
            Err(e) => {
                return Err(e);
            },
        };
        let (ik, p5) = match rd_iks(b, p4, bones.len()) {
            Ok(v) => v,
            Err(e) => {
                return Err(e);
            },
        };
        let (transforms, p6) = match rd_transforms(b, p5, bones.len()) {
            Ok(v) => v,
            Err(e) => {
                return Err(e);
            },
        };
        let (paths, p7) = match rd_paths(b, p6, bones.len(), slots.len()) {
            Ok(v) => v,
            Err(e) => {
                return Err(e);
            },
        };
        let (skins, p8) = match crate::binary::skin::rd_skins(&strings, b, p7, ne) {
            Ok(v) => v,
            Err(e) => {
                return Err(e);
            },
        };
        let (events, p9) = match rd_events(&strings, b, p8) {
            Ok(v) => v,
            Err(e) => {
                return Err(e);
            },
        };
        let (animations, _) = match crate::binary::animation::rd_animations(&strings, b, p9) {
            Ok(v) => v,
            Err(e) => {
                return Err(e);
            },
        };
        let mut skeleton = crate::skeleton::Skeleton {
            info,
            strings,
            bones,
            bones_tree: Vec::new(),
            slots,
            ik,
            transforms,
            paths,
            skins,
            events,
            animations,
        };
        let tree = skeleton.build_bones_tree();
        skeleton.bones_tree = tree;
        proof {
            lemma_sp_skeleton_bones_well_formed(b@);
        }
        Ok(skeleton)
    }
}

} // verus!
