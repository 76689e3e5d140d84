//! RGBA colors packed into a `u32`, highest byte red, lowest byte alpha.
use vstd::prelude::*;
use vstd::string::StringSliceAdditionalSpecFns;
use crate::num::{Scalar, SCALE};

verus! {

#[derive(Debug, Clone, Copy, PartialEq, Eq, Structural)]
pub struct Color(pub u32);

/// Value of one hexadecimal digit character, if it is one.
pub open spec fn spec_hex_digit(c: u8) -> Option<u8> {
    if 48 <= c <= 57 {
        Some((c - 48) as u8)
    } else if 65 <= c <= 70 {
        Some((c - 55) as u8)
    } else if 97 <= c <= 102 {
        Some((c - 87) as u8)
    } else {
        None
    }
}

/// The byte written by the two hex digits at positions `i`, `i+1` of `t`.
pub open spec fn spec_hex_byte(t: Seq<u8>, i: int) -> int {
    spec_hex_digit(t[i])->0 * 16 + spec_hex_digit(t[i + 1])->0
}

/// Combine the eight hex digits of `t` (which must have length 8) into a
/// color, red first, alpha last; `None` if any byte is not a hex digit.
pub open spec fn spec_color_digits(t: Seq<u8>) -> Option<Color> {
    if forall|i: int| 0 <= i < 8 ==> spec_hex_digit(t[i]) is Some {
        Some(
            Color(
                (spec_hex_byte(t, 0) * 0x1000000 + spec_hex_byte(t, 2) * 0x10000 + spec_hex_byte(t, 4) * 0x100
                    + spec_hex_byte(t, 6)) as u32,
            ),
        )
    } else {
        None
    }
}

/// The color written by eight hexadecimal digits (RGBA order), after an
/// optional leading `#`; `None` for any other byte sequence.
pub open spec fn spec_color_from_hex(s: Seq<u8>) -> Option<Color> {
    let t = if s.len() > 0 && s[0] == 35 {
        s.skip(1)
    } else {
        s
    };
    if t.len() != 8 {
        None
    } else {
        spec_color_digits(t)
    }
}

fn hex_digit(c: u8) -> (r: Option<u8>)
    ensures
        r == spec_hex_digit(c),
{
    if 48 <= c && c <= 57 {
        Some(c - 48)
    } else if 65 <= c && c <= 70 {
        Some(c - 55)
    } else if 97 <= c && c <= 102 {
        Some(c - 87)
    } else {
        None
    }
}

/// Read the two hex digits at positions `i`, `i+1` as one byte value.
fn hex_pair(t: &[u8], i: usize) -> (r: Option<u8>)
    requires
        i + 1 < t@.len(),
    ensures
        r is Some <==> spec_hex_digit(t@[i as int]) is Some && spec_hex_digit(t@[i as int + 1]) is Some,
        r is Some ==> r->0 as int == spec_hex_byte(t@, i as int),
{
    let hi = hex_digit(t[i]);
    let lo = hex_digit(t[i + 1]);
    match (hi, lo) {
        (Some(h), Some(l)) => Some(h * 16 + l),
        _ => None,
    }
}

impl Color {
    /// Parse `RRGGBBAA` hex digits, with an optional leading `#`.
    pub fn try_from_hex(s: &str) -> (r: Option<Color>)
        ensures
            r == spec_color_from_hex(s.spec_bytes()),
    {
        let b: &[u8] = s.as_bytes();
        let t: &[u8] = if b.len() > 0 && b[0] == 35 {
            b.split_at(1).1
        } else {
            b
        };
        proof {
            if b@.len() > 0 && b@[0] == 35 {
                assert(t@ =~= b@.skip(1));
            }
        }
        if t.len() != 8 {
            return None;
        }
        let p0 = hex_pair(t, 0);
        let p1 = hex_pair(t, 2);
        let p2 = hex_pair(t, 4);
        let p3 = hex_pair(t, 6);
        match (p0, p1, p2, p3) {
            (Some(r), Some(g), Some(bb), Some(a)) => {
                let v: u32 = (r as u32) * 0x1000000 + (g as u32) * 0x10000 + (bb as u32) * 0x100 + (a as u32);
                proof {
                    assert forall|i: int| 0 <= i < 8 implies spec_hex_digit(t@[i]) is Some by {
                        assert(i == 0 || i == 1 || i == 2 || i == 3 || i == 4 || i == 5 || i == 6 || i == 7);
                    }
                }
                Some(Color(v))
            },
            _ => {
                None
            },
        }
    }

    /// Parse `RRGGBBAA` hex digits; the caller must pass a well-formed string.
    pub fn from_hex(s: &str) -> (r: Color)
        requires
            spec_color_from_hex(s.spec_bytes()) is Some,
        ensures
            Some(r) == spec_color_from_hex(s.spec_bytes()),
    {
        let c = Color::try_from_hex(s);
        match c {
            Some(c) => c,
            None => Color(0),
        }
    }

    /// The four channels, each scaled to `[0, 1]` as `channel / 255`.
    pub fn vec4(&self) -> (r: (Scalar, Scalar, Scalar, Scalar))
        ensures
            r.0.bits as int == ((self.0 >> 24) & 0xff) * (SCALE as int) / 255,
            r.1.bits as int == ((self.0 >> 16) & 0xff) * (SCALE as int) / 255,
            r.2.bits as int == ((self.0 >> 8) & 0xff) * (SCALE as int) / 255,
            r.3.bits as int == (self.0 & 0xff) * (SCALE as int) / 255,
    {
        let u: u32 = self.0;
        proof {
            assert((u >> 24) & 0xff < 256 && (u >> 16) & 0xff < 256 && (u >> 8) & 0xff < 256 && u & 0xff < 256)
                by (bit_vector);
        }
        let r = (((u >> 24) & 0xff) as u64) * 65536 / 255;
        let g = (((u >> 16) & 0xff) as u64) * 65536 / 255;
        let b = (((u >> 8) & 0xff) as u64) * 65536 / 255;
        let a = ((u & 0xff) as u64) * 65536 / 255;
        (
            Scalar { bits: r as i64 },
            Scalar { bits: g as i64 },
            Scalar { bits: b as i64 },
            Scalar { bits: a as i64 },
        )
    }

    /// Opaque white, the default slot and region tint.
    pub fn white() -> (r: Color)
        ensures
            r == Color(0xFFFFFFFFu32),
    {
        Color(0xFFFFFFFF)
    }

    /// The default bone debug color.
    pub fn bone_default() -> (r: Color)
        ensures
            r == Color(0x989898FFu32),
    {
        Color(0x989898FF)
    }

    /// The default bounding-box color.
    pub fn bounding_box_default() -> (r: Color)
        ensures
            r == Color(0x60F000FFu32),
    {
        Color(0x60F000FF)
    }
}

} // verus!
