//! Parsing decimal number text into fixed-point scalars.
//!
//! Grammar: an optional minus sign, one or more integer digits, an optional
//! fraction after a point, and an optional decimal exponent. Values beyond
//! the fixed-point range saturate; fraction digits beyond eight are read but
//! ignored.
use vstd::prelude::*;
use crate::num::{Scalar, SCALE, clamp64, muldiv, muldiv_spec, sat_add};

verus! {

/// Saturation bound while accumulating integer digits.
pub const DIGIT_SAT: i64 = 0xff_ffff_ffff;

/// Consume digits from `pos`, accumulating their value, saturated.
pub open spec fn sp_digits(s: Seq<u8>, pos: int, acc: int) -> (int, int)
    decreases s.len() - pos,
{
    if pos < 0 || pos >= s.len() || !(48 <= s[pos] <= 57) {
        (acc, pos)
    } else {
        let acc2 = if acc * 10 + (s[pos] - 48) > DIGIT_SAT as int {
            DIGIT_SAT as int
        } else {
            acc * 10 + (s[pos] - 48)
        };
        sp_digits(s, pos + 1, acc2)
    }
}

/// Consume fraction digits from `pos`: a saturated numerator and the power of
/// ten it counts in; digits beyond the eighth are consumed but ignored.
pub open spec fn sp_frac_digits(s: Seq<u8>, pos: int, num: int, den: int) -> (int, int, int)
    decreases s.len() - pos,
{
    if pos < 0 || pos >= s.len() || !(48 <= s[pos] <= 57) {
        (num, den, pos)
    } else if den >= 100000000 {
        sp_frac_digits(s, pos + 1, num, den)
    } else {
        sp_frac_digits(s, pos + 1, num * 10 + (s[pos] - 48), den * 10)
    }
}

/// Scale `bits` by ten to the power `exp`, one saturating step at a time,
/// with the exponent magnitude capped at forty steps (beyond which the value
/// has long saturated or vanished).
pub open spec fn sp_apply_exp(bits: int, exp_neg: bool, exp: nat) -> int
    decreases exp,
{
    if exp == 0 {
        bits
    } else if exp > 40 {
        if exp_neg {
            0
        } else if bits == 0 {
            0
        } else if bits > 0 {
            i64::MAX as int
        } else {
            i64::MIN as int
        }
    } else if exp_neg {
        sp_apply_exp(muldiv_spec(bits, 1, 10), exp_neg, (exp - 1) as nat)
    } else {
        sp_apply_exp(muldiv_spec(bits, 10, 1), exp_neg, (exp - 1) as nat)
    }
}

/// The fixed-point value of decimal number text, or `None` when the bytes do
/// not form exactly one number.
pub open spec fn sp_decimal(s: Seq<u8>) -> Option<int> {
    let neg = s.len() > 0 && s[0] == 45;
    let start: int = if neg {
        1
    } else {
        0
    };
    if start >= s.len() || !(48 <= s[start] <= 57) {
        None
    } else {
        let (ip, p1) = sp_digits(s, start, 0);
        let (fnum, fden, p2) = if p1 < s.len() && s[p1] == 46 {
            sp_frac_digits(s, p1 + 1, 0, 1)
        } else {
            (0, 1, p1)
        };
        if p2 == p1 + 1 && p1 < s.len() && s[p1] == 46 {
            None
        } else {
            let (exp_neg, e_start) = if p2 < s.len() && (s[p2] == 101 || s[p2] == 69) {
                if p2 + 1 < s.len() && s[p2 + 1] == 45 {
                    (true, p2 + 2)
                } else if p2 + 1 < s.len() && s[p2 + 1] == 43 {
                    (false, p2 + 2)
                } else {
                    (false, p2 + 1)
                }
            } else {
                (false, p2)
            };
            if e_start > p2 && (e_start >= s.len() || !(48 <= s[e_start] <= 57)) {
                None
            } else {
                let (ev, p3) = sp_digits(s, e_start, 0);
                if p3 != s.len() {
                    None
                } else {
                    let base = clamp64(ip * (SCALE as int) + muldiv_spec(fnum, SCALE as int, fden));
                    let scaled = sp_apply_exp(base, exp_neg, ev as nat);
                    Some(
                        if neg {
                            clamp64(-scaled)
                        } else {
                            scaled
                        },
                    )
                }
            }
        }
    }
}

/// Consume digits from `pos`, accumulating their value, saturated.
fn rd_digits(s: &[u8], pos: usize, acc: i64) -> (r: (i64, usize))
    requires
        pos <= s@.len(),
        0 <= acc <= DIGIT_SAT,
    ensures
        (r.0 as int, r.1 as int) == sp_digits(s@, pos as int, acc as int),
        r.1 <= s@.len(),
        0 <= r.0 <= DIGIT_SAT,
    decreases s@.len() - pos,
{
    if pos >= s.len() || !(48 <= s[pos] && s[pos] <= 57) {
        return (acc, pos);
    }
    let d = (s[pos] - 48) as i64;
    let acc2 = if acc * 10 + d > DIGIT_SAT {
        DIGIT_SAT
    } else {
        acc * 10 + d
    };
    rd_digits(s, pos + 1, acc2)
}

/// Consume fraction digits from `pos`.
fn rd_frac_digits(s: &[u8], pos: usize, num: i64, den: i64) -> (r: (i64, i64, usize))
    requires
        pos <= s@.len(),
        0 <= num < den,
        1 <= den <= 1000000000,
    ensures
        (r.0 as int, r.1 as int, r.2 as int) == sp_frac_digits(s@, pos as int, num as int, den as int),
        r.2 <= s@.len(),
        0 <= r.0 < r.1,
        1 <= r.1 <= 1000000000,
    decreases s@.len() - pos,
{
    if pos >= s.len() || !(48 <= s[pos] && s[pos] <= 57) {
        return (num, den, pos);
    }
    if den >= 100000000 {
        rd_frac_digits(s, pos + 1, num, den)
    } else {
        let d = (s[pos] - 48) as i64;
        rd_frac_digits(s, pos + 1, num * 10 + d, den * 10)
    }
}

/// Scale `bits` by ten to the power `exp`.
fn apply_exp(bits: i64, exp_neg: bool, exp: i64) -> (r: i64)
    requires
        exp >= 0,
    ensures
        r as int == sp_apply_exp(bits as int, exp_neg, exp as nat),
    decreases exp,
{
    if exp == 0 {
        bits
    } else if exp > 40 {
        if exp_neg {
            0
        } else if bits == 0 {
            0
        } else if bits > 0 {
            i64::MAX
        } else {
            i64::MIN
        }
    } else if exp_neg {
        apply_exp(muldiv(bits, 1, 10), exp_neg, exp - 1)
    } else {
        apply_exp(muldiv(bits, 10, 1), exp_neg, exp - 1)
    }
}

/// Parse decimal number text into a fixed-point scalar.
pub fn parse_decimal(s: &[u8]) -> (r: Option<Scalar>)
    ensures
        r matches Some(v) ==> sp_decimal(s@) == Some(v.bits as int),
        r is None ==> sp_decimal(s@) is None,
{
    let neg = s.len() > 0 && s[0] == 45;
    let start: usize = if neg {
        1
    } else {
        0
    };
    if start >= s.len() || !(48 <= s[start] && s[start] <= 57) {
        return None;
    }
    let (ip, p1) = rd_digits(s, start, 0);
    let (fnum, fden, p2) = if p1 < s.len() && s[p1] == 46 {
        rd_frac_digits(s, p1 + 1, 0, 1)
    } else {
        (0, 1, p1)
    };
    if p1 < s.len() && s[p1] == 46 && p2 == p1 + 1 {
        return None;
    }
    let (exp_neg, e_start) = if p2 < s.len() && (s[p2] == 101 || s[p2] == 69) {
        if p2 + 1 < s.len() && s[p2 + 1] == 45 {
            (true, p2 + 2)
        } else if p2 + 1 < s.len() && s[p2 + 1] == 43 {
            (false, p2 + 2)
        } else {
            (false, p2 + 1)
        }
    } else {
        (false, p2)
    };
    if e_start > p2 && (e_start >= s.len() || !(48 <= s[e_start] && s[e_start] <= 57)) {
        return None;
    }
    let (ev, p3) = rd_digits(s, e_start, 0);
    if p3 != s.len() {
        return None;
    }
    let base_lo = muldiv(fnum, SCALE, fden);
    let base = sat_add(muldiv(ip, SCALE, 1), base_lo);
    proof {
        let ipi = ip as int;
        let sc = SCALE as int;
        let fn1 = fnum as int;
        let fd1 = fden as int;
        assert(0 <= ipi * sc <= 0xff_ffff_ffff * 65536) by (nonlinear_arith)
            requires
                0 <= ipi <= 0xff_ffff_ffff,
                sc == 65536,
        ;
        assert(crate::num::abs1(ipi * sc) == ipi * sc);
        vstd::arithmetic::div_mod::lemma_div_multiples_vanish(ipi * sc, 1);
        assert(1 * (ipi * sc) == ipi * sc) by (nonlinear_arith);
        assert(muldiv_spec(ipi, sc, 1) == ipi * sc);
        assert(fn1 * sc >= 0) by (nonlinear_arith)
            requires
                fn1 >= 0,
                sc > 0,
        ;
        assert(crate::num::abs1(fn1 * sc) == fn1 * sc);
        assert(fn1 * sc <= fd1 * sc) by (nonlinear_arith)
            requires
                0 <= fn1 < fd1,
                sc > 0,
        ;
        vstd::arithmetic::div_mod::lemma_div_multiples_vanish(sc, fd1);
        vstd::arithmetic::div_mod::lemma_div_is_ordered(fn1 * sc, fd1 * sc, fd1);
        assert(fd1 * sc == fd1 * sc);
        vstd::arithmetic::div_mod::lemma_div_is_ordered(0, fn1 * sc, fd1);
        vstd::arithmetic::div_mod::lemma_basic_div(0, fd1);
        assert(0 <= muldiv_spec(fn1, sc, fd1) <= sc);
        assert(base as int == clamp64(ipi * sc + muldiv_spec(fn1, sc, fd1)));
    }
    let scaled = apply_exp(base, exp_neg, ev);
    if neg {
        let flipped: i64 = if scaled == i64::MIN {
            i64::MAX
        } else {
            -scaled
        };
        Some(Scalar { bits: flipped })
    } else {
        Some(Scalar { bits: scaled })
    }
}

} // verus!
