//! Fixed-point arithmetic.
//!
//! Every quantity in this crate (positions, rotations in degrees, scales,
//! times in seconds) is a [`Scalar`]: a count of 1/65536 units held in an
//! `i64`. All operations saturate at the `i64` range and truncate toward
//! zero, so they are total and exactly mirrored by the spec functions here.
use vstd::prelude::*;
use vstd::arithmetic::power2::{pow2, lemma_pow2_unfold, lemma_pow2_strictly_increases, lemma_pow2_adds, lemma2_to64, lemma2_to64_rest};

verus! {

/// Number of fixed-point units in 1.0.
pub const SCALE: i64 = 65536;

/// Fixed-point units in a half turn (180 degrees).
pub const DEG_HALF_TURN: i64 = 180 * 65536;

/// Fixed-point units in a full turn (360 degrees).
pub const DEG_FULL_TURN: i64 = 360 * 65536;

/// Fixed-point approximation of pi (rounded to the nearest unit).
pub const PI_BITS: i64 = 205887;

/// Clamp a mathematical integer to the `i64` range.
pub open spec fn clamp64(x: int) -> int {
    if x > i64::MAX as int {
        i64::MAX as int
    } else if x < i64::MIN as int {
        i64::MIN as int
    } else {
        x
    }
}

/// Absolute value.
pub open spec fn abs1(a: int) -> int {
    if a >= 0 {
        a
    } else {
        -a
    }
}

/// Division truncated toward zero; zero when the divisor is zero.
pub open spec fn tdiv(a: int, b: int) -> int {
    if b == 0 {
        0
    } else if (a >= 0) == (b >= 0) {
        abs1(a) / abs1(b)
    } else {
        -(abs1(a) / abs1(b))
    }
}

/// Saturating addition of fixed-point values.
pub open spec fn sadd(a: int, b: int) -> int {
    clamp64(a + b)
}

/// Saturating subtraction of fixed-point values.
pub open spec fn ssub(a: int, b: int) -> int {
    clamp64(a - b)
}

/// Fixed-point multiplication: `a * b / SCALE`, truncated and saturated.
pub open spec fn fmul(a: int, b: int) -> int {
    clamp64(tdiv(a * b, SCALE as int))
}

/// Fixed-point division: `a * SCALE / b`, truncated and saturated.
pub open spec fn fdivs(a: int, b: int) -> int {
    clamp64(tdiv(a * (SCALE as int), b))
}

/// `a * b / d`, truncated toward zero and saturated to `i64`.
pub open spec fn muldiv_spec(a: int, b: int, d: int) -> int {
    clamp64(tdiv(a * b, d))
}

/// Magnitude of an `i64` as a `u128`.
fn abs_u128(a: i64) -> (r: u128)
    ensures
        r as int == abs1(a as int),
{
    if a >= 0 {
        a as u128
    } else {
        (-(a as i128)) as u128
    }
}

/// Clamp a non-negative magnitude to the positive or negative `i64` range.
fn apply_sign(mag: u128, neg: bool) -> (r: i64)
    ensures
        neg ==> r as int == clamp64(-(mag as int)),
        !neg ==> r as int == clamp64(mag as int),
{
    if neg {
        if mag >= 0x8000_0000_0000_0000u128 {
            i64::MIN
        } else {
            (-(mag as i128)) as i64
        }
    } else {
        if mag > i64::MAX as u128 {
            i64::MAX
        } else {
            mag as i64
        }
    }
}

/// `a * b / d` on `i64`, truncated toward zero and saturated.
pub fn muldiv(a: i64, b: i64, d: i64) -> (r: i64)
    ensures
        r as int == muldiv_spec(a as int, b as int, d as int),
{
    if d == 0 {
        return 0;
    }
    let am: u128 = abs_u128(a);
    let bm: u128 = abs_u128(b);
    let dm: u128 = abs_u128(d);
    proof {
        assert(am as int * bm as int <= 0x8000_0000_0000_0000int * 0x8000_0000_0000_0000int)
            by (nonlinear_arith)
            requires
                am as int <= 0x8000_0000_0000_0000int,
                bm as int <= 0x8000_0000_0000_0000int,
        ;
    }
    let p: u128 = am * bm;
    let q: u128 = p / dm;
    let neg: bool = ((a < 0) != (b < 0)) != (d < 0);
    proof {
        let ai = a as int;
        let bi = b as int;
        let di = d as int;
        assert(p as int == abs1(ai * bi)) by (nonlinear_arith)
            requires
                am as int == abs1(ai),
                bm as int == abs1(bi),
                p == am * bm,
        ;
        assert(q as int == abs1(ai * bi) / abs1(di));
        if ai * bi != 0 {
            assert((ai * bi < 0) == ((ai < 0) != (bi < 0))) by (nonlinear_arith)
                requires
                    ai * bi != 0,
            ;
        }
    }
    if p == 0 {
        return 0;
    }
    let r = apply_sign(q, neg);
    proof {
        let x = (a as int) * (b as int);
        let di = d as int;
        assert(abs1(x) != 0);
        if (x >= 0) == (di >= 0) {
            assert(!neg);
            assert(r as int == clamp64(tdiv(x, di)));
        } else {
            assert(neg);
            assert(r as int == clamp64(tdiv(x, di)));
        }
    }
    r
}

/// Saturating addition.
pub fn sat_add(a: i64, b: i64) -> (r: i64)
    ensures
        r as int == sadd(a as int, b as int),
{
    let s: i128 = a as i128 + b as i128;
    if s > i64::MAX as i128 {
        i64::MAX
    } else if s < i64::MIN as i128 {
        i64::MIN
    } else {
        s as i64
    }
}

/// Saturating subtraction.
pub fn sat_sub(a: i64, b: i64) -> (r: i64)
    ensures
        r as int == ssub(a as int, b as int),
{
    let s: i128 = a as i128 - b as i128;
    if s > i64::MAX as i128 {
        i64::MAX
    } else if s < i64::MIN as i128 {
        i64::MIN
    } else {
        s as i64
    }
}

/// Two raised to the power `k`.
fn pow2_u128(k: u32) -> (r: u128)
    requires
        k <= 126,
    ensures
        r as int == pow2(k as nat),
{
    let mut i: u32 = 0;
    let mut r: u128 = 1;
    proof {
        lemma2_to64();
    }
    while i < k
        invariant
            i <= k,
            k <= 126,
            r as int == pow2(i as nat),
        decreases k - i,
    {
        proof {
            lemma_pow2_unfold((i + 1) as nat);
            lemma_pow2_strictly_increases((i + 1) as nat, 127);
            lemma_pow2_adds(64, 63);
            lemma2_to64();
            lemma2_to64_rest();
        }
        r = r * 2;
        i = i + 1;
    }
    r
}

/// The value carried by an IEEE-754 single-precision bit pattern, scaled by
/// `SCALE`, truncated toward zero, and saturated to `i64`. Bit patterns with
/// no finite value (infinities, NaN) and subnormals (all below one fixed-point
/// unit) map to zero.
pub open spec fn f32_fixed(u: u32) -> int {
    let e = (u >> 23) & 0xff;
    let m = (u & 0x7fffff) as int;
    let neg = (u >> 31) == 1u32;
    if e == 255 || e == 0 {
        0
    } else {
        let mant = m + 0x800000;
        let mag = if e >= 134 {
            mant * pow2((e - 134) as nat)
        } else {
            mant / pow2((134 - e) as nat) as int
        };
        clamp64(if neg { -mag } else { mag })
    }
}

/// Decode an IEEE-754 single-precision bit pattern into a fixed-point scalar.
pub fn f32_to_fixed(u: u32) -> (r: i64)
    ensures
        r as int == f32_fixed(u),
{
    let e: u32 = (u >> 23) & 0xff;
    let m: u32 = u & 0x7fffff;
    let neg: bool = (u >> 31) == 1;
    proof {
        assert((u >> 23) & 0xff < 256 && u & 0x7fffff < 0x800000) by (bit_vector);
    }
    if e == 255 || e == 0 {
        return 0;
    }
    let mant: u64 = (m as u64) + 0x800000;
    if e >= 134 {
        let sh: u32 = e - 134;
        if sh >= 40 {
            proof {
                if sh > 40 {
                    lemma_pow2_strictly_increases(40, sh as nat);
                }
                lemma2_to64_rest();
                assert(mant as int * pow2(sh as nat) >= 0x8000_0000_0000_0000int) by (nonlinear_arith)
                    requires
                        mant as int >= 0x800000,
                        pow2(sh as nat) >= 0x100_0000_0000,
                ;
            }
            if neg {
                i64::MIN
            } else {
                i64::MAX
            }
        } else {
            let p: u128 = pow2_u128(sh);
            proof {
                lemma_pow2_strictly_increases(sh as nat, 40);
                lemma2_to64_rest();
                assert(mant as int * p as int <= 0x1000000int * 0x100_0000_0000int) by (nonlinear_arith)
                    requires
                        mant as int <= 0x1000000,
                        p as int <= 0x100_0000_0000,
                ;
            }
            let mag: u128 = (mant as u128) * p;
            apply_sign(mag, neg)
        }
    } else {
        let sh: u32 = 134 - e;
        if sh >= 64 {
            proof {
                lemma_pow2_strictly_increases(24, sh as nat);
                lemma2_to64();
                vstd::arithmetic::div_mod::lemma_basic_div(mant as int, pow2(sh as nat) as int);
            }
            return 0;
        }
        let p: u128 = pow2_u128(sh);
        proof {
            vstd::arithmetic::power2::lemma_pow2_pos(sh as nat);
        }
        let mag: u128 = (mant as u128) / p;
        apply_sign(mag, neg)
    }
}

/// The non-negative remainder of `x` by a full turn of 360 degrees.
pub open spec fn emod_turn(x: int) -> int {
    x % (DEG_FULL_TURN as int)
}

/// Reduce an angle in degrees to `[0, 360)`.
pub fn angle_mod(x: i64) -> (r: i64)
    ensures
        r as int == emod_turn(x as int),
        0 <= r < DEG_FULL_TURN,
{
    let xm: u128 = abs_u128(x);
    let per: u128 = DEG_FULL_TURN as u128;
    let rem: u128 = xm % per;
    let r: i64 = if x >= 0 {
        rem as i64
    } else if rem == 0 {
        0
    } else {
        DEG_FULL_TURN - (rem as i64)
    };
    proof {
        let xi = x as int;
        let pp = DEG_FULL_TURN as int;
        vstd::arithmetic::div_mod::lemma_mod_bound(xi, pp);
        if xi < 0 {
            assert(rem as int == (-xi) % pp);
            vstd::arithmetic::div_mod::lemma_mod_bound(-xi, pp);
            vstd::arithmetic::div_mod::lemma_add_mod_noop(xi, -xi, pp);
            vstd::arithmetic::div_mod::lemma_small_mod(0nat, pp as nat);
            let s = xi % pp + (-xi) % pp;
            assert(s % pp == 0);
            if s < pp {
                vstd::arithmetic::div_mod::lemma_small_mod(s as nat, pp as nat);
            } else {
                vstd::arithmetic::div_mod::lemma_mod_multiples_vanish(-1, s, pp);
                vstd::arithmetic::div_mod::lemma_small_mod((s - pp) as nat, pp as nat);
            }
        }
    }
    r
}

/// The Bhaskara rational approximation of the sine, for angles in
/// `[0, 180]` degrees held as fixed-point units: exact at 0, 90 and 180,
/// within 0.0017 of the real sine everywhere, and never above one.
pub open spec fn sin_half(d: int) -> int {
    let p = d * (DEG_HALF_TURN as int - d) / (SCALE as int);
    4 * p * (SCALE as int) / (40500 * (SCALE as int) - p)
}

/// The sine of an angle in fixed-point degrees.
pub open spec fn sin_fixed(x: int) -> int {
    let m = emod_turn(x);
    if m <= DEG_HALF_TURN as int {
        sin_half(m)
    } else {
        -sin_half(m - DEG_HALF_TURN as int)
    }
}

/// The cosine of an angle in fixed-point degrees: the sine a quarter turn on.
pub open spec fn cos_fixed(x: int) -> int {
    sin_fixed(emod_turn(x) + 90 * (SCALE as int))
}

/// Evaluate the sine approximation on `[0, 180]` degrees.
fn sin_half_exec(d: i64) -> (r: i64)
    requires
        0 <= d <= DEG_HALF_TURN,
    ensures
        r as int == sin_half(d as int),
        0 <= r <= SCALE,
{
    let du: u128 = d as u128;
    let half: u128 = DEG_HALF_TURN as u128;
    let sc: u128 = SCALE as u128;
    proof {
        let di = d as int;
        let hi = DEG_HALF_TURN as int;
        let si = SCALE as int;
        assert(0 <= di * (hi - di) <= 8100 * si * si) by (nonlinear_arith)
            requires
                0 <= di <= hi,
                hi == 180 * si,
                si == 65536,
        ;
    }
    let p: u128 = du * (half - du) / sc;
    proof {
        let di = d as int;
        let hi = DEG_HALF_TURN as int;
        let si = SCALE as int;
        assert(p as int == di * (hi - di) / si);
        vstd::arithmetic::div_mod::lemma_div_is_ordered(di * (hi - di), 8100 * si * si, si);
        assert(8100 * si * si / si == 8100 * si) by (nonlinear_arith)
            requires
                si == 65536,
        ;
        assert(4 * (p as int) * si <= 4 * (8100 * si) * si) by (nonlinear_arith)
            requires
                0 <= p as int <= 8100 * si,
                si == 65536,
        ;
    }
    let num: u128 = 4 * p * sc;
    let den: u128 = 40500 * sc - p;
    let q: u128 = num / den;
    proof {
        let pi = p as int;
        let si = SCALE as int;
        let deni = 40500 * si - pi;
        assert(4 * pi * si <= si * deni) by (nonlinear_arith)
            requires
                0 <= pi <= 8100 * si,
                si == 65536,
                deni == 40500 * si - pi,
        ;
        vstd::arithmetic::div_mod::lemma_div_is_ordered(4 * pi * si, si * deni, deni);
        vstd::arithmetic::div_mod::lemma_div_multiples_vanish(si, deni);
    }
    q as i64
}

/// The sine of an angle in fixed-point degrees, in `[-SCALE, SCALE]`.
pub fn sin_deg(x: i64) -> (r: i64)
    ensures
        r as int == sin_fixed(x as int),
        -SCALE <= r <= SCALE,
{
    let m: i64 = angle_mod(x);
    if m <= DEG_HALF_TURN {
        sin_half_exec(m)
    } else {
        let s = sin_half_exec(m - DEG_HALF_TURN);
        -s
    }
}

/// The cosine of an angle in fixed-point degrees, in `[-SCALE, SCALE]`.
pub fn cos_deg(x: i64) -> (r: i64)
    ensures
        r as int == cos_fixed(x as int),
        -SCALE <= r <= SCALE,
{
    let m: i64 = angle_mod(x);
    sin_deg(m + 90 * SCALE)
}

/// Multiplying by a zero fraction yields zero.
pub proof fn lemma_fmul_zero(a: int)
    ensures
        fmul(a, 0) == 0,
{
    assert(a * 0 == 0) by (nonlinear_arith);
}

/// Multiplying by a whole fraction is the identity, short of saturation.
pub proof fn lemma_fmul_scale_identity(d: int)
    requires
        i64::MIN as int <= d <= i64::MAX as int,
    ensures
        fmul(d, SCALE as int) == d,
{
    let s = SCALE as int;
    if d >= 0 {
        assert(d * s >= 0) by (nonlinear_arith)
            requires
                d >= 0,
                s > 0,
        ;
        assert(abs1(d * s) == d * s);
        vstd::arithmetic::div_mod::lemma_div_multiples_vanish(d, s);
        assert(s * d == d * s) by (nonlinear_arith);
    } else {
        assert(d * s < 0) by (nonlinear_arith)
            requires
                d < 0,
                s > 0,
        ;
        assert(-(d * s) == (-d) * s) by (nonlinear_arith);
        assert(abs1(d * s) == (-d) * s);
        vstd::arithmetic::div_mod::lemma_div_multiples_vanish(-d, s);
        assert(s * (-d) == (-d) * s) by (nonlinear_arith);
    }
}

/// Multiplying a non-negative value by a half fraction halves it, rounding
/// down.
pub proof fn lemma_fmul_half(d: int)
    requires
        0 <= d <= i64::MAX as int,
    ensures
        fmul(d, (SCALE as int) / 2) == d / 2,
{
    let s = SCALE as int;
    let h = s / 2;
    assert(h == 32768);
    assert(d * h >= 0) by (nonlinear_arith)
        requires
            d >= 0,
            h > 0,
    ;
    assert(abs1(d * h) == d * h);
    let q = d / 2;
    let r = d % 2;
    vstd::arithmetic::div_mod::lemma_fundamental_div_mod(d, 2);
    assert(d == 2 * q + r);
    assert(d * h == s * q + r * h) by (nonlinear_arith)
        requires
            d == 2 * q + r,
            h == 32768,
            s == 65536,
    ;
    assert(0 <= r * h < s) by (nonlinear_arith)
        requires
            0 <= r < 2,
            h == 32768,
            s == 65536,
    ;
    vstd::arithmetic::div_mod::lemma_div_multiples_vanish_fancy(q, r * h, s);
    assert((d * h) / s == q);
    assert(0 <= q <= d);
}

/// A whole fraction: a positive span divided by itself.
pub proof fn lemma_fdivs_self(d: int)
    requires
        0 < d <= i64::MAX as int,
    ensures
        fdivs(d, d) == SCALE as int,
{
    let s = SCALE as int;
    assert(d * s > 0) by (nonlinear_arith)
        requires
            d > 0,
            s > 0,
    ;
    assert(abs1(d * s) == d * s);
    vstd::arithmetic::div_mod::lemma_div_multiples_vanish(s, d);
    assert(d * s == s * d) by (nonlinear_arith);
}

/// A half fraction: half a positive span divided by the whole span.
pub proof fn lemma_fdivs_half(g: int)
    requires
        0 < g,
        2 * g <= i64::MAX as int,
    ensures
        fdivs(g, 2 * g) == (SCALE as int) / 2,
{
    let s = SCALE as int;
    assert(g * s > 0) by (nonlinear_arith)
        requires
            g > 0,
            s > 0,
    ;
    assert(abs1(g * s) == g * s);
    assert(g * s == (2 * g) * (s / 2)) by (nonlinear_arith)
        requires
            s == 65536,
    ;
    vstd::arithmetic::div_mod::lemma_div_multiples_vanish(s / 2, 2 * g);
}

/// A fixed-point scalar: `bits` counts units of 1/65536.
#[derive(Debug, Clone, Copy, PartialEq, Eq, Structural)]
pub struct Scalar {
    pub bits: i64,
}

impl DeepView for Scalar {
    type V = Scalar;

    open spec fn deep_view(&self) -> Scalar {
        *self
    }
}

impl Scalar {
    /// The scalar representing the integer `v` exactly.
    pub fn from_int(v: i32) -> (r: Scalar)
        ensures
            r.bits == v * (SCALE as int),
    {
        Scalar { bits: (v as i64) * SCALE }
    }

    pub fn zero() -> (r: Scalar)
        ensures
            r.bits == 0,
    {
        Scalar { bits: 0 }
    }

    pub fn one() -> (r: Scalar)
        ensures
            r.bits == SCALE as int,
    {
        Scalar { bits: SCALE }
    }

    /// Saturating addition.
    pub fn add(self, o: Scalar) -> (r: Scalar)
        ensures
            r.bits as int == sadd(self.bits as int, o.bits as int),
    {
        Scalar { bits: sat_add(self.bits, o.bits) }
    }

    /// Saturating subtraction.
    pub fn sub(self, o: Scalar) -> (r: Scalar)
        ensures
            r.bits as int == ssub(self.bits as int, o.bits as int),
    {
        Scalar { bits: sat_sub(self.bits, o.bits) }
    }

    /// Fixed-point multiplication, truncated toward zero and saturated.
    pub fn mul(self, o: Scalar) -> (r: Scalar)
        ensures
            r.bits as int == fmul(self.bits as int, o.bits as int),
    {
        Scalar { bits: muldiv(self.bits, o.bits, SCALE) }
    }

    /// Fixed-point division, truncated toward zero and saturated; zero when
    /// the divisor is zero.
    pub fn div(self, o: Scalar) -> (r: Scalar)
        ensures
            r.bits as int == fdivs(self.bits as int, o.bits as int),
    {
        Scalar { bits: muldiv(self.bits, SCALE, o.bits) }
    }
}

} // verus!
