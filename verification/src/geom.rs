//! Two-dimensional fixed-point geometry: vectors and affine maps.
use vstd::prelude::*;
use crate::num::{Scalar, sadd, fmul, sat_add, muldiv, SCALE, sin_fixed, cos_fixed, sin_deg, cos_deg};

verus! {

/// A two-dimensional vector of fixed-point scalars.
#[derive(Debug, Clone, Copy, PartialEq, Eq, Structural)]
pub struct Vec2 {
    pub x: Scalar,
    pub y: Scalar,
}

impl DeepView for Vec2 {
    type V = Vec2;

    open spec fn deep_view(&self) -> Vec2 {
        *self
    }
}

impl Vec2 {
    pub fn new(x: Scalar, y: Scalar) -> (r: Vec2)
        ensures
            r == (Vec2 { x, y }),
    {
        Vec2 { x, y }
    }

    pub fn zero() -> (r: Vec2)
        ensures
            r == (Vec2 { x: Scalar { bits: 0 }, y: Scalar { bits: 0 } }),
    {
        Vec2 { x: Scalar { bits: 0 }, y: Scalar { bits: 0 } }
    }

    pub fn one() -> (r: Vec2)
        ensures
            r == (Vec2 { x: Scalar { bits: SCALE as i64 }, y: Scalar { bits: SCALE as i64 } }),
    {
        Vec2 { x: Scalar { bits: SCALE }, y: Scalar { bits: SCALE } }
    }

    /// Component-wise saturating addition.
    pub fn add(self, o: Vec2) -> (r: Vec2)
        ensures
            r == spec_vec_add(self, o),
    {
        Vec2 {
            x: Scalar { bits: sat_add(self.x.bits, o.x.bits) },
            y: Scalar { bits: sat_add(self.y.bits, o.y.bits) },
        }
    }

    /// Component-wise fixed-point multiplication.
    pub fn mul(self, o: Vec2) -> (r: Vec2)
        ensures
            r == spec_vec_mul(self, o),
    {
        Vec2 { x: self.x.mul(o.x), y: self.y.mul(o.y) }
    }
}

pub open spec fn spec_vec_add(a: Vec2, b: Vec2) -> Vec2 {
    Vec2 {
        x: Scalar { bits: sadd(a.x.bits as int, b.x.bits as int) as i64 },
        y: Scalar { bits: sadd(a.y.bits as int, b.y.bits as int) as i64 },
    }
}

pub open spec fn spec_vec_mul(a: Vec2, b: Vec2) -> Vec2 {
    Vec2 {
        x: Scalar { bits: fmul(a.x.bits as int, b.x.bits as int) as i64 },
        y: Scalar { bits: fmul(a.y.bits as int, b.y.bits as int) as i64 },
    }
}

/// An affine map of the plane: `x' = a x + c y + tx`, `y' = b x + d y + ty`,
/// with all six entries fixed-point scalars.
#[derive(Debug, Clone, Copy, PartialEq, Eq, Structural)]
pub struct Affine {
    pub a: i64,
    pub b: i64,
    pub c: i64,
    pub d: i64,
    pub tx: i64,
    pub ty: i64,
}

pub open spec fn spec_affine_identity() -> Affine {
    Affine { a: SCALE as i64, b: 0, c: 0, d: SCALE as i64, tx: 0, ty: 0 }
}

/// Apply an affine map to a point.
pub open spec fn spec_affine_apply(m: Affine, x: int, y: int) -> (int, int) {
    (
        sadd(sadd(fmul(m.a as int, x), fmul(m.c as int, y)), m.tx as int),
        sadd(sadd(fmul(m.b as int, x), fmul(m.d as int, y)), m.ty as int),
    )
}

/// Composition `m` after `n`: the map sending `v` to `m(n(v))`.
pub open spec fn spec_affine_compose(m: Affine, n: Affine) -> Affine {
    Affine {
        a: sadd(fmul(m.a as int, n.a as int), fmul(m.c as int, n.b as int)) as i64,
        b: sadd(fmul(m.b as int, n.a as int), fmul(m.d as int, n.b as int)) as i64,
        c: sadd(fmul(m.a as int, n.c as int), fmul(m.c as int, n.d as int)) as i64,
        d: sadd(fmul(m.b as int, n.c as int), fmul(m.d as int, n.d as int)) as i64,
        tx: spec_affine_apply(m, n.tx as int, n.ty as int).0 as i64,
        ty: spec_affine_apply(m, n.tx as int, n.ty as int).1 as i64,
    }
}

/// The map scaling by `scale`, then rotating by `rot` degrees, then
/// translating by `trans`.
pub open spec fn spec_affine_srt(scale: Vec2, rot: int, trans: Vec2) -> Affine {
    let cs = cos_fixed(rot);
    let sn = sin_fixed(rot);
    Affine {
        a: fmul(cs, scale.x.bits as int) as i64,
        b: fmul(sn, scale.x.bits as int) as i64,
        c: fmul(-sn, scale.y.bits as int) as i64,
        d: fmul(cs, scale.y.bits as int) as i64,
        tx: trans.x.bits,
        ty: trans.y.bits,
    }
}

impl Affine {
    pub fn identity() -> (r: Affine)
        ensures
            r == spec_affine_identity(),
    {
        Affine { a: SCALE, b: 0, c: 0, d: SCALE, tx: 0, ty: 0 }
    }

    /// Apply this map to a point.
    pub fn apply(&self, v: Vec2) -> (r: Vec2)
        ensures
            r.x.bits as int == spec_affine_apply(*self, v.x.bits as int, v.y.bits as int).0,
            r.y.bits as int == spec_affine_apply(*self, v.x.bits as int, v.y.bits as int).1,
    {
        let x = sat_add(sat_add(muldiv(self.a, v.x.bits, SCALE), muldiv(self.c, v.y.bits, SCALE)), self.tx);
        let y = sat_add(sat_add(muldiv(self.b, v.x.bits, SCALE), muldiv(self.d, v.y.bits, SCALE)), self.ty);
        Vec2 { x: Scalar { bits: x }, y: Scalar { bits: y } }
    }

    /// The composition of this map after `n`.
    pub fn compose(&self, n: &Affine) -> (r: Affine)
        ensures
            r == spec_affine_compose(*self, *n),
    {
        let t = self.apply(Vec2 { x: Scalar { bits: n.tx }, y: Scalar { bits: n.ty } });
        Affine {
            a: sat_add(muldiv(self.a, n.a, SCALE), muldiv(self.c, n.b, SCALE)),
            b: sat_add(muldiv(self.b, n.a, SCALE), muldiv(self.d, n.b, SCALE)),
            c: sat_add(muldiv(self.a, n.c, SCALE), muldiv(self.c, n.d, SCALE)),
            d: sat_add(muldiv(self.b, n.c, SCALE), muldiv(self.d, n.d, SCALE)),
            tx: t.x.bits,
            ty: t.y.bits,
        }
    }

    /// Build the map that scales by `scale`, rotates by `rot` degrees, and
    /// translates by `trans`.
    pub fn from_scale_rotation_translation(scale: Vec2, rot: Scalar, trans: Vec2) -> (r: Affine)
        ensures
            r == spec_affine_srt(scale, rot.bits as int, trans),
    {
        let cs = cos_deg(rot.bits);
        let sn = sin_deg(rot.bits);
        Affine {
            a: muldiv(cs, scale.x.bits, SCALE),
            b: muldiv(sn, scale.x.bits, SCALE),
            c: muldiv(-sn, scale.y.bits, SCALE),
            d: muldiv(cs, scale.y.bits, SCALE),
            tx: trans.x.bits,
            ty: trans.y.bits,
        }
    }
}

} // verus!
