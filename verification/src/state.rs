//! The pose engine: computes per-bone world transforms and per-slot visible
//! attachments from a skeleton, an elapsed time, the active animation and
//! direct user overrides.
use vstd::prelude::*;
use crate::geom::{Affine, Vec2, spec_affine_compose, spec_affine_identity, spec_affine_srt, spec_vec_add,
    spec_vec_mul};
use crate::num::{Scalar, SCALE, fdivs, fmul, muldiv, sadd, sat_add, sat_sub, ssub};
use crate::skeleton::animation::{SpecBoneKeyframe, SpecInterpolation};
use crate::skeleton::{BoneKeyframe, BoneKeyframeData, Interpolation, Skeleton};
use crate::Angle;

verus! {

/// A layered change to one bone's local transform: rotations add,
/// translations add, scales multiply.
#[derive(Debug, Clone, Copy, PartialEq, Eq, Structural)]
pub struct BoneModification {
    pub rotation: Angle,
    pub translation: Vec2,
    pub scale: Vec2,
}

/// The modification that changes nothing.
pub open spec fn spec_mod_identity() -> BoneModification {
    BoneModification {
        rotation: Angle::Degrees(Scalar { bits: 0 }),
        translation: Vec2 { x: Scalar { bits: 0 }, y: Scalar { bits: 0 } },
        scale: Vec2 { x: Scalar { bits: SCALE as i64 }, y: Scalar { bits: SCALE as i64 } },
    }
}

/// Layer `other` on top of `m`: angles add (in `m`'s unit), translations
/// add, scales multiply.
pub open spec fn spec_mod_apply(m: BoneModification, other: BoneModification) -> BoneModification {
    BoneModification {
        rotation: Angle::Degrees(
            Scalar {
                bits: sadd(crate::spec_to_degrees(m.rotation), crate::spec_to_degrees(other.rotation)) as i64,
            },
        ),
        translation: spec_vec_add(m.translation, other.translation),
        scale: spec_vec_mul(m.scale, other.scale),
    }
}

impl BoneModification {
    /// Layer `other` on top of this modification.
    pub fn apply(&mut self, other: &BoneModification)
        ensures
            *final(self) == spec_mod_apply(*old(self), *other),
    {
        let deg = sat_add(self.rotation.to_degrees().bits, other.rotation.to_degrees().bits);
        self.rotation = Angle::Degrees(Scalar { bits: deg });
        self.translation = self.translation.add(other.translation);
        self.scale = self.scale.mul(other.scale);
    }

    /// A modification that only rotates.
    pub fn from_rotation(rotation: Angle) -> (r: BoneModification)
        ensures
            r == (BoneModification {
                rotation,
                translation: spec_mod_identity().translation,
                scale: spec_mod_identity().scale,
            }),
    {
        BoneModification { rotation, translation: Vec2::zero(), scale: Vec2::one() }
    }

    /// A modification that only translates.
    pub fn from_translation(translation: Vec2) -> (r: BoneModification)
        ensures
            r == (BoneModification {
                rotation: spec_mod_identity().rotation,
                translation,
                scale: spec_mod_identity().scale,
            }),
    {
        BoneModification { rotation: Angle::Degrees(Scalar { bits: 0 }), translation, scale: Vec2::one() }
    }

    /// A modification that only scales.
    pub fn from_scale(scale: Vec2) -> (r: BoneModification)
        ensures
            r == (BoneModification {
                rotation: spec_mod_identity().rotation,
                translation: spec_mod_identity().translation,
                scale,
            }),
    {
        BoneModification { rotation: Angle::Degrees(Scalar { bits: 0 }), translation: Vec2::zero(), scale }
    }

    pub fn identity() -> (r: BoneModification)
        ensures
            r == spec_mod_identity(),
    {
        BoneModification {
            rotation: Angle::Degrees(Scalar { bits: 0 }),
            translation: Vec2::zero(),
            scale: Vec2::one(),
        }
    }
}

impl Default for BoneModification {
    fn default() -> (r: Self)
        ensures
            r == spec_mod_identity(),
    {
        BoneModification::identity()
    }
}

impl Default for DetachedSkeletonState {
    fn default() -> (r: Self)
        ensures
            r.calculated_bones@.len() == 0,
            r.animation_modifications@.len() == 0,
            r.user_modifications@.len() == 0,
            r.slots@.len() == 0,
            r.unsupported_transforms@.len() == 0,
            r.time.bits == 0,
            r.animation is None,
            r.animation_time.bits == 0,
    {
        DetachedSkeletonState::new()
    }
}

impl DeepView for BoneModification {
    type V = BoneModification;

    open spec fn deep_view(&self) -> BoneModification {
        *self
    }
}

/// The x coordinate of a unit-square cubic Bezier at parameter `u`, with end
/// points 0 and 1 and control coordinates `c1`, `c2` (all fixed point):
/// `3u(1-u)^2 c1 + 3u^2(1-u) c2 + u^3`.
pub open spec fn spec_bez_coord(c1: int, c2: int, u: int) -> int {
    let w = ssub(SCALE as int, u);
    let t1 = fmul(fmul(fmul(3 * (SCALE as int), u), fmul(w, w)), c1);
    let t2 = fmul(fmul(fmul(3 * (SCALE as int), fmul(u, u)), w), c2);
    let t3 = fmul(fmul(u, u), u);
    sadd(sadd(t1, t2), t3)
}

fn bez_coord(c1: i64, c2: i64, u: i64) -> (r: i64)
    ensures
        r as int == spec_bez_coord(c1 as int, c2 as int, u as int),
{
    let w = sat_sub(SCALE, u);
    let t1 = muldiv(muldiv(muldiv(3 * SCALE, u, SCALE), muldiv(w, w, SCALE), SCALE), c1, SCALE);
    let t2 = muldiv(muldiv(muldiv(3 * SCALE, muldiv(u, u, SCALE), SCALE), w, SCALE), c2, SCALE);
    let t3 = muldiv(muldiv(u, u, SCALE), u, SCALE);
    sat_add(sat_add(t1, t2), t3)
}

/// Bisection for the Bezier parameter whose x coordinate meets the time
/// fraction `t`: `steps` halvings of `[lo, hi]`.
pub open spec fn spec_bez_param(cx1: int, cx2: int, t: int, lo: int, hi: int, steps: nat) -> int
    decreases steps,
{
    if steps == 0 {
        lo
    } else {
        let mid = (lo + hi) / 2;
        if spec_bez_coord(cx1, cx2, mid) < t {
            spec_bez_param(cx1, cx2, t, mid, hi, (steps - 1) as nat)
        } else {
            spec_bez_param(cx1, cx2, t, lo, mid, (steps - 1) as nat)
        }
    }
}

fn bez_param(cx1: i64, cx2: i64, t: i64) -> (r: i64)
    ensures
        r as int == spec_bez_param(cx1 as int, cx2 as int, t as int, 0, SCALE as int, 20),
        0 <= r <= SCALE,
{
    let mut lo: i64 = 0;
    let mut hi: i64 = SCALE;
    let mut steps: u32 = 20;
    while steps > 0
        invariant
            0 <= lo <= hi <= SCALE,
            spec_bez_param(cx1 as int, cx2 as int, t as int, 0, SCALE as int, 20) == spec_bez_param(
                cx1 as int,
                cx2 as int,
                t as int,
                lo as int,
                hi as int,
                steps as nat,
            ),
        decreases steps,
    {
        let mid = (((lo + hi) as u64) / 2) as i64;
        proof {
            reveal_with_fuel(spec_bez_param, 2);
        }
        if bez_coord(cx1, cx2, mid) < t {
            lo = mid;
        } else {
            hi = mid;
        }
        steps = steps - 1;
    }
    proof {
        reveal_with_fuel(spec_bez_param, 1);
    }
    lo
}

/// The fraction of the value difference covered after a fraction `t` of the
/// time between two keyframes, under a unit-square cubic Bezier: exactly 0 at
/// or before the start, exactly `SCALE` at or after the end, and the curve's
/// y coordinate at the bisected parameter between them.
pub open spec fn spec_bezier_fraction(c: crate::skeleton::animation::Bezier, t: int) -> int {
    if t <= 0 {
        0
    } else if t >= SCALE as int {
        SCALE as int
    } else {
        spec_bez_coord(
            c.cy1.bits as int,
            c.cy2.bits as int,
            spec_bez_param(c.cx1.bits as int, c.cx2.bits as int, t, 0, SCALE as int, 20),
        )
    }
}

/// Evaluate a unit-square cubic Bezier at time fraction `t`.
pub fn bezier_fraction(c: &crate::skeleton::animation::Bezier, t: Scalar) -> (r: Scalar)
    ensures
        r.bits as int == spec_bezier_fraction(*c, t.bits as int),
{
    if t.bits <= 0 {
        Scalar { bits: 0 }
    } else if t.bits >= SCALE {
        Scalar { bits: SCALE }
    } else {
        let u = bez_param(c.cx1.bits, c.cx2.bits, t.bits);
        Scalar { bits: bez_coord(c.cy1.bits, c.cy2.bits, u) }
    }
}

/// The interpolated scalar between `a` and `b` at value fraction `f`:
/// `a + (b - a) * f`.
pub open spec fn spec_lerp(a: int, b: int, f: int) -> int {
    sadd(a, fmul(ssub(b, a), f))
}

pub fn lerp(a: Scalar, b: Scalar, f: Scalar) -> (r: Scalar)
    ensures
        r.bits as int == spec_lerp(a.bits as int, b.bits as int, f.bits as int),
{
    Scalar { bits: sat_add(a.bits, muldiv(sat_sub(b.bits, a.bits), f.bits, SCALE)) }
}

/// Law: a Bezier interpolation evaluated at time fraction 0 returns the start
/// value, and at a full time fraction returns the end value, for every curve
/// and every pair of values whose difference does not saturate.
pub proof fn lemma_bezier_endpoints(c: crate::skeleton::animation::Bezier, a: int, b: int)
    requires
        i64::MIN < a - b < i64::MAX,
        i64::MIN < b - a < i64::MAX,
        i64::MIN < a < i64::MAX,
        i64::MIN < b < i64::MAX,
    ensures
        spec_lerp(a, b, spec_bezier_fraction(c, 0)) == a,
        spec_lerp(a, b, spec_bezier_fraction(c, SCALE as int)) == b,
{
    assert(spec_bezier_fraction(c, 0) == 0);
    assert(spec_bezier_fraction(c, SCALE as int) == SCALE as int);
    let d = ssub(b, a);
    assert(d == b - a);
    crate::num::lemma_fmul_zero(d);
    assert(spec_lerp(a, b, 0) == a);
    crate::num::lemma_fmul_scale_identity(d);
    assert(spec_lerp(a, b, SCALE as int) == b);
}

/// Law: a linear curve matches plain linear interpolation; halfway through
/// the time between two keyframes it yields the midpoint, up to fixed-point
/// truncation toward zero.
pub proof fn lemma_linear_midpoint(a: int, b: int)
    requires
        i64::MIN < b - a < i64::MAX,
        i64::MIN < a < i64::MAX,
        a <= b,
        a + b < i64::MAX,
    ensures
        spec_lerp(a, b, (SCALE as int) / 2) == a + (b - a) / 2,
{
    let h = (SCALE as int) / 2;
    let d = ssub(b, a);
    assert(d == b - a);
    crate::num::lemma_fmul_half(d);
    assert(0 <= d / 2 <= d);
    assert(spec_lerp(a, b, h) == a + d / 2);
}

/// The value a bone keyframe sets, as a pair (rotations use only the first
/// component).
pub open spec fn spec_kf_value(data: crate::skeleton::animation::SpecBoneKeyframeData) -> (int, int) {
    match data {
        crate::skeleton::animation::SpecBoneKeyframeData::BoneRotate(a, _) => (crate::spec_to_degrees(a), 0),
        crate::skeleton::animation::SpecBoneKeyframeData::BoneTranslate(v, _) => (v.x.bits as int, v.y.bits as int),
        crate::skeleton::animation::SpecBoneKeyframeData::BoneScale(v, _) => (v.x.bits as int, v.y.bits as int),
        crate::skeleton::animation::SpecBoneKeyframeData::BoneShear(v, _) => (v.x.bits as int, v.y.bits as int),
    }
}

/// The interpolation a bone keyframe carries toward the next keyframe.
pub open spec fn spec_kf_curve(data: crate::skeleton::animation::SpecBoneKeyframeData) -> SpecInterpolation {
    match data {
        crate::skeleton::animation::SpecBoneKeyframeData::BoneRotate(_, c) => c,
        crate::skeleton::animation::SpecBoneKeyframeData::BoneTranslate(_, c) => c,
        crate::skeleton::animation::SpecBoneKeyframeData::BoneScale(_, c) => c,
        crate::skeleton::animation::SpecBoneKeyframeData::BoneShear(_, c) => c,
    }
}

/// Interpolate one channel between `a` and `b` at time fraction `f` under a
/// curve: stepped snaps to `a`, linear interpolates by the time fraction, a
/// Bezier maps the time fraction to a value fraction first; a missing channel
/// curve interpolates linearly.
pub open spec fn spec_channel_value(c: SpecInterpolation, ch: int, a: int, b: int, f: int) -> int {
    match c {
        SpecInterpolation::Stepped => a,
        SpecInterpolation::Bezier(cs) => {
            if 0 <= ch < cs.len() {
                spec_lerp(a, b, spec_bezier_fraction(cs[ch], f))
            } else {
                spec_lerp(a, b, f)
            }
        },
        _ => spec_lerp(a, b, f),
    }
}

fn channel_value(c: &Interpolation, ch: usize, a: Scalar, b: Scalar, f: Scalar) -> (r: Scalar)
    ensures
        r.bits as int == spec_channel_value(c@, ch as int, a.bits as int, b.bits as int, f.bits as int),
{
    match c {
        Interpolation::Stepped => a,
        Interpolation::Bezier(cs) => {
            if ch < cs.len() {
                let bf = bezier_fraction(&cs[ch], f);
                lerp(a, b, bf)
            } else {
                lerp(a, b, f)
            }
        },
        _ => lerp(a, b, f),
    }
}

/// The modification a single keyframe value imposes for each keyframe kind:
/// rotations rotate, translations translate, scales scale; shear keyframes
/// are carried by the data model but impose no modification.
pub open spec fn spec_kind_modification(
    data: crate::skeleton::animation::SpecBoneKeyframeData,
    x: int,
    y: int,
) -> BoneModification {
    match data {
        crate::skeleton::animation::SpecBoneKeyframeData::BoneRotate(_, _) => BoneModification {
            rotation: Angle::Degrees(Scalar { bits: x as i64 }),
            translation: spec_mod_identity().translation,
            scale: spec_mod_identity().scale,
        },
        crate::skeleton::animation::SpecBoneKeyframeData::BoneTranslate(_, _) => BoneModification {
            rotation: spec_mod_identity().rotation,
            translation: Vec2 { x: Scalar { bits: x as i64 }, y: Scalar { bits: y as i64 } },
            scale: spec_mod_identity().scale,
        },
        crate::skeleton::animation::SpecBoneKeyframeData::BoneScale(_, _) => BoneModification {
            rotation: spec_mod_identity().rotation,
            translation: spec_mod_identity().translation,
            scale: Vec2 { x: Scalar { bits: x as i64 }, y: Scalar { bits: y as i64 } },
        },
        crate::skeleton::animation::SpecBoneKeyframeData::BoneShear(_, _) => spec_mod_identity(),
    }
}

/// The modification two neighbouring keyframes impose at time `since`: the
/// curve carried by the earlier keyframe maps the time fraction between their
/// times to a value fraction per channel.
pub open spec fn spec_pair_modification(f1: SpecBoneKeyframe, f2: SpecBoneKeyframe, since: int) -> BoneModification {
    let (a_x, a_y) = spec_kf_value(f1.data);
    let (b_x, b_y) = spec_kf_value(f2.data);
    let c = spec_kf_curve(f1.data);
    let span = ssub(f2.time.bits as int, f1.time.bits as int);
    let f = fdivs(ssub(since, f1.time.bits as int), span);
    let x = spec_channel_value(c, 0, a_x, b_x, f);
    let y = spec_channel_value(c, 1, a_y, b_y, f);
    spec_kind_modification(f1.data, x, y)
}

fn pair_modification(f1: &BoneKeyframe, f2: &BoneKeyframe, since: Scalar) -> (r: BoneModification)
    ensures
        r == spec_pair_modification(f1@, f2@, since.bits as int),
{
    let (a_x, a_y) = kf_value(&f1.data);
    let (b_x, b_y) = kf_value(&f2.data);
    let span = sat_sub(f2.time.bits, f1.time.bits);
    let f = Scalar { bits: muldiv(sat_sub(since.bits, f1.time.bits), SCALE, span) };
    let (x, y) = match &f1.data {
        BoneKeyframeData::BoneRotate(_, c) => (
            channel_value(c, 0, a_x, b_x, f),
            channel_value(c, 1, a_y, b_y, f),
        ),
        BoneKeyframeData::BoneTranslate(_, c) => (
            channel_value(c, 0, a_x, b_x, f),
            channel_value(c, 1, a_y, b_y, f),
        ),
        BoneKeyframeData::BoneScale(_, c) => (
            channel_value(c, 0, a_x, b_x, f),
            channel_value(c, 1, a_y, b_y, f),
        ),
        BoneKeyframeData::BoneShear(_, c) => (
            channel_value(c, 0, a_x, b_x, f),
            channel_value(c, 1, a_y, b_y, f),
        ),
    };
    kind_modification(&f1.data, x, y)
}

fn kf_value(data: &BoneKeyframeData) -> (r: (Scalar, Scalar))
    ensures
        r.0.bits as int == spec_kf_value(data@).0,
        r.1.bits as int == spec_kf_value(data@).1,
{
    match data {
        BoneKeyframeData::BoneRotate(a, _) => (a.to_degrees(), Scalar { bits: 0 }),
        BoneKeyframeData::BoneTranslate(v, _) => (v.x, v.y),
        BoneKeyframeData::BoneScale(v, _) => (v.x, v.y),
        BoneKeyframeData::BoneShear(v, _) => (v.x, v.y),
    }
}

fn kind_modification(data: &BoneKeyframeData, x: Scalar, y: Scalar) -> (r: BoneModification)
    ensures
        r == spec_kind_modification(data@, x.bits as int, y.bits as int),
{
    match data {
        BoneKeyframeData::BoneRotate(_, _) => BoneModification::from_rotation(Angle::Degrees(x)),
        BoneKeyframeData::BoneTranslate(_, _) => BoneModification::from_translation(Vec2 { x, y }),
        BoneKeyframeData::BoneScale(_, _) => BoneModification::from_scale(Vec2 { x, y }),
        BoneKeyframeData::BoneShear(_, _) => BoneModification::identity(),
    }
}

impl crate::skeleton::BoneKeyframeData {
    /// The modification this keyframe's own value imposes, ignoring
    /// interpolation.
    pub fn to_bone_modification(&self) -> (r: BoneModification)
        ensures
            r == spec_kind_modification(self@, spec_kf_value(self@).0, spec_kf_value(self@).1),
    {
        let (x, y) = kf_value(self);
        kind_modification(self, x, y)
    }
}

/// The index of the first keyframe at or after `since`, searching from `k`.
pub open spec fn spec_first_at_or_after(frames: Seq<SpecBoneKeyframe>, since: int, k: int) -> Option<int>
    decreases frames.len() - k,
{
    if k < 0 || k >= frames.len() {
        None
    } else if frames[k].time.bits as int >= since {
        Some(k)
    } else {
        spec_first_at_or_after(frames, since, k + 1)
    }
}

/// The modification one timeline imposes at time `since`: the first keyframe
/// at or after `since` closes the active segment; before the first keyframe
/// the first value holds, and after the last keyframe the last value holds.
pub open spec fn spec_timeline_modification(frames: Seq<SpecBoneKeyframe>, since: int) -> BoneModification {
    if frames.len() == 0 {
        spec_mod_identity()
    } else {
        match spec_first_at_or_after(frames, since, 0) {
            None => {
                let f = frames[frames.len() - 1];
                spec_kind_modification(f.data, spec_kf_value(f.data).0, spec_kf_value(f.data).1)
            },
            Some(k) => {
                if k == 0 {
                    let f = frames[0];
                    spec_kind_modification(f.data, spec_kf_value(f.data).0, spec_kf_value(f.data).1)
                } else {
                    spec_pair_modification(frames[k - 1], frames[k], since)
                }
            },
        }
    }
}

/// Find the first keyframe at or after `since`.
fn first_at_or_after(frames: &Vec<BoneKeyframe>, since: i64) -> (r: Option<usize>)
    ensures
        r matches Some(k) ==> k < frames@.len() && spec_first_at_or_after(frames.deep_view(), since as int, 0)
            == Some(k as int),
        r is None ==> spec_first_at_or_after(frames.deep_view(), since as int, 0) is None,
{
    let mut k: usize = 0;
    let n = frames.len();
    while k < n
        invariant
            k <= n,
            n == frames@.len(),
            spec_first_at_or_after(frames.deep_view(), since as int, 0) == spec_first_at_or_after(
                frames.deep_view(),
                since as int,
                k as int,
            ),
        decreases n - k,
    {
        proof {
            reveal_with_fuel(spec_first_at_or_after, 2);
        }
        if frames[k].time.bits >= since {
            return Some(k);
        }
        k = k + 1;
    }
    proof {
        reveal_with_fuel(spec_first_at_or_after, 2);
    }
    None
}

fn timeline_modification(frames: &Vec<BoneKeyframe>, since: Scalar) -> (r: BoneModification)
    ensures
        r == spec_timeline_modification(frames.deep_view(), since.bits as int),
{
    let n = frames.len();
    if n == 0 {
        return BoneModification::identity();
    }
    match first_at_or_after(frames, since.bits) {
        None => {
            let f = &frames[n - 1];
            f.data.to_bone_modification()
        },
        Some(k) => {
            if k == 0 {
                let f = &frames[0];
                f.data.to_bone_modification()
            } else {
                pair_modification(&frames[k - 1], &frames[k], since)
            }
        },
    }
}

/// The world state of one posed bone: its affine map into world space, and
/// its world rotation in degrees, tracked separately since a general affine
/// map does not determine it under non-uniform scale.
#[derive(Debug, Clone, Copy, PartialEq, Eq, Structural)]
pub struct BoneState {
    pub affinity: Affine,
    pub rotation: Scalar,
}

impl DeepView for BoneState {
    type V = BoneState;

    open spec fn deep_view(&self) -> BoneState {
        *self
    }
}

/// The state of an unposed bone: the identity map, no rotation.
pub open spec fn spec_state_identity() -> BoneState {
    BoneState { affinity: spec_affine_identity(), rotation: Scalar { bits: 0 } }
}

/// The first modification stored under `name`, or the identity.
pub open spec fn spec_find_mod_from(
    mods: Seq<(Seq<char>, BoneModification)>,
    name: Seq<char>,
    k: int,
) -> BoneModification
    decreases mods.len() - k,
{
    if k < 0 || k >= mods.len() {
        spec_mod_identity()
    } else if mods[k].0 == name {
        mods[k].1
    } else {
        spec_find_mod_from(mods, name, k + 1)
    }
}

fn find_mod(mods: &Vec<(String, BoneModification)>, name: &String) -> (r: BoneModification)
    ensures
        r == spec_find_mod_from(mods.deep_view(), name@, 0),
{
    let n = mods.len();
    let mut k: usize = 0;
    while k < n
        invariant
            k <= n,
            n == mods@.len(),
            spec_find_mod_from(mods.deep_view(), name@, 0) == spec_find_mod_from(mods.deep_view(), name@, k as int),
        decreases n - k,
    {
        proof {
            reveal_with_fuel(spec_find_mod_from, 2);
        }
        if mods[k].0 == *name {
            return mods[k].1;
        }
        k = k + 1;
    }
    proof {
        reveal_with_fuel(spec_find_mod_from, 2);
    }
    BoneModification::identity()
}

/// The local transform of one bone: its rest pose layered with the animation
/// modification and then the user modification stored under its name —
/// rotations add, translations add, scales multiply.
pub open spec fn spec_local_state(
    bone: crate::skeleton::bone::SpecBone,
    am: Seq<(Seq<char>, BoneModification)>,
    um: Seq<(Seq<char>, BoneModification)>,
) -> (Affine, int) {
    let ma = spec_find_mod_from(am, bone.name, 0);
    let mu = spec_find_mod_from(um, bone.name, 0);
    let rot = sadd(
        sadd(bone.rotation.bits as int, crate::spec_to_degrees(ma.rotation)),
        crate::spec_to_degrees(mu.rotation),
    );
    let pos = spec_vec_add(spec_vec_add(bone.position, ma.translation), mu.translation);
    let scale = spec_vec_mul(spec_vec_mul(bone.scale, ma.scale), mu.scale);
    (spec_affine_srt(scale, rot, pos), rot)
}

/// The world state of bone `i`: its local transform composed onto its
/// parent's world state. A parent reference that does not point strictly
/// earlier in the list is treated as absent, so the walk always terminates.
pub open spec fn spec_world_state(
    sk: crate::skeleton::SpecSkeleton,
    am: Seq<(Seq<char>, BoneModification)>,
    um: Seq<(Seq<char>, BoneModification)>,
    i: int,
) -> BoneState
    decreases i,
{
    if 0 <= i < sk.bones.len() {
        let bone = sk.bones[i];
        let (local, rot) = spec_local_state(bone, am, um);
        let parent = match bone.parent {
            Some(p) => {
                if p < i {
                    spec_world_state(sk, am, um, p as int)
                } else {
                    spec_state_identity()
                }
            },
            None => spec_state_identity(),
        };
        BoneState {
            affinity: spec_affine_compose(parent.affinity, local),
            rotation: Scalar { bits: sadd(parent.rotation.bits as int, rot) as i64 },
        }
    } else {
        spec_state_identity()
    }
}

/// The posed world states of all bones, each under its bone's name.
pub open spec fn spec_calculated_bones(
    sk: crate::skeleton::SpecSkeleton,
    am: Seq<(Seq<char>, BoneModification)>,
    um: Seq<(Seq<char>, BoneModification)>,
) -> Seq<(Seq<char>, BoneState)> {
    Seq::new(sk.bones.len(), |i: int| (sk.bones[i].name, spec_world_state(sk, am, um, i)))
}

/// The indices of bones whose parent-transform mode is not full inheritance,
/// among the first `n`: these are posed as if fully inherited, and reported.
pub open spec fn spec_unsupported_transforms(sk: crate::skeleton::SpecSkeleton, n: int) -> Seq<usize>
    decreases n,
{
    if n <= 0 || n > sk.bones.len() {
        Seq::empty()
    } else {
        let prev = spec_unsupported_transforms(sk, n - 1);
        if sk.bones[n - 1].transform is Normal {
            prev
        } else {
            prev.push((n - 1) as usize)
        }
    }
}

/// The modification two optional neighbouring keyframes impose at time
/// `since`: none without a first keyframe, the first keyframe's own value
/// without a second, and the interpolated value between the two otherwise.
pub open spec fn spec_interpolate(
    f1: Option<SpecBoneKeyframe>,
    f2: Option<SpecBoneKeyframe>,
    since: int,
) -> Option<BoneModification> {
    match f1 {
        None => None,
        Some(k1) => match f2 {
            None => Some(spec_kind_modification(k1.data, spec_kf_value(k1.data).0, spec_kf_value(k1.data).1)),
            Some(k2) => Some(spec_pair_modification(k1, k2, since)),
        },
    }
}

/// Law: between two keyframes, a non-stepped curve — linear or any cubic
/// Bezier — evaluated at the second keyframe's own time returns the second
/// keyframe's value exactly, for every pair of values whose per-channel
/// difference does not saturate the fixed-point range (outside it the
/// saturating subtraction clips the difference first).
pub proof fn lemma_interpolate_curve_end(f1: SpecBoneKeyframe, f2: SpecBoneKeyframe)
    requires
        f1.time.bits < f2.time.bits,
        f2.time.bits - f1.time.bits <= i64::MAX as int,
        !(spec_kf_curve(f1.data) is Stepped),
        spec_kf_value(f2.data).0 - spec_kf_value(f1.data).0 < i64::MAX as int,
        spec_kf_value(f2.data).0 - spec_kf_value(f1.data).0 > i64::MIN as int,
        spec_kf_value(f2.data).1 - spec_kf_value(f1.data).1 < i64::MAX as int,
        spec_kf_value(f2.data).1 - spec_kf_value(f1.data).1 > i64::MIN as int,
    ensures
        spec_interpolate(Some(f1), Some(f2), f2.time.bits as int) == Some(
            spec_kind_modification(f1.data, spec_kf_value(f2.data).0, spec_kf_value(f2.data).1),
        ),
{
    let t1 = f1.time.bits as int;
    let t2 = f2.time.bits as int;
    let span = ssub(t2, t1);
    assert(span == t2 - t1);
    crate::num::lemma_fdivs_self(span);
    let f = fdivs(ssub(t2, t1), span);
    assert(f == SCALE as int);
    let (a_x, a_y) = spec_kf_value(f1.data);
    let (b_x, b_y) = spec_kf_value(f2.data);
    crate::num::lemma_fmul_scale_identity(b_x - a_x);
    crate::num::lemma_fmul_scale_identity(b_y - a_y);
    let c = spec_kf_curve(f1.data);
    match c {
        SpecInterpolation::Bezier(cs) => {
            if cs.len() > 0 {
                assert(spec_bezier_fraction(cs[0], f) == SCALE as int);
            }
            if cs.len() > 1 {
                assert(spec_bezier_fraction(cs[1], f) == SCALE as int);
            }
            assert(spec_channel_value(c, 0, a_x, b_x, f) == b_x);
            assert(spec_channel_value(c, 1, a_y, b_y, f) == b_y);
        },
        _ => {
            assert(spec_channel_value(c, 0, a_x, b_x, f) == b_x);
            assert(spec_channel_value(c, 1, a_y, b_y, f) == b_y);
        },
    }
}

/// Law: between two keyframes, a linear curve evaluated halfway through the
/// time between them returns the midpoint of the two values — exactly their
/// average, rounded toward the earlier value — for ordered non-negative
/// channel values and an even time gap (an odd gap has no whole midpoint
/// instant, and fixed-point truncation breaks the exact average).
pub proof fn lemma_interpolate_linear_midpoint(f1: SpecBoneKeyframe, f2: SpecBoneKeyframe)
    requires
        spec_kf_curve(f1.data) is Linear,
        f1.time.bits < f2.time.bits,
        f2.time.bits - f1.time.bits <= i64::MAX as int,
        (f2.time.bits - f1.time.bits) % 2 == 0,
        0 <= spec_kf_value(f1.data).0 <= spec_kf_value(f2.data).0,
        0 <= spec_kf_value(f1.data).1 <= spec_kf_value(f2.data).1,
    ensures
        spec_interpolate(
            Some(f1),
            Some(f2),
            f1.time.bits as int + (f2.time.bits - f1.time.bits) / 2,
        ) == Some(
            spec_kind_modification(
                f1.data,
                (spec_kf_value(f1.data).0 + spec_kf_value(f2.data).0) / 2,
                (spec_kf_value(f1.data).1 + spec_kf_value(f2.data).1) / 2,
            ),
        ),
{
    let t1 = f1.time.bits as int;
    let t2 = f2.time.bits as int;
    let g = (t2 - t1) / 2;
    vstd::arithmetic::div_mod::lemma_fundamental_div_mod(t2 - t1, 2);
    assert(t2 - t1 == 2 * g);
    let since = t1 + g;
    let span = ssub(t2, t1);
    assert(span == 2 * g);
    assert(ssub(since, t1) == g);
    crate::num::lemma_fdivs_half(g);
    let f = fdivs(ssub(since, t1), span);
    assert(f == (SCALE as int) / 2);
    let (a_x, a_y) = spec_kf_value(f1.data);
    let (b_x, b_y) = spec_kf_value(f2.data);
    crate::num::lemma_fmul_half(b_x - a_x);
    crate::num::lemma_fmul_half(b_y - a_y);
    lemma_int_midpoint(a_x, b_x);
    lemma_int_midpoint(a_y, b_y);
    assert(spec_channel_value(spec_kf_curve(f1.data), 0, a_x, b_x, f) == (a_x + b_x) / 2);
    assert(spec_channel_value(spec_kf_curve(f1.data), 1, a_y, b_y, f) == (a_y + b_y) / 2);
}

/// Stepping halfway up from the smaller value lands on the rounded-down
/// average of the two.
proof fn lemma_int_midpoint(a: int, b: int)
    requires
        0 <= a <= b,
    ensures
        a + (b - a) / 2 == (a + b) / 2,
{
    let d = b - a;
    let q = d / 2;
    let rr = d % 2;
    vstd::arithmetic::div_mod::lemma_fundamental_div_mod(d, 2);
    assert(a + b == 2 * (a + q) + rr);
    vstd::arithmetic::div_mod::lemma_div_multiples_vanish_fancy(a + q, rr, 2);
}

/// The position of the first animation with a name, from `k`.
pub open spec fn spec_find_animation_from(
    anims: Seq<crate::skeleton::animation::SpecAnimation>,
    name: Seq<char>,
    k: int,
) -> Option<int>
    decreases anims.len() - k,
{
    if k < 0 || k >= anims.len() {
        None
    } else if anims[k].name == name {
        Some(k)
    } else {
        spec_find_animation_from(anims, name, k + 1)
    }
}

fn find_animation(anims: &Vec<crate::skeleton::Animation>, name: &String) -> (r: Option<usize>)
    ensures
        r matches Some(k) ==> k < anims@.len() && spec_find_animation_from(anims.deep_view(), name@, 0) == Some(
            k as int,
        ),
        r is None ==> spec_find_animation_from(anims.deep_view(), name@, 0) is None,
{
    let n = anims.len();
    let mut k: usize = 0;
    while k < n
        invariant
            k <= n,
            n == anims@.len(),
            spec_find_animation_from(anims.deep_view(), name@, 0) == spec_find_animation_from(
                anims.deep_view(),
                name@,
                k as int,
            ),
        decreases n - k,
    {
        proof {
            reveal_with_fuel(spec_find_animation_from, 2);
        }
        if anims[k].name == *name {
            return Some(k);
        }
        k = k + 1;
    }
    proof {
        reveal_with_fuel(spec_find_animation_from, 2);
    }
    None
}

/// The combined modification of one animated bone: its timelines applied in
/// order, each onto the previous.
pub open spec fn spec_bone_anim_mod(
    timelines: Seq<crate::skeleton::animation::SpecTimeline>,
    since: int,
    n: int,
) -> BoneModification
    decreases n,
{
    if n <= 0 || n > timelines.len() {
        spec_mod_identity()
    } else {
        spec_mod_apply(
            spec_bone_anim_mod(timelines, since, n - 1),
            spec_timeline_modification(timelines[n - 1].frames, since),
        )
    }
}

/// The animation-driven modification map at time `since`: one entry per
/// animated bone whose index resolves, under the bone's name, in animation
/// order.
pub open spec fn spec_anim_mods_rec(
    sk: crate::skeleton::SpecSkeleton,
    abones: Seq<crate::skeleton::animation::SpecAnimatedBone>,
    since: int,
    n: int,
) -> Seq<(Seq<char>, BoneModification)>
    decreases n,
{
    if n <= 0 || n > abones.len() {
        Seq::empty()
    } else {
        let prev = spec_anim_mods_rec(sk, abones, since, n - 1);
        let ab = abones[n - 1];
        if ab.bone_index < sk.bones.len() {
            prev.push(
                (
                    sk.bones[ab.bone_index as int].name,
                    spec_bone_anim_mod(ab.timelines, since, ab.timelines.len() as int),
                ),
            )
        } else {
            prev
        }
    }
}

/// The animation-driven modification map: empty without an active animation
/// or when no animation carries its name.
pub open spec fn spec_anim_mods(
    sk: crate::skeleton::SpecSkeleton,
    animation: Option<Seq<char>>,
    since: int,
) -> Seq<(Seq<char>, BoneModification)> {
    match animation {
        None => Seq::empty(),
        Some(name) => match spec_find_animation_from(sk.animations, name, 0) {
            None => Seq::empty(),
            Some(ai) => spec_anim_mods_rec(sk, sk.animations[ai].bones, since, sk.animations[ai].bones.len() as int),
        },
    }
}

/// The position of the first skin slot for slot index `idx`, from `k`.
pub open spec fn spec_find_skin_slot_from(
    slots: Seq<crate::skeleton::skin::SpecSkinSlot>,
    idx: usize,
    k: int,
) -> Option<int>
    decreases slots.len() - k,
{
    if k < 0 || k >= slots.len() {
        None
    } else if slots[k].slot == idx {
        Some(k)
    } else {
        spec_find_skin_slot_from(slots, idx, k + 1)
    }
}

/// The position of the first attachment with a name, from `k`.
pub open spec fn spec_find_attachment_from(
    atts: Seq<crate::skeleton::attachment::SpecAttachment>,
    name: Seq<char>,
    k: int,
) -> Option<int>
    decreases atts.len() - k,
{
    if k < 0 || k >= atts.len() {
        None
    } else if atts[k].attachment_name == name {
        Some(k)
    } else {
        spec_find_attachment_from(atts, name, k + 1)
    }
}

/// The position of the first animated slot for slot index `idx`, from `k`.
pub open spec fn spec_find_animated_slot_from(
    aslots: Seq<crate::skeleton::animation::SpecAnimatedSlot>,
    idx: usize,
    k: int,
) -> Option<int>
    decreases aslots.len() - k,
{
    if k < 0 || k >= aslots.len() {
        None
    } else if aslots[k].slot_index == idx {
        Some(k)
    } else {
        spec_find_animated_slot_from(aslots, idx, k + 1)
    }
}

/// The latest attachment switch at or before `since`, scanning the keyframes
/// in order from `k` with `cur` the switch seen so far.
pub open spec fn spec_attachment_override(
    kfs: Seq<crate::skeleton::animation::SpecSlotKeyframe>,
    since: int,
    k: int,
    cur: Option<Option<Seq<char>>>,
) -> Option<Option<Seq<char>>>
    decreases kfs.len() - k,
{
    if k < 0 || k >= kfs.len() {
        cur
    } else {
        let cur2 = match kfs[k] {
            crate::skeleton::animation::SpecSlotKeyframe::Attachment(t, nm) => {
                if t.bits as int <= since {
                    Some(nm)
                } else {
                    cur
                }
            },
            _ => cur,
        };
        spec_attachment_override(kfs, since, k + 1, cur2)
    }
}

/// The attachment name a slot currently shows: the slot's setup attachment,
/// unless the active animation carries an attachment keyframe for the slot
/// at or before `since`, which then replaces it (possibly with nothing).
pub open spec fn spec_active_attachment(
    sk: crate::skeleton::SpecSkeleton,
    anim: Option<Seq<char>>,
    since: int,
    j: int,
) -> Option<Seq<char>> {
    let dflt = if 0 <= j < sk.slots.len() {
        sk.slots[j].attachment
    } else {
        None
    };
    match anim {
        None => dflt,
        Some(nm) => match spec_find_animation_from(sk.animations, nm, 0) {
            None => dflt,
            Some(ai) => match spec_find_animated_slot_from(sk.animations[ai].slots, j as usize, 0) {
                None => dflt,
                Some(si) => match spec_attachment_override(
                    sk.animations[ai].slots[si].keyframes,
                    since,
                    0,
                    None,
                ) {
                    None => dflt,
                    Some(switched) => switched,
                },
            },
        },
    }
}

/// One resolved slot entry: the slot index, its bone, that bone's world
/// state, the skin-slot key and the index of the visible attachment under
/// the active name. `None` when the slot shows nothing — a normal outcome,
/// never an error.
pub open spec fn spec_slot_entry(
    sk: crate::skeleton::SpecSkeleton,
    calculated: Seq<(Seq<char>, BoneState)>,
    j: int,
    active: Option<Seq<char>>,
) -> Option<(usize, usize, BoneState, usize, usize)> {
    let slot = sk.slots[j];
    if slot.bone >= calculated.len() || sk.skins.len() == 0 {
        None
    } else {
        match spec_find_skin_slot_from(sk.skins[0].slots, j as usize, 0) {
            None => None,
            Some(si) => match active {
                None => None,
                Some(name) => match spec_find_attachment_from(sk.skins[0].slots[si].attachments, name, 0) {
                    None => None,
                    Some(ai) => Some(
                        (j as usize, slot.bone, calculated[slot.bone as int].1, j as usize, ai as usize),
                    ),
                },
            },
        }
    }
}

/// The resolved slot entries for the first `n` slots, invisible ones left
/// out.
pub open spec fn spec_pose_slots(
    sk: crate::skeleton::SpecSkeleton,
    calculated: Seq<(Seq<char>, BoneState)>,
    anim: Option<Seq<char>>,
    since: int,
    n: int,
) -> Seq<(usize, usize, BoneState, usize, usize)>
    decreases n,
{
    if n <= 0 || n > sk.slots.len() {
        Seq::empty()
    } else {
        let prev = spec_pose_slots(sk, calculated, anim, since, n - 1);
        match spec_slot_entry(sk, calculated, n - 1, spec_active_attachment(sk, anim, since, n - 1)) {
            None => prev,
            Some(e) => prev.push(e),
        }
    }
}

/// Pose state detached from any skeleton borrow: every operation takes the
/// skeleton as an explicit parameter, so one state can outlive or be swapped
/// across skeleton instances.
#[derive(Debug, Clone, PartialEq)]
pub struct DetachedSkeletonState {
    /// One entry per bone, in bone order: the bone's name and its world state
    /// from the last pose.
    pub calculated_bones: Vec<(String, BoneState)>,
    /// Animation-driven modifications, one per animated bone, under its name.
    pub animation_modifications: Vec<(String, BoneModification)>,
    /// User-driven modifications, under bone names.
    pub user_modifications: Vec<(String, BoneModification)>,
    /// Resolved visible slots from the last pose: slot index, bone index,
    /// the bone's world state, the skin-slot key and the attachment index.
    pub slots: Vec<(usize, usize, BoneState, usize, usize)>,
    /// Bones whose parent-transform mode is not full inheritance, reported by
    /// the last pose; they are posed as if fully inherited.
    pub unsupported_transforms: Vec<usize>,
    /// The current time in seconds.
    pub time: Scalar,
    /// The active animation, if one was selected.
    pub animation: Option<String>,
    /// The reference time the active animation started at.
    pub animation_time: Scalar,
}

impl DetachedSkeletonState {
    pub fn new() -> (r: DetachedSkeletonState)
        ensures
            r.calculated_bones@.len() == 0,
            r.animation_modifications@.len() == 0,
            r.user_modifications@.len() == 0,
            r.slots@.len() == 0,
            r.unsupported_transforms@.len() == 0,
            r.time.bits == 0,
            r.animation is None,
            r.animation_time.bits == 0,
    {
        DetachedSkeletonState {
            calculated_bones: Vec::new(),
            animation_modifications: Vec::new(),
            user_modifications: Vec::new(),
            slots: Vec::new(),
            unsupported_transforms: Vec::new(),
            time: Scalar { bits: 0 },
            animation: None,
            animation_time: Scalar { bits: 0 },
        }
    }

    /// Select the animation to drive the pose, starting it now.
    pub fn animate(&mut self, name: &str)
        ensures
            final(self).animation matches Some(n) && n@ == name@,
            final(self).animation_time == old(self).time,
            final(self).calculated_bones == old(self).calculated_bones,
            final(self).animation_modifications == old(self).animation_modifications,
            final(self).user_modifications == old(self).user_modifications,
            final(self).slots == old(self).slots,
            final(self).time == old(self).time,
    {
        self.animation = Some(name.to_owned());
        self.animation_time = self.time;
    }

    /// Seconds since the active animation's reference frame.
    pub fn since_first_frame(&self) -> (r: Scalar)
        ensures
            r.bits as int == ssub(self.time.bits as int, self.animation_time.bits as int),
    {
        Scalar { bits: sat_sub(self.time.bits, self.animation_time.bits) }
    }

    /// The modification two optional neighbouring keyframes impose at the
    /// current animation time.
    pub fn interpolate(&self, frame_1: Option<&BoneKeyframe>, frame_2: Option<&BoneKeyframe>) -> (r: Option<
        BoneModification,
    >)
        ensures
            r == spec_interpolate(
                match frame_1 {
                    Some(f) => Some(f@),
                    None => None,
                },
                match frame_2 {
                    Some(f) => Some(f@),
                    None => None,
                },
                ssub(self.time.bits as int, self.animation_time.bits as int),
            ),
    {
        let since = self.since_first_frame();
        match frame_1 {
            None => None,
            Some(f1) => match frame_2 {
                None => Some(f1.data.to_bone_modification()),
                Some(f2) => Some(pair_modification(f1, f2, since)),
            },
        }
    }

    /// Rebuild the animation-driven modification map from the active
    /// animation at the current time.
    pub fn calculate_bone_animations(&mut self, project: &crate::project::Project)
        ensures
            final(self).animation_modifications.deep_view() == spec_anim_mods(
                project.skeleton@,
                match old(self).animation {
                    Some(n) => Some(n@),
                    None => None,
                },
                ssub(old(self).time.bits as int, old(self).animation_time.bits as int),
            ),
            final(self).calculated_bones == old(self).calculated_bones,
            final(self).user_modifications == old(self).user_modifications,
            final(self).slots == old(self).slots,
            final(self).time == old(self).time,
            final(self).animation == old(self).animation,
            final(self).animation_time == old(self).animation_time,
            final(self).unsupported_transforms == old(self).unsupported_transforms,
    {
        let since = self.since_first_frame();
        let mut mods: Vec<(String, BoneModification)> = Vec::new();
        let sk = &project.skeleton;
        proof {
            assert(mods.deep_view() =~= Seq::<(Seq<char>, BoneModification)>::empty());
        }
        let name = match &self.animation {
            None => {
                self.animation_modifications = mods;
                return ;
            },
            Some(n) => n,
        };
        let ai = match find_animation(&sk.animations, name) {
            None => {
                self.animation_modifications = mods;
                return ;
            },
            Some(ai) => ai,
        };
        let abones = &sk.animations[ai].bones;
        let n = abones.len();
        let mut k: usize = 0;
        while k < n
            invariant
                k <= n,
                n == abones@.len(),
                abones.deep_view() == sk.animations.deep_view()[ai as int].bones,
                ai < sk.animations@.len(),
                mods.deep_view() == spec_anim_mods_rec(sk@, abones.deep_view(), since.bits as int, k as int),
            decreases n - k,
        {
            let ghost prev = mods.deep_view();
            let ab = &abones[k];
            if ab.bone_index < sk.bones.len() {
                let timelines = &ab.timelines;
                let tn = timelines.len();
                let mut m = BoneModification::identity();
                let mut t: usize = 0;
                while t < tn
                    invariant
                        t <= tn,
                        tn == timelines@.len(),
                        timelines.deep_view() == abones.deep_view()[k as int].timelines,
                        k < abones@.len(),
                        m == spec_bone_anim_mod(timelines.deep_view(), since.bits as int, t as int),
                    decreases tn - t,
                {
                    let tm = timeline_modification(&timelines[t].frames, since);
                    m.apply(&tm);
                    t = t + 1;
                }
                let nm = sk.bones[ab.bone_index].name.clone();
                mods.push((nm, m));
                proof {
                    assert(mods.deep_view() =~= prev.push(
                        (sk@.bones[ab.bone_index as int].name, m),
                    ));
                }
            }
            k = k + 1;
        }
        self.animation_modifications = mods;
    }

    /// Store a user override replacing any earlier one for the bone.
    pub fn bone_rotation(&mut self, bone_name: &str, rotation: Angle)
        ensures
            final(self).user_modifications.deep_view() == spec_set_mod(
                old(self).user_modifications.deep_view(),
                bone_name@,
                (BoneModification {
                    rotation,
                    translation: spec_mod_identity().translation,
                    scale: spec_mod_identity().scale,
                }),
            ),
            final(self).calculated_bones == old(self).calculated_bones,
            final(self).animation_modifications == old(self).animation_modifications,
            final(self).slots == old(self).slots,
            final(self).time == old(self).time,
            final(self).animation == old(self).animation,
            final(self).animation_time == old(self).animation_time,
            final(self).unsupported_transforms == old(self).unsupported_transforms,
    {
        let m = BoneModification::from_rotation(rotation);
        let owned: String = bone_name.to_owned();
        let n = self.user_modifications.len();
        let mut k: usize = 0;
        while k < n
            invariant
                k <= n,
                n == self.user_modifications@.len(),
                owned@ == bone_name@,
                m == (BoneModification {
                    rotation,
                    translation: spec_mod_identity().translation,
                    scale: spec_mod_identity().scale,
                }),
                *self == *old(self),
                forall|j: int| 0 <= j < k ==> #[trigger] self.user_modifications.deep_view()[j].0 != bone_name@,
            decreases n - k,
        {
            if self.user_modifications[k].0 == owned {
                let nm = bone_name.to_owned();
                self.user_modifications.remove(k);
                self.user_modifications.insert(k, (nm, m));
                proof {
                    lemma_set_mod_found(old(self).user_modifications.deep_view(), bone_name@, m, k as int);
                    assert(self.user_modifications.deep_view() =~= old(self).user_modifications.deep_view().update(
                        k as int,
                        (bone_name@, m),
                    ));
                }
                return ;
            }
            k = k + 1;
        }
        let nm = bone_name.to_owned();
        self.user_modifications.push((nm, m));
        proof {
            lemma_set_mod_missing(old(self).user_modifications.deep_view(), bone_name@, m);
            assert(self.user_modifications.deep_view() =~= old(self).user_modifications.deep_view().push(
                (bone_name@, m),
            ));
        }
    }

    /// The world state computed for a bone by the last pose, if the name is
    /// known.
    pub fn bone_state_by_name(&self, bone_name: &str) -> (r: Option<&BoneState>)
        ensures
            r matches Some(s) ==> exists|j: int|
                0 <= j < self.calculated_bones.deep_view().len() && #[trigger] self.calculated_bones.deep_view()[j]
                    == (bone_name@, *s),
            r is None ==> forall|j: int|
                0 <= j < self.calculated_bones.deep_view().len()
                    ==> #[trigger] self.calculated_bones.deep_view()[j].0 != bone_name@,
    {
        let owned: String = bone_name.to_owned();
        let n = self.calculated_bones.len();
        let mut k: usize = 0;
        while k < n
            invariant
                k <= n,
                n == self.calculated_bones@.len(),
                owned@ == bone_name@,
                forall|j: int| 0 <= j < k ==> #[trigger] self.calculated_bones.deep_view()[j].0 != bone_name@,
            decreases n - k,
        {
            if self.calculated_bones[k].0 == owned {
                proof {
                    assert(self.calculated_bones.deep_view()[k as int] == (
                        bone_name@,
                        self.calculated_bones@[k as int].1,
                    ));
                }
                return Some(&self.calculated_bones[k].1);
            }
            k = k + 1;
        }
        None
    }

    /// The world state computed for a bone by the last pose.
    pub fn bone(&self, bone_name: &str) -> (r: Option<&BoneState>)
        ensures
            r matches Some(s) ==> exists|j: int|
                0 <= j < self.calculated_bones.deep_view().len() && #[trigger] self.calculated_bones.deep_view()[j]
                    == (bone_name@, *s),
            r is None ==> forall|j: int|
                0 <= j < self.calculated_bones.deep_view().len()
                    ==> #[trigger] self.calculated_bones.deep_view()[j].0 != bone_name@,
    {
        self.bone_state_by_name(bone_name)
    }

    /// Compute world states for every bone and resolve the visible slot
    /// attachments: one pass of the pose state machine.
    pub fn pose(&mut self, skeleton: &Skeleton)
        ensures
            final(self).calculated_bones.deep_view() == spec_calculated_bones(
                skeleton@,
                old(self).animation_modifications.deep_view(),
                old(self).user_modifications.deep_view(),
            ),
            final(self).slots@ == spec_pose_slots(
                skeleton@,
                spec_calculated_bones(
                    skeleton@,
                    old(self).animation_modifications.deep_view(),
                    old(self).user_modifications.deep_view(),
                ),
                match old(self).animation {
                    Some(n) => Some(n@),
                    None => None,
                },
                ssub(old(self).time.bits as int, old(self).animation_time.bits as int),
                skeleton@.slots.len() as int,
            ),
            final(self).unsupported_transforms@ == spec_unsupported_transforms(
                skeleton@,
                skeleton@.bones.len() as int,
            ),
            final(self).animation_modifications == old(self).animation_modifications,
            final(self).user_modifications == old(self).user_modifications,
            final(self).time == old(self).time,
            final(self).animation == old(self).animation,
            final(self).animation_time == old(self).animation_time,
    {
        let n = skeleton.bones.len();
        let mut calculated: Vec<(String, BoneState)> = Vec::new();
        let mut unsupported: Vec<usize> = Vec::new();
        let ghost cbs = spec_calculated_bones(
            skeleton@,
            self.animation_modifications.deep_view(),
            self.user_modifications.deep_view(),
        );
        proof {
            assert(calculated.deep_view() =~= cbs.subrange(0, 0));
            assert(unsupported@ =~= spec_unsupported_transforms(skeleton@, 0));
        }
        let mut i: usize = 0;
        while i < n
            invariant
                i <= n,
                n == skeleton.bones@.len(),
                cbs == spec_calculated_bones(
                    skeleton@,
                    self.animation_modifications.deep_view(),
                    self.user_modifications.deep_view(),
                ),
                cbs.len() == n,
                calculated@.len() == i as int,
                calculated.deep_view() == cbs.subrange(0, i as int),
                unsupported@ == spec_unsupported_transforms(skeleton@, i as int),
                *self == *old(self),
            decreases n - i,
        {
            let ghost prev = calculated.deep_view();
            let bone = &skeleton.bones[i];
            let ma = find_mod(&self.animation_modifications, &bone.name);
            let mu = find_mod(&self.user_modifications, &bone.name);
            let rot = sat_add(
                sat_add(bone.rotation.bits, ma.rotation.to_degrees().bits),
                mu.rotation.to_degrees().bits,
            );
            let pos = bone.position.add(ma.translation).add(mu.translation);
            let scale = bone.scale.mul(ma.scale).mul(mu.scale);
            let local = Affine::from_scale_rotation_translation(scale, Scalar { bits: rot }, pos);
            let parent: BoneState = match bone.parent {
                Some(p) => {
                    if p < i {
                        let ps = calculated[p].1;
                        proof {
                            assert(calculated.deep_view()[p as int] == cbs[p as int]);
                            assert(cbs[p as int] == (
                                skeleton@.bones[p as int].name,
                                spec_world_state(
                                    skeleton@,
                                    self.animation_modifications.deep_view(),
                                    self.user_modifications.deep_view(),
                                    p as int,
                                ),
                            ));
                        }
                        ps
                    } else {
                        BoneState { affinity: Affine::identity(), rotation: Scalar { bits: 0 } }
                    }
                },
                None => BoneState { affinity: Affine::identity(), rotation: Scalar { bits: 0 } },
            };
            let state = BoneState {
                affinity: parent.affinity.compose(&local),
                rotation: Scalar { bits: sat_add(parent.rotation.bits, rot) },
            };
            proof {
                let amdv = self.animation_modifications.deep_view();
                let umdv = self.user_modifications.deep_view();
                let sb = skeleton@.bones[i as int];
                assert(local == spec_local_state(sb, amdv, umdv).0);
                assert(state == spec_world_state(
                    skeleton@,
                    self.animation_modifications.deep_view(),
                    self.user_modifications.deep_view(),
                    i as int,
                ));
            }
            let nm = bone.name.clone();
            calculated.push((nm, state));
            proof {
                assert(calculated.deep_view() =~= prev.push((skeleton@.bones[i as int].name, state)));
                assert(calculated.deep_view() =~= cbs.subrange(0, i as int + 1));
            }
            match bone.transform {
                crate::skeleton::ParentTransform::Normal => {},
                _ => {
                    unsupported.push(i);
                },
            }
            i = i + 1;
        }
        proof {
            assert(calculated.deep_view() =~= cbs);
        }
        let since = self.since_first_frame();
        let sn = skeleton.slots.len();
        let mut entries: Vec<(usize, usize, BoneState, usize, usize)> = Vec::new();
        let ghost anim_name = match &self.animation {
            Some(n) => Some(n@),
            None => None,
        };
        proof {
            assert(entries@ =~= spec_pose_slots(skeleton@, cbs, anim_name, since.bits as int, 0));
        }
        let mut j: usize = 0;
        while j < sn
            invariant
                j <= sn,
                sn == skeleton.slots@.len(),
                cbs == calculated.deep_view(),
                calculated@.len() == skeleton.bones@.len(),
                *self == *old(self),
                anim_name == (match &self.animation {
                    Some(n) => Some(n@),
                    None => None,
                }),
                since.bits as int == ssub(self.time.bits as int, self.animation_time.bits as int),
                entries@ == spec_pose_slots(skeleton@, cbs, anim_name, since.bits as int, j as int),
            decreases sn - j,
        {
            let ghost prev = entries@;
            let active = active_attachment(skeleton, &self.animation, since, j);
            let entry = slot_entry(skeleton, &calculated, j, &active);
            match entry {
                Some(e) => {
                    entries.push(e);
                    proof {
                        assert(entries@ =~= prev.push(e));
                    }
                },
                None => {},
            }
            j = j + 1;
        }
        self.calculated_bones = calculated;
        self.slots = entries;
        self.unsupported_transforms = unsupported;
    }
}

/// The animation reference time after an update to `time`: reset to `time`
/// once more than one second has passed since the reference frame.
pub open spec fn spec_reset_time(time: Scalar, at: Scalar) -> Scalar {
    if ssub(time.bits as int, at.bits as int) > SCALE as int {
        time
    } else {
        at
    }
}

impl DetachedSkeletonState {
    /// Advance to `time`, re-evaluate the active animation and pose.
    pub fn update(&mut self, project: &crate::project::Project, time: Scalar)
        ensures
            final(self).time == time,
            final(self).animation_time == spec_reset_time(time, old(self).animation_time),
            final(self).animation == old(self).animation,
            final(self).user_modifications == old(self).user_modifications,
            final(self).animation_modifications.deep_view() == spec_anim_mods(
                project.skeleton@,
                match old(self).animation {
                    Some(n) => Some(n@),
                    None => None,
                },
                ssub(time.bits as int, spec_reset_time(time, old(self).animation_time).bits as int),
            ),
            final(self).calculated_bones.deep_view() == spec_calculated_bones(
                project.skeleton@,
                final(self).animation_modifications.deep_view(),
                old(self).user_modifications.deep_view(),
            ),
            final(self).slots@ == spec_pose_slots(
                project.skeleton@,
                final(self).calculated_bones.deep_view(),
                match old(self).animation {
                    Some(n) => Some(n@),
                    None => None,
                },
                ssub(time.bits as int, spec_reset_time(time, old(self).animation_time).bits as int),
                project.skeleton@.slots.len() as int,
            ),
    {
        self.time = time;
        if sat_sub(self.time.bits, self.animation_time.bits) > SCALE {
            self.animation_time = self.time;
        }
        self.calculate_bone_animations(project);
        self.pose(&project.skeleton);
    }

    /// Resolve the visible slots of the last pose against the first atlas
    /// page: each visible slot paired with its atlas region index and its
    /// full world transform.
    pub fn slots(&self, project: &crate::project::Project) -> (r: Vec<SlotInfo>)
        ensures
            r@ == spec_slots_info(project.skeleton@, project.atlas@, self.slots@, self.slots@.len() as int),
    {
        let mut out: Vec<SlotInfo> = Vec::new();
        let n = self.slots.len();
        let mut k: usize = 0;
        proof {
            assert(out@ =~= spec_slots_info(project.skeleton@, project.atlas@, self.slots@, 0));
        }
        while k < n
            invariant
                k <= n,
                n == self.slots@.len(),
                out@ == spec_slots_info(project.skeleton@, project.atlas@, self.slots@, k as int),
            decreases n - k,
        {
            let ghost prev = out@;
            let entry = self.slots[k];
            match slot_info(&project.skeleton, &project.atlas, entry) {
                Some(info) => {
                    out.push(info);
                    proof {
                        assert(out@ =~= prev.push(info));
                    }
                },
                None => {},
            }
            k = k + 1;
        }
        out
    }

    /// Compute world states and resolved slots as a read-only snapshot,
    /// leaving this state unchanged: the pose pass as a function.
    pub fn posed_bones(&self, skeleton: &Skeleton) -> (r: Vec<(String, BoneState)>)
        ensures
            r.deep_view() == spec_calculated_bones(
                skeleton@,
                self.animation_modifications.deep_view(),
                self.user_modifications.deep_view(),
            ),
    {
        let mut copy = DetachedSkeletonState {
            calculated_bones: Vec::new(),
            animation_modifications: clone_mods(&self.animation_modifications),
            user_modifications: clone_mods(&self.user_modifications),
            slots: Vec::new(),
            unsupported_transforms: Vec::new(),
            time: self.time,
            animation: None,
            animation_time: self.animation_time,
        };
        copy.pose(skeleton);
        let r = copy.calculated_bones;
        r
    }
}

/// Copy a modification map, keeping its mathematical value.
fn clone_mods(v: &Vec<(String, BoneModification)>) -> (r: Vec<(String, BoneModification)>)
    ensures
        r.deep_view() == v.deep_view(),
{
    let mut r: Vec<(String, BoneModification)> = Vec::new();
    let n = v.len();
    let mut k: usize = 0;
    proof {
        assert(r.deep_view() =~= v.deep_view().subrange(0, 0));
    }
    while k < n
        invariant
            k <= n,
            n == v@.len(),
            r@.len() == k as int,
            r.deep_view() == v.deep_view().subrange(0, k as int),
        decreases n - k,
    {
        let ghost prev = r.deep_view();
        let nm = v[k].0.clone();
        let m = v[k].1;
        r.push((nm, m));
        proof {
            assert(r.deep_view() =~= prev.push(v.deep_view()[k as int]));
            assert(r.deep_view() =~= v.deep_view().subrange(0, k as int + 1));
        }
        k = k + 1;
    }
    proof {
        assert(r.deep_view() =~= v.deep_view());
    }
    r
}

/// One slot of a rendered pose: indices into the skeleton's slot, bone and
/// skin tables and the atlas page, with the attachment's full world map and
/// its stacking depth.
#[derive(Debug, Clone, Copy, PartialEq, Eq, Structural)]
pub struct SlotInfo {
    /// The slot index.
    pub slot: usize,
    /// The bone the slot is attached to.
    pub bone: usize,
    /// That bone's world state.
    pub bone_state: BoneState,
    /// The skin-slot key the attachment was found under.
    pub skin_slot: usize,
    /// The index of the attachment within the skin slot.
    pub attachment: usize,
    /// The index of the matching region in the first atlas page.
    pub atlas_index: usize,
    /// The attachment's world map: the bone's map composed with the region
    /// offset and the inverse of the atlas packing rotation.
    pub affinity: Affine,
    /// Stacking depth: slots later in the list draw in front.
    pub z: Scalar,
}

/// The position of the first atlas region with a name, from `k`.
pub open spec fn spec_find_region_from(
    regions: Seq<crate::atlas::SpecAtlasRegion>,
    name: Seq<char>,
    k: int,
) -> Option<int>
    decreases regions.len() - k,
{
    if k < 0 || k >= regions.len() {
        None
    } else if regions[k].name == name {
        Some(k)
    } else {
        spec_find_region_from(regions, name, k + 1)
    }
}

/// The rendered form of one resolved slot entry: present only when the
/// attachment is a textured region whose name the first atlas page carries.
pub open spec fn spec_slot_info(
    sk: crate::skeleton::SpecSkeleton,
    atlas: crate::atlas::SpecAtlas,
    entry: (usize, usize, BoneState, usize, usize),
) -> Option<SlotInfo> {
    let (slot_id, bone_id, bone_state, skin_slot_key, attachment_id) = entry;
    if sk.skins.len() == 0 || atlas.pages.len() == 0 {
        None
    } else {
        match spec_find_skin_slot_from(sk.skins[0].slots, skin_slot_key, 0) {
            None => None,
            Some(si) => {
                if attachment_id >= sk.skins[0].slots[si].attachments.len() {
                    None
                } else {
                    let att = sk.skins[0].slots[si].attachments[attachment_id as int];
                    match spec_find_region_from(atlas.pages[0].regions, att.placeholder_name, 0) {
                        None => None,
                        Some(ri) => match att.data {
                            crate::skeleton::attachment::SpecAttachmentData::Region(region) => {
                                let region_map = spec_affine_srt(
                                    region.scale,
                                    region.rotation.bits as int,
                                    region.position,
                                );
                                let unpack = spec_affine_srt(
                                    Vec2 { x: Scalar { bits: SCALE as i64 }, y: Scalar { bits: SCALE as i64 } },
                                    ssub(0, atlas.pages[0].regions[ri].rotate.bits as int),
                                    Vec2 { x: Scalar { bits: 0 }, y: Scalar { bits: 0 } },
                                );
                                Some(
                                    SlotInfo {
                                        slot: slot_id,
                                        bone: bone_id,
                                        bone_state,
                                        skin_slot: skin_slot_key,
                                        attachment: attachment_id,
                                        atlas_index: ri as usize,
                                        affinity: spec_affine_compose(
                                            spec_affine_compose(bone_state.affinity, region_map),
                                            unpack,
                                        ),
                                        z: Scalar {
                                            bits: sadd(
                                                -10 * (SCALE as int),
                                                crate::num::muldiv_spec((slot_id as i64) as int, SCALE as int, 100),
                                            ) as i64,
                                        },
                                    },
                                )
                            },
                            _ => None,
                        },
                    }
                }
            },
        }
    }
}

/// The rendered forms of the first `n` resolved slot entries.
pub open spec fn spec_slots_info(
    sk: crate::skeleton::SpecSkeleton,
    atlas: crate::atlas::SpecAtlas,
    entries: Seq<(usize, usize, BoneState, usize, usize)>,
    n: int,
) -> Seq<SlotInfo>
    decreases n,
{
    if n <= 0 || n > entries.len() {
        Seq::empty()
    } else {
        let prev = spec_slots_info(sk, atlas, entries, n - 1);
        match spec_slot_info(sk, atlas, entries[n - 1]) {
            None => prev,
            Some(e) => prev.push(e),
        }
    }
}

/// Find the first atlas region with a name.
fn find_region(regions: &Vec<crate::atlas::AtlasRegion>, name: &String) -> (r: Option<usize>)
    ensures
        r matches Some(k) ==> k < regions@.len() && spec_find_region_from(regions.deep_view(), name@, 0) == Some(
            k as int,
        ),
        r is None ==> spec_find_region_from(regions.deep_view(), name@, 0) is None,
{
    let n = regions.len();
    let mut k: usize = 0;
    while k < n
        invariant
            k <= n,
            n == regions@.len(),
            spec_find_region_from(regions.deep_view(), name@, 0) == spec_find_region_from(
                regions.deep_view(),
                name@,
                k as int,
            ),
        decreases n - k,
    {
        proof {
            reveal_with_fuel(spec_find_region_from, 2);
        }
        if regions[k].name == *name {
            return Some(k);
        }
        k = k + 1;
    }
    proof {
        reveal_with_fuel(spec_find_region_from, 2);
    }
    None
}

/// Render one resolved slot entry against the first atlas page.
fn slot_info(
    skeleton: &Skeleton,
    atlas: &crate::atlas::Atlas,
    entry: (usize, usize, BoneState, usize, usize),
) -> (r: Option<SlotInfo>)
    ensures
        r == spec_slot_info(skeleton@, atlas@, entry),
{
    let (slot_id, bone_id, bone_state, skin_slot_key, attachment_id) = entry;
    if skeleton.skins.len() == 0 || atlas.pages.len() == 0 {
        return None;
    }
    let si = match find_skin_slot(&skeleton.skins[0].slots, skin_slot_key) {
        Some(si) => si,
        None => {
            return None;
        },
    };
    if !(attachment_id < skeleton.skins[0].slots[si].attachments.len()) {
        return None;
    }
    let att = &skeleton.skins[0].slots[si].attachments[attachment_id];
    let ri = match find_region(&atlas.pages[0].regions, &att.placeholder_name) {
        Some(ri) => ri,
        None => {
            return None;
        },
    };
    match &att.data {
        crate::skeleton::AttachmentData::Region(region) => {
            let region_map = Affine::from_scale_rotation_translation(region.scale, region.rotation, region.position);
            let unpack = Affine::from_scale_rotation_translation(
                Vec2::one(),
                Scalar { bits: sat_sub(0, atlas.pages[0].regions[ri].rotate.bits) },
                Vec2::zero(),
            );
            let affinity = bone_state.affinity.compose(&region_map).compose(&unpack);
            let z = Scalar { bits: sat_add(-10 * SCALE, muldiv(slot_id as i64, SCALE, 100)) };
            Some(
                SlotInfo {
                    slot: slot_id,
                    bone: bone_id,
                    bone_state,
                    skin_slot: skin_slot_key,
                    attachment: attachment_id,
                    atlas_index: ri,
                    affinity,
                    z,
                },
            )
        },
        _ => None,
    }
}

/// Law: posing is a pure function of the skeleton and the stored modification
/// maps: equal inputs yield identical transforms and identical visible slots.
pub proof fn lemma_pose_pure(
    sk: crate::skeleton::SpecSkeleton,
    am1: Seq<(Seq<char>, BoneModification)>,
    um1: Seq<(Seq<char>, BoneModification)>,
    am2: Seq<(Seq<char>, BoneModification)>,
    um2: Seq<(Seq<char>, BoneModification)>,
)
    requires
        am1 == am2,
        um1 == um2,
    ensures
        spec_calculated_bones(sk, am1, um1) == spec_calculated_bones(sk, am2, um2),
        forall|anim: Option<Seq<char>>, since: int|
            #[trigger] spec_pose_slots(sk, spec_calculated_bones(sk, am1, um1), anim, since, sk.slots.len() as int)
                == spec_pose_slots(sk, spec_calculated_bones(sk, am2, um2), anim, since, sk.slots.len() as int),
{
}

/// Law: a slot whose active attachment name has no match in the active skin
/// resolves to "not visible" — its entry is left out, and no error arises.
pub proof fn lemma_unmatched_attachment_not_visible(
    sk: crate::skeleton::SpecSkeleton,
    calculated: Seq<(Seq<char>, BoneState)>,
    j: int,
    active: Option<Seq<char>>,
)
    requires
        0 <= j < sk.slots.len(),
        sk.skins.len() > 0,
        active matches Some(name) ==> spec_find_skin_slot_from(sk.skins[0].slots, j as usize, 0) matches Some(si)
            ==> spec_find_attachment_from(sk.skins[0].slots[si].attachments, name, 0) is None,
    ensures
        spec_slot_entry(sk, calculated, j, active) is None,
{
}

/// Pose state bound to a borrowed skeleton, for callers that keep the
/// skeleton alive alongside the state.
#[derive(Debug, Clone)]
pub struct SkeletonState<'a> {
    pub skeleton: &'a Skeleton,
    pub internal: DetachedSkeletonState,
}

impl<'a> SkeletonState<'a> {
    pub fn new(skeleton: &'a Skeleton) -> (r: SkeletonState<'a>)
        ensures
            r.skeleton == skeleton,
            r.internal.animation_modifications@.len() == 0,
            r.internal.user_modifications@.len() == 0,
            r.internal.animation is None,
    {
        SkeletonState { skeleton, internal: DetachedSkeletonState::new() }
    }

    /// Compute world states and resolved slots for the bound skeleton.
    pub fn pose(&mut self)
        ensures
            final(self).skeleton == old(self).skeleton,
            final(self).internal.calculated_bones.deep_view() == spec_calculated_bones(
                old(self).skeleton@,
                old(self).internal.animation_modifications.deep_view(),
                old(self).internal.user_modifications.deep_view(),
            ),
            final(self).internal.slots@ == spec_pose_slots(
                old(self).skeleton@,
                final(self).internal.calculated_bones.deep_view(),
                match old(self).internal.animation {
                    Some(n) => Some(n@),
                    None => None,
                },
                ssub(old(self).internal.time.bits as int, old(self).internal.animation_time.bits as int),
                old(self).skeleton@.slots.len() as int,
            ),
            final(self).internal.unsupported_transforms@ == spec_unsupported_transforms(
                old(self).skeleton@,
                old(self).skeleton@.bones.len() as int,
            ),
            final(self).internal.animation_modifications == old(self).internal.animation_modifications,
            final(self).internal.user_modifications == old(self).internal.user_modifications,
            final(self).internal.time == old(self).internal.time,
            final(self).internal.animation == old(self).internal.animation,
            final(self).internal.animation_time == old(self).internal.animation_time,
    {
        self.internal.pose(self.skeleton)
    }

    /// The world state computed for a bone by the last pose.
    pub fn bone(&self, bone_name: &str) -> (r: Option<&BoneState>)
        ensures
            r matches Some(s) ==> exists|j: int|
                0 <= j < self.internal.calculated_bones.deep_view().len()
                    && #[trigger] self.internal.calculated_bones.deep_view()[j] == (bone_name@, *s),
            r is None ==> forall|j: int|
                0 <= j < self.internal.calculated_bones.deep_view().len()
                    ==> #[trigger] self.internal.calculated_bones.deep_view()[j].0 != bone_name@,
    {
        self.internal.bone(bone_name)
    }

    /// Store a user rotation override for a bone.
    pub fn bone_rotation(&mut self, bone_name: &str, angle: Angle)
        ensures
            final(self).skeleton == old(self).skeleton,
            final(self).internal.user_modifications.deep_view() == spec_set_mod(
                old(self).internal.user_modifications.deep_view(),
                bone_name@,
                (BoneModification {
                    rotation: angle,
                    translation: spec_mod_identity().translation,
                    scale: spec_mod_identity().scale,
                }),
            ),
            final(self).internal.calculated_bones == old(self).internal.calculated_bones,
            final(self).internal.animation_modifications == old(self).internal.animation_modifications,
            final(self).internal.slots == old(self).internal.slots,
            final(self).internal.unsupported_transforms == old(self).internal.unsupported_transforms,
            final(self).internal.time == old(self).internal.time,
            final(self).internal.animation == old(self).internal.animation,
            final(self).internal.animation_time == old(self).internal.animation_time,
    {
        self.internal.bone_rotation(bone_name, angle)
    }
}

/// Resolve one slot against the default skin and the computed bone states,
/// under the attachment name currently active for it.
fn slot_entry(
    skeleton: &Skeleton,
    calculated: &Vec<(String, BoneState)>,
    j: usize,
    active: &Option<String>,
) -> (r: Option<(usize, usize, BoneState, usize, usize)>)
    requires
        j < skeleton.slots@.len(),
    ensures
        r == spec_slot_entry(
            skeleton@,
            calculated.deep_view(),
            j as int,
            match active {
                Some(nm) => Some(nm@),
                None => None,
            },
        ),
{
    let slot = &skeleton.slots[j];
    if !(slot.bone < calculated.len()) || skeleton.skins.len() == 0 {
        return None;
    }
    let skin = &skeleton.skins[0];
    let si = match find_skin_slot(&skin.slots, j) {
        Some(si) => si,
        None => {
            return None;
        },
    };
    let name = match active {
        Some(nm) => nm,
        None => {
            return None;
        },
    };
    match find_attachment(&skin.slots[si].attachments, name) {
        Some(ai) => Some((j, slot.bone, calculated[slot.bone].1, j, ai)),
        None => None,
    }
}

/// The attachment name currently active for a slot: the setup attachment,
/// possibly switched by the active animation's latest attachment keyframe.
fn active_attachment(skeleton: &Skeleton, anim: &Option<String>, since: Scalar, j: usize) -> (r: Option<String>)
    requires
        j < skeleton.slots@.len(),
    ensures
        (match r {
            Some(nm) => Some(nm@),
            None => None::<Seq<char>>,
        }) == spec_active_attachment(
            skeleton@,
            match anim {
                Some(n) => Some(n@),
                None => None,
            },
            since.bits as int,
            j as int,
        ),
{
    let dflt = clone_opt_name(&skeleton.slots[j].attachment);
    let nm = match anim {
        Some(nm) => nm,
        None => {
            return dflt;
        },
    };
    let ai = match find_animation(&skeleton.animations, nm) {
        Some(ai) => ai,
        None => {
            return dflt;
        },
    };
    let si = match find_animated_slot(&skeleton.animations[ai].slots, j) {
        Some(si) => si,
        None => {
            return dflt;
        },
    };
    match attachment_override(&skeleton.animations[ai].slots[si].keyframes, since) {
        Some(switched) => switched,
        None => dflt,
    }
}

/// Copy an optional attachment name.
fn clone_opt_name(v: &Option<String>) -> (r: Option<String>)
    ensures
        (match r {
            Some(nm) => Some(nm@),
            None => None::<Seq<char>>,
        }) == (match v {
            Some(nm) => Some(nm@),
            None => None::<Seq<char>>,
        }),
{
    match v {
        Some(nm) => Some(nm.clone()),
        None => None,
    }
}

/// Find the first animated slot for a slot index.
fn find_animated_slot(aslots: &Vec<crate::skeleton::AnimatedSlot>, j: usize) -> (r: Option<usize>)
    ensures
        r matches Some(k) ==> k < aslots@.len() && spec_find_animated_slot_from(aslots.deep_view(), j, 0) == Some(
            k as int,
        ),
        r is None ==> spec_find_animated_slot_from(aslots.deep_view(), j, 0) is None,
{
    let n = aslots.len();
    let mut k: usize = 0;
    while k < n
        invariant
            k <= n,
            n == aslots@.len(),
            spec_find_animated_slot_from(aslots.deep_view(), j, 0) == spec_find_animated_slot_from(
                aslots.deep_view(),
                j,
                k as int,
            ),
        decreases n - k,
    {
        proof {
            reveal_with_fuel(spec_find_animated_slot_from, 2);
        }
        if aslots[k].slot_index == j {
            return Some(k);
        }
        k = k + 1;
    }
    proof {
        reveal_with_fuel(spec_find_animated_slot_from, 2);
    }
    None
}

/// The latest attachment switch at or before `since` among a slot's
/// keyframes.
fn attachment_override(kfs: &Vec<crate::skeleton::SlotKeyframe>, since: Scalar) -> (r: Option<Option<String>>)
    ensures
        (match r {
            Some(Some(nm)) => Some(Some(nm@)),
            Some(None) => Some(None::<Seq<char>>),
            None => None::<Option<Seq<char>>>,
        }) == spec_attachment_override(kfs.deep_view(), since.bits as int, 0, None),
{
    let n = kfs.len();
    let mut cur: Option<Option<String>> = None;
    let mut k: usize = 0;
    while k < n
        invariant
            k <= n,
            n == kfs@.len(),
            spec_attachment_override(kfs.deep_view(), since.bits as int, 0, None) == spec_attachment_override(
                kfs.deep_view(),
                since.bits as int,
                k as int,
                (match cur {
                    Some(Some(nm)) => Some(Some(nm@)),
                    Some(None) => Some(None::<Seq<char>>),
                    None => None::<Option<Seq<char>>>,
                }),
            ),
        decreases n - k,
    {
        proof {
            reveal_with_fuel(spec_attachment_override, 2);
        }
        match &kfs[k] {
            crate::skeleton::SlotKeyframe::Attachment(t, nm) => {
                if t.bits <= since.bits {
                    cur = Some(clone_opt_name(nm));
                }
            },
            _ => {},
        }
        k = k + 1;
    }
    proof {
        reveal_with_fuel(spec_attachment_override, 2);
    }
    cur
}

/// Find the first skin slot for a slot index.
fn find_skin_slot(sslots: &Vec<crate::skeleton::SkinSlot>, j: usize) -> (r: Option<usize>)
    ensures
        r matches Some(k) ==> k < sslots@.len() && spec_find_skin_slot_from(sslots.deep_view(), j, 0) == Some(k as int),
        r is None ==> spec_find_skin_slot_from(sslots.deep_view(), j, 0) is None,
{
    let sn = sslots.len();
    let mut k: usize = 0;
    while k < sn
        invariant
            k <= sn,
            sn == sslots@.len(),
            spec_find_skin_slot_from(sslots.deep_view(), j, 0) == spec_find_skin_slot_from(
                sslots.deep_view(),
                j,
                k as int,
            ),
        decreases sn - k,
    {
        proof {
            reveal_with_fuel(spec_find_skin_slot_from, 2);
        }
        if sslots[k].slot == j {
            return Some(k);
        }
        k = k + 1;
    }
    proof {
        reveal_with_fuel(spec_find_skin_slot_from, 2);
    }
    None
}

/// Find the first attachment with a name.
fn find_attachment(atts: &Vec<crate::skeleton::Attachment>, name: &String) -> (r: Option<usize>)
    ensures
        r matches Some(k) ==> k < atts@.len() && spec_find_attachment_from(atts.deep_view(), name@, 0) == Some(
            k as int,
        ),
        r is None ==> spec_find_attachment_from(atts.deep_view(), name@, 0) is None,
{
    let an = atts.len();
    let mut a: usize = 0;
    while a < an
        invariant
            a <= an,
            an == atts@.len(),
            spec_find_attachment_from(atts.deep_view(), name@, 0) == spec_find_attachment_from(
                atts.deep_view(),
                name@,
                a as int,
            ),
        decreases an - a,
    {
        proof {
            reveal_with_fuel(spec_find_attachment_from, 2);
        }
        if atts[a].attachment_name == *name {
            return Some(a);
        }
        a = a + 1;
    }
    proof {
        reveal_with_fuel(spec_find_attachment_from, 2);
    }
    None
}

/// The modification map with the entry for `name` replaced, or appended when
/// no entry carries the name.
pub open spec fn spec_set_mod(
    mods: Seq<(Seq<char>, BoneModification)>,
    name: Seq<char>,
    m: BoneModification,
) -> Seq<(Seq<char>, BoneModification)> {
    match spec_find_index_of_mod(mods, name, 0) {
        Some(k) => mods.update(k, (name, m)),
        None => mods.push((name, m)),
    }
}

/// The position of the first modification stored under `name`, from `k`.
pub open spec fn spec_find_index_of_mod(
    mods: Seq<(Seq<char>, BoneModification)>,
    name: Seq<char>,
    k: int,
) -> Option<int>
    decreases mods.len() - k,
{
    if k < 0 || k >= mods.len() {
        None
    } else if mods[k].0 == name {
        Some(k)
    } else {
        spec_find_index_of_mod(mods, name, k + 1)
    }
}

proof fn lemma_find_index_from(mods: Seq<(Seq<char>, BoneModification)>, name: Seq<char>, k: int)
    requires
        0 <= k <= mods.len(),
        forall|j: int| 0 <= j < k ==> #[trigger] mods[j].0 != name,
    ensures
        spec_find_index_of_mod(mods, name, 0) == spec_find_index_of_mod(mods, name, k),
    decreases k,
{
    if k > 0 {
        lemma_find_index_from(mods, name, k - 1);
        reveal_with_fuel(spec_find_index_of_mod, 2);
        lemma_find_index_tail(mods, name, k - 1);
    }
}

proof fn lemma_find_index_tail(mods: Seq<(Seq<char>, BoneModification)>, name: Seq<char>, k: int)
    requires
        0 <= k < mods.len(),
        mods[k].0 != name,
    ensures
        spec_find_index_of_mod(mods, name, k) == spec_find_index_of_mod(mods, name, k + 1),
{
    reveal_with_fuel(spec_find_index_of_mod, 2);
}

proof fn lemma_set_mod_found(mods: Seq<(Seq<char>, BoneModification)>, name: Seq<char>, m: BoneModification, k: int)
    requires
        0 <= k < mods.len(),
        mods[k].0 == name,
        forall|j: int| 0 <= j < k ==> #[trigger] mods[j].0 != name,
    ensures
        spec_set_mod(mods, name, m) =~= mods.update(k, (name, m)),
{
    lemma_find_index_from(mods, name, k);
    reveal_with_fuel(spec_find_index_of_mod, 2);
}

proof fn lemma_set_mod_missing(mods: Seq<(Seq<char>, BoneModification)>, name: Seq<char>, m: BoneModification)
    requires
        forall|j: int| 0 <= j < mods.len() ==> #[trigger] mods[j].0 != name,
    ensures
        spec_set_mod(mods, name, m) =~= mods.push((name, m)),
{
    lemma_find_index_from(mods, name, mods.len() as int);
    reveal_with_fuel(spec_find_index_of_mod, 2);
}

} // verus!
