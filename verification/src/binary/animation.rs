//! Decoding the animation section of the binary format.
use vstd::prelude::*;
use crate::binary::{rd_bend, rd_bool, rd_byte, rd_col, rd_float, rd_str, rd_str_opt, rd_str_table_opt, rd_varint,
    rd_varint_signed, rd_vec2, sp_bad, sp_bend, sp_bool, sp_byte, sp_col, sp_float, sp_str, sp_str_opt,
    sp_str_table_opt, sp_varint, sp_varint_signed, sp_vec2};
use crate::num::Scalar;
use crate::skeleton::animation::{AnimatedBone, AnimatedSlot, Animation, Bezier, BoneKeyframe, BoneKeyframeData,
    Interpolation, SlotKeyframe, SpecAnimatedBone, SpecAnimatedSlot, SpecAnimation, SpecBoneKeyframe,
    SpecBoneKeyframeData, SpecInterpolation, SpecSlotKeyframe, SpecTimeline, Timeline};
use crate::{Angle, DecodeError, DecodeKind, Field, SpinalError};

verus! {

/// One cubic Bezier: two control points, four floats.
pub open spec fn sp_bezier(b: Seq<u8>, pos: usize) -> Result<(Bezier, usize), SpinalError> {
    match sp_float(b, pos, Field::CurveTag) {
        Err(e) => Err(e),
        Ok((cx1, p1)) => match sp_float(b, p1, Field::CurveTag) {
            Err(e) => Err(e),
            Ok((cy1, p2)) => match sp_float(b, p2, Field::CurveTag) {
                Err(e) => Err(e),
                Ok((cx2, p3)) => match sp_float(b, p3, Field::CurveTag) {
                    Err(e) => Err(e),
                    Ok((cy2, p4)) => Ok((Bezier { cx1, cy1, cx2, cy2 }, p4)),
                },
            },
        },
    }
}

fn rd_bezier(b: &[u8], pos: usize) -> (r: Result<(Bezier, usize), SpinalError>)
    ensures
        r == sp_bezier(b@, pos),
{
    let (cx1, p1) = match rd_float(b, pos, Field::CurveTag) {
        Ok(v) => v,
        Err(e) => {
            return Err(e);
        },
    };
    let (cy1, p2) = match rd_float(b, p1, Field::CurveTag) {
        Ok(v) => v,
        Err(e) => {
            return Err(e);
        },
    };
    let (cx2, p3) = match rd_float(b, p2, Field::CurveTag) {
        Ok(v) => v,
        Err(e) => {
            return Err(e);
        },
    };
    let (cy2, p4) = match rd_float(b, p3, Field::CurveTag) {
        Ok(v) => v,
        Err(e) => {
            return Err(e);
        },
    };
    Ok((Bezier { cx1, cy1, cx2, cy2 }, p4))
}

/// The interpolation descriptor toward the next keyframe: nothing on the last
/// keyframe of a timeline; otherwise a tag byte selecting linear, stepped, or
/// one Bezier per animated channel.
pub open spec fn sp_curve(b: Seq<u8>, pos: usize, two_channels: bool, last: bool) -> Result<
    (SpecInterpolation, usize),
    SpinalError,
> {
    if last {
        Ok((SpecInterpolation::End, pos))
    } else {
        match sp_byte(b, pos, Field::CurveTag) {
            Err(e) => Err(e),
            Ok((tag, p1)) => {
                if tag == 0 {
                    Ok((SpecInterpolation::Linear, p1))
                } else if tag == 1 {
                    Ok((SpecInterpolation::Stepped, p1))
                } else if tag == 2 {
                    match sp_bezier(b, p1) {
                        Err(e) => Err(e),
                        Ok((c1, p2)) => {
                            if two_channels {
                                match sp_bezier(b, p2) {
                                    Err(e) => Err(e),
                                    Ok((c2, p3)) => Ok(
                                        (SpecInterpolation::Bezier(Seq::empty().push(c1).push(c2)), p3),
                                    ),
                                }
                            } else {
                                Ok((SpecInterpolation::Bezier(Seq::empty().push(c1)), p2))
                            }
                        },
                    }
                } else {
                    Err(sp_bad(pos, Field::CurveTag))
                }
            },
        }
    }
}

pub fn rd_curve(b: &[u8], pos: usize, two_channels: bool, last: bool) -> (r: Result<(Interpolation, usize), SpinalError>)
    ensures
        r matches Ok((c, p)) ==> sp_curve(b@, pos, two_channels, last) == Ok::<
            (SpecInterpolation, usize),
            SpinalError,
        >((c@, p)),
        r matches Err(e) ==> sp_curve(b@, pos, two_channels, last) == Err::<(SpecInterpolation, usize), SpinalError>(e),
{
    if last {
        return Ok((Interpolation::End, pos));
    }
    let (tag, p1) = match rd_byte(b, pos, Field::CurveTag) {
        Ok(v) => v,
        Err(e) => {
            return Err(e);
        },
    };
    if tag == 0 {
        Ok((Interpolation::Linear, p1))
    } else if tag == 1 {
        Ok((Interpolation::Stepped, p1))
    } else if tag == 2 {
        let (c1, p2) = match rd_bezier(b, p1) {
            Ok(v) => v,
            Err(e) => {
                return Err(e);
            },
        };
        if two_channels {
            let (c2, p3) = match rd_bezier(b, p2) {
                Ok(v) => v,
                Err(e) => {
                    return Err(e);
                },
            };
            let mut cs: Vec<Bezier> = Vec::new();
            cs.push(c1);
            cs.push(c2);
            proof {
                assert(cs.deep_view() =~= Seq::empty().push(c1).push(c2));
            }
            Ok((Interpolation::Bezier(cs), p3))
        } else {
            let mut cs: Vec<Bezier> = Vec::new();
            cs.push(c1);
            proof {
                assert(cs.deep_view() =~= Seq::empty().push(c1));
            }
            Ok((Interpolation::Bezier(cs), p2))
        }
    } else {
        Err(SpinalError::Decode(DecodeError { offset: pos, field: Field::CurveTag, kind: DecodeKind::BadValue }))
    }
}

/// One bone keyframe: its time, the value of its kind, and its interpolation
/// descriptor (absent exactly on the last keyframe).
#[verifier::opaque]
pub open spec fn sp_bone_keyframe(b: Seq<u8>, pos: usize, kind: u8, last: bool) -> Result<
    (SpecBoneKeyframe, usize),
    SpinalError,
> {
    match sp_float(b, pos, Field::KeyframeValue) {
        Err(e) => Err(e),
        Ok((time, p1)) => {
            if kind == 0 {
                match sp_float(b, p1, Field::KeyframeValue) {
                    Err(e) => Err(e),
                    Ok((deg, p2)) => match sp_curve(b, p2, false, last) {
                        Err(e) => Err(e),
                        Ok((c, p3)) => Ok(
                            (
                                SpecBoneKeyframe {
                                    time,
                                    data: SpecBoneKeyframeData::BoneRotate(Angle::Degrees(deg), c),
                                },
                                p3,
                            ),
                        ),
                    },
                }
            } else {
                match sp_vec2(b, p1, Field::KeyframeValue) {
                    Err(e) => Err(e),
                    Ok((v, p2)) => match sp_curve(b, p2, true, last) {
                        Err(e) => Err(e),
                        Ok((c, p3)) => {
                            let data = if kind == 1 {
                                SpecBoneKeyframeData::BoneTranslate(v, c)
                            } else if kind == 4 {
                                SpecBoneKeyframeData::BoneScale(v, c)
                            } else {
                                SpecBoneKeyframeData::BoneShear(v, c)
                            };
                            Ok((SpecBoneKeyframe { time, data }, p3))
                        },
                    },
                }
            }
        },
    }
}

pub fn rd_bone_keyframe(b: &[u8], pos: usize, kind: u8, last: bool) -> (r: Result<(BoneKeyframe, usize), SpinalError>)
    requires
        kind == 0 || kind == 1 || kind == 4 || kind == 7,
    ensures
        r matches Ok((k, p)) ==> sp_bone_keyframe(b@, pos, kind, last) == Ok::<(SpecBoneKeyframe, usize), SpinalError>(
            (k@, p),
        ),
        r matches Err(e) ==> sp_bone_keyframe(b@, pos, kind, last) == Err::<(SpecBoneKeyframe, usize), SpinalError>(e),
{
    proof {
        reveal(sp_bone_keyframe);
    }
    let (time, p1) = match rd_float(b, pos, Field::KeyframeValue) {
        Ok(v) => v,
        Err(e) => {
            return Err(e);
        },
    };
    if kind == 0 {
        let (deg, p2) = match rd_float(b, p1, Field::KeyframeValue) {
            Ok(v) => v,
            Err(e) => {
                return Err(e);
            },
        };
        let (c, p3) = match rd_curve(b, p2, false, last) {
            Ok(v) => v,
            Err(e) => {
                return Err(e);
            },
        };
        Ok((BoneKeyframe { time, data: BoneKeyframeData::BoneRotate(Angle::Degrees(deg), c) }, p3))
    } else {
        let (v, p2) = match rd_vec2(b, p1, Field::KeyframeValue) {
            Ok(v) => v,
            Err(e) => {
                return Err(e);
            },
        };
        let (c, p3) = match rd_curve(b, p2, true, last) {
            Ok(v) => v,
            Err(e) => {
                return Err(e);
            },
        };
        let data = if kind == 1 {
            BoneKeyframeData::BoneTranslate(v, c)
        } else if kind == 4 {
            BoneKeyframeData::BoneScale(v, c)
        } else {
            BoneKeyframeData::BoneShear(v, c)
        };
        Ok((BoneKeyframe { time, data }, p3))
    }
}

/// The keyframes of one bone timeline; the last carries no descriptor.
pub open spec fn sp_bone_keyframes_rec(
    b: Seq<u8>,
    pos: usize,
    remaining: nat,
    kind: u8,
    acc: Seq<SpecBoneKeyframe>,
) -> Result<(Seq<SpecBoneKeyframe>, usize), SpinalError>
    decreases remaining,
{
    if remaining == 0 {
        Ok((acc, pos))
    } else {
        match sp_bone_keyframe(b, pos, kind, remaining == 1) {
            Ok((k, p)) => sp_bone_keyframes_rec(b, p, (remaining - 1) as nat, kind, acc.push(k)),
            Err(e) => Err(e),
        }
    }
}

/// One bone timeline: a kind tag (rotate, translate, scale or shear), a
/// keyframe count, a reserved byte, and the keyframes.
#[verifier::opaque]
pub open spec fn sp_bone_timeline(b: Seq<u8>, pos: usize) -> Result<(SpecTimeline, usize), SpinalError> {
    match sp_byte(b, pos, Field::TimelineTag) {
        Err(e) => Err(e),
        Ok((kind, p1)) => {
            if !(kind == 0 || kind == 1 || kind == 4 || kind == 7) {
                Err(sp_bad(pos, Field::TimelineTag))
            } else {
                match sp_varint(b, p1, Field::Count) {
                    Err(e) => Err(e),
                    Ok((n, p2)) => match sp_byte(b, p2, Field::TimelineTag) {
                        Err(e) => Err(e),
                        Ok((_, p3)) => match sp_bone_keyframes_rec(b, p3, n as nat, kind, Seq::empty()) {
                            Err(e) => Err(e),
                            Ok((frames, p4)) => Ok((SpecTimeline { frames }, p4)),
                        },
                    },
                }
            }
        },
    }
}

pub fn rd_bone_timeline(b: &[u8], pos: usize) -> (r: Result<(Timeline, usize), SpinalError>)
    ensures
        r matches Ok((t, p)) ==> sp_bone_timeline(b@, pos) == Ok::<(SpecTimeline, usize), SpinalError>((t@, p)),
        r matches Err(e) ==> sp_bone_timeline(b@, pos) == Err::<(SpecTimeline, usize), SpinalError>(e),
{
    proof {
        reveal(sp_bone_timeline);
    }
    let (kind, p1) = match rd_byte(b, pos, Field::TimelineTag) {
        Ok(v) => v,
        Err(e) => {
            return Err(e);
        },
    };
    if !(kind == 0 || kind == 1 || kind == 4 || kind == 7) {
        return Err(SpinalError::Decode(
            DecodeError { offset: pos, field: Field::TimelineTag, kind: DecodeKind::BadValue },
        ));
    }
    let (n, p2) = match rd_varint(b, p1, Field::Count) {
        Ok(v) => v,
        Err(e) => {
            return Err(e);
        },
    };
    let (_, p3) = match rd_byte(b, p2, Field::TimelineTag) {
        Ok(v) => v,
        Err(e) => {
            return Err(e);
        },
    };
    let mut frames: Vec<BoneKeyframe> = Vec::new();
    let mut p: usize = p3;
    let mut i: u32 = 0;
    proof {
        assert(frames.deep_view() =~= Seq::<SpecBoneKeyframe>::empty());
    }
    while i < n
        invariant
            i <= n,
            frames.deep_view().len() == i as int,
            kind == 0 || kind == 1 || kind == 4 || kind == 7,
            sp_byte(b@, pos, Field::TimelineTag) == Ok::<(u8, usize), SpinalError>((kind, p1)),
            sp_varint(b@, p1, Field::Count) == Ok::<(u32, usize), SpinalError>((n, p2)),
            sp_byte(b@, p2, Field::TimelineTag) matches Ok(v) && v.1 == p3,
            sp_bone_keyframes_rec(b@, p3, n as nat, kind, Seq::empty()) == sp_bone_keyframes_rec(
                b@,
                p,
                (n - i) as nat,
                kind,
                frames.deep_view(),
            ),
        decreases n - i,
    {
        let ghost acc = frames.deep_view();
        proof {
            reveal(sp_bone_timeline);
            reveal_with_fuel(sp_bone_keyframes_rec, 2);
        }
        let (k, pn) = match rd_bone_keyframe(b, p, kind, i + 1 == n) {
            Ok(v) => v,
            Err(e) => {
                return Err(e);
            },
        };
        let ghost kdv = k@;
        frames.push(k);
        proof {
            assert(frames.deep_view() =~= acc.push(kdv));
        }
        p = pn;
        i = i + 1;
    }
    proof {
        reveal(sp_bone_timeline);
        reveal_with_fuel(sp_bone_keyframes_rec, 2);
    }
    Ok((Timeline { frames }, p))
}

/// The timelines of one animated bone.
pub open spec fn sp_bone_timelines_rec(b: Seq<u8>, pos: usize, remaining: nat, acc: Seq<SpecTimeline>) -> Result<
    (Seq<SpecTimeline>, usize),
    SpinalError,
>
    decreases remaining,
{
    if remaining == 0 {
        Ok((acc, pos))
    } else {
        match sp_bone_timeline(b, pos) {
            Ok((t, p)) => sp_bone_timelines_rec(b, p, (remaining - 1) as nat, acc.push(t)),
            Err(e) => Err(e),
        }
    }
}

/// One animated bone: its index and its timelines.
pub open spec fn sp_animated_bone(b: Seq<u8>, pos: usize) -> Result<(SpecAnimatedBone, usize), SpinalError> {
    match sp_varint(b, pos, Field::Count) {
        Err(e) => Err(e),
        Ok((bone_index, p1)) => match sp_varint(b, p1, Field::Count) {
            Err(e) => Err(e),
            Ok((n, p2)) => match sp_bone_timelines_rec(b, p2, n as nat, Seq::empty()) {
                Err(e) => Err(e),
                Ok((timelines, p3)) => Ok((SpecAnimatedBone { bone_index: bone_index as usize, timelines }, p3)),
            },
        },
    }
}

pub fn rd_animated_bone(b: &[u8], pos: usize) -> (r: Result<(AnimatedBone, usize), SpinalError>)
    ensures
        r matches Ok((a, p)) ==> sp_animated_bone(b@, pos) == Ok::<(SpecAnimatedBone, usize), SpinalError>((a@, p)),
        r matches Err(e) ==> sp_animated_bone(b@, pos) == Err::<(SpecAnimatedBone, usize), SpinalError>(e),
{
    let (bone_index, p1) = match rd_varint(b, pos, Field::Count) {
        Ok(v) => v,
        Err(e) => {
            return Err(e);
        },
    };
    let (n, p2) = match rd_varint(b, p1, Field::Count) {
        Ok(v) => v,
        Err(e) => {
            return Err(e);
        },
    };
    let mut timelines: Vec<Timeline> = Vec::new();
    let mut p: usize = p2;
    let mut i: u32 = 0;
    proof {
        assert(timelines.deep_view() =~= Seq::<SpecTimeline>::empty());
    }
    while i < n
        invariant
            i <= n,
            timelines.deep_view().len() == i as int,
            sp_varint(b@, pos, Field::Count) == Ok::<(u32, usize), SpinalError>((bone_index, p1)),
            sp_varint(b@, p1, Field::Count) == Ok::<(u32, usize), SpinalError>((n, p2)),
            sp_bone_timelines_rec(b@, p2, n as nat, Seq::empty()) == sp_bone_timelines_rec(
                b@,
                p,
                (n - i) as nat,
                timelines.deep_view(),
            ),
        decreases n - i,
    {
        let ghost acc = timelines.deep_view();
        proof {
            reveal_with_fuel(sp_bone_timelines_rec, 2);
        }
        let (t, pn) = match rd_bone_timeline(b, p) {
            Ok(v) => v,
            Err(e) => {
                return Err(e);
            },
        };
        let ghost tdv = t@;
        timelines.push(t);
        proof {
            assert(timelines.deep_view() =~= acc.push(tdv));
        }
        p = pn;
        i = i + 1;
    }
    proof {
        reveal_with_fuel(sp_bone_timelines_rec, 2);
    }
    Ok((AnimatedBone { bone_index: bone_index as usize, timelines }, p))
}

/// One slot keyframe: attachment switches carry no descriptor; color
/// keyframes carry one toward the next keyframe, absent exactly on the last.
#[verifier::opaque]
pub open spec fn sp_slot_keyframe(strings: Seq<Seq<char>>, b: Seq<u8>, pos: usize, tag: u8, last: bool) -> Result<
    (SpecSlotKeyframe, usize),
    SpinalError,
> {
    match sp_float(b, pos, Field::KeyframeValue) {
        Err(e) => Err(e),
        Ok((time, p1)) => {
            if tag == 0 {
                match sp_str_table_opt(strings, b, p1, Field::KeyframeValue) {
                    Err(e) => Err(e),
                    Ok((name, p2)) => Ok((SpecSlotKeyframe::Attachment(time, name), p2)),
                }
            } else if tag == 1 {
                match sp_col(b, p1, Field::KeyframeValue) {
                    Err(e) => Err(e),
                    Ok((color, p2)) => match sp_curve(b, p2, false, last) {
                        Err(e) => Err(e),
                        Ok((c, p3)) => Ok((SpecSlotKeyframe::OneColor(time, color, c), p3)),
                    },
                }
            } else {
                match sp_col(b, p1, Field::KeyframeValue) {
                    Err(e) => Err(e),
                    Ok((c1, p2)) => match sp_col(b, p2, Field::KeyframeValue) {
                        Err(e) => Err(e),
                        Ok((c2, p3)) => match sp_curve(b, p3, false, last) {
                            Err(e) => Err(e),
                            Ok((c, p4)) => Ok((SpecSlotKeyframe::TwoColor(time, c1, c2, c), p4)),
                        },
                    },
                }
            }
        },
    }
}

fn rd_slot_keyframe(strings: &Vec<String>, b: &[u8], pos: usize, tag: u8, last: bool) -> (r: Result<
    (SlotKeyframe, usize),
    SpinalError,
>)
    requires
        tag == 0 || tag == 1 || tag == 2,
    ensures
        r matches Ok((k, p)) ==> sp_slot_keyframe(strings.deep_view(), b@, pos, tag, last) == Ok::<
            (SpecSlotKeyframe, usize),
            SpinalError,
        >((k@, p)),
        r matches Err(e) ==> sp_slot_keyframe(strings.deep_view(), b@, pos, tag, last) == Err::<
            (SpecSlotKeyframe, usize),
            SpinalError,
        >(e),
{
    proof {
        reveal(sp_slot_keyframe);
    }
    let (time, p1) = match rd_float(b, pos, Field::KeyframeValue) {
        Ok(v) => v,
        Err(e) => {
            return Err(e);
        },
    };
    if tag == 0 {
        let (name, p2) = match rd_str_table_opt(strings, b, p1, Field::KeyframeValue) {
            Ok(v) => v,
            Err(e) => {
                return Err(e);
            },
        };
        Ok((SlotKeyframe::Attachment(time, name), p2))
    } else if tag == 1 {
        let (color, p2) = match rd_col(b, p1, Field::KeyframeValue) {
            Ok(v) => v,
            Err(e) => {
                return Err(e);
            },
        };
        let (c, p3) = match rd_curve(b, p2, false, last) {
            Ok(v) => v,
            Err(e) => {
                return Err(e);
            },
        };
        Ok((SlotKeyframe::OneColor(time, color, c), p3))
    } else {
        let (c1, p2) = match rd_col(b, p1, Field::KeyframeValue) {
            Ok(v) => v,
            Err(e) => {
                return Err(e);
            },
        };
        let (c2, p3) = match rd_col(b, p2, Field::KeyframeValue) {
            Ok(v) => v,
            Err(e) => {
                return Err(e);
            },
        };
        let (c, p4) = match rd_curve(b, p3, false, last) {
            Ok(v) => v,
            Err(e) => {
                return Err(e);
            },
        };
        Ok((SlotKeyframe::TwoColor(time, c1, c2, c), p4))
    }
}

/// The keyframes of one slot timeline, appended onto the slot's keyframe list.
pub open spec fn sp_slot_keyframes_rec(
    strings: Seq<Seq<char>>,
    b: Seq<u8>,
    pos: usize,
    remaining: nat,
    tag: u8,
    acc: Seq<SpecSlotKeyframe>,
) -> Result<(Seq<SpecSlotKeyframe>, usize), SpinalError>
    decreases remaining,
{
    if remaining == 0 {
        Ok((acc, pos))
    } else {
        match sp_slot_keyframe(strings, b, pos, tag, remaining == 1) {
            Ok((k, p)) => sp_slot_keyframes_rec(strings, b, p, (remaining - 1) as nat, tag, acc.push(k)),
            Err(e) => Err(e),
        }
    }
}

/// One slot timeline: a tag byte (attachment, one color or two colors) and
/// its keyframes, appended onto the slot's keyframe list.
pub open spec fn sp_slot_timeline(strings: Seq<Seq<char>>, b: Seq<u8>, pos: usize, acc: Seq<SpecSlotKeyframe>) -> Result<
    (Seq<SpecSlotKeyframe>, usize),
    SpinalError,
> {
    match sp_byte(b, pos, Field::TimelineTag) {
        Err(e) => Err(e),
        Ok((tag, p1)) => {
            if !(tag == 0 || tag == 1 || tag == 2) {
                Err(sp_bad(pos, Field::TimelineTag))
            } else {
                match sp_varint(b, p1, Field::Count) {
                    Err(e) => Err(e),
                    Ok((n, p2)) => sp_slot_keyframes_rec(strings, b, p2, n as nat, tag, acc),
                }
            }
        },
    }
}

fn rd_slot_timeline(strings: &Vec<String>, b: &[u8], pos: usize, keyframes: &mut Vec<SlotKeyframe>) -> (r: Result<
    usize,
    SpinalError,
>)
    ensures
        r matches Ok(p) ==> sp_slot_timeline(strings.deep_view(), b@, pos, old(keyframes).deep_view()) == Ok::<
            (Seq<SpecSlotKeyframe>, usize),
            SpinalError,
        >((final(keyframes).deep_view(), p)),
        r matches Err(e) ==> sp_slot_timeline(strings.deep_view(), b@, pos, old(keyframes).deep_view()) == Err::<
            (Seq<SpecSlotKeyframe>, usize),
            SpinalError,
        >(e),
{
    let (tag, p1) = match rd_byte(b, pos, Field::TimelineTag) {
        Ok(v) => v,
        Err(e) => {
            return Err(e);
        },
    };
    if !(tag == 0 || tag == 1 || tag == 2) {
        return Err(SpinalError::Decode(
            DecodeError { offset: pos, field: Field::TimelineTag, kind: DecodeKind::BadValue },
        ));
    }
    let (n, p2) = match rd_varint(b, p1, Field::Count) {
        Ok(v) => v,
        Err(e) => {
            return Err(e);
        },
    };
    let mut p: usize = p2;
    let mut i: u32 = 0;
    while i < n
        invariant
            i <= n,
            tag == 0 || tag == 1 || tag == 2,
            sp_byte(b@, pos, Field::TimelineTag) == Ok::<(u8, usize), SpinalError>((tag, p1)),
            sp_varint(b@, p1, Field::Count) == Ok::<(u32, usize), SpinalError>((n, p2)),
            sp_slot_keyframes_rec(strings.deep_view(), b@, p2, n as nat, tag, old(keyframes).deep_view())
                == sp_slot_keyframes_rec(
                strings.deep_view(),
                b@,
                p,
                (n - i) as nat,
                tag,
                keyframes.deep_view(),
            ),
        decreases n - i,
    {
        let ghost acc = keyframes.deep_view();
        proof {
            reveal_with_fuel(sp_slot_keyframes_rec, 2);
        }
        let (k, pn) = match rd_slot_keyframe(strings, b, p, tag, i + 1 == n) {
            Ok(v) => v,
            Err(e) => {
                return Err(e);
            },
        };
        let ghost kdv = k@;
        keyframes.push(k);
        proof {
            assert(keyframes.deep_view() =~= acc.push(kdv));
        }
        p = pn;
        i = i + 1;
    }
    proof {
        reveal_with_fuel(sp_slot_keyframes_rec, 2);
    }
    Ok(p)
}

/// The timelines of one animated slot, flattened into one keyframe list.
pub open spec fn sp_slot_timelines_rec(
    strings: Seq<Seq<char>>,
    b: Seq<u8>,
    pos: usize,
    remaining: nat,
    acc: Seq<SpecSlotKeyframe>,
) -> Result<(Seq<SpecSlotKeyframe>, usize), SpinalError>
    decreases remaining,
{
    if remaining == 0 {
        Ok((acc, pos))
    } else {
        match sp_slot_timeline(strings, b, pos, acc) {
            Ok((acc2, p)) => sp_slot_timelines_rec(strings, b, p, (remaining - 1) as nat, acc2),
            Err(e) => Err(e),
        }
    }
}

/// One animated slot: its index and its flattened keyframes.
pub open spec fn sp_animated_slot(strings: Seq<Seq<char>>, b: Seq<u8>, pos: usize) -> Result<
    (SpecAnimatedSlot, usize),
    SpinalError,
> {
    match sp_varint(b, pos, Field::Count) {
        Err(e) => Err(e),
        Ok((slot_index, p1)) => match sp_varint(b, p1, Field::Count) {
            Err(e) => Err(e),
            Ok((n, p2)) => match sp_slot_timelines_rec(strings, b, p2, n as nat, Seq::empty()) {
                Err(e) => Err(e),
                Ok((keyframes, p3)) => Ok((SpecAnimatedSlot { slot_index: slot_index as usize, keyframes }, p3)),
            },
        },
    }
}

pub fn rd_animated_slot(strings: &Vec<String>, b: &[u8], pos: usize) -> (r: Result<(AnimatedSlot, usize), SpinalError>)
    ensures
        r matches Ok((a, p)) ==> sp_animated_slot(strings.deep_view(), b@, pos) == Ok::<
            (SpecAnimatedSlot, usize),
            SpinalError,
        >((a@, p)),
        r matches Err(e) ==> sp_animated_slot(strings.deep_view(), b@, pos) == Err::<
            (SpecAnimatedSlot, usize),
            SpinalError,
        >(e),
{
    let (slot_index, p1) = match rd_varint(b, pos, Field::Count) {
        Ok(v) => v,
        Err(e) => {
            return Err(e);
        },
    };
    let (n, p2) = match rd_varint(b, p1, Field::Count) {
        Ok(v) => v,
        Err(e) => {
            return Err(e);
        },
    };
    let mut keyframes: Vec<SlotKeyframe> = Vec::new();
    let mut p: usize = p2;
    let mut i: u32 = 0;
    proof {
        assert(keyframes.deep_view() =~= Seq::<SpecSlotKeyframe>::empty());
    }
    while i < n
        invariant
            i <= n,
            sp_varint(b@, pos, Field::Count) == Ok::<(u32, usize), SpinalError>((slot_index, p1)),
            sp_varint(b@, p1, Field::Count) == Ok::<(u32, usize), SpinalError>((n, p2)),
            sp_slot_timelines_rec(strings.deep_view(), b@, p2, n as nat, Seq::empty()) == sp_slot_timelines_rec(
                strings.deep_view(),
                b@,
                p,
                (n - i) as nat,
                keyframes.deep_view(),
            ),
        decreases n - i,
    {
        proof {
            reveal_with_fuel(sp_slot_timelines_rec, 2);
        }
        let pn = match rd_slot_timeline(strings, b, p, &mut keyframes) {
            Ok(v) => v,
            Err(e) => {
                return Err(e);
            },
        };
        p = pn;
        i = i + 1;
    }
    proof {
        reveal_with_fuel(sp_slot_timelines_rec, 2);
    }
    Ok((AnimatedSlot { slot_index: slot_index as usize, keyframes }, p))
}

/// One IK-constraint keyframe, consumed and not kept: time, a reserved byte,
/// mix, softness, bend direction, compress and stretch bytes, and a curve
/// toward the next keyframe (absent on the last).
#[verifier::opaque]
pub open spec fn sp_ik_keyframe(b: Seq<u8>, pos: usize, last: bool) -> Result<usize, SpinalError> {
    match sp_float(b, pos, Field::KeyframeValue) {
        Err(e) => Err(e),
        Ok((_, p1)) => match sp_byte(b, p1, Field::KeyframeValue) {
            Err(e) => Err(e),
            Ok((_, p2)) => match sp_float(b, p2, Field::KeyframeValue) {
                Err(e) => Err(e),
                Ok((_, p3)) => match sp_float(b, p3, Field::KeyframeValue) {
                    Err(e) => Err(e),
                    Ok((_, p4)) => match sp_bend(b, p4, Field::Bend) {
                        Err(e) => Err(e),
                        Ok((_, p5)) => match sp_byte(b, p5, Field::KeyframeValue) {
                            Err(e) => Err(e),
                            Ok((_, p6)) => match sp_byte(b, p6, Field::KeyframeValue) {
                                Err(e) => Err(e),
                                Ok((_, p7)) => match sp_curve(b, p7, false, last) {
                                    Err(e) => Err(e),
                                    Ok((_, p8)) => Ok(p8),
                                },
                            },
                        },
                    },
                },
            },
        },
    }
}

fn rd_ik_keyframe(b: &[u8], pos: usize, last: bool) -> (r: Result<usize, SpinalError>)
    ensures
        r == sp_ik_keyframe(b@, pos, last),
{
    proof {
        reveal(sp_ik_keyframe);
    }
    let p1 = match rd_float(b, pos, Field::KeyframeValue) {
        Ok((_, p)) => p,
        Err(e) => {
            return Err(e);
        },
    };
    let p2 = match rd_byte(b, p1, Field::KeyframeValue) {
        Ok((_, p)) => p,
        Err(e) => {
            return Err(e);
        },
    };
    let p3 = match rd_float(b, p2, Field::KeyframeValue) {
        Ok((_, p)) => p,
        Err(e) => {
            return Err(e);
        },
    };
    let p4 = match rd_float(b, p3, Field::KeyframeValue) {
        Ok((_, p)) => p,
        Err(e) => {
            return Err(e);
        },
    };
    let p5 = match rd_bend(b, p4, Field::Bend) {
        Ok((_, p)) => p,
        Err(e) => {
            return Err(e);
        },
    };
    let p6 = match rd_byte(b, p5, Field::KeyframeValue) {
        Ok((_, p)) => p,
        Err(e) => {
            return Err(e);
        },
    };
    let p7 = match rd_byte(b, p6, Field::KeyframeValue) {
        Ok((_, p)) => p,
        Err(e) => {
            return Err(e);
        },
    };
    match rd_curve(b, p7, false, last) {
        Ok((_, p)) => Ok(p),
        Err(e) => Err(e),
    }
}

/// The keyframes of one animated IK constraint, consumed and not kept.
pub open spec fn sp_ik_keyframes_rec(b: Seq<u8>, pos: usize, remaining: nat) -> Result<usize, SpinalError>
    decreases remaining,
{
    if remaining == 0 {
        Ok(pos)
    } else {
        match sp_ik_keyframe(b, pos, remaining == 1) {
            Ok(p) => sp_ik_keyframes_rec(b, p, (remaining - 1) as nat),
            Err(e) => Err(e),
        }
    }
}

/// One animated IK constraint: its index and its keyframes, consumed and not
/// kept.
pub open spec fn sp_animated_ik(b: Seq<u8>, pos: usize) -> Result<usize, SpinalError> {
    match sp_varint(b, pos, Field::Count) {
        Err(e) => Err(e),
        Ok((_, p1)) => match sp_varint(b, p1, Field::Count) {
            Err(e) => Err(e),
            Ok((n, p2)) => sp_ik_keyframes_rec(b, p2, n as nat),
        },
    }
}

fn rd_animated_ik(b: &[u8], pos: usize) -> (r: Result<usize, SpinalError>)
    ensures
        r == sp_animated_ik(b@, pos),
{
    let p1 = match rd_varint(b, pos, Field::Count) {
        Ok((_, p)) => p,
        Err(e) => {
            return Err(e);
        },
    };
    let (n, p2) = match rd_varint(b, p1, Field::Count) {
        Ok(v) => v,
        Err(e) => {
            return Err(e);
        },
    };
    let mut p: usize = p2;
    let mut i: u32 = 0;
    while i < n
        invariant
            i <= n,
            sp_varint(b@, pos, Field::Count) matches Ok(v) && v.1 == p1,
            sp_varint(b@, p1, Field::Count) == Ok::<(u32, usize), SpinalError>((n, p2)),
            sp_ik_keyframes_rec(b@, p2, n as nat) == sp_ik_keyframes_rec(b@, p, (n - i) as nat),
        decreases n - i,
    {
        proof {
            reveal_with_fuel(sp_ik_keyframes_rec, 2);
        }
        let pn = match rd_ik_keyframe(b, p, i + 1 == n) {
            Ok(v) => v,
            Err(e) => {
                return Err(e);
            },
        };
        p = pn;
        i = i + 1;
    }
    proof {
        reveal_with_fuel(sp_ik_keyframes_rec, 2);
    }
    Ok(p)
}

/// One transform-constraint keyframe, consumed and not kept: time, a reserved
/// byte and six mix values.
#[verifier::opaque]
pub open spec fn sp_transform_keyframe(b: Seq<u8>, pos: usize) -> Result<usize, SpinalError> {
    match sp_float(b, pos, Field::KeyframeValue) {
        Err(e) => Err(e),
        Ok((_, p1)) => match sp_byte(b, p1, Field::KeyframeValue) {
            Err(e) => Err(e),
            Ok((_, p2)) => match sp_float(b, p2, Field::KeyframeValue) {
                Err(e) => Err(e),
                Ok((_, p3)) => match sp_float(b, p3, Field::KeyframeValue) {
                    Err(e) => Err(e),
                    Ok((_, p4)) => match sp_float(b, p4, Field::KeyframeValue) {
                        Err(e) => Err(e),
                        Ok((_, p5)) => match sp_float(b, p5, Field::KeyframeValue) {
                            Err(e) => Err(e),
                            Ok((_, p6)) => match sp_float(b, p6, Field::KeyframeValue) {
                                Err(e) => Err(e),
                                Ok((_, p7)) => match sp_float(b, p7, Field::KeyframeValue) {
                                    Err(e) => Err(e),
                                    Ok((_, p8)) => Ok(p8),
                                },
                            },
                        },
                    },
                },
            },
        },
    }
}

fn rd_transform_keyframe(b: &[u8], pos: usize) -> (r: Result<usize, SpinalError>)
    ensures
        r == sp_transform_keyframe(b@, pos),
{
    proof {
        reveal(sp_transform_keyframe);
    }
    let p1 = match rd_float(b, pos, Field::KeyframeValue) {
        Ok((_, p)) => p,
        Err(e) => {
            return Err(e);
        },
    };
    let p2 = match rd_byte(b, p1, Field::KeyframeValue) {
        Ok((_, p)) => p,
        Err(e) => {
            return Err(e);
        },
    };
    let p3 = match rd_float(b, p2, Field::KeyframeValue) {
        Ok((_, p)) => p,
        Err(e) => {
            return Err(e);
        },
    };
    let p4 = match rd_float(b, p3, Field::KeyframeValue) {
        Ok((_, p)) => p,
        Err(e) => {
            return Err(e);
        },
    };
    let p5 = match rd_float(b, p4, Field::KeyframeValue) {
        Ok((_, p)) => p,
        Err(e) => {
            return Err(e);
        },
    };
    let p6 = match rd_float(b, p5, Field::KeyframeValue) {
        Ok((_, p)) => p,
        Err(e) => {
            return Err(e);
        },
    };
    let p7 = match rd_float(b, p6, Field::KeyframeValue) {
        Ok((_, p)) => p,
        Err(e) => {
            return Err(e);
        },
    };
    match rd_float(b, p7, Field::KeyframeValue) {
        Ok((_, p)) => Ok(p),
        Err(e) => Err(e),
    }
}

/// The keyframes of one animated transform constraint, consumed and not kept.
pub open spec fn sp_transform_keyframes_rec(b: Seq<u8>, pos: usize, remaining: nat) -> Result<usize, SpinalError>
    decreases remaining,
{
    if remaining == 0 {
        Ok(pos)
    } else {
        match sp_transform_keyframe(b, pos) {
            Ok(p) => sp_transform_keyframes_rec(b, p, (remaining - 1) as nat),
            Err(e) => Err(e),
        }
    }
}

/// One animated transform constraint, consumed and not kept.
pub open spec fn sp_animated_transform(b: Seq<u8>, pos: usize) -> Result<usize, SpinalError> {
    match sp_varint(b, pos, Field::Count) {
        Err(e) => Err(e),
        Ok((_, p1)) => match sp_varint(b, p1, Field::Count) {
            Err(e) => Err(e),
            Ok((n, p2)) => sp_transform_keyframes_rec(b, p2, n as nat),
        },
    }
}

fn rd_animated_transform(b: &[u8], pos: usize) -> (r: Result<usize, SpinalError>)
    ensures
        r == sp_animated_transform(b@, pos),
{
    let p1 = match rd_varint(b, pos, Field::Count) {
        Ok((_, p)) => p,
        Err(e) => {
            return Err(e);
        },
    };
    let (n, p2) = match rd_varint(b, p1, Field::Count) {
        Ok(v) => v,
        Err(e) => {
            return Err(e);
        },
    };
    let mut p: usize = p2;
    let mut i: u32 = 0;
    while i < n
        invariant
            i <= n,
            sp_varint(b@, pos, Field::Count) matches Ok(v) && v.1 == p1,
            sp_varint(b@, p1, Field::Count) == Ok::<(u32, usize), SpinalError>((n, p2)),
            sp_transform_keyframes_rec(b@, p2, n as nat) == sp_transform_keyframes_rec(b@, p, (n - i) as nat),
        decreases n - i,
    {
        proof {
            reveal_with_fuel(sp_transform_keyframes_rec, 2);
        }
        let pn = match rd_transform_keyframe(b, p) {
            Ok(v) => v,
            Err(e) => {
                return Err(e);
            },
        };
        p = pn;
        i = i + 1;
    }
    proof {
        reveal_with_fuel(sp_transform_keyframes_rec, 2);
    }
    Ok(p)
}

/// One draw-order keyframe, consumed and not kept: a time, then offset pairs.
pub open spec fn sp_draw_order_entries_rec(b: Seq<u8>, pos: usize, remaining: nat) -> Result<usize, SpinalError>
    decreases remaining,
{
    if remaining == 0 {
        Ok(pos)
    } else {
        match sp_varint(b, pos, Field::KeyframeValue) {
            Err(e) => Err(e),
            Ok((_, p1)) => match sp_varint(b, p1, Field::KeyframeValue) {
                Err(e) => Err(e),
                Ok((_, p2)) => sp_draw_order_entries_rec(b, p2, (remaining - 1) as nat),
            },
        }
    }
}

pub open spec fn sp_draw_order(b: Seq<u8>, pos: usize) -> Result<usize, SpinalError> {
    match sp_float(b, pos, Field::KeyframeValue) {
        Err(e) => Err(e),
        Ok((_, p1)) => match sp_varint(b, p1, Field::Count) {
            Err(e) => Err(e),
            Ok((n, p2)) => sp_draw_order_entries_rec(b, p2, n as nat),
        },
    }
}

fn rd_draw_order(b: &[u8], pos: usize) -> (r: Result<usize, SpinalError>)
    ensures
        r == sp_draw_order(b@, pos),
{
    let p1 = match rd_float(b, pos, Field::KeyframeValue) {
        Ok((_, p)) => p,
        Err(e) => {
            return Err(e);
        },
    };
    let (n, p2) = match rd_varint(b, p1, Field::Count) {
        Ok(v) => v,
        Err(e) => {
            return Err(e);
        },
    };
    let mut p: usize = p2;
    let mut i: u32 = 0;
    while i < n
        invariant
            i <= n,
            sp_float(b@, pos, Field::KeyframeValue) matches Ok(v) && v.1 == p1,
            sp_varint(b@, p1, Field::Count) == Ok::<(u32, usize), SpinalError>((n, p2)),
            sp_draw_order_entries_rec(b@, p2, n as nat) == sp_draw_order_entries_rec(b@, p, (n - i) as nat),
        decreases n - i,
    {
        proof {
            reveal_with_fuel(sp_draw_order_entries_rec, 2);
        }
        let pa = match rd_varint(b, p, Field::KeyframeValue) {
            Ok((_, pp)) => pp,
            Err(e) => {
                return Err(e);
            },
        };
        let pb = match rd_varint(b, pa, Field::KeyframeValue) {
            Ok((_, pp)) => pp,
            Err(e) => {
                return Err(e);
            },
        };
        p = pb;
        i = i + 1;
    }
    proof {
        reveal_with_fuel(sp_draw_order_entries_rec, 2);
    }
    Ok(p)
}

/// One animated event, consumed and not kept: time, event index, integer,
/// float and string payloads.
#[verifier::opaque]
pub open spec fn sp_animated_event(b: Seq<u8>, pos: usize) -> Result<usize, SpinalError> {
    match sp_float(b, pos, Field::KeyframeValue) {
        Err(e) => Err(e),
        Ok((_, p1)) => match sp_varint(b, p1, Field::KeyframeValue) {
            Err(e) => Err(e),
            Ok((_, p2)) => match sp_varint_signed(b, p2, Field::KeyframeValue) {
                Err(e) => Err(e),
                Ok((_, p3)) => match sp_float(b, p3, Field::KeyframeValue) {
                    Err(e) => Err(e),
                    Ok((_, p4)) => match sp_str_opt(b, p4, Field::KeyframeValue) {
                        Err(e) => Err(e),
                        Ok((_, p5)) => Ok(p5),
                    },
                },
            },
        },
    }
}

fn rd_animated_event(b: &[u8], pos: usize) -> (r: Result<usize, SpinalError>)
    ensures
        r == sp_animated_event(b@, pos),
{
    proof {
        reveal(sp_animated_event);
    }
    let p1 = match rd_float(b, pos, Field::KeyframeValue) {
        Ok((_, p)) => p,
        Err(e) => {
            return Err(e);
        },
    };
    let p2 = match rd_varint(b, p1, Field::KeyframeValue) {
        Ok((_, p)) => p,
        Err(e) => {
            return Err(e);
        },
    };
    let p3 = match rd_varint_signed(b, p2, Field::KeyframeValue) {
        Ok((_, p)) => p,
        Err(e) => {
            return Err(e);
        },
    };
    let p4 = match rd_float(b, p3, Field::KeyframeValue) {
        Ok((_, p)) => p,
        Err(e) => {
            return Err(e);
        },
    };
    match rd_str_opt(b, p4, Field::KeyframeValue) {
        Ok((_, p)) => {
            proof {
                reveal(sp_animated_event);
            }
            Ok(p)
        },
        Err(e) => Err(e),
    }
}

/// The animated slots of one animation.
pub open spec fn sp_animated_slots_rec(
    strings: Seq<Seq<char>>,
    b: Seq<u8>,
    pos: usize,
    remaining: nat,
    acc: Seq<SpecAnimatedSlot>,
) -> Result<(Seq<SpecAnimatedSlot>, usize), SpinalError>
    decreases remaining,
{
    if remaining == 0 {
        Ok((acc, pos))
    } else {
        match sp_animated_slot(strings, b, pos) {
            Ok((s, p)) => sp_animated_slots_rec(strings, b, p, (remaining - 1) as nat, acc.push(s)),
            Err(e) => Err(e),
        }
    }
}

pub open spec fn sp_animated_slots(strings: Seq<Seq<char>>, b: Seq<u8>, pos: usize) -> Result<
    (Seq<SpecAnimatedSlot>, usize),
    SpinalError,
> {
    match sp_varint(b, pos, Field::Count) {
        Ok((n, p)) => sp_animated_slots_rec(strings, b, p, n as nat, Seq::empty()),
        Err(e) => Err(e),
    }
}

fn rd_animated_slots(strings: &Vec<String>, b: &[u8], pos: usize) -> (r: Result<
    (Vec<AnimatedSlot>, usize),
    SpinalError,
>)
    ensures
        r matches Ok((v, p)) ==> sp_animated_slots(strings.deep_view(), b@, pos) == Ok::<
            (Seq<SpecAnimatedSlot>, usize),
            SpinalError,
        >((v.deep_view(), p)),
        r matches Err(e) ==> sp_animated_slots(strings.deep_view(), b@, pos) == Err::<
            (Seq<SpecAnimatedSlot>, usize),
            SpinalError,
        >(e),
{
    let (n, p0) = match rd_varint(b, pos, Field::Count) {
        Ok(v) => v,
        Err(e) => {
            return Err(e);
        },
    };
    let mut items: Vec<AnimatedSlot> = Vec::new();
    let mut p: usize = p0;
    let mut i: u32 = 0;
    proof {
        assert(items.deep_view() =~= Seq::<SpecAnimatedSlot>::empty());
    }
    while i < n
        invariant
            i <= n,
            sp_animated_slots(strings.deep_view(), b@, pos) == sp_animated_slots_rec(
                strings.deep_view(),
                b@,
                p,
                (n - i) as nat,
                items.deep_view(),
            ),
        decreases n - i,
    {
        let ghost acc = items.deep_view();
        proof {
            reveal_with_fuel(sp_animated_slots_rec, 2);
        }
        let (s, pn) = match rd_animated_slot(strings, b, p) {
            Ok(v) => v,
            Err(e) => {
                return Err(e);
            },
        };
        let ghost sdv = s@;
        items.push(s);
        proof {
            assert(items.deep_view() =~= acc.push(sdv));
        }
        p = pn;
        i = i + 1;
    }
    proof {
        reveal_with_fuel(sp_animated_slots_rec, 2);
    }
    Ok((items, p))
}

/// The animated bones of one animation.
pub open spec fn sp_animated_bones_rec(b: Seq<u8>, pos: usize, remaining: nat, acc: Seq<SpecAnimatedBone>) -> Result<
    (Seq<SpecAnimatedBone>, usize),
    SpinalError,
>
    decreases remaining,
{
    if remaining == 0 {
        Ok((acc, pos))
    } else {
        match sp_animated_bone(b, pos) {
            Ok((s, p)) => sp_animated_bones_rec(b, p, (remaining - 1) as nat, acc.push(s)),
            Err(e) => Err(e),
        }
    }
}

pub open spec fn sp_animated_bones(b: Seq<u8>, pos: usize) -> Result<(Seq<SpecAnimatedBone>, usize), SpinalError> {
    match sp_varint(b, pos, Field::Count) {
        Ok((n, p)) => sp_animated_bones_rec(b, p, n as nat, Seq::empty()),
        Err(e) => Err(e),
    }
}

fn rd_animated_bones(b: &[u8], pos: usize) -> (r: Result<(Vec<AnimatedBone>, usize), SpinalError>)
    ensures
        r matches Ok((v, p)) ==> sp_animated_bones(b@, pos) == Ok::<(Seq<SpecAnimatedBone>, usize), SpinalError>(
            (v.deep_view(), p),
        ),
        r matches Err(e) ==> sp_animated_bones(b@, pos) == Err::<(Seq<SpecAnimatedBone>, usize), SpinalError>(e),
{
    let (n, p0) = match rd_varint(b, pos, Field::Count) {
        Ok(v) => v,
        Err(e) => {
            return Err(e);
        },
    };
    let mut items: Vec<AnimatedBone> = Vec::new();
    let mut p: usize = p0;
    let mut i: u32 = 0;
    proof {
        assert(items.deep_view() =~= Seq::<SpecAnimatedBone>::empty());
    }
    while i < n
        invariant
            i <= n,
            sp_animated_bones(b@, pos) == sp_animated_bones_rec(b@, p, (n - i) as nat, items.deep_view()),
        decreases n - i,
    {
        let ghost acc = items.deep_view();
        proof {
            reveal_with_fuel(sp_animated_bones_rec, 2);
        }
        let (s, pn) = match rd_animated_bone(b, p) {
            Ok(v) => v,
            Err(e) => {
                return Err(e);
            },
        };
        let ghost sdv = s@;
        items.push(s);
        proof {
            assert(items.deep_view() =~= acc.push(sdv));
        }
        p = pn;
        i = i + 1;
    }
    proof {
        reveal_with_fuel(sp_animated_bones_rec, 2);
    }
    Ok((items, p))
}

/// The animated IK constraints of one animation, consumed and not kept.
pub open spec fn sp_animated_iks_rec(b: Seq<u8>, pos: usize, remaining: nat) -> Result<usize, SpinalError>
    decreases remaining,
{
    if remaining == 0 {
        Ok(pos)
    } else {
        match sp_animated_ik(b, pos) {
            Ok(p) => sp_animated_iks_rec(b, p, (remaining - 1) as nat),
            Err(e) => Err(e),
        }
    }
}

pub open spec fn sp_animated_iks(b: Seq<u8>, pos: usize) -> Result<usize, SpinalError> {
    match sp_varint(b, pos, Field::Count) {
        Ok((n, p)) => sp_animated_iks_rec(b, p, n as nat),
        Err(e) => Err(e),
    }
}

fn rd_animated_iks(b: &[u8], pos: usize) -> (r: Result<usize, SpinalError>)
    ensures
        r == sp_animated_iks(b@, pos),
{
    let (n, p0) = match rd_varint(b, pos, Field::Count) {
        Ok(v) => v,
        Err(e) => {
            return Err(e);
        },
    };
    let mut p: usize = p0;
    let mut i: u32 = 0;
    while i < n
        invariant
            i <= n,
            sp_animated_iks(b@, pos) == sp_animated_iks_rec(b@, p, (n - i) as nat),
        decreases n - i,
    {
        proof {
            reveal_with_fuel(sp_animated_iks_rec, 2);
        }
        let pn = match rd_animated_ik(b, p) {
            Ok(v) => v,
            Err(e) => {
                return Err(e);
            },
        };
        p = pn;
        i = i + 1;
    }
    proof {
        reveal_with_fuel(sp_animated_iks_rec, 2);
    }
    Ok(p)
}

/// The animated transform constraints of one animation, consumed and not kept.
pub open spec fn sp_animated_transforms_rec(b: Seq<u8>, pos: usize, remaining: nat) -> Result<usize, SpinalError>
    decreases remaining,
{
    if remaining == 0 {
        Ok(pos)
    } else {
        match sp_animated_transform(b, pos) {
            Ok(p) => sp_animated_transforms_rec(b, p, (remaining - 1) as nat),
            Err(e) => Err(e),
        }
    }
}

pub open spec fn sp_animated_transforms(b: Seq<u8>, pos: usize) -> Result<usize, SpinalError> {
    match sp_varint(b, pos, Field::Count) {
        Ok((n, p)) => sp_animated_transforms_rec(b, p, n as nat),
        Err(e) => Err(e),
    }
}

fn rd_animated_transforms(b: &[u8], pos: usize) -> (r: Result<usize, SpinalError>)
    ensures
        r == sp_animated_transforms(b@, pos),
{
    let (n, p0) = match rd_varint(b, pos, Field::Count) {
        Ok(v) => v,
        Err(e) => {
            return Err(e);
        },
    };
    let mut p: usize = p0;
    let mut i: u32 = 0;
    while i < n
        invariant
            i <= n,
            sp_animated_transforms(b@, pos) == sp_animated_transforms_rec(b@, p, (n - i) as nat),
        decreases n - i,
    {
        proof {
            reveal_with_fuel(sp_animated_transforms_rec, 2);
        }
        let pn = match rd_animated_transform(b, p) {
            Ok(v) => v,
            Err(e) => {
                return Err(e);
            },
        };
        p = pn;
        i = i + 1;
    }
    proof {
        reveal_with_fuel(sp_animated_transforms_rec, 2);
    }
    Ok(p)
}

/// The draw-order keyframes of one animation, consumed and not kept.
pub open spec fn sp_draw_orders_rec(b: Seq<u8>, pos: usize, remaining: nat) -> Result<usize, SpinalError>
    decreases remaining,
{
    if remaining == 0 {
        Ok(pos)
    } else {
        match sp_draw_order(b, pos) {
            Ok(p) => sp_draw_orders_rec(b, p, (remaining - 1) as nat),
            Err(e) => Err(e),
        }
    }
}

pub open spec fn sp_draw_orders(b: Seq<u8>, pos: usize) -> Result<usize, SpinalError> {
    match sp_varint(b, pos, Field::Count) {
        Ok((n, p)) => sp_draw_orders_rec(b, p, n as nat),
        Err(e) => Err(e),
    }
}

fn rd_draw_orders(b: &[u8], pos: usize) -> (r: Result<usize, SpinalError>)
    ensures
        r == sp_draw_orders(b@, pos),
{
    let (n, p0) = match rd_varint(b, pos, Field::Count) {
        Ok(v) => v,
        Err(e) => {
            return Err(e);
        },
    };
    let mut p: usize = p0;
    let mut i: u32 = 0;
    while i < n
        invariant
            i <= n,
            sp_draw_orders(b@, pos) == sp_draw_orders_rec(b@, p, (n - i) as nat),
        decreases n - i,
    {
        proof {
            reveal_with_fuel(sp_draw_orders_rec, 2);
        }
        let pn = match rd_draw_order(b, p) {
            Ok(v) => v,
            Err(e) => {
                return Err(e);
            },
        };
        p = pn;
        i = i + 1;
    }
    proof {
        reveal_with_fuel(sp_draw_orders_rec, 2);
    }
    Ok(p)
}

/// The event keyframes of one animation, consumed and not kept.
pub open spec fn sp_animated_events_rec(b: Seq<u8>, pos: usize, remaining: nat) -> Result<usize, SpinalError>
    decreases remaining,
{
    if remaining == 0 {
        Ok(pos)
    } else {
        match sp_animated_event(b, pos) {
            Ok(p) => sp_animated_events_rec(b, p, (remaining - 1) as nat),
            Err(e) => Err(e),
        }
    }
}

pub open spec fn sp_animated_events(b: Seq<u8>, pos: usize) -> Result<usize, SpinalError> {
    match sp_varint(b, pos, Field::Count) {
        Ok((n, p)) => sp_animated_events_rec(b, p, n as nat),
        Err(e) => Err(e),
    }
}

fn rd_animated_events(b: &[u8], pos: usize) -> (r: Result<usize, SpinalError>)
    ensures
        r == sp_animated_events(b@, pos),
{
    let (n, p0) = match rd_varint(b, pos, Field::Count) {
        Ok(v) => v,
        Err(e) => {
            return Err(e);
        },
    };
    let mut p: usize = p0;
    let mut i: u32 = 0;
    while i < n
        invariant
            i <= n,
            sp_animated_events(b@, pos) == sp_animated_events_rec(b@, p, (n - i) as nat),
        decreases n - i,
    {
        proof {
            reveal_with_fuel(sp_animated_events_rec, 2);
        }
        let pn = match rd_animated_event(b, p) {
            Ok(v) => v,
            Err(e) => {
                return Err(e);
            },
        };
        p = pn;
        i = i + 1;
    }
    proof {
        reveal_with_fuel(sp_animated_events_rec, 2);
    }
    Ok(p)
}

/// A section marker byte that must be zero: the layout of this section has no
/// entries in this format.
pub open spec fn sp_zero_byte(b: Seq<u8>, pos: usize) -> Result<usize, SpinalError> {
    match sp_byte(b, pos, Field::TimelineTag) {
        Err(e) => Err(e),
        Ok((v, p)) => {
            if v == 0 {
                Ok(p)
            } else {
                Err(sp_bad(pos, Field::TimelineTag))
            }
        },
    }
}

fn rd_zero_byte(b: &[u8], pos: usize) -> (r: Result<usize, SpinalError>)
    ensures
        r == sp_zero_byte(b@, pos),
{
    match rd_byte(b, pos, Field::TimelineTag) {
        Err(e) => Err(e),
        Ok((v, p)) => {
            if v == 0 {
                Ok(p)
            } else {
                Err(SpinalError::Decode(
                    DecodeError { offset: pos, field: Field::TimelineTag, kind: DecodeKind::BadValue },
                ))
            }
        },
    }
}

/// One animation: its name, a reserved byte, slot and bone timelines, the
/// constraint and draw-order and event sections (consumed but not kept).
#[verifier::opaque]
pub open spec fn sp_animation(strings: Seq<Seq<char>>, b: Seq<u8>, pos: usize) -> Result<
    (SpecAnimation, usize),
    SpinalError,
> {
    match sp_str(b, pos, Field::AnimationName) {
        Err(e) => Err(e),
        Ok((name, p1)) => match sp_byte(b, p1, Field::AnimationName) {
            Err(e) => Err(e),
            Ok((_, p2)) => match sp_animated_slots(strings, b, p2) {
                Err(e) => Err(e),
                Ok((slots, p3)) => match sp_animated_bones(b, p3) {
                    Err(e) => Err(e),
                    Ok((bones, p4)) => match sp_animated_iks(b, p4) {
                        Err(e) => Err(e),
                        Ok(p5) => match sp_animated_transforms(b, p5) {
                            Err(e) => Err(e),
                            Ok(p6) => match sp_zero_byte(b, p6) {
                                Err(e) => Err(e),
                                Ok(p7) => match sp_zero_byte(b, p7) {
                                    Err(e) => Err(e),
                                    Ok(p8) => match sp_draw_orders(b, p8) {
                                        Err(e) => Err(e),
                                        Ok(p9) => match sp_animated_events(b, p9) {
                                            Err(e) => Err(e),
                                            Ok(p10) => Ok((SpecAnimation { name, bones, slots }, p10)),
                                        },
                                    },
                                },
                            },
                        },
                    },
                },
            },
        },
    }
}

pub fn rd_animation(strings: &Vec<String>, b: &[u8], pos: usize) -> (r: Result<(Animation, usize), SpinalError>)
    ensures
        r matches Ok((a, p)) ==> sp_animation(strings.deep_view(), b@, pos) == Ok::<
            (SpecAnimation, usize),
            SpinalError,
        >((a@, p)),
        r matches Err(e) ==> sp_animation(strings.deep_view(), b@, pos) == Err::<(SpecAnimation, usize), SpinalError>(
            e,
        ),
{
    proof {
        reveal(sp_animation);
    }
    let (name, p1) = match rd_str(b, pos, Field::AnimationName) {
        Ok(v) => v,
        Err(e) => {
            return Err(e);
        },
    };
    let (_, p2) = match rd_byte(b, p1, Field::AnimationName) {
        Ok(v) => v,
        Err(e) => {
            return Err(e);
        },
    };
    let (slots, p3) = match rd_animated_slots(strings, b, p2) {
        Ok(v) => v,
        Err(e) => {
            return Err(e);
        },
    };
    let (bones, p4) = match rd_animated_bones(b, p3) {
        Ok(v) => v,
        Err(e) => {
            return Err(e);
        },
    };
    let p5 = match rd_animated_iks(b, p4) {
        Ok(v) => v,
        Err(e) => {
            return Err(e);
        },
    };
    let p6 = match rd_animated_transforms(b, p5) {
        Ok(v) => v,
        Err(e) => {
            return Err(e);
        },
    };
    let p7 = match rd_zero_byte(b, p6) {
        Ok(v) => v,
        Err(e) => {
            return Err(e);
        },
    };
    let p8 = match rd_zero_byte(b, p7) {
        Ok(v) => v,
        Err(e) => {
            return Err(e);
        },
    };
    let p9 = match rd_draw_orders(b, p8) {
        Ok(v) => v,
        Err(e) => {
            return Err(e);
        },
    };
    let p10 = match rd_animated_events(b, p9) {
        Ok(v) => v,
        Err(e) => {
            return Err(e);
        },
    };
    Ok((Animation { name, bones, slots }, p10))
}

/// The animation section.
pub open spec fn sp_animations_rec(
    strings: Seq<Seq<char>>,
    b: Seq<u8>,
    pos: usize,
    remaining: nat,
    acc: Seq<SpecAnimation>,
) -> Result<(Seq<SpecAnimation>, usize), SpinalError>
    decreases remaining,
{
    if remaining == 0 {
        Ok((acc, pos))
    } else {
        match sp_animation(strings, b, pos) {
            Ok((a, p)) => sp_animations_rec(strings, b, p, (remaining - 1) as nat, acc.push(a)),
            Err(e) => Err(e),
        }
    }
}

pub open spec fn sp_animations(strings: Seq<Seq<char>>, b: Seq<u8>, pos: usize) -> Result<
    (Seq<SpecAnimation>, usize),
    SpinalError,
> {
    match sp_varint(b, pos, Field::Count) {
        Ok((n, p)) => sp_animations_rec(strings, b, p, n as nat, Seq::empty()),
        Err(e) => Err(e),
    }
}

pub fn rd_animations(strings: &Vec<String>, b: &[u8], pos: usize) -> (r: Result<(Vec<Animation>, usize), SpinalError>)
    ensures
        r matches Ok((v, p)) ==> sp_animations(strings.deep_view(), b@, pos) == Ok::<
            (Seq<SpecAnimation>, usize),
            SpinalError,
        >((v.deep_view(), p)),
        r matches Err(e) ==> sp_animations(strings.deep_view(), b@, pos) == Err::<
            (Seq<SpecAnimation>, usize),
            SpinalError,
        >(e),
{
    let (n, p0) = match rd_varint(b, pos, Field::Count) {
        Ok(v) => v,
        Err(e) => {
            return Err(e);
        },
    };
    let mut items: Vec<Animation> = Vec::new();
    let mut p: usize = p0;
    let mut i: u32 = 0;
    proof {
        assert(items.deep_view() =~= Seq::<SpecAnimation>::empty());
    }
    while i < n
        invariant
            i <= n,
            sp_animations(strings.deep_view(), b@, pos) == sp_animations_rec(
                strings.deep_view(),
                b@,
                p,
                (n - i) as nat,
                items.deep_view(),
            ),
        decreases n - i,
    {
        let ghost acc = items.deep_view();
        proof {
            reveal_with_fuel(sp_animations_rec, 2);
        }
        let (a, pn) = match rd_animation(strings, b, p) {
            Ok(v) => v,
            Err(e) => {
                return Err(e);
            },
        };
        let ghost adv = a@;
        items.push(a);
        proof {
            assert(items.deep_view() =~= acc.push(adv));
        }
        p = pn;
        i = i + 1;
    }
    proof {
        reveal_with_fuel(sp_animations_rec, 2);
    }
    Ok((items, p))
}

} // verus!
