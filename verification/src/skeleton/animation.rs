//! Animations: named sets of per-bone and per-slot timelines.
use vstd::prelude::*;
use crate::color::Color;
use crate::geom::Vec2;
use crate::num::Scalar;

verus! {

/// A named animation.
#[derive(Debug, Clone, PartialEq)]
pub struct Animation {
    pub name: String,
    pub bones: Vec<AnimatedBone>,
    pub slots: Vec<AnimatedSlot>,
}

/// All timelines animating one bone.
#[derive(Debug, Clone, PartialEq)]
pub struct AnimatedBone {
    pub bone_index: usize,
    pub timelines: Vec<Timeline>,
}

/// An ordered list of keyframes of one kind.
#[derive(Debug, Clone, PartialEq)]
pub struct Timeline {
    /// Keyframes in time order, all of the same variant; every keyframe but
    /// the last carries the interpolation toward the next one.
    pub frames: Vec<BoneKeyframe>,
}

/// One keyframe of a bone timeline.
#[derive(Debug, Clone, PartialEq)]
pub struct BoneKeyframe {
    /// The keyframe time in seconds.
    pub time: Scalar,
    pub data: BoneKeyframeData,
}

/// The value a bone keyframe sets, with the interpolation toward the next
/// keyframe (`Interpolation::None` exactly on the last keyframe).
#[derive(Debug, Clone, PartialEq)]
pub enum BoneKeyframeData {
    BoneRotate(crate::Angle, Interpolation),
    BoneTranslate(Vec2, Interpolation),
    BoneScale(Vec2, Interpolation),
    BoneShear(Vec2, Interpolation),
}

/// How a keyframe's value moves toward the next keyframe's value.
#[derive(Debug, Clone, PartialEq)]
pub enum Interpolation {
    /// Linear interpolation by the time fraction.
    Linear,
    /// The previous value holds until the next keyframe.
    Stepped,
    /// One cubic Bezier per animated channel, mapping the time fraction to a
    /// value fraction inside the unit square.
    Bezier(Vec<Bezier>),
    /// The last keyframe of a timeline carries no interpolation.
    End,
}

/// The two control points of a unit-square cubic Bezier: the x axis is the
/// fraction of the time between two keyframes, the y axis the fraction of
/// the difference between their values.
#[derive(Debug, Clone, Copy, PartialEq, Eq, Structural)]
pub struct Bezier {
    pub cx1: Scalar,
    pub cy1: Scalar,
    pub cx2: Scalar,
    pub cy2: Scalar,
}

/// All timelines animating one slot.
#[derive(Debug, Clone, PartialEq)]
pub struct AnimatedSlot {
    pub slot_index: usize,
    pub keyframes: Vec<SlotKeyframe>,
}

/// One keyframe of a slot timeline.
#[derive(Debug, Clone, PartialEq)]
pub enum SlotKeyframe {
    /// Switch the slot's active attachment (or clear it) at a time.
    Attachment(Scalar, Option<String>),
    /// Set the slot tint at a time.
    OneColor(Scalar, Color, Interpolation),
    /// Set the slot tint and dark tint at a time.
    TwoColor(Scalar, Color, Color, Interpolation),
}

impl DeepView for Bezier {
    type V = Bezier;

    open spec fn deep_view(&self) -> Bezier {
        *self
    }
}

/// The mathematical value of an [`Interpolation`].
pub enum SpecInterpolation {
    Linear,
    Stepped,
    Bezier(Seq<Bezier>),
    End,
}

impl View for Interpolation {
    type V = SpecInterpolation;

    open spec fn view(&self) -> SpecInterpolation {
        match self {
            Interpolation::Linear => SpecInterpolation::Linear,
            Interpolation::Stepped => SpecInterpolation::Stepped,
            Interpolation::Bezier(c) => SpecInterpolation::Bezier(c.deep_view()),
            Interpolation::End => SpecInterpolation::End,
        }
    }
}

/// The mathematical value of a [`BoneKeyframeData`].
pub enum SpecBoneKeyframeData {
    BoneRotate(crate::Angle, SpecInterpolation),
    BoneTranslate(Vec2, SpecInterpolation),
    BoneScale(Vec2, SpecInterpolation),
    BoneShear(Vec2, SpecInterpolation),
}

impl View for BoneKeyframeData {
    type V = SpecBoneKeyframeData;

    open spec fn view(&self) -> SpecBoneKeyframeData {
        match self {
            BoneKeyframeData::BoneRotate(a, i) => SpecBoneKeyframeData::BoneRotate(*a, i@),
            BoneKeyframeData::BoneTranslate(v, i) => SpecBoneKeyframeData::BoneTranslate(*v, i@),
            BoneKeyframeData::BoneScale(v, i) => SpecBoneKeyframeData::BoneScale(*v, i@),
            BoneKeyframeData::BoneShear(v, i) => SpecBoneKeyframeData::BoneShear(*v, i@),
        }
    }
}

/// The mathematical value of a [`BoneKeyframe`].
pub struct SpecBoneKeyframe {
    pub time: Scalar,
    pub data: SpecBoneKeyframeData,
}

impl View for BoneKeyframe {
    type V = SpecBoneKeyframe;

    open spec fn view(&self) -> SpecBoneKeyframe {
        SpecBoneKeyframe { time: self.time, data: self.data@ }
    }
}

impl DeepView for BoneKeyframe {
    type V = SpecBoneKeyframe;

    open spec fn deep_view(&self) -> SpecBoneKeyframe {
        self.view()
    }
}

/// The mathematical value of a [`Timeline`].
pub struct SpecTimeline {
    pub frames: Seq<SpecBoneKeyframe>,
}

impl View for Timeline {
    type V = SpecTimeline;

    open spec fn view(&self) -> SpecTimeline {
        SpecTimeline { frames: self.frames.deep_view() }
    }
}

impl DeepView for Timeline {
    type V = SpecTimeline;

    open spec fn deep_view(&self) -> SpecTimeline {
        self.view()
    }
}

/// The mathematical value of an [`AnimatedBone`].
pub struct SpecAnimatedBone {
    pub bone_index: usize,
    pub timelines: Seq<SpecTimeline>,
}

impl View for AnimatedBone {
    type V = SpecAnimatedBone;

    open spec fn view(&self) -> SpecAnimatedBone {
        SpecAnimatedBone { bone_index: self.bone_index, timelines: self.timelines.deep_view() }
    }
}

impl DeepView for AnimatedBone {
    type V = SpecAnimatedBone;

    open spec fn deep_view(&self) -> SpecAnimatedBone {
        self.view()
    }
}

/// The mathematical value of a [`SlotKeyframe`].
pub enum SpecSlotKeyframe {
    Attachment(Scalar, Option<Seq<char>>),
    OneColor(Scalar, Color, SpecInterpolation),
    TwoColor(Scalar, Color, Color, SpecInterpolation),
}

impl View for SlotKeyframe {
    type V = SpecSlotKeyframe;

    open spec fn view(&self) -> SpecSlotKeyframe {
        match self {
            SlotKeyframe::Attachment(t, a) => SpecSlotKeyframe::Attachment(*t, a.deep_view()),
            SlotKeyframe::OneColor(t, c, i) => SpecSlotKeyframe::OneColor(*t, *c, i@),
            SlotKeyframe::TwoColor(t, c, d, i) => SpecSlotKeyframe::TwoColor(*t, *c, *d, i@),
        }
    }
}

impl DeepView for SlotKeyframe {
    type V = SpecSlotKeyframe;

    open spec fn deep_view(&self) -> SpecSlotKeyframe {
        self.view()
    }
}

/// The mathematical value of an [`AnimatedSlot`].
pub struct SpecAnimatedSlot {
    pub slot_index: usize,
    pub keyframes: Seq<SpecSlotKeyframe>,
}

impl View for AnimatedSlot {
    type V = SpecAnimatedSlot;

    open spec fn view(&self) -> SpecAnimatedSlot {
        SpecAnimatedSlot { slot_index: self.slot_index, keyframes: self.keyframes.deep_view() }
    }
}

impl DeepView for AnimatedSlot {
    type V = SpecAnimatedSlot;

    open spec fn deep_view(&self) -> SpecAnimatedSlot {
        self.view()
    }
}

/// The mathematical value of an [`Animation`].
pub struct SpecAnimation {
    pub name: Seq<char>,
    pub bones: Seq<SpecAnimatedBone>,
    pub slots: Seq<SpecAnimatedSlot>,
}

impl View for Animation {
    type V = SpecAnimation;

    open spec fn view(&self) -> SpecAnimation {
        SpecAnimation { name: self.name@, bones: self.bones.deep_view(), slots: self.slots.deep_view() }
    }
}

impl DeepView for Animation {
    type V = SpecAnimation;

    open spec fn deep_view(&self) -> SpecAnimation {
        self.view()
    }
}

} // verus!
