//! Bones: rigid segments in a parent-linked hierarchy.
use vstd::prelude::*;
use crate::color::Color;
use crate::geom::Vec2;
use crate::num::Scalar;

verus! {

/// How a bone inherits its parent's world transform. Only full inheritance
/// (`Normal`) is evaluated by the pose engine; the other modes are carried
/// through decoding and reported when posing.
#[derive(Debug, Clone, Copy, PartialEq, Eq, Structural)]
pub enum ParentTransform {
    Normal,
    OnlyTranslation,
    NoRotationOrReflection,
    NoScale,
    NoScaleOrReflection,
}

/// The mode a discriminant byte selects, if it is in range.
pub open spec fn spec_parent_transform_from_repr(v: u8) -> Option<ParentTransform> {
    if v == 0 {
        Some(ParentTransform::Normal)
    } else if v == 1 {
        Some(ParentTransform::OnlyTranslation)
    } else if v == 2 {
        Some(ParentTransform::NoRotationOrReflection)
    } else if v == 3 {
        Some(ParentTransform::NoScale)
    } else if v == 4 {
        Some(ParentTransform::NoScaleOrReflection)
    } else {
        None
    }
}

impl ParentTransform {
    /// The mode a discriminant byte selects, if it is in range.
    pub fn from_repr(v: u8) -> (r: Option<ParentTransform>)
        ensures
            r == spec_parent_transform_from_repr(v),
    {
        match v {
            0 => Some(ParentTransform::Normal),
            1 => Some(ParentTransform::OnlyTranslation),
            2 => Some(ParentTransform::NoRotationOrReflection),
            3 => Some(ParentTransform::NoScale),
            4 => Some(ParentTransform::NoScaleOrReflection),
            _ => None,
        }
    }

    /// The mode a discriminant byte selects, falling back to full inheritance.
    pub fn from_byte(v: u8) -> (r: ParentTransform)
        ensures
            spec_parent_transform_from_repr(v) matches Some(m) ==> r == m,
            spec_parent_transform_from_repr(v) is None ==> r == ParentTransform::Normal,
    {
        match ParentTransform::from_repr(v) {
            Some(m) => m,
            None => ParentTransform::Normal,
        }
    }
}

impl Default for ParentTransform {
    fn default() -> (r: Self)
        ensures
            r == ParentTransform::Normal,
    {
        ParentTransform::Normal
    }
}

/// One bone of the skeleton's rest pose.
#[derive(Debug, Clone, PartialEq)]
pub struct Bone {
    /// The bone name, unique in the skeleton.
    pub name: String,
    /// The parent bone's index; `None` exactly for the root, which is always
    /// the first bone in the list.
    pub parent: Option<usize>,
    /// The bone length, used only for debug drawing.
    pub length: Scalar,
    /// How the parent's world transform is inherited.
    pub transform: ParentTransform,
    /// If true, the bone is only active when the active skin has the bone.
    pub skin: bool,
    /// Position relative to the parent in the setup pose.
    pub position: Vec2,
    /// Rotation in degrees relative to the parent in the setup pose.
    pub rotation: Scalar,
    /// Scale in the setup pose.
    pub scale: Vec2,
    /// Shear in the setup pose.
    pub shear: Vec2,
    /// Debug color.
    pub color: Color,
}

/// The mathematical value of a [`Bone`]: the same fields with the name as a
/// character sequence.
pub struct SpecBone {
    pub name: Seq<char>,
    pub parent: Option<usize>,
    pub length: Scalar,
    pub transform: ParentTransform,
    pub skin: bool,
    pub position: Vec2,
    pub rotation: Scalar,
    pub scale: Vec2,
    pub shear: Vec2,
    pub color: Color,
}

impl View for Bone {
    type V = SpecBone;

    open spec fn view(&self) -> SpecBone {
        SpecBone {
            name: self.name@,
            parent: self.parent,
            length: self.length,
            transform: self.transform,
            skin: self.skin,
            position: self.position,
            rotation: self.rotation,
            scale: self.scale,
            shear: self.shear,
            color: self.color,
        }
    }
}

impl DeepView for Bone {
    type V = SpecBone;

    open spec fn deep_view(&self) -> SpecBone {
        self.view()
    }
}

} // verus!
