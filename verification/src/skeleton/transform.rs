//! Transform constraints.
use vstd::prelude::*;
use crate::geom::Vec2;
use crate::num::Scalar;

verus! {

/// A transform constraint: drives bones toward a target bone's transform.
#[derive(Debug, Clone, PartialEq)]
pub struct Transform {
    /// The constraint name, unique in the skeleton.
    pub name: String,
    /// The ordinal for the order constraints are applied in.
    pub order_index: u32,
    /// If true, the constraint applies only when the active skin has it.
    pub skin_required: bool,
    /// The bones the constraint controls.
    pub bones: Vec<usize>,
    /// The target bone.
    pub target: usize,
    /// If true, the target's local transform is read, else its world one.
    pub local: bool,
    /// If true, offsets apply relatively, else absolutely.
    pub relative: bool,
    /// Rotation offset from the target, in degrees.
    pub offset_rotation: Scalar,
    /// Translation offset from the target.
    pub offset_distance: Vec2,
    /// Scale offset from the target.
    pub offset_scale: Vec2,
    /// Shear-Y offset from the target.
    pub offset_shear_y: Scalar,
    /// Rotation influence from 0 to 1.
    pub rotate_mix: Scalar,
    /// Translation influence per axis.
    pub translate_mix: Vec2,
    /// Scale influence per axis.
    pub scale_mix: Vec2,
    /// Shear-Y influence.
    pub shear_mix_y: Scalar,
}

/// The mathematical value of a [`Transform`] constraint.
pub struct SpecTransform {
    pub name: Seq<char>,
    pub order_index: u32,
    pub skin_required: bool,
    pub bones: Seq<usize>,
    pub target: usize,
    pub local: bool,
    pub relative: bool,
    pub offset_rotation: Scalar,
    pub offset_distance: Vec2,
    pub offset_scale: Vec2,
    pub offset_shear_y: Scalar,
    pub rotate_mix: Scalar,
    pub translate_mix: Vec2,
    pub scale_mix: Vec2,
    pub shear_mix_y: Scalar,
}

impl View for Transform {
    type V = SpecTransform;

    open spec fn view(&self) -> SpecTransform {
        SpecTransform {
            name: self.name@,
            order_index: self.order_index,
            skin_required: self.skin_required,
            bones: self.bones@,
            target: self.target,
            local: self.local,
            relative: self.relative,
            offset_rotation: self.offset_rotation,
            offset_distance: self.offset_distance,
            offset_scale: self.offset_scale,
            offset_shear_y: self.offset_shear_y,
            rotate_mix: self.rotate_mix,
            translate_mix: self.translate_mix,
            scale_mix: self.scale_mix,
            shear_mix_y: self.shear_mix_y,
        }
    }
}

impl DeepView for Transform {
    type V = SpecTransform;

    open spec fn deep_view(&self) -> SpecTransform {
        self.view()
    }
}

} // verus!
