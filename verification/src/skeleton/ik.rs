//! Inverse-kinematics constraints.
use vstd::prelude::*;
use crate::num::Scalar;

verus! {

/// An IK constraint: bends a chain of one or two bones toward a target bone.
#[derive(Debug, Clone, PartialEq)]
pub struct Ik {
    /// The constraint name, unique in the skeleton.
    pub name: String,
    /// The ordinal for the order constraints are applied in.
    pub order: u32,
    /// If true, the constraint applies only when the active skin has it.
    pub skin: bool,
    /// The one or two bones whose rotation the constraint controls.
    pub bones: Vec<usize>,
    /// The target bone.
    pub target: usize,
    /// Influence from 0 (none) to 1 (only IK).
    pub mix: Scalar,
    /// For two-bone IK, the distance from maximum reach where rotation slows.
    pub softness: Scalar,
    /// If true, the bones bend in the positive rotation direction.
    pub bend_positive: bool,
    /// If true (single bone), the bone scales to reach a too-close target.
    pub compress: bool,
    /// If true, the parent bone scales to reach an out-of-range target.
    pub stretch: bool,
    /// If true (single bone), scaling applies on both axes.
    pub uniform: bool,
}

/// The mathematical value of an [`Ik`] constraint.
pub struct SpecIk {
    pub name: Seq<char>,
    pub order: u32,
    pub skin: bool,
    pub bones: Seq<usize>,
    pub target: usize,
    pub mix: Scalar,
    pub softness: Scalar,
    pub bend_positive: bool,
    pub compress: bool,
    pub stretch: bool,
    pub uniform: bool,
}

impl View for Ik {
    type V = SpecIk;

    open spec fn view(&self) -> SpecIk {
        SpecIk {
            name: self.name@,
            order: self.order,
            skin: self.skin,
            bones: self.bones@,
            target: self.target,
            mix: self.mix,
            softness: self.softness,
            bend_positive: self.bend_positive,
            compress: self.compress,
            stretch: self.stretch,
            uniform: self.uniform,
        }
    }
}

impl DeepView for Ik {
    type V = SpecIk;

    open spec fn deep_view(&self) -> SpecIk {
        self.view()
    }
}

} // verus!
