//! Path constraints.
use vstd::prelude::*;
use crate::num::Scalar;

verus! {

/// A path constraint: moves bones along a path attachment.
#[derive(Debug, Clone, PartialEq)]
pub struct Path {
    /// The constraint name, unique in the skeleton.
    pub name: String,
    /// The ordinal for the order constraints are applied in.
    pub order_index: u32,
    /// If true, the constraint applies only when the active skin has it.
    pub skin_required: bool,
    /// The bones the constraint controls.
    pub bones: Vec<usize>,
    /// The target slot.
    pub target_slot: usize,
    /// How the path position is measured.
    pub position_mode: PathPositionMode,
    /// How the spacing between bones is measured.
    pub spacing_mode: PathSpacingMode,
    /// How the bone rotation follows the path.
    pub rotate_mode: PathRotateMode,
    /// Rotation offset from the path rotation, in degrees.
    pub offset_rotation: Scalar,
    /// The path position.
    pub position: Scalar,
    /// The spacing between bones.
    pub spacing: Scalar,
    /// Rotation influence from 0 to 1.
    pub rotate_mix: Scalar,
    /// Translation influence from 0 to 1.
    pub translate_mix: Scalar,
}

/// The mathematical value of a [`Path`] constraint.
pub struct SpecPath {
    pub name: Seq<char>,
    pub order_index: u32,
    pub skin_required: bool,
    pub bones: Seq<usize>,
    pub target_slot: usize,
    pub position_mode: PathPositionMode,
    pub spacing_mode: PathSpacingMode,
    pub rotate_mode: PathRotateMode,
    pub offset_rotation: Scalar,
    pub position: Scalar,
    pub spacing: Scalar,
    pub rotate_mix: Scalar,
    pub translate_mix: Scalar,
}

impl View for Path {
    type V = SpecPath;

    open spec fn view(&self) -> SpecPath {
        SpecPath {
            name: self.name@,
            order_index: self.order_index,
            skin_required: self.skin_required,
            bones: self.bones@,
            target_slot: self.target_slot,
            position_mode: self.position_mode,
            spacing_mode: self.spacing_mode,
            rotate_mode: self.rotate_mode,
            offset_rotation: self.offset_rotation,
            position: self.position,
            spacing: self.spacing,
            rotate_mix: self.rotate_mix,
            translate_mix: self.translate_mix,
        }
    }
}

impl DeepView for Path {
    type V = SpecPath;

    open spec fn deep_view(&self) -> SpecPath {
        self.view()
    }
}

#[derive(Debug, Clone, Copy, PartialEq, Eq, Structural)]
pub enum PathPositionMode {
    Fixed,
    Percent,
}

#[derive(Debug, Clone, Copy, PartialEq, Eq, Structural)]
pub enum PathSpacingMode {
    Length,
    Fixed,
    Percent,
}

#[derive(Debug, Clone, Copy, PartialEq, Eq, Structural)]
pub enum PathRotateMode {
    Tangent,
    Chain,
    ChainScale,
}

/// The position mode a discriminant selects, if it is in range.
pub open spec fn spec_position_mode_from_repr(v: u32) -> Option<PathPositionMode> {
    if v == 0 {
        Some(PathPositionMode::Fixed)
    } else if v == 1 {
        Some(PathPositionMode::Percent)
    } else {
        None
    }
}

/// The spacing mode a discriminant selects, if it is in range.
pub open spec fn spec_spacing_mode_from_repr(v: u32) -> Option<PathSpacingMode> {
    if v == 0 {
        Some(PathSpacingMode::Length)
    } else if v == 1 {
        Some(PathSpacingMode::Fixed)
    } else if v == 2 {
        Some(PathSpacingMode::Percent)
    } else {
        None
    }
}

/// The rotate mode a discriminant selects, if it is in range.
pub open spec fn spec_rotate_mode_from_repr(v: u32) -> Option<PathRotateMode> {
    if v == 0 {
        Some(PathRotateMode::Tangent)
    } else if v == 1 {
        Some(PathRotateMode::Chain)
    } else if v == 2 {
        Some(PathRotateMode::ChainScale)
    } else {
        None
    }
}

impl PathPositionMode {
    pub fn from_repr(v: u32) -> (r: Option<PathPositionMode>)
        ensures
            r == spec_position_mode_from_repr(v),
    {
        match v {
            0 => Some(PathPositionMode::Fixed),
            1 => Some(PathPositionMode::Percent),
            _ => None,
        }
    }
}

impl PathSpacingMode {
    pub fn from_repr(v: u32) -> (r: Option<PathSpacingMode>)
        ensures
            r == spec_spacing_mode_from_repr(v),
    {
        match v {
            0 => Some(PathSpacingMode::Length),
            1 => Some(PathSpacingMode::Fixed),
            2 => Some(PathSpacingMode::Percent),
            _ => None,
        }
    }
}

impl PathRotateMode {
    pub fn from_repr(v: u32) -> (r: Option<PathRotateMode>)
        ensures
            r == spec_rotate_mode_from_repr(v),
    {
        match v {
            0 => Some(PathRotateMode::Tangent),
            1 => Some(PathRotateMode::Chain),
            2 => Some(PathRotateMode::ChainScale),
            _ => None,
        }
    }
}

} // verus!
