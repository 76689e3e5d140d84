//! A decoder and pose engine for a 2D skeletal-animation authoring tool's
//! exports: its binary skeleton format, the equivalent JSON format, and the
//! companion texture-atlas text format.
//!
//! Decoding builds an immutable [`Skeleton`]; the pose engine in [`state`]
//! computes per-bone world transforms and per-slot visible attachments from a
//! skeleton, an elapsed time, the active animation and user overrides. All
//! quantities are fixed-point scalars ([`Scalar`]), so every computation is
//! exact integer arithmetic, and each decoder and the pose pass are proved
//! equal to the specification functions beside them. Malformed input of any
//! of the three formats yields a typed [`SpinalError`], never a panic.
use vstd::prelude::*;

pub mod atlas;
pub mod binary;
pub mod color;
pub mod geom;
pub mod json;
pub mod num;
pub mod project;
pub mod skeleton;
pub mod state;
pub mod text;

pub use atlas::parser::AtlasParser;
pub use atlas::{Atlas, AtlasPage, AtlasRegion, Header, Rect};
pub use binary::BinarySkeletonParser;
pub use color::Color;
pub use geom::Vec2;
pub use num::Scalar;
pub use project::Project;
pub use skeleton::Skeleton;
pub use state::{BoneModification, BoneState, DetachedSkeletonState, SkeletonState, SlotInfo};

verus! {

/// Identifies the field being decoded when an error is reported.
#[derive(Debug, Clone, Copy, PartialEq, Eq, Structural)]
pub enum Field {
    Count,
    Document,
    Hash,
    Version,
    Origin,
    Size,
    NonEssential,
    Fps,
    Images,
    Audio,
    StringTable,
    BoneName,
    BoneParent,
    BoneValue,
    TransformMode,
    SlotName,
    SlotBone,
    SlotColor,
    SlotAttachment,
    Blend,
    IkName,
    IkBones,
    IkValue,
    Bend,
    ConstraintName,
    ConstraintValue,
    PathMode,
    SkinName,
    SkinSlot,
    AttachmentName,
    AttachmentTag,
    AttachmentValue,
    VertexData,
    EventName,
    EventValue,
    AnimationName,
    AtlasTitle,
    AtlasValue,
    TimelineTag,
    KeyframeValue,
    CurveTag,
}

/// What went wrong while reading a field.
#[derive(Debug, Clone, Copy, PartialEq, Eq, Structural)]
pub enum DecodeKind {
    /// The buffer ended before the field was complete.
    Truncated,
    /// The bytes of a string are not valid UTF-8.
    InvalidUtf8,
    /// A tag, discriminant or count is outside its allowed range.
    BadValue,
}

/// A malformed byte or text sequence, identified by byte offset and field.
#[derive(Debug, Clone, Copy, PartialEq, Eq, Structural)]
pub struct DecodeError {
    pub offset: usize,
    pub field: Field,
    pub kind: DecodeKind,
}

/// A reference that does not resolve.
#[derive(Debug, Clone, PartialEq)]
pub enum ReferenceError {
    /// An indirect string-table index outside the table.
    StringIndex(usize),
    /// A bone index outside the bone list.
    BoneIndex(usize),
    /// A slot index outside the slot list.
    SlotIndex(usize),
    /// A bone name with no bone of that name.
    BoneName(String),
    /// A slot name with no slot of that name.
    SlotName(String),
}

/// A structurally invalid skeleton.
#[derive(Debug, Clone, Copy, PartialEq, Eq, Structural)]
pub enum StructureError {
    /// A non-root bone whose parent is not defined earlier in the list.
    ParentOutOfOrder(usize),
    /// A bone after the first claims to be the root.
    DuplicateRoot(usize),
}

/// The one error type every decoder and the pose engine return.
#[derive(Debug, Clone, PartialEq)]
pub enum SpinalError {
    Decode(DecodeError),
    Reference(ReferenceError),
    Structure(StructureError),
}

/// The mathematical value of a [`ReferenceError`]: names as characters.
pub enum SpecReferenceError {
    StringIndex(usize),
    BoneIndex(usize),
    SlotIndex(usize),
    BoneName(Seq<char>),
    SlotName(Seq<char>),
}

impl View for ReferenceError {
    type V = SpecReferenceError;

    open spec fn view(&self) -> SpecReferenceError {
        match self {
            ReferenceError::StringIndex(i) => SpecReferenceError::StringIndex(*i),
            ReferenceError::BoneIndex(i) => SpecReferenceError::BoneIndex(*i),
            ReferenceError::SlotIndex(i) => SpecReferenceError::SlotIndex(*i),
            ReferenceError::BoneName(n) => SpecReferenceError::BoneName(n@),
            ReferenceError::SlotName(n) => SpecReferenceError::SlotName(n@),
        }
    }
}

/// The mathematical value of a [`SpinalError`].
pub enum SpecSpinalError {
    Decode(DecodeError),
    Reference(SpecReferenceError),
    Structure(StructureError),
}

impl View for SpinalError {
    type V = SpecSpinalError;

    open spec fn view(&self) -> SpecSpinalError {
        match self {
            SpinalError::Decode(e) => SpecSpinalError::Decode(*e),
            SpinalError::Reference(e) => SpecSpinalError::Reference(e@),
            SpinalError::Structure(e) => SpecSpinalError::Structure(*e),
        }
    }
}

/// An angle, held either in radians or in degrees.
#[derive(Debug, Clone, Copy, PartialEq, Eq, Structural)]
pub enum Angle {
    Radians(Scalar),
    Degrees(Scalar),
}

/// Degrees corresponding to an angle value: the identity on degrees,
/// and multiplication by 180/pi (in fixed point) on radians.
pub open spec fn spec_to_degrees(a: Angle) -> int {
    match a {
        Angle::Degrees(d) => d.bits as int,
        Angle::Radians(r) => crate::num::muldiv_spec(
            r.bits as int,
            crate::num::DEG_HALF_TURN as int,
            crate::num::PI_BITS as int,
        ),
    }
}

/// Radians corresponding to an angle value.
pub open spec fn spec_to_radians(a: Angle) -> int {
    match a {
        Angle::Radians(r) => r.bits as int,
        Angle::Degrees(d) => crate::num::muldiv_spec(
            d.bits as int,
            crate::num::PI_BITS as int,
            crate::num::DEG_HALF_TURN as int,
        ),
    }
}

impl Angle {
    pub fn radians(a: Scalar) -> (r: Angle)
        ensures
            r == Angle::Radians(a),
    {
        Angle::Radians(a)
    }

    pub fn degrees(a: Scalar) -> (r: Angle)
        ensures
            r == Angle::Degrees(a),
    {
        Angle::Degrees(a)
    }

    pub fn to_degrees(&self) -> (r: Scalar)
        ensures
            r.bits as int == spec_to_degrees(*self),
    {
        match self {
            Angle::Degrees(d) => *d,
            Angle::Radians(r) => Scalar {
                bits: crate::num::muldiv(r.bits, crate::num::DEG_HALF_TURN, crate::num::PI_BITS),
            },
        }
    }

    pub fn to_radians(&self) -> (r: Scalar)
        ensures
            r.bits as int == spec_to_radians(*self),
    {
        match self {
            Angle::Radians(r) => *r,
            Angle::Degrees(d) => Scalar {
                bits: crate::num::muldiv(d.bits, crate::num::PI_BITS, crate::num::DEG_HALF_TURN),
            },
        }
    }

    /// Add another angle in place, keeping this angle's unit.
    pub fn add_assign(&mut self, rhs: Angle)
        ensures
            *old(self) is Degrees ==> *final(self) == Angle::Degrees(
                Scalar { bits: crate::num::sadd(spec_to_degrees(*old(self)), spec_to_degrees(rhs)) as i64 },
            ),
            *old(self) is Radians ==> *final(self) == Angle::Radians(
                Scalar { bits: crate::num::sadd(spec_to_radians(*old(self)), spec_to_radians(rhs)) as i64 },
            ),
    {
        match self {
            Angle::Degrees(d) => {
                let s = crate::num::sat_add(d.bits, rhs.to_degrees().bits);
                *self = Angle::Degrees(Scalar { bits: s });
            },
            Angle::Radians(r) => {
                let s = crate::num::sat_add(r.bits, rhs.to_radians().bits);
                *self = Angle::Radians(Scalar { bits: s });
            },
        }
    }
}

impl Default for Angle {
    fn default() -> (r: Self)
        ensures
            r == Angle::Radians(Scalar { bits: 0 }),
    {
        Angle::Radians(Scalar { bits: 0 })
    }
}

} // verus!
