//! Slots: named attachment points bound to one bone.
use vstd::prelude::*;
use crate::color::Color;

verus! {

/// One slot of the skeleton's rest pose.
#[derive(Debug, Clone, PartialEq)]
pub struct Slot {
    /// The slot name, unique in the skeleton.
    pub name: String,
    /// The index of the bone this slot is attached to.
    pub bone: usize,
    /// Tint for the setup pose.
    pub color: Color,
    /// Dark tint for two-color tinting, when used.
    pub dark: Option<Color>,
    /// Name of the attachment visible in the setup pose, if any.
    pub attachment: Option<String>,
    /// How the visible attachment is blended.
    pub blend: Blend,
}

/// The mathematical value of a [`Slot`].
pub struct SpecSlot {
    pub name: Seq<char>,
    pub bone: usize,
    pub color: Color,
    pub dark: Option<Color>,
    pub attachment: Option<Seq<char>>,
    pub blend: Blend,
}

impl View for Slot {
    type V = SpecSlot;

    open spec fn view(&self) -> SpecSlot {
        SpecSlot {
            name: self.name@,
            bone: self.bone,
            color: self.color,
            dark: self.dark,
            attachment: self.attachment.deep_view(),
            blend: self.blend,
        }
    }
}

impl DeepView for Slot {
    type V = SpecSlot;

    open spec fn deep_view(&self) -> SpecSlot {
        self.view()
    }
}

#[derive(Debug, Clone, Copy, PartialEq, Eq, Structural)]
pub enum Blend {
    Normal,
    Additive,
    Multiply,
    Screen,
}

/// The blend mode a discriminant selects, if it is in range.
pub open spec fn spec_blend_from_repr(v: u32) -> Option<Blend> {
    if v == 0 {
        Some(Blend::Normal)
    } else if v == 1 {
        Some(Blend::Additive)
    } else if v == 2 {
        Some(Blend::Multiply)
    } else if v == 3 {
        Some(Blend::Screen)
    } else {
        None
    }
}

impl Blend {
    /// The blend mode a discriminant selects, if it is in range.
    pub fn from_repr(v: u32) -> (r: Option<Blend>)
        ensures
            r == spec_blend_from_repr(v),
    {
        match v {
            0 => Some(Blend::Normal),
            1 => Some(Blend::Additive),
            2 => Some(Blend::Multiply),
            3 => Some(Blend::Screen),
            _ => None,
        }
    }
}

impl Default for Blend {
    fn default() -> (r: Self)
        ensures
            r == Blend::Normal,
    {
        Blend::Normal
    }
}

} // verus!
