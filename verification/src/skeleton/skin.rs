//! Skins: named substitution sets of attachments over slots.
use vstd::prelude::*;
use crate::skeleton::attachment::Attachment;

verus! {

/// A skin: for non-default skins, the constraint subsets it requires, and
/// for every skin the attachments it offers per slot.
#[derive(Debug, Clone, PartialEq)]
pub struct Skin {
    pub name: String,
    /// Bones required by this skin; filled only for non-default skins.
    pub bones: Vec<usize>,
    /// IK constraints required by this skin; only for non-default skins.
    pub ik: Vec<usize>,
    /// Transform constraints required by this skin; only for non-default skins.
    pub transforms: Vec<usize>,
    /// Path constraints required by this skin; only for non-default skins.
    pub paths: Vec<usize>,
    /// Attachment collections per slot, in declaration order.
    pub slots: Vec<SkinSlot>,
}

/// The attachments a skin offers for one slot.
#[derive(Debug, Clone, PartialEq)]
pub struct SkinSlot {
    /// The slot index.
    pub slot: usize,
    /// The attachments available under this skin for that slot.
    pub attachments: Vec<Attachment>,
}

/// The mathematical value of a [`SkinSlot`].
pub struct SpecSkinSlot {
    pub slot: usize,
    pub attachments: Seq<crate::skeleton::attachment::SpecAttachment>,
}

impl View for SkinSlot {
    type V = SpecSkinSlot;

    open spec fn view(&self) -> SpecSkinSlot {
        SpecSkinSlot { slot: self.slot, attachments: self.attachments.deep_view() }
    }
}

impl DeepView for SkinSlot {
    type V = SpecSkinSlot;

    open spec fn deep_view(&self) -> SpecSkinSlot {
        self.view()
    }
}

/// The mathematical value of a [`Skin`].
pub struct SpecSkin {
    pub name: Seq<char>,
    pub bones: Seq<usize>,
    pub ik: Seq<usize>,
    pub transforms: Seq<usize>,
    pub paths: Seq<usize>,
    pub slots: Seq<SpecSkinSlot>,
}

impl View for Skin {
    type V = SpecSkin;

    open spec fn view(&self) -> SpecSkin {
        SpecSkin {
            name: self.name@,
            bones: self.bones@,
            ik: self.ik@,
            transforms: self.transforms@,
            paths: self.paths@,
            slots: self.slots.deep_view(),
        }
    }
}

impl DeepView for Skin {
    type V = SpecSkin;

    open spec fn deep_view(&self) -> SpecSkin {
        self.view()
    }
}

} // verus!
