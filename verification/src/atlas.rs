//! The texture-atlas data model.
use vstd::prelude::*;
use crate::geom::Vec2;
use crate::num::{Scalar, SCALE};

pub mod parser;

verus! {

/// A parsed texture atlas: a sequence of pages.
#[derive(Debug, Clone, PartialEq)]
pub struct Atlas {
    pub pages: Vec<AtlasPage>,
}

/// One atlas page: its header and its regions, in declared packing order.
#[derive(Debug, Clone, PartialEq)]
pub struct AtlasPage {
    pub header: Header,
    pub regions: Vec<AtlasRegion>,
}

/// The header of an atlas page.
#[derive(Debug, Clone, PartialEq)]
pub struct Header {
    /// The image file name of this page.
    pub name: String,
    /// The width and height of the page image.
    pub size: Vec2,
    /// Whether the page image has premultiplied alpha.
    pub premultiplied_alpha: bool,
}

/// One packed region of an atlas page.
#[derive(Debug, Clone, PartialEq)]
pub struct AtlasRegion {
    /// The region name, used to find a region in the atlas.
    pub name: String,
    /// Distinguishes regions packed under the same name.
    pub index: Option<usize>,
    /// Pixel location and packed size within the page image.
    pub bounds: Option<Rect>,
    /// Stripped whitespace offsets and the original image size.
    pub offsets: Option<Rect>,
    /// Rotation of the stored region in degrees; 90 means the packed width
    /// and height are swapped relative to the displayed image.
    pub rotate: Scalar,
}

/// A rectangle: a corner position and a size.
#[derive(Debug, Clone, Copy, PartialEq, Eq, Structural)]
pub struct Rect {
    pub position: Vec2,
    pub size: Vec2,
}

impl DeepView for Rect {
    type V = Rect;

    open spec fn deep_view(&self) -> Rect {
        *self
    }
}

/// The mathematical value of an atlas page [`Header`].
pub struct SpecHeader {
    pub name: Seq<char>,
    pub size: Vec2,
    pub premultiplied_alpha: bool,
}

impl View for Header {
    type V = SpecHeader;

    open spec fn view(&self) -> SpecHeader {
        SpecHeader { name: self.name@, size: self.size, premultiplied_alpha: self.premultiplied_alpha }
    }
}

/// The mathematical value of an [`AtlasRegion`].
pub struct SpecAtlasRegion {
    pub name: Seq<char>,
    pub index: Option<usize>,
    pub bounds: Option<Rect>,
    pub offsets: Option<Rect>,
    pub rotate: Scalar,
}

impl View for AtlasRegion {
    type V = SpecAtlasRegion;

    open spec fn view(&self) -> SpecAtlasRegion {
        SpecAtlasRegion {
            name: self.name@,
            index: self.index,
            bounds: self.bounds,
            offsets: self.offsets,
            rotate: self.rotate,
        }
    }
}

impl DeepView for AtlasRegion {
    type V = SpecAtlasRegion;

    open spec fn deep_view(&self) -> SpecAtlasRegion {
        self.view()
    }
}

/// The mathematical value of an [`AtlasPage`].
pub struct SpecAtlasPage {
    pub header: SpecHeader,
    pub regions: Seq<SpecAtlasRegion>,
}

impl View for AtlasPage {
    type V = SpecAtlasPage;

    open spec fn view(&self) -> SpecAtlasPage {
        SpecAtlasPage { header: self.header@, regions: self.regions.deep_view() }
    }
}

impl DeepView for AtlasPage {
    type V = SpecAtlasPage;

    open spec fn deep_view(&self) -> SpecAtlasPage {
        self.view()
    }
}

/// The mathematical value of an [`Atlas`].
pub struct SpecAtlas {
    pub pages: Seq<SpecAtlasPage>,
}

impl View for Atlas {
    type V = SpecAtlas;

    open spec fn view(&self) -> SpecAtlas {
        SpecAtlas { pages: self.pages.deep_view() }
    }
}

/// The displayed size of a region: the packed bounds, with width and height
/// swapped back when the region was stored rotated a quarter turn.
pub open spec fn spec_display_size(r: SpecAtlasRegion) -> Vec2 {
    match r.bounds {
        None => Vec2 { x: Scalar { bits: 0 }, y: Scalar { bits: 0 } },
        Some(b) => {
            if r.rotate.bits == 90 * (SCALE as int) {
                Vec2 { x: b.size.y, y: b.size.x }
            } else {
                b.size
            }
        },
    }
}

impl AtlasRegion {
    /// The size this region is displayed at: packed bounds, unrotated.
    pub fn display_size(&self) -> (r: Vec2)
        ensures
            r == spec_display_size(self@),
    {
        match &self.bounds {
            None => Vec2::zero(),
            Some(b) => {
                if self.rotate.bits == 90 * SCALE {
                    Vec2 { x: b.size.y, y: b.size.x }
                } else {
                    b.size
                }
            },
        }
    }
}

} // verus!
