//! The skeleton info block.
use vstd::prelude::*;
use crate::geom::Vec2;
use crate::num::Scalar;

verus! {

/// The header of a skeleton file: identity, version and setup-pose bounds.
#[derive(Debug, Clone, PartialEq)]
pub struct Info {
    /// A hash of all the skeleton data, as lowercase hexadecimal digits.
    pub hash: String,
    /// The version of the authoring tool that exported the data.
    pub version: String,
    /// The bottom-left corner of the setup-pose bounding box.
    pub bottom_left: Vec2,
    /// The width and height of the setup-pose bounding box.
    pub size: Vec2,
    /// The dopesheet framerate in frames per second, when exported.
    pub fps: Option<Scalar>,
    /// The images path, when exported.
    pub images: Option<String>,
    /// The audio path, when exported.
    pub audio: Option<String>,
}

/// The mathematical value of an [`Info`] block.
pub struct SpecInfo {
    pub hash: Seq<char>,
    pub version: Seq<char>,
    pub bottom_left: Vec2,
    pub size: Vec2,
    pub fps: Option<Scalar>,
    pub images: Option<Seq<char>>,
    pub audio: Option<Seq<char>>,
}

impl View for Info {
    type V = SpecInfo;

    open spec fn view(&self) -> SpecInfo {
        SpecInfo {
            hash: self.hash@,
            version: self.version@,
            bottom_left: self.bottom_left,
            size: self.size,
            fps: self.fps,
            images: self.images.deep_view(),
            audio: self.audio.deep_view(),
        }
    }
}

impl Info {
    /// Holds of the info block before any field is decoded.
    pub open spec fn spec_is_default(self) -> bool {
        &&& self.hash@ =~= Seq::<char>::empty()
        &&& self.version@ =~= Seq::<char>::empty()
        &&& self.bottom_left == (Vec2 { x: Scalar { bits: 0 }, y: Scalar { bits: 0 } })
        &&& self.size == (Vec2 { x: Scalar { bits: 0 }, y: Scalar { bits: 0 } })
        &&& self.fps is None
        &&& self.images is None
        &&& self.audio is None
    }

    pub fn empty() -> (r: Info)
        ensures
            r.spec_is_default(),
    {
        Info {
            hash: String::new(),
            version: String::new(),
            bottom_left: Vec2::zero(),
            size: Vec2::zero(),
            fps: None,
            images: None,
            audio: None,
        }
    }

    /// The setup-pose bounding-box size.
    pub fn size(&self) -> (r: Vec2)
        ensures
            r == self.size,
    {
        self.size
    }

    /// The bottom-left corner of the setup-pose bounding box.
    pub fn origin(&self) -> (r: Vec2)
        ensures
            r == self.bottom_left,
    {
        self.bottom_left
    }
}

} // verus!
