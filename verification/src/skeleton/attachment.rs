//! Attachments: the visual payloads a skin assigns to slots.
use vstd::prelude::*;
use crate::color::Color;
use crate::geom::Vec2;
use crate::num::Scalar;

verus! {

/// An attachment as stored in a skin: the placeholder name it is filed
/// under, the name used to look up its texture region, and its data.
#[derive(Debug, Clone, PartialEq)]
pub struct Attachment {
    /// The name in the skin under which the attachment is stored.
    pub placeholder_name: String,
    /// The attachment name, used to look up the texture region; equal to the
    /// placeholder name when the file does not override it.
    pub attachment_name: String,
    pub data: AttachmentData,
}

/// The closed set of attachment variants.
#[derive(Debug, Clone, PartialEq)]
pub enum AttachmentData {
    Region(RegionAttachment),
    BoundingBox(BoundingBoxAttachment),
    Mesh(MeshAttachment),
    LinkedMesh(LinkedMeshAttachment),
    Path(PathAttachment),
    Point(PointAttachment),
    Clipping(ClippingAttachment),
}

/// A textured rectangle.
#[derive(Debug, Clone, PartialEq)]
pub struct RegionAttachment {
    /// Used instead of the attachment name to look up the texture region,
    /// when present.
    pub path: Option<String>,
    pub position: Vec2,
    pub scale: Vec2,
    /// Rotation in degrees.
    pub rotation: Scalar,
    pub size: Vec2,
    pub color: Color,
}

/// A polygon used for hit detection or physics.
#[derive(Debug, Clone, PartialEq)]
pub struct BoundingBoxAttachment {
    pub vertices: Vertices,
    pub color: Color,
}

/// A textured mesh whose vertices may be weighted to several bones.
#[derive(Debug, Clone, PartialEq)]
pub struct MeshAttachment {
    /// String-table index of the texture path; zero when absent.
    pub path_string: usize,
    pub color: Color,
    /// Texture coordinates per vertex.
    pub uvs: Vec<Vec2>,
    /// Triangle list: vertex indices, three per triangle.
    pub vertex_index: Vec<usize>,
    pub vertices: Vertices,
    /// The number of vertices making up the polygon hull; hull vertices come
    /// first in the vertex list.
    pub hull_count: usize,
    /// Edge index pairs; carried only when non-essential data is present.
    pub edges: Option<Vec<usize>>,
    /// The source image size; carried only when non-essential data is present.
    pub size: Option<Vec2>,
}

/// A mesh sharing the geometry of another mesh.
#[derive(Debug, Clone, PartialEq)]
pub struct LinkedMeshAttachment {
    pub path: Option<String>,
    pub skin: Option<String>,
    pub parent: Option<String>,
    /// If true, the mesh follows the parent mesh's deform timelines.
    pub deform: bool,
    pub color: Color,
    /// The source image size; carried only when non-essential data is present.
    pub size: Option<Vec2>,
}

/// A cubic spline, usually driving a path constraint.
#[derive(Debug, Clone, PartialEq)]
pub struct PathAttachment {
    pub closed: bool,
    pub constant_speed: bool,
}

/// A single point and rotation.
#[derive(Debug, Clone, PartialEq)]
pub struct PointAttachment {
    /// Rotation in degrees.
    pub rotation: Scalar,
    pub position: Vec2,
    pub color: Option<Color>,
}

/// A polygon that clips the drawing of other attachments.
#[derive(Debug, Clone, PartialEq)]
pub struct ClippingAttachment {
    /// The index of the slot where clipping stops.
    pub end_slot_index: usize,
    pub vertices: Vertices,
    pub color: Option<Color>,
}

/// Vertex data: plain positions, or per-vertex bone influences.
#[derive(Debug, Clone, PartialEq)]
pub enum Vertices {
    Positions { positions: Vec<Vec2> },
    BoneInfluenced { vertices: Vec<Vec<BoneInfluence>> },
}

/// One bone's influence on one vertex.
#[derive(Debug, Clone, PartialEq)]
pub struct BoneInfluence {
    /// The index of the influencing bone.
    pub index: usize,
    /// The vertex position local to that bone.
    pub position: Vec2,
    /// The weight of the influence.
    pub weight: Scalar,
}

impl DeepView for BoneInfluence {
    type V = BoneInfluence;

    open spec fn deep_view(&self) -> BoneInfluence {
        *self
    }
}

/// The mathematical value of a [`Vertices`] payload.
pub enum SpecVertices {
    Positions(Seq<Vec2>),
    BoneInfluenced(Seq<Seq<BoneInfluence>>),
}

impl View for Vertices {
    type V = SpecVertices;

    open spec fn view(&self) -> SpecVertices {
        match self {
            Vertices::Positions { positions } => SpecVertices::Positions(positions.deep_view()),
            Vertices::BoneInfluenced { vertices } => SpecVertices::BoneInfluenced(vertices.deep_view()),
        }
    }
}

/// The mathematical value of a [`RegionAttachment`].
pub struct SpecRegionAttachment {
    pub path: Option<Seq<char>>,
    pub position: Vec2,
    pub scale: Vec2,
    pub rotation: Scalar,
    pub size: Vec2,
    pub color: Color,
}

impl View for RegionAttachment {
    type V = SpecRegionAttachment;

    open spec fn view(&self) -> SpecRegionAttachment {
        SpecRegionAttachment {
            path: self.path.deep_view(),
            position: self.position,
            scale: self.scale,
            rotation: self.rotation,
            size: self.size,
            color: self.color,
        }
    }
}

/// The mathematical value of a [`BoundingBoxAttachment`].
pub struct SpecBoundingBoxAttachment {
    pub vertices: SpecVertices,
    pub color: Color,
}

impl View for BoundingBoxAttachment {
    type V = SpecBoundingBoxAttachment;

    open spec fn view(&self) -> SpecBoundingBoxAttachment {
        SpecBoundingBoxAttachment { vertices: self.vertices@, color: self.color }
    }
}

/// The mathematical value of a [`MeshAttachment`].
pub struct SpecMeshAttachment {
    pub path_string: usize,
    pub color: Color,
    pub uvs: Seq<Vec2>,
    pub vertex_index: Seq<usize>,
    pub vertices: SpecVertices,
    pub hull_count: usize,
    pub edges: Option<Seq<usize>>,
    pub size: Option<Vec2>,
}

impl View for MeshAttachment {
    type V = SpecMeshAttachment;

    open spec fn view(&self) -> SpecMeshAttachment {
        SpecMeshAttachment {
            path_string: self.path_string,
            color: self.color,
            uvs: self.uvs.deep_view(),
            vertex_index: self.vertex_index@,
            vertices: self.vertices@,
            hull_count: self.hull_count,
            edges: match self.edges {
                Some(e) => Some(e@),
                None => None,
            },
            size: self.size,
        }
    }
}

/// The mathematical value of a [`LinkedMeshAttachment`].
pub struct SpecLinkedMeshAttachment {
    pub path: Option<Seq<char>>,
    pub skin: Option<Seq<char>>,
    pub parent: Option<Seq<char>>,
    pub deform: bool,
    pub color: Color,
    pub size: Option<Vec2>,
}

impl View for LinkedMeshAttachment {
    type V = SpecLinkedMeshAttachment;

    open spec fn view(&self) -> SpecLinkedMeshAttachment {
        SpecLinkedMeshAttachment {
            path: self.path.deep_view(),
            skin: self.skin.deep_view(),
            parent: self.parent.deep_view(),
            deform: self.deform,
            color: self.color,
            size: self.size,
        }
    }
}

/// The mathematical value of a [`ClippingAttachment`].
pub struct SpecClippingAttachment {
    pub end_slot_index: usize,
    pub vertices: SpecVertices,
    pub color: Option<Color>,
}

impl View for ClippingAttachment {
    type V = SpecClippingAttachment;

    open spec fn view(&self) -> SpecClippingAttachment {
        SpecClippingAttachment { end_slot_index: self.end_slot_index, vertices: self.vertices@, color: self.color }
    }
}

/// The mathematical value of an [`AttachmentData`] variant.
pub enum SpecAttachmentData {
    Region(SpecRegionAttachment),
    BoundingBox(SpecBoundingBoxAttachment),
    Mesh(SpecMeshAttachment),
    LinkedMesh(SpecLinkedMeshAttachment),
    Path(PathAttachment),
    Point(PointAttachment),
    Clipping(SpecClippingAttachment),
}

impl View for AttachmentData {
    type V = SpecAttachmentData;

    open spec fn view(&self) -> SpecAttachmentData {
        match self {
            AttachmentData::Region(a) => SpecAttachmentData::Region(a@),
            AttachmentData::BoundingBox(a) => SpecAttachmentData::BoundingBox(a@),
            AttachmentData::Mesh(a) => SpecAttachmentData::Mesh(a@),
            AttachmentData::LinkedMesh(a) => SpecAttachmentData::LinkedMesh(a@),
            AttachmentData::Path(a) => SpecAttachmentData::Path(*a),
            AttachmentData::Point(a) => SpecAttachmentData::Point(*a),
            AttachmentData::Clipping(a) => SpecAttachmentData::Clipping(a@),
        }
    }
}

/// The mathematical value of an [`Attachment`].
pub struct SpecAttachment {
    pub placeholder_name: Seq<char>,
    pub attachment_name: Seq<char>,
    pub data: SpecAttachmentData,
}

impl View for Attachment {
    type V = SpecAttachment;

    open spec fn view(&self) -> SpecAttachment {
        SpecAttachment {
            placeholder_name: self.placeholder_name@,
            attachment_name: self.attachment_name@,
            data: self.data@,
        }
    }
}

impl DeepView for Attachment {
    type V = SpecAttachment;

    open spec fn deep_view(&self) -> SpecAttachment {
        self.view()
    }
}

} // verus!
