//! Decoding the skin and attachment sections of the binary format.
use vstd::prelude::*;
use crate::binary::{rd_bool, rd_byte, rd_col, rd_col_opt, rd_float, rd_str, rd_str_opt, rd_str_table,
    rd_str_table_opt, rd_varint, rd_varint_list, rd_vec2, sp_bad, sp_bool, sp_byte, sp_col, sp_col_opt, sp_float,
    sp_str, sp_str_opt, sp_str_table, sp_str_table_opt, sp_varint, sp_varint_list, sp_vec2};
use crate::color::Color;
use crate::geom::Vec2;
use crate::num::Scalar;
use crate::skeleton::attachment::{Attachment, AttachmentData, BoneInfluence, BoundingBoxAttachment,
    ClippingAttachment, LinkedMeshAttachment, MeshAttachment, PathAttachment, PointAttachment, RegionAttachment,
    SpecAttachment, SpecAttachmentData, SpecVertices, Vertices};
use crate::skeleton::skin::{Skin, SkinSlot, SpecSkin, SpecSkinSlot};
use crate::{DecodeError, DecodeKind, Field, SpinalError};

verus! {

/// A sequence marker: a flag byte, and three varints when it is set. The
/// payload is not kept.
pub open spec fn sp_seq(b: Seq<u8>, pos: usize) -> Result<usize, SpinalError> {
    match sp_bool(b, pos, Field::AttachmentValue) {
        Err(e) => Err(e),
        Ok((flag, p1)) => {
            if !flag {
                Ok(p1)
            } else {
                match sp_varint(b, p1, Field::AttachmentValue) {
                    Err(e) => Err(e),
                    Ok((_, p2)) => match sp_varint(b, p2, Field::AttachmentValue) {
                        Err(e) => Err(e),
                        Ok((_, p3)) => match sp_varint(b, p3, Field::AttachmentValue) {
                            Err(e) => Err(e),
                            Ok((_, p4)) => Ok(p4),
                        },
                    },
                }
            }
        },
    }
}

fn rd_seq(b: &[u8], pos: usize) -> (r: Result<usize, SpinalError>)
    ensures
        r == sp_seq(b@, pos),
{
    let (flag, p1) = match rd_bool(b, pos, Field::AttachmentValue) {
        Ok(v) => v,
        Err(e) => {
            return Err(e);
        },
    };
    if !flag {
        return Ok(p1);
    }
    let p2 = match rd_varint(b, p1, Field::AttachmentValue) {
        Ok((_, p)) => p,
        Err(e) => {
            return Err(e);
        },
    };
    let p3 = match rd_varint(b, p2, Field::AttachmentValue) {
        Ok((_, p)) => p,
        Err(e) => {
            return Err(e);
        },
    };
    match rd_varint(b, p3, Field::AttachmentValue) {
        Ok((_, p)) => Ok(p),
        Err(e) => Err(e),
    }
}

/// A big-endian `u16`, widened to a vertex index.
pub open spec fn sp_u16_index(b: Seq<u8>, pos: usize) -> Result<(usize, usize), SpinalError> {
    if pos + 2 <= b.len() {
        Ok((((b[pos as int] as usize) * 256 + (b[pos as int + 1] as usize)) as usize, (pos + 2) as usize))
    } else {
        Err(crate::binary::sp_trunc(pos, Field::VertexData))
    }
}

fn rd_u16_index(b: &[u8], pos: usize) -> (r: Result<(usize, usize), SpinalError>)
    ensures
        r == sp_u16_index(b@, pos),
{
    if b.len() >= 2 && pos <= b.len() - 2 {
        Ok(((b[pos] as usize) * 256 + (b[pos + 1] as usize), pos + 2))
    } else {
        Err(SpinalError::Decode(DecodeError { offset: pos, field: Field::VertexData, kind: DecodeKind::Truncated }))
    }
}

/// A count-prefixed list of big-endian `u16` vertex indices.
pub open spec fn sp_u16_list_rec(b: Seq<u8>, pos: usize, remaining: nat, acc: Seq<usize>) -> Result<
    (Seq<usize>, usize),
    SpinalError,
>
    decreases remaining,
{
    if remaining == 0 {
        Ok((acc, pos))
    } else {
        match sp_u16_index(b, pos) {
            Ok((v, p)) => sp_u16_list_rec(b, p, (remaining - 1) as nat, acc.push(v)),
            Err(e) => Err(e),
        }
    }
}

pub open spec fn sp_u16_list(b: Seq<u8>, pos: usize) -> Result<(Seq<usize>, usize), SpinalError> {
    match sp_varint(b, pos, Field::Count) {
        Ok((n, p)) => sp_u16_list_rec(b, p, n as nat, Seq::empty()),
        Err(e) => Err(e),
    }
}

fn rd_u16_list(b: &[u8], pos: usize) -> (r: Result<(Vec<usize>, usize), SpinalError>)
    ensures
        r matches Ok((v, p)) ==> sp_u16_list(b@, pos) == Ok::<(Seq<usize>, usize), SpinalError>((v@, p)),
        r matches Err(e) ==> sp_u16_list(b@, pos) == Err::<(Seq<usize>, usize), SpinalError>(e),
{
    let (n, p0) = match rd_varint(b, pos, Field::Count) {
        Ok(v) => v,
        Err(e) => {
            return Err(e);
        },
    };
    let mut items: Vec<usize> = Vec::new();
    let mut p: usize = p0;
    let mut i: u32 = 0;
    proof {
        assert(items@ =~= Seq::<usize>::empty());
    }
    while i < n
        invariant
            i <= n,
            items@.len() == i as int,
            sp_u16_list(b@, pos) == sp_u16_list_rec(b@, p, (n - i) as nat, items@),
        decreases n - i,
    {
        proof {
            reveal_with_fuel(sp_u16_list_rec, 2);
        }
        let (v, p2) = match rd_u16_index(b, p) {
            Ok(v) => v,
            Err(e) => {
                return Err(e);
            },
        };
        items.push(v);
        p = p2;
        i = i + 1;
    }
    proof {
        reveal_with_fuel(sp_u16_list_rec, 2);
    }
    Ok((items, p))
}

/// `n` position pairs.
pub open spec fn sp_vec2_list_rec(b: Seq<u8>, pos: usize, remaining: nat, acc: Seq<Vec2>) -> Result<
    (Seq<Vec2>, usize),
    SpinalError,
>
    decreases remaining,
{
    if remaining == 0 {
        Ok((acc, pos))
    } else {
        match sp_vec2(b, pos, Field::VertexData) {
            Ok((v, p)) => sp_vec2_list_rec(b, p, (remaining - 1) as nat, acc.push(v)),
            Err(e) => Err(e),
        }
    }
}

fn rd_vec2_list(b: &[u8], pos: usize, n: u32) -> (r: Result<(Vec<Vec2>, usize), SpinalError>)
    ensures
        r matches Ok((v, p)) ==> sp_vec2_list_rec(b@, pos, n as nat, Seq::empty()) == Ok::<
            (Seq<Vec2>, usize),
            SpinalError,
        >((v.deep_view(), p)),
        r matches Err(e) ==> sp_vec2_list_rec(b@, pos, n as nat, Seq::empty()) == Err::<
            (Seq<Vec2>, usize),
            SpinalError,
        >(e),
{
    let mut items: Vec<Vec2> = Vec::new();
    let mut p: usize = pos;
    let mut i: u32 = 0;
    proof {
        assert(items.deep_view() =~= Seq::<Vec2>::empty());
    }
    while i < n
        invariant
            i <= n,
            items.deep_view().len() == i as int,
            sp_vec2_list_rec(b@, pos, n as nat, Seq::empty()) == sp_vec2_list_rec(
                b@,
                p,
                (n - i) as nat,
                items.deep_view(),
            ),
        decreases n - i,
    {
        let ghost acc = items.deep_view();
        proof {
            reveal_with_fuel(sp_vec2_list_rec, 2);
        }
        let (v, p2) = match rd_vec2(b, p, Field::VertexData) {
            Ok(v) => v,
            Err(e) => {
                return Err(e);
            },
        };
        items.push(v);
        proof {
            assert(items.deep_view() =~= acc.push(v));
        }
        p = p2;
        i = i + 1;
    }
    proof {
        reveal_with_fuel(sp_vec2_list_rec, 2);
    }
    Ok((items, p))
}

/// One weighted vertex: a count of influences, each an influencing bone, a
/// local position and a weight.
pub open spec fn sp_influences_rec(b: Seq<u8>, pos: usize, remaining: nat, acc: Seq<BoneInfluence>) -> Result<
    (Seq<BoneInfluence>, usize),
    SpinalError,
>
    decreases remaining,
{
    if remaining == 0 {
        Ok((acc, pos))
    } else {
        match sp_varint(b, pos, Field::VertexData) {
            Err(e) => Err(e),
            Ok((index, p1)) => match sp_vec2(b, p1, Field::VertexData) {
                Err(e) => Err(e),
                Ok((position, p2)) => match sp_float(b, p2, Field::VertexData) {
                    Err(e) => Err(e),
                    Ok((weight, p3)) => sp_influences_rec(
                        b,
                        p3,
                        (remaining - 1) as nat,
                        acc.push(BoneInfluence { index: index as usize, position, weight }),
                    ),
                },
            },
        }
    }
}

pub open spec fn sp_bone_vertex(b: Seq<u8>, pos: usize) -> Result<(Seq<BoneInfluence>, usize), SpinalError> {
    match sp_varint(b, pos, Field::Count) {
        Ok((n, p)) => sp_influences_rec(b, p, n as nat, Seq::empty()),
        Err(e) => Err(e),
    }
}

fn rd_bone_vertex(b: &[u8], pos: usize) -> (r: Result<(Vec<BoneInfluence>, usize), SpinalError>)
    ensures
        r matches Ok((v, p)) ==> sp_bone_vertex(b@, pos) == Ok::<(Seq<BoneInfluence>, usize), SpinalError>(
            (v.deep_view(), p),
        ),
        r matches Err(e) ==> sp_bone_vertex(b@, pos) == Err::<(Seq<BoneInfluence>, usize), SpinalError>(e),
{
    let (n, p0) = match rd_varint(b, pos, Field::Count) {
        Ok(v) => v,
        Err(e) => {
            return Err(e);
        },
    };
    let mut items: Vec<BoneInfluence> = Vec::new();
    let mut p: usize = p0;
    let mut i: u32 = 0;
    proof {
        assert(items.deep_view() =~= Seq::<BoneInfluence>::empty());
    }
    while i < n
        invariant
            i <= n,
            items.deep_view().len() == i as int,
            sp_bone_vertex(b@, pos) == sp_influences_rec(b@, p, (n - i) as nat, items.deep_view()),
        decreases n - i,
    {
        let ghost acc = items.deep_view();
        proof {
            reveal_with_fuel(sp_influences_rec, 2);
        }
        let (index, p1) = match rd_varint(b, p, Field::VertexData) {
            Ok(v) => v,
            Err(e) => {
                return Err(e);
            },
        };
        let (position, p2) = match rd_vec2(b, p1, Field::VertexData) {
            Ok(v) => v,
            Err(e) => {
                return Err(e);
            },
        };
        let (weight, p3) = match rd_float(b, p2, Field::VertexData) {
            Ok(v) => v,
            Err(e) => {
                return Err(e);
            },
        };
        let inf = BoneInfluence { index: index as usize, position, weight };
        items.push(inf);
        proof {
            assert(items.deep_view() =~= acc.push(inf));
        }
        p = p3;
        i = i + 1;
    }
    proof {
        reveal_with_fuel(sp_influences_rec, 2);
    }
    Ok((items, p))
}

/// `n` weighted vertices.
pub open spec fn sp_bone_vertices_rec(b: Seq<u8>, pos: usize, remaining: nat, acc: Seq<Seq<BoneInfluence>>) -> Result<
    (Seq<Seq<BoneInfluence>>, usize),
    SpinalError,
>
    decreases remaining,
{
    if remaining == 0 {
        Ok((acc, pos))
    } else {
        match sp_bone_vertex(b, pos) {
            Ok((v, p)) => sp_bone_vertices_rec(b, p, (remaining - 1) as nat, acc.push(v)),
            Err(e) => Err(e),
        }
    }
}

fn rd_bone_vertices(b: &[u8], pos: usize, n: u32) -> (r: Result<(Vec<Vec<BoneInfluence>>, usize), SpinalError>)
    ensures
        r matches Ok((v, p)) ==> sp_bone_vertices_rec(b@, pos, n as nat, Seq::empty()) == Ok::<
            (Seq<Seq<BoneInfluence>>, usize),
            SpinalError,
        >((v.deep_view(), p)),
        r matches Err(e) ==> sp_bone_vertices_rec(b@, pos, n as nat, Seq::empty()) == Err::<
            (Seq<Seq<BoneInfluence>>, usize),
            SpinalError,
        >(e),
{
    let mut items: Vec<Vec<BoneInfluence>> = Vec::new();
    let mut p: usize = pos;
    let mut i: u32 = 0;
    proof {
        assert(items.deep_view() =~= Seq::<Seq<BoneInfluence>>::empty());
    }
    while i < n
        invariant
            i <= n,
            items.deep_view().len() == i as int,
            sp_bone_vertices_rec(b@, pos, n as nat, Seq::empty()) == sp_bone_vertices_rec(
                b@,
                p,
                (n - i) as nat,
                items.deep_view(),
            ),
        decreases n - i,
    {
        let ghost acc = items.deep_view();
        proof {
            reveal_with_fuel(sp_bone_vertices_rec, 2);
        }
        let (v, p2) = match rd_bone_vertex(b, p) {
            Ok(v) => v,
            Err(e) => {
                return Err(e);
            },
        };
        let ghost vdv = v.deep_view();
        items.push(v);
        proof {
            assert(items.deep_view() =~= acc.push(vdv));
        }
        p = p2;
        i = i + 1;
    }
    proof {
        reveal_with_fuel(sp_bone_vertices_rec, 2);
    }
    Ok((items, p))
}

/// Vertex data for `n` vertices: a flag byte, then either plain positions or
/// per-vertex weighted influences.
pub open spec fn sp_vertices(b: Seq<u8>, pos: usize, n: u32) -> Result<(SpecVertices, usize), SpinalError> {
    match sp_bool(b, pos, Field::VertexData) {
        Err(e) => Err(e),
        Ok((influenced, p1)) => {
            if influenced {
                match sp_bone_vertices_rec(b, p1, n as nat, Seq::empty()) {
                    Ok((v, p)) => Ok((SpecVertices::BoneInfluenced(v), p)),
                    Err(e) => Err(e),
                }
            } else {
                match sp_vec2_list_rec(b, p1, n as nat, Seq::empty()) {
                    Ok((v, p)) => Ok((SpecVertices::Positions(v), p)),
                    Err(e) => Err(e),
                }
            }
        },
    }
}

pub fn rd_vertices(b: &[u8], pos: usize, n: u32) -> (r: Result<(Vertices, usize), SpinalError>)
    ensures
        r matches Ok((v, p)) ==> sp_vertices(b@, pos, n) == Ok::<(SpecVertices, usize), SpinalError>((v@, p)),
        r matches Err(e) ==> sp_vertices(b@, pos, n) == Err::<(SpecVertices, usize), SpinalError>(e),
{
    let (influenced, p1) = match rd_bool(b, pos, Field::VertexData) {
        Ok(v) => v,
        Err(e) => {
            return Err(e);
        },
    };
    if influenced {
        match rd_bone_vertices(b, p1, n) {
            Ok((v, p)) => Ok((Vertices::BoneInfluenced { vertices: v }, p)),
            Err(e) => Err(e),
        }
    } else {
        match rd_vec2_list(b, p1, n) {
            Ok((v, p)) => Ok((Vertices::Positions { positions: v }, p)),
            Err(e) => Err(e),
        }
    }
}

/// One attachment: placeholder name and optional override through the string
/// table, then a type tag selecting the variant-specific layout.
#[verifier::opaque]
pub open spec fn sp_attachment(strings: Seq<Seq<char>>, b: Seq<u8>, pos: usize, ne: bool) -> Result<
    (SpecAttachment, usize),
    SpinalError,
> {
    match sp_str_table(strings, b, pos, Field::AttachmentName) {
        Err(e) => Err(e),
        Ok((placeholder, p1)) => match sp_str_table_opt(strings, b, p1, Field::AttachmentName) {
            Err(e) => Err(e),
            Ok((name_opt, p2)) => {
                let name = if name_opt is Some {
                    name_opt->0
                } else {
                    placeholder
                };
                match sp_byte(b, p2, Field::AttachmentTag) {
                    Err(e) => Err(e),
                    Ok((tag, p3)) => {
                        let body = if tag == 0 {
                            sp_region(strings, b, p3)
                        } else if tag == 1 {
                            sp_bounding_box(b, p3, ne)
                        } else if tag == 2 {
                            sp_mesh(b, p3, ne)
                        } else if tag == 3 {
                            sp_linked_mesh(strings, b, p3, ne)
                        } else if tag == 4 {
                            sp_path_attachment(b, p3)
                        } else if tag == 5 {
                            sp_point(b, p3, ne)
                        } else if tag == 6 {
                            sp_clipping(b, p3, ne)
                        } else {
                            Err(sp_bad(p2, Field::AttachmentTag))
                        };
                        match body {
                            Err(e) => Err(e),
                            Ok((data, p4)) => Ok(
                                (SpecAttachment { placeholder_name: placeholder, attachment_name: name, data }, p4),
                            ),
                        }
                    },
                }
            },
        },
    }
}

/// A textured quad: optional path, rotation, position, scale, size, optional
/// tint (absent means white) and a sequence marker.
#[verifier::opaque]
pub open spec fn sp_region(strings: Seq<Seq<char>>, b: Seq<u8>, pos: usize) -> Result<
    (SpecAttachmentData, usize),
    SpinalError,
> {
    match sp_str_table_opt(strings, b, pos, Field::AttachmentValue) {
        Err(e) => Err(e),
        Ok((path, p1)) => match sp_float(b, p1, Field::AttachmentValue) {
            Err(e) => Err(e),
            Ok((rotation, p2)) => match sp_vec2(b, p2, Field::AttachmentValue) {
                Err(e) => Err(e),
                Ok((position, p3)) => match sp_vec2(b, p3, Field::AttachmentValue) {
                    Err(e) => Err(e),
                    Ok((scale, p4)) => match sp_vec2(b, p4, Field::AttachmentValue) {
                        Err(e) => Err(e),
                        Ok((size, p5)) => match sp_col_opt(b, p5, Field::AttachmentValue) {
                            Err(e) => Err(e),
                            Ok((color, p6)) => match sp_seq(b, p6) {
                                Err(e) => Err(e),
                                Ok(p7) => Ok(
                                    (
                                        SpecAttachmentData::Region(
                                            crate::skeleton::attachment::SpecRegionAttachment {
                                                path,
                                                position,
                                                scale,
                                                rotation,
                                                size,
                                                color: if color is Some {
                                                    color->0
                                                } else {
                                                    Color(0xFFFFFFFFu32)
                                                },
                                            },
                                        ),
                                        p7,
                                    ),
                                ),
                            },
                        },
                    },
                },
            },
        },
    }
}

/// A hit-detection polygon: vertex data, and a color when non-essential data
/// is present (absent means the default bounding-box color).
#[verifier::opaque]
pub open spec fn sp_bounding_box(b: Seq<u8>, pos: usize, ne: bool) -> Result<(SpecAttachmentData, usize), SpinalError> {
    match sp_varint(b, pos, Field::Count) {
        Err(e) => Err(e),
        Ok((n, p1)) => match sp_vertices(b, p1, n) {
            Err(e) => Err(e),
            Ok((vertices, p2)) => {
                if ne {
                    match sp_col_opt(b, p2, Field::AttachmentValue) {
                        Err(e) => Err(e),
                        Ok((color, p3)) => Ok(
                            (
                                SpecAttachmentData::BoundingBox(
                                    crate::skeleton::attachment::SpecBoundingBoxAttachment {
                                        vertices,
                                        color: if color is Some {
                                            color->0
                                        } else {
                                            Color(0x60F000FFu32)
                                        },
                                    },
                                ),
                                p3,
                            ),
                        ),
                    }
                } else {
                    Ok(
                        (
                            SpecAttachmentData::BoundingBox(
                                crate::skeleton::attachment::SpecBoundingBoxAttachment {
                                    vertices,
                                    color: Color(0x60F000FFu32),
                                },
                            ),
                            p2,
                        ),
                    )
                }
            },
        },
    }
}

/// A weighted mesh: texture path index, tint, texture coordinates, triangle
/// list, vertex data and hull size, plus sequence, edges and source size when
/// non-essential data is present.
#[verifier::opaque]
pub open spec fn sp_mesh(b: Seq<u8>, pos: usize, ne: bool) -> Result<(SpecAttachmentData, usize), SpinalError> {
    match sp_varint(b, pos, Field::AttachmentValue) {
        Err(e) => Err(e),
        Ok((path_string, p1)) => match sp_col(b, p1, Field::AttachmentValue) {
            Err(e) => Err(e),
            Ok((color, p2)) => match sp_varint(b, p2, Field::Count) {
                Err(e) => Err(e),
                Ok((n, p3)) => match sp_vec2_list_rec(b, p3, n as nat, Seq::empty()) {
                    Err(e) => Err(e),
                    Ok((uvs, p4)) => match sp_u16_list(b, p4) {
                        Err(e) => Err(e),
                        Ok((vertex_index, p5)) => match sp_vertices(b, p5, n) {
                            Err(e) => Err(e),
                            Ok((vertices, p6)) => match sp_varint(b, p6, Field::AttachmentValue) {
                                Err(e) => Err(e),
                                Ok((hull, p7)) => {
                                    if !ne {
                                        Ok(
                                            (
                                                SpecAttachmentData::Mesh(
                                                    crate::skeleton::attachment::SpecMeshAttachment {
                                                        path_string: path_string as usize,
                                                        color,
                                                        uvs,
                                                        vertex_index,
                                                        vertices,
                                                        hull_count: hull as usize,
                                                        edges: None,
                                                        size: None,
                                                    },
                                                ),
                                                p7,
                                            ),
                                        )
                                    } else {
                                        match sp_seq(b, p7) {
                                            Err(e) => Err(e),
                                            Ok(p8) => match sp_u16_list(b, p8) {
                                                Err(e) => Err(e),
                                                Ok((edges, p9)) => match sp_vec2(b, p9, Field::AttachmentValue) {
                                                    Err(e) => Err(e),
                                                    Ok((size, p10)) => Ok(
                                                        (
                                                            SpecAttachmentData::Mesh(
                                                                crate::skeleton::attachment::SpecMeshAttachment {
                                                                    path_string: path_string as usize,
                                                                    color,
                                                                    uvs,
                                                                    vertex_index,
                                                                    vertices,
                                                                    hull_count: hull as usize,
                                                                    edges: Some(edges),
                                                                    size: Some(size),
                                                                },
                                                            ),
                                                            p10,
                                                        ),
                                                    ),
                                                },
                                            },
                                        }
                                    }
                                },
                            },
                        },
                    },
                },
            },
        },
    }
}

/// A mesh borrowing another mesh's geometry: path, skin and parent names,
/// deform flag and tint, plus the source size when non-essential data is
/// present.
#[verifier::opaque]
pub open spec fn sp_linked_mesh(strings: Seq<Seq<char>>, b: Seq<u8>, pos: usize, ne: bool) -> Result<
    (SpecAttachmentData, usize),
    SpinalError,
> {
    match sp_str_table_opt(strings, b, pos, Field::AttachmentValue) {
        Err(e) => Err(e),
        Ok((path, p1)) => match sp_str_opt(b, p1, Field::AttachmentValue) {
            Err(e) => Err(e),
            Ok((skin, p2)) => match sp_str_opt(b, p2, Field::AttachmentValue) {
                Err(e) => Err(e),
                Ok((parent, p3)) => match sp_bool(b, p3, Field::AttachmentValue) {
                    Err(e) => Err(e),
                    Ok((deform, p4)) => match sp_col(b, p4, Field::AttachmentValue) {
                        Err(e) => Err(e),
                        Ok((color, p5)) => {
                            if !ne {
                                Ok(
                                    (
                                        SpecAttachmentData::LinkedMesh(
                                            crate::skeleton::attachment::SpecLinkedMeshAttachment {
                                                path,
                                                skin,
                                                parent,
                                                deform,
                                                color,
                                                size: None,
                                            },
                                        ),
                                        p5,
                                    ),
                                )
                            } else {
                                match sp_vec2(b, p5, Field::AttachmentValue) {
                                    Err(e) => Err(e),
                                    Ok((size, p6)) => Ok(
                                        (
                                            SpecAttachmentData::LinkedMesh(
                                                crate::skeleton::attachment::SpecLinkedMeshAttachment {
                                                    path,
                                                    skin,
                                                    parent,
                                                    deform,
                                                    color,
                                                    size: Some(size),
                                                },
                                            ),
                                            p6,
                                        ),
                                    ),
                                }
                            }
                        },
                    },
                },
            },
        },
    }
}

/// A path spline's flags.
#[verifier::opaque]
pub open spec fn sp_path_attachment(b: Seq<u8>, pos: usize) -> Result<(SpecAttachmentData, usize), SpinalError> {
    match sp_bool(b, pos, Field::AttachmentValue) {
        Err(e) => Err(e),
        Ok((closed, p1)) => match sp_bool(b, p1, Field::AttachmentValue) {
            Err(e) => Err(e),
            Ok((constant_speed, p2)) => Ok(
                (SpecAttachmentData::Path(PathAttachment { closed, constant_speed }), p2),
            ),
        },
    }
}

/// A point: rotation and position, with a color when non-essential data is
/// present.
#[verifier::opaque]
pub open spec fn sp_point(b: Seq<u8>, pos: usize, ne: bool) -> Result<(SpecAttachmentData, usize), SpinalError> {
    match sp_float(b, pos, Field::AttachmentValue) {
        Err(e) => Err(e),
        Ok((rotation, p1)) => match sp_vec2(b, p1, Field::AttachmentValue) {
            Err(e) => Err(e),
            Ok((position, p2)) => {
                if ne {
                    match sp_col_opt(b, p2, Field::AttachmentValue) {
                        Err(e) => Err(e),
                        Ok((color, p3)) => Ok(
                            (SpecAttachmentData::Point(PointAttachment { rotation, position, color }), p3),
                        ),
                    }
                } else {
                    Ok((SpecAttachmentData::Point(PointAttachment { rotation, position, color: None }), p2))
                }
            },
        },
    }
}

/// A clipping polygon: the slot where clipping ends, vertex data, and a color
/// when non-essential data is present.
#[verifier::opaque]
pub open spec fn sp_clipping(b: Seq<u8>, pos: usize, ne: bool) -> Result<(SpecAttachmentData, usize), SpinalError> {
    match sp_varint(b, pos, Field::AttachmentValue) {
        Err(e) => Err(e),
        Ok((end_slot, p1)) => match sp_varint(b, p1, Field::Count) {
            Err(e) => Err(e),
            Ok((n, p2)) => match sp_vertices(b, p2, n) {
                Err(e) => Err(e),
                Ok((vertices, p3)) => {
                    if ne {
                        match sp_col_opt(b, p3, Field::AttachmentValue) {
                            Err(e) => Err(e),
                            Ok((color, p4)) => Ok(
                                (
                                    SpecAttachmentData::Clipping(
                                        crate::skeleton::attachment::SpecClippingAttachment {
                                            end_slot_index: end_slot as usize,
                                            vertices,
                                            color,
                                        },
                                    ),
                                    p4,
                                ),
                            ),
                        }
                    } else {
                        Ok(
                            (
                                SpecAttachmentData::Clipping(
                                    crate::skeleton::attachment::SpecClippingAttachment {
                                        end_slot_index: end_slot as usize,
                                        vertices,
                                        color: None,
                                    },
                                ),
                                p3,
                            ),
                        )
                    }
                },
            },
        },
    }
}

pub fn rd_attachment(strings: &Vec<String>, b: &[u8], pos: usize, ne: bool) -> (r: Result<
    (Attachment, usize),
    SpinalError,
>)
    ensures
        r matches Ok((a, p)) ==> sp_attachment(strings.deep_view(), b@, pos, ne) == Ok::<
            (SpecAttachment, usize),
            SpinalError,
        >((a@, p)),
        r matches Err(e) ==> sp_attachment(strings.deep_view(), b@, pos, ne) == Err::<
            (SpecAttachment, usize),
            SpinalError,
        >(e),
{
    proof {
        reveal(sp_attachment);
    }
    let (placeholder, p1) = match rd_str_table(strings, b, pos, Field::AttachmentName) {
        Ok(v) => v,
        Err(e) => {
            return Err(e);
        },
    };
    let (name_opt, p2) = match rd_str_table_opt(strings, b, p1, Field::AttachmentName) {
        Ok(v) => v,
        Err(e) => {
            return Err(e);
        },
    };
    let name = match name_opt {
        Some(n) => n,
        None => placeholder.clone(),
    };
    let (tag, p3) = match rd_byte(b, p2, Field::AttachmentTag) {
        Ok(v) => v,
        Err(e) => {
            return Err(e);
        },
    };
    let body = if tag == 0 {
        rd_region(strings, b, p3)
    } else if tag == 1 {
        rd_bounding_box(b, p3, ne)
    } else if tag == 2 {
        rd_mesh(b, p3, ne)
    } else if tag == 3 {
        rd_linked_mesh(strings, b, p3, ne)
    } else if tag == 4 {
        rd_path_attachment(b, p3)
    } else if tag == 5 {
        rd_point(b, p3, ne)
    } else if tag == 6 {
        rd_clipping(b, p3, ne)
    } else {
        return Err(SpinalError::Decode(
            DecodeError { offset: p2, field: Field::AttachmentTag, kind: DecodeKind::BadValue },
        ));
    };
    match body {
        Err(e) => Err(e),
        Ok((data, p4)) => Ok((Attachment { placeholder_name: placeholder, attachment_name: name, data }, p4)),
    }
}

fn rd_region(strings: &Vec<String>, b: &[u8], pos: usize) -> (r: Result<(AttachmentData, usize), SpinalError>)
    ensures
        r matches Ok((a, p)) ==> sp_region(strings.deep_view(), b@, pos) == Ok::<
            (SpecAttachmentData, usize),
            SpinalError,
        >((a@, p)),
        r matches Err(e) ==> sp_region(strings.deep_view(), b@, pos) == Err::<(SpecAttachmentData, usize), SpinalError>(
            e,
        ),
{
    proof {
        reveal(sp_region);
    }
    let (path, p1) = match rd_str_table_opt(strings, b, pos, Field::AttachmentValue) {
        Ok(v) => v,
        Err(e) => {
            return Err(e);
        },
    };
    let (rotation, p2) = match rd_float(b, p1, Field::AttachmentValue) {
        Ok(v) => v,
        Err(e) => {
            return Err(e);
        },
    };
    let (position, p3) = match rd_vec2(b, p2, Field::AttachmentValue) {
        Ok(v) => v,
        Err(e) => {
            return Err(e);
        },
    };
    let (scale, p4) = match rd_vec2(b, p3, Field::AttachmentValue) {
        Ok(v) => v,
        Err(e) => {
            return Err(e);
        },
    };
    let (size, p5) = match rd_vec2(b, p4, Field::AttachmentValue) {
        Ok(v) => v,
        Err(e) => {
            return Err(e);
        },
    };
    let (color, p6) = match rd_col_opt(b, p5, Field::AttachmentValue) {
        Ok(v) => v,
        Err(e) => {
            return Err(e);
        },
    };
    let p7 = match rd_seq(b, p6) {
        Ok(v) => v,
        Err(e) => {
            return Err(e);
        },
    };
    let color = match color {
        Some(c) => c,
        None => Color(0xFFFFFFFF),
    };
    Ok((AttachmentData::Region(RegionAttachment { path, position, scale, rotation, size, color }), p7))
}

fn rd_bounding_box(b: &[u8], pos: usize, ne: bool) -> (r: Result<(AttachmentData, usize), SpinalError>)
    ensures
        r matches Ok((a, p)) ==> sp_bounding_box(b@, pos, ne) == Ok::<(SpecAttachmentData, usize), SpinalError>(
            (a@, p),
        ),
        r matches Err(e) ==> sp_bounding_box(b@, pos, ne) == Err::<(SpecAttachmentData, usize), SpinalError>(e),
{
    proof {
        reveal(sp_bounding_box);
    }
    let (n, p1) = match rd_varint(b, pos, Field::Count) {
        Ok(v) => v,
        Err(e) => {
            return Err(e);
        },
    };
    let (vertices, p2) = match rd_vertices(b, p1, n) {
        Ok(v) => v,
        Err(e) => {
            return Err(e);
        },
    };
    if ne {
        let (color, p3) = match rd_col_opt(b, p2, Field::AttachmentValue) {
            Ok(v) => v,
            Err(e) => {
                return Err(e);
            },
        };
        let color = match color {
            Some(c) => c,
            None => Color(0x60F000FF),
        };
        Ok((AttachmentData::BoundingBox(BoundingBoxAttachment { vertices, color }), p3))
    } else {
        Ok((AttachmentData::BoundingBox(BoundingBoxAttachment { vertices, color: Color(0x60F000FF) }), p2))
    }
}

fn rd_mesh(b: &[u8], pos: usize, ne: bool) -> (r: Result<(AttachmentData, usize), SpinalError>)
    ensures
        r matches Ok((a, p)) ==> sp_mesh(b@, pos, ne) == Ok::<(SpecAttachmentData, usize), SpinalError>((a@, p)),
        r matches Err(e) ==> sp_mesh(b@, pos, ne) == Err::<(SpecAttachmentData, usize), SpinalError>(e),
{
    proof {
        reveal(sp_mesh);
    }
    let (path_string, p1) = match rd_varint(b, pos, Field::AttachmentValue) {
        Ok(v) => v,
        Err(e) => {
            return Err(e);
        },
    };
    let (color, p2) = match rd_col(b, p1, Field::AttachmentValue) {
        Ok(v) => v,
        Err(e) => {
            return Err(e);
        },
    };
    let (n, p3) = match rd_varint(b, p2, Field::Count) {
        Ok(v) => v,
        Err(e) => {
            return Err(e);
        },
    };
    let (uvs, p4) = match rd_vec2_list(b, p3, n) {
        Ok(v) => v,
        Err(e) => {
            return Err(e);
        },
    };
    let (vertex_index, p5) = match rd_u16_list(b, p4) {
        Ok(v) => v,
        Err(e) => {
            return Err(e);
        },
    };
    let (vertices, p6) = match rd_vertices(b, p5, n) {
        Ok(v) => v,
        Err(e) => {
            return Err(e);
        },
    };
    let (hull, p7) = match rd_varint(b, p6, Field::AttachmentValue) {
        Ok(v) => v,
        Err(e) => {
            return Err(e);
        },
    };
    if !ne {
        let mesh = MeshAttachment {
            path_string: path_string as usize,
            color,
            uvs,
            vertex_index,
            vertices,
            hull_count: hull as usize,
            edges: None,
            size: None,
        };
        return Ok((AttachmentData::Mesh(mesh), p7));
    }
    let p8 = match rd_seq(b, p7) {
        Ok(v) => v,
        Err(e) => {
            return Err(e);
        },
    };
    let (edges, p9) = match rd_u16_list(b, p8) {
        Ok(v) => v,
        Err(e) => {
            return Err(e);
        },
    };
    let (size, p10) = match rd_vec2(b, p9, Field::AttachmentValue) {
        Ok(v) => v,
        Err(e) => {
            return Err(e);
        },
    };
    let mesh = MeshAttachment {
        path_string: path_string as usize,
        color,
        uvs,
        vertex_index,
        vertices,
        hull_count: hull as usize,
        edges: Some(edges),
        size: Some(size),
    };
    Ok((AttachmentData::Mesh(mesh), p10))
}

fn rd_linked_mesh(strings: &Vec<String>, b: &[u8], pos: usize, ne: bool) -> (r: Result<
    (AttachmentData, usize),
    SpinalError,
>)
    ensures
        r matches Ok((a, p)) ==> sp_linked_mesh(strings.deep_view(), b@, pos, ne) == Ok::<
            (SpecAttachmentData, usize),
            SpinalError,
        >((a@, p)),
        r matches Err(e) ==> sp_linked_mesh(strings.deep_view(), b@, pos, ne) == Err::<
            (SpecAttachmentData, usize),
            SpinalError,
        >(e),
{
    proof {
        reveal(sp_linked_mesh);
    }
    let (path, p1) = match rd_str_table_opt(strings, b, pos, Field::AttachmentValue) {
        Ok(v) => v,
        Err(e) => {
            return Err(e);
        },
    };
    let (skin, p2) = match rd_str_opt(b, p1, Field::AttachmentValue) {
        Ok(v) => v,
        Err(e) => {
            return Err(e);
        },
    };
    let (parent, p3) = match rd_str_opt(b, p2, Field::AttachmentValue) {
        Ok(v) => v,
        Err(e) => {
            return Err(e);
        },
    };
    let (deform, p4) = match rd_bool(b, p3, Field::AttachmentValue) {
        Ok(v) => v,
        Err(e) => {
            return Err(e);
        },
    };
    let (color, p5) = match rd_col(b, p4, Field::AttachmentValue) {
        Ok(v) => v,
        Err(e) => {
            return Err(e);
        },
    };
    if !ne {
        let lm = LinkedMeshAttachment { path, skin, parent, deform, color, size: None };
        return Ok((AttachmentData::LinkedMesh(lm), p5));
    }
    let (size, p6) = match rd_vec2(b, p5, Field::AttachmentValue) {
        Ok(v) => v,
        Err(e) => {
            return Err(e);
        },
    };
    let lm = LinkedMeshAttachment { path, skin, parent, deform, color, size: Some(size) };
    Ok((AttachmentData::LinkedMesh(lm), p6))
}

fn rd_path_attachment(b: &[u8], pos: usize) -> (r: Result<(AttachmentData, usize), SpinalError>)
    ensures
        r matches Ok((a, p)) ==> sp_path_attachment(b@, pos) == Ok::<(SpecAttachmentData, usize), SpinalError>(
            (a@, p),
        ),
        r matches Err(e) ==> sp_path_attachment(b@, pos) == Err::<(SpecAttachmentData, usize), SpinalError>(e),
{
    proof {
        reveal(sp_path_attachment);
    }
    let (closed, p1) = match rd_bool(b, pos, Field::AttachmentValue) {
        Ok(v) => v,
        Err(e) => {
            return Err(e);
        },
    };
    let (constant_speed, p2) = match rd_bool(b, p1, Field::AttachmentValue) {
        Ok(v) => v,
        Err(e) => {
            return Err(e);
        },
    };
    Ok((AttachmentData::Path(PathAttachment { closed, constant_speed }), p2))
}

fn rd_point(b: &[u8], pos: usize, ne: bool) -> (r: Result<(AttachmentData, usize), SpinalError>)
    ensures
        r matches Ok((a, p)) ==> sp_point(b@, pos, ne) == Ok::<(SpecAttachmentData, usize), SpinalError>((a@, p)),
        r matches Err(e) ==> sp_point(b@, pos, ne) == Err::<(SpecAttachmentData, usize), SpinalError>(e),
{
    proof {
        reveal(sp_point);
    }
    let (rotation, p1) = match rd_float(b, pos, Field::AttachmentValue) {
        Ok(v) => v,
        Err(e) => {
            return Err(e);
        },
    };
    let (position, p2) = match rd_vec2(b, p1, Field::AttachmentValue) {
        Ok(v) => v,
        Err(e) => {
            return Err(e);
        },
    };
    if ne {
        let (color, p3) = match rd_col_opt(b, p2, Field::AttachmentValue) {
            Ok(v) => v,
            Err(e) => {
                return Err(e);
            },
        };
        Ok((AttachmentData::Point(PointAttachment { rotation, position, color }), p3))
    } else {
        Ok((AttachmentData::Point(PointAttachment { rotation, position, color: None }), p2))
    }
}

fn rd_clipping(b: &[u8], pos: usize, ne: bool) -> (r: Result<(AttachmentData, usize), SpinalError>)
    ensures
        r matches Ok((a, p)) ==> sp_clipping(b@, pos, ne) == Ok::<(SpecAttachmentData, usize), SpinalError>((a@, p)),
        r matches Err(e) ==> sp_clipping(b@, pos, ne) == Err::<(SpecAttachmentData, usize), SpinalError>(e),
{
    proof {
        reveal(sp_clipping);
    }
    let (end_slot, p1) = match rd_varint(b, pos, Field::AttachmentValue) {
        Ok(v) => v,
        Err(e) => {
            return Err(e);
        },
    };
    let (n, p2) = match rd_varint(b, p1, Field::Count) {
        Ok(v) => v,
        Err(e) => {
            return Err(e);
        },
    };
    let (vertices, p3) = match rd_vertices(b, p2, n) {
        Ok(v) => v,
        Err(e) => {
            return Err(e);
        },
    };
    if ne {
        let (color, p4) = match rd_col_opt(b, p3, Field::AttachmentValue) {
            Ok(v) => v,
            Err(e) => {
                return Err(e);
            },
        };
        Ok((AttachmentData::Clipping(ClippingAttachment { end_slot_index: end_slot as usize, vertices, color }), p4))
    } else {
        Ok(
            (
                AttachmentData::Clipping(ClippingAttachment { end_slot_index: end_slot as usize, vertices, color: None }),
                p3,
            ),
        )
    }
}

/// The attachments of one skin slot.
pub open spec fn sp_attachments_rec(
    strings: Seq<Seq<char>>,
    b: Seq<u8>,
    pos: usize,
    remaining: nat,
    ne: bool,
    acc: Seq<SpecAttachment>,
) -> Result<(Seq<SpecAttachment>, usize), SpinalError>
    decreases remaining,
{
    if remaining == 0 {
        Ok((acc, pos))
    } else {
        match sp_attachment(strings, b, pos, ne) {
            Ok((a, p)) => sp_attachments_rec(strings, b, p, (remaining - 1) as nat, ne, acc.push(a)),
            Err(e) => Err(e),
        }
    }
}

/// One skin slot: the slot index and its attachment list.
pub open spec fn sp_skin_slot(strings: Seq<Seq<char>>, b: Seq<u8>, pos: usize, ne: bool) -> Result<
    (SpecSkinSlot, usize),
    SpinalError,
> {
    match sp_varint(b, pos, Field::SkinSlot) {
        Err(e) => Err(e),
        Ok((slot, p1)) => match sp_varint(b, p1, Field::Count) {
            Err(e) => Err(e),
            Ok((n, p2)) => match sp_attachments_rec(strings, b, p2, n as nat, ne, Seq::empty()) {
                Err(e) => Err(e),
                Ok((attachments, p3)) => Ok((SpecSkinSlot { slot: slot as usize, attachments }, p3)),
            },
        },
    }
}

pub fn rd_skin_slot(strings: &Vec<String>, b: &[u8], pos: usize, ne: bool) -> (r: Result<
    (SkinSlot, usize),
    SpinalError,
>)
    ensures
        r matches Ok((s, p)) ==> sp_skin_slot(strings.deep_view(), b@, pos, ne) == Ok::<
            (SpecSkinSlot, usize),
            SpinalError,
        >((s@, p)),
        r matches Err(e) ==> sp_skin_slot(strings.deep_view(), b@, pos, ne) == Err::<
            (SpecSkinSlot, usize),
            SpinalError,
        >(e),
{
    let (slot, p1) = match rd_varint(b, pos, Field::SkinSlot) {
        Ok(v) => v,
        Err(e) => {
            return Err(e);
        },
    };
    let (n, p2) = match rd_varint(b, p1, Field::Count) {
        Ok(v) => v,
        Err(e) => {
            return Err(e);
        },
    };
    let mut attachments: Vec<Attachment> = Vec::new();
    let mut p: usize = p2;
    let mut i: u32 = 0;
    proof {
        assert(attachments.deep_view() =~= Seq::<SpecAttachment>::empty());
    }
    while i < n
        invariant
            i <= n,
            attachments.deep_view().len() == i as int,
            sp_varint(b@, pos, Field::SkinSlot) == Ok::<(u32, usize), SpinalError>((slot, p1)),
            sp_varint(b@, p1, Field::Count) == Ok::<(u32, usize), SpinalError>((n, p2)),
            sp_attachments_rec(strings.deep_view(), b@, p2, n as nat, ne, Seq::empty()) == sp_attachments_rec(
                strings.deep_view(),
                b@,
                p,
                (n - i) as nat,
                ne,
                attachments.deep_view(),
            ),
        decreases n - i,
    {
        let ghost acc = attachments.deep_view();
        proof {
            reveal_with_fuel(sp_attachments_rec, 2);
        }
        let (a, pn) = match rd_attachment(strings, b, p, ne) {
            Ok(v) => v,
            Err(e) => {
                return Err(e);
            },
        };
        let ghost adv = a@;
        attachments.push(a);
        proof {
            assert(attachments.deep_view() =~= acc.push(adv));
        }
        p = pn;
        i = i + 1;
    }
    proof {
        reveal_with_fuel(sp_attachments_rec, 2);
    }
    Ok((SkinSlot { slot: slot as usize, attachments }, p))
}

/// The skin slots of one skin.
pub open spec fn sp_skin_slots_rec(
    strings: Seq<Seq<char>>,
    b: Seq<u8>,
    pos: usize,
    remaining: nat,
    ne: bool,
    acc: Seq<SpecSkinSlot>,
) -> Result<(Seq<SpecSkinSlot>, usize), SpinalError>
    decreases remaining,
{
    if remaining == 0 {
        Ok((acc, pos))
    } else {
        match sp_skin_slot(strings, b, pos, ne) {
            Ok((s, p)) => sp_skin_slots_rec(strings, b, p, (remaining - 1) as nat, ne, acc.push(s)),
            Err(e) => Err(e),
        }
    }
}

/// The header of one skin: its name, constraint subsets and slot count. The
/// default skin holds only the slot count; a named skin carries them all.
pub open spec fn sp_skin_header(b: Seq<u8>, pos: usize, is_default: bool) -> Result<
    ((Seq<char>, Seq<usize>, Seq<usize>, Seq<usize>, Seq<usize>, u32), usize),
    SpinalError,
> {
    if is_default {
        match sp_varint(b, pos, Field::Count) {
            Err(e) => Err(e),
            Ok((n, p1)) => Ok(
                (("default"@, Seq::empty(), Seq::empty(), Seq::empty(), Seq::empty(), n), p1),
            ),
        }
    } else {
        match sp_str(b, pos, Field::SkinName) {
            Err(e) => Err(e),
            Ok((name, p1)) => match crate::binary::sp_varint_list(b, p1) {
                Err(e) => Err(e),
                Ok((bones, p2)) => match crate::binary::sp_varint_list(b, p2) {
                    Err(e) => Err(e),
                    Ok((ik, p3)) => match crate::binary::sp_varint_list(b, p3) {
                        Err(e) => Err(e),
                        Ok((transforms, p4)) => match crate::binary::sp_varint_list(b, p4) {
                            Err(e) => Err(e),
                            Ok((paths, p5)) => match sp_varint(b, p5, Field::Count) {
                                Err(e) => Err(e),
                                Ok((n, p6)) => Ok(((name, bones, ik, transforms, paths, n), p6)),
                            },
                        },
                    },
                },
            },
        }
    }
}

/// One skin: its header, then its slot list.
pub open spec fn sp_skin(strings: Seq<Seq<char>>, b: Seq<u8>, pos: usize, ne: bool, is_default: bool) -> Result<
    (SpecSkin, usize),
    SpinalError,
> {
    match sp_skin_header(b, pos, is_default) {
        Err(e) => Err(e),
        Ok(((name, bones, ik, transforms, paths, n), p6)) => match sp_skin_slots_rec(
            strings,
            b,
            p6,
            n as nat,
            ne,
            Seq::empty(),
        ) {
            Err(e) => Err(e),
            Ok((slots, p7)) => Ok((SpecSkin { name, bones, ik, transforms, paths, slots }, p7)),
        },
    }
}

pub fn rd_skin(strings: &Vec<String>, b: &[u8], pos: usize, ne: bool, is_default: bool) -> (r: Result<
    (Skin, usize),
    SpinalError,
>)
    ensures
        r matches Ok((s, p)) ==> sp_skin(strings.deep_view(), b@, pos, ne, is_default) == Ok::<
            (SpecSkin, usize),
            SpinalError,
        >((s@, p)),
        r matches Err(e) ==> sp_skin(strings.deep_view(), b@, pos, ne, is_default) == Err::<
            (SpecSkin, usize),
            SpinalError,
        >(e),
{
    let (name, bones, ik, transforms, paths, n, p6) = if is_default {
        let (n, p1) = match rd_varint(b, pos, Field::Count) {
            Ok(v) => v,
            Err(e) => {
                return Err(e);
            },
        };
        let name: String = "default".to_owned();
        (name, Vec::new(), Vec::new(), Vec::new(), Vec::new(), n, p1)
    } else {
        let (name, p1) = match rd_str(b, pos, Field::SkinName) {
            Ok(v) => v,
            Err(e) => {
                return Err(e);
            },
        };
        let (bones, p2) = match rd_varint_list(b, p1) {
            Ok(v) => v,
            Err(e) => {
                return Err(e);
            },
        };
        let (ik, p3) = match rd_varint_list(b, p2) {
            Ok(v) => v,
            Err(e) => {
                return Err(e);
            },
        };
        let (transforms, p4) = match rd_varint_list(b, p3) {
            Ok(v) => v,
            Err(e) => {
                return Err(e);
            },
        };
        let (paths, p5) = match rd_varint_list(b, p4) {
            Ok(v) => v,
            Err(e) => {
                return Err(e);
            },
        };
        let (n, p6) = match rd_varint(b, p5, Field::Count) {
            Ok(v) => v,
            Err(e) => {
                return Err(e);
            },
        };
        (name, bones, ik, transforms, paths, n, p6)
    };
    let mut slots: Vec<SkinSlot> = Vec::new();
    let mut p: usize = p6;
    let mut i: u32 = 0;
    proof {
        assert(slots.deep_view() =~= Seq::<SpecSkinSlot>::empty());
    }
    while i < n
        invariant
            i <= n,
            slots.deep_view().len() == i as int,
            sp_skin_header(b@, pos, is_default) == Ok::<
                ((Seq<char>, Seq<usize>, Seq<usize>, Seq<usize>, Seq<usize>, u32), usize),
                SpinalError,
            >(((name@, bones@, ik@, transforms@, paths@, n), p6)),
            sp_skin_slots_rec(strings.deep_view(), b@, p6, n as nat, ne, Seq::empty()) == sp_skin_slots_rec(
                strings.deep_view(),
                b@,
                p,
                (n - i) as nat,
                ne,
                slots.deep_view(),
            ),
        decreases n - i,
    {
        let ghost acc = slots.deep_view();
        proof {
            reveal_with_fuel(sp_skin_slots_rec, 2);
        }
        let (s, pn) = match rd_skin_slot(strings, b, p, ne) {
            Ok(v) => v,
            Err(e) => {
                return Err(e);
            },
        };
        let ghost sdv = s@;
        slots.push(s);
        proof {
            assert(slots.deep_view() =~= acc.push(sdv));
        }
        p = pn;
        i = i + 1;
    }
    proof {
        reveal_with_fuel(sp_skin_slots_rec, 2);
    }
    Ok((Skin { name, bones, ik, transforms, paths, slots }, p))
}

/// The skin section: the default skin, then a count of named skins.
pub open spec fn sp_named_skins_rec(
    strings: Seq<Seq<char>>,
    b: Seq<u8>,
    pos: usize,
    remaining: nat,
    ne: bool,
    acc: Seq<SpecSkin>,
) -> Result<(Seq<SpecSkin>, usize), SpinalError>
    decreases remaining,
{
    if remaining == 0 {
        Ok((acc, pos))
    } else {
        match sp_skin(strings, b, pos, ne, false) {
            Ok((s, p)) => sp_named_skins_rec(strings, b, p, (remaining - 1) as nat, ne, acc.push(s)),
            Err(e) => Err(e),
        }
    }
}

pub open spec fn sp_skins(strings: Seq<Seq<char>>, b: Seq<u8>, pos: usize, ne: bool) -> Result<
    (Seq<SpecSkin>, usize),
    SpinalError,
> {
    match sp_skin(strings, b, pos, ne, true) {
        Err(e) => Err(e),
        Ok((default_skin, p1)) => match sp_varint(b, p1, Field::Count) {
            Err(e) => Err(e),
            Ok((n, p2)) => match sp_named_skins_rec(strings, b, p2, n as nat, ne, Seq::empty()) {
                Err(e) => Err(e),
                Ok((named, p3)) => Ok((Seq::empty().push(default_skin) + named, p3)),
            },
        },
    }
}

pub fn rd_skins(strings: &Vec<String>, b: &[u8], pos: usize, ne: bool) -> (r: Result<(Vec<Skin>, usize), SpinalError>)
    ensures
        r matches Ok((s, p)) ==> sp_skins(strings.deep_view(), b@, pos, ne) == Ok::<(Seq<SpecSkin>, usize), SpinalError>(
            (s.deep_view(), p),
        ),
        r matches Err(e) ==> sp_skins(strings.deep_view(), b@, pos, ne) == Err::<(Seq<SpecSkin>, usize), SpinalError>(
            e,
        ),
{
    let (default_skin, p1) = match rd_skin(strings, b, pos, ne, true) {
        Ok(v) => v,
        Err(e) => {
            return Err(e);
        },
    };
    let (n, p2) = match rd_varint(b, p1, Field::Count) {
        Ok(v) => v,
        Err(e) => {
            return Err(e);
        },
    };
    let ghost first = default_skin@;
    let mut skins: Vec<Skin> = Vec::new();
    skins.push(default_skin);
    let mut p: usize = p2;
    let mut i: u32 = 0;
    proof {
        assert(skins.deep_view() =~= Seq::empty().push(first) + Seq::<SpecSkin>::empty());
        assert(skins.deep_view().skip(1) =~= Seq::<SpecSkin>::empty());
    }
    while i < n
        invariant
            i <= n,
            skins.deep_view().len() == i as int + 1,
            sp_named_skins_rec(strings.deep_view(), b@, p2, n as nat, ne, Seq::empty()) == sp_named_skins_rec(
                strings.deep_view(),
                b@,
                p,
                (n - i) as nat,
                ne,
                skins.deep_view().skip(1),
            ),
            skins.deep_view()[0] == first,
            sp_skin(strings.deep_view(), b@, pos, ne, true) == Ok::<(SpecSkin, usize), SpinalError>((first, p1)),
            sp_varint(b@, p1, Field::Count) == Ok::<(u32, usize), SpinalError>((n, p2)),
        decreases n - i,
    {
        let ghost acc = skins.deep_view().skip(1);
        proof {
            reveal_with_fuel(sp_named_skins_rec, 2);
        }
        let (s, pn) = match rd_skin(strings, b, p, ne, false) {
            Ok(v) => v,
            Err(e) => {
                return Err(e);
            },
        };
        let ghost sdv = s@;
        skins.push(s);
        proof {
            assert(skins.deep_view().skip(1) =~= acc.push(sdv));
            assert(skins.deep_view()[0] == first);
        }
        p = pn;
        i = i + 1;
    }
    proof {
        reveal_with_fuel(sp_named_skins_rec, 2);
        assert(skins.deep_view() =~= Seq::empty().push(first) + skins.deep_view().skip(1));
    }
    Ok((skins, p))
}

} // verus!
