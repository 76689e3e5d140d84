//! Decoding the bone section of the binary format.
use vstd::prelude::*;
use crate::binary::{rd_bool, rd_byte, rd_col, rd_float, rd_str, rd_varint, rd_vec2, sp_bool, sp_byte, sp_col,
    sp_float, sp_str, sp_varint, sp_vec2};
use crate::skeleton::bone::{Bone, ParentTransform, SpecBone, spec_parent_transform_from_repr};
use crate::{Field, SpinalError, StructureError};

verus! {

/// The parent index of a bone: absent for the root (which carries none in
/// the stream), and otherwise a varint that must point to an earlier bone.
pub open spec fn sp_bone_parent(b: Seq<u8>, pos: usize, root: bool, idx: usize) -> Result<
    (Option<usize>, usize),
    SpinalError,
> {
    if root {
        Ok((None, pos))
    } else {
        match sp_varint(b, pos, Field::BoneParent) {
            Ok((pv, p)) => {
                if (pv as usize) < idx {
                    Ok((Some(pv as usize), p))
                } else {
                    Err(SpinalError::Structure(StructureError::ParentOutOfOrder(idx)))
                }
            },
            Err(e) => Err(e),
        }
    }
}

pub fn rd_bone_parent(b: &[u8], pos: usize, root: bool, idx: usize) -> (r: Result<(Option<usize>, usize), SpinalError>)
    ensures
        r == sp_bone_parent(b@, pos, root, idx),
{
    if root {
        Ok((None, pos))
    } else {
        match rd_varint(b, pos, Field::BoneParent) {
            Ok((pv, p)) => {
                if (pv as usize) < idx {
                    Ok((Some(pv as usize), p))
                } else {
                    Err(SpinalError::Structure(StructureError::ParentOutOfOrder(idx)))
                }
            },
            Err(e) => Err(e),
        }
    }
}

/// One bone record: name, parent (absent on the root), rotation, position,
/// scale, shear, length, inheritance mode, skin flag and color.
#[verifier::opaque]
pub open spec fn sp_bone(b: Seq<u8>, pos: usize, root: bool, idx: usize) -> Result<(SpecBone, usize), SpinalError> {
    match sp_str(b, pos, Field::BoneName) {
        Err(e) => Err(e),
        Ok((name, p1)) => match sp_bone_parent(b, p1, root, idx) {
            Err(e) => Err(e),
            Ok((parent, p2)) => match sp_float(b, p2, Field::BoneValue) {
                Err(e) => Err(e),
                Ok((rotation, p3)) => match sp_vec2(b, p3, Field::BoneValue) {
                    Err(e) => Err(e),
                    Ok((position, p4)) => match sp_vec2(b, p4, Field::BoneValue) {
                        Err(e) => Err(e),
                        Ok((scale, p5)) => match sp_vec2(b, p5, Field::BoneValue) {
                            Err(e) => Err(e),
                            Ok((shear, p6)) => match sp_float(b, p6, Field::BoneValue) {
                                Err(e) => Err(e),
                                Ok((length, p7)) => match sp_byte(b, p7, Field::TransformMode) {
                                    Err(e) => Err(e),
                                    Ok((mode, p8)) => match spec_parent_transform_from_repr(mode) {
                                        None => Err(crate::binary::sp_bad(p7, Field::TransformMode)),
                                        Some(transform) => match sp_bool(b, p8, Field::BoneValue) {
                                            Err(e) => Err(e),
                                            Ok((skin, p9)) => match sp_col(b, p9, Field::BoneValue) {
                                                Err(e) => Err(e),
                                                Ok((color, p10)) => Ok(
                                                    (
                                                        SpecBone {
                                                            name,
                                                            parent,
                                                            length,
                                                            transform,
                                                            skin,
                                                            position,
                                                            rotation,
                                                            scale,
                                                            shear,
                                                            color,
                                                        },
                                                        p10,
                                                    ),
                                                ),
                                            },
                                        },
                                    },
                                },
                            },
                        },
                    },
                },
            },
        },
    }
}

pub fn rd_bone(b: &[u8], pos: usize, root: bool, idx: usize) -> (r: Result<(Bone, usize), SpinalError>)
    ensures
        r matches Ok((bone, p)) ==> sp_bone(b@, pos, root, idx) == Ok::<(SpecBone, usize), SpinalError>((bone@, p)),
        r matches Err(e) ==> sp_bone(b@, pos, root, idx) == Err::<(SpecBone, usize), SpinalError>(e),
{
    proof {
        reveal(sp_bone);
    }
    let (name, p1) = match rd_str(b, pos, Field::BoneName) {
        Ok(v) => v,
        Err(e) => {
            return Err(e);
        },
    };
    let (parent, p2) = match rd_bone_parent(b, p1, root, idx) {
        Ok(v) => v,
        Err(e) => {
            return Err(e);
        },
    };
    let (rotation, p3) = match rd_float(b, p2, Field::BoneValue) {
        Ok(v) => v,
        Err(e) => {
            return Err(e);
        },
    };
    let (position, p4) = match rd_vec2(b, p3, Field::BoneValue) {
        Ok(v) => v,
        Err(e) => {
            return Err(e);
        },
    };
    let (scale, p5) = match rd_vec2(b, p4, Field::BoneValue) {
        Ok(v) => v,
        Err(e) => {
            return Err(e);
        },
    };
    let (shear, p6) = match rd_vec2(b, p5, Field::BoneValue) {
        Ok(v) => v,
        Err(e) => {
            return Err(e);
        },
    };
    let (length, p7) = match rd_float(b, p6, Field::BoneValue) {
        Ok(v) => v,
        Err(e) => {
            return Err(e);
        },
    };
    let (mode, p8) = match rd_byte(b, p7, Field::TransformMode) {
        Ok(v) => v,
        Err(e) => {
            return Err(e);
        },
    };
    let transform = match ParentTransform::from_repr(mode) {
        Some(t) => t,
        None => {
            return Err(SpinalError::Decode(
                crate::DecodeError { offset: p7, field: Field::TransformMode, kind: crate::DecodeKind::BadValue },
            ));
        },
    };
    let (skin, p9) = match rd_bool(b, p8, Field::BoneValue) {
        Ok(v) => v,
        Err(e) => {
            return Err(e);
        },
    };
    let (color, p10) = match rd_col(b, p9, Field::BoneValue) {
        Ok(v) => v,
        Err(e) => {
            return Err(e);
        },
    };
    Ok((Bone { name, parent, length, transform, skin, position, rotation, scale, shear, color }, p10))
}

/// The bone section: a count, then that many bone records, the root first.
pub open spec fn sp_bones_rec(b: Seq<u8>, pos: usize, remaining: nat, acc: Seq<SpecBone>) -> Result<
    (Seq<SpecBone>, usize),
    SpinalError,
>
    decreases remaining,
{
    if remaining == 0 {
        Ok((acc, pos))
    } else {
        match sp_bone(b, pos, acc.len() == 0, acc.len() as usize) {
            Ok((bone, p)) => sp_bones_rec(b, p, (remaining - 1) as nat, acc.push(bone)),
            Err(e) => Err(e),
        }
    }
}

pub open spec fn sp_bones(b: Seq<u8>, pos: usize) -> Result<(Seq<SpecBone>, usize), SpinalError> {
    match sp_varint(b, pos, Field::Count) {
        Ok((n, p)) => sp_bones_rec(b, p, n as nat, Seq::empty()),
        Err(e) => Err(e),
    }
}

pub fn rd_bones(b: &[u8], pos: usize) -> (r: Result<(Vec<Bone>, usize), SpinalError>)
    ensures
        r matches Ok((bones, p)) ==> sp_bones(b@, pos) == Ok::<(Seq<SpecBone>, usize), SpinalError>(
            (bones.deep_view(), p),
        ),
        r matches Err(e) ==> sp_bones(b@, pos) == Err::<(Seq<SpecBone>, usize), SpinalError>(e),
{
    let (n, p0) = match rd_varint(b, pos, Field::Count) {
        Ok(v) => v,
        Err(e) => {
            return Err(e);
        },
    };
    let mut bones: Vec<Bone> = Vec::new();
    let mut p: usize = p0;
    let mut i: u32 = 0;
    proof {
        assert(bones.deep_view() =~= Seq::<SpecBone>::empty());
    }
    while i < n
        invariant
            i <= n,
            bones.deep_view().len() == i as int,
            sp_bones(b@, pos) == sp_bones_rec(b@, p, (n - i) as nat, bones.deep_view()),
        decreases n - i,
    {
        let ghost acc = bones.deep_view();
        proof {
            reveal_with_fuel(sp_bones_rec, 2);
            assert(acc.len() == i as int);
        }
        let (bone, p2) = match rd_bone(b, p, bones.len() == 0, bones.len()) {
            Ok(v) => v,
            Err(e) => {
                proof {
                    reveal_with_fuel(sp_bones_rec, 2);
                }
                return Err(e);
            },
        };
        bones.push(bone);
        proof {
            reveal_with_fuel(sp_bones_rec, 2);
            assert(bones.deep_view() =~= acc.push(bone@));
        }
        p = p2;
        i = i + 1;
    }
    proof {
        reveal_with_fuel(sp_bones_rec, 2);
    }
    Ok((bones, p))
}

} // verus!
