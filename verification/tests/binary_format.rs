//! Tests of the binary skeleton decoder against fixtures built in memory.
use spinal::num::Scalar;
use spinal::skeleton::{BoneKeyframeData, Interpolation};
use spinal::{BinarySkeletonParser, DecodeKind, Field, ReferenceError, SpinalError, StructureError};

fn put_varint(out: &mut Vec<u8>, mut v: u32) {
    loop {
        let byte = (v & 0x7f) as u8;
        v >>= 7;
        if v == 0 {
            out.push(byte);
            return;
        }
        out.push(byte | 0x80);
    }
}

fn put_str(out: &mut Vec<u8>, s: &str) {
    put_varint(out, (s.len() + 1) as u32);
    out.extend_from_slice(s.as_bytes());
}

fn put_f32(out: &mut Vec<u8>, v: f32) {
    out.extend_from_slice(&v.to_bits().to_be_bytes());
}

fn put_vec2(out: &mut Vec<u8>, x: f32, y: f32) {
    put_f32(out, x);
    put_f32(out, y);
}

fn put_col(out: &mut Vec<u8>, v: u32) {
    out.extend_from_slice(&v.to_be_bytes());
}

fn put_bone(out: &mut Vec<u8>, name: &str, parent: Option<u32>, rotation: f32, x: f32, y: f32) {
    put_str(out, name);
    if let Some(p) = parent {
        put_varint(out, p);
    }
    put_f32(out, rotation);
    put_vec2(out, x, y); // position
    put_vec2(out, 1.0, 1.0); // scale
    put_vec2(out, 0.0, 0.0); // shear
    put_f32(out, 0.0); // length
    out.push(0); // full inheritance
    out.push(0); // not skin-required
    put_col(out, 0x989898FF);
}

fn put_slot(out: &mut Vec<u8>, name: &str, bone: u32) {
    put_str(out, name);
    put_varint(out, bone);
    put_col(out, 0xFFFFFFFF);
    put_col(out, 0xFFFFFFFF); // dark absent
    put_varint(out, 0); // no default attachment
    put_varint(out, 0); // normal blending
}

/// A fixture with the documented counts: 18 bones, 20 slots, no constraints.
fn fixture() -> Vec<u8> {
    let mut b = Vec::new();
    b.extend_from_slice(&0x1234_5678_9abc_def0u64.to_be_bytes()); // hash
    put_str(&mut b, "4.1.08"); // version
    put_vec2(&mut b, 0.0, 0.0); // bottom left
    put_vec2(&mut b, 100.0, 200.0); // size
    b.push(0); // no non-essential data
    put_varint(&mut b, 0); // empty string table
    put_varint(&mut b, 18); // bones
    put_bone(&mut b, "root", None, 0.0, 0.0, 0.0);
    for i in 1..18 {
        put_bone(&mut b, &format!("bone{}", i), Some(0), 0.0, 1.0, 2.0);
    }
    put_varint(&mut b, 20); // slots
    for i in 0..20 {
        put_slot(&mut b, &format!("slot{}", i), 0);
    }
    put_varint(&mut b, 0); // ik
    put_varint(&mut b, 0); // transforms
    put_varint(&mut b, 0); // paths
    put_varint(&mut b, 0); // default skin: no slots
    put_varint(&mut b, 0); // no named skins
    put_varint(&mut b, 0); // events
    put_varint(&mut b, 0); // animations
    b
}

#[test]
fn fixture_counts() {
    let b = fixture();
    let skeleton = BinarySkeletonParser::parse(b.as_slice()).unwrap();
    assert_eq!(skeleton.info.version, "4.1.08");
    assert_eq!(skeleton.info.hash, "123456789abcdef0");
    assert_eq!(skeleton.bones.len(), 18);
    assert_eq!(skeleton.slots.len(), 20);
    assert_eq!(skeleton.ik.len(), 0);
    assert_eq!(skeleton.skins.len(), 1);
    assert_eq!(skeleton.bones[0].name, "root");
    assert_eq!(skeleton.bones[1].parent, Some(0));
    assert_eq!(skeleton.bones[1].position.x.bits, 65536);
    assert_eq!(skeleton.bones_tree[0].len(), 17);
    // decoding is deterministic
    let again = BinarySkeletonParser::parse(b.as_slice()).unwrap();
    assert_eq!(skeleton, again);
}

#[test]
fn truncated_input_is_a_decode_error() {
    let b = fixture();
    for cut in [0, 1, 8, 20, b.len() - 1] {
        let r = BinarySkeletonParser::parse(&b[..cut]);
        match r {
            Err(SpinalError::Decode(e)) => assert_eq!(e.kind, DecodeKind::Truncated),
            other => panic!("expected a truncation error, got {:?}", other),
        }
    }
}

#[test]
fn forward_parent_reference_fails_decoding() {
    // a bone naming a later bone as its parent is rejected while decoding,
    // so posing can never loop
    let mut b = Vec::new();
    b.extend_from_slice(&0u64.to_be_bytes());
    put_str(&mut b, "4.1.08");
    put_vec2(&mut b, 0.0, 0.0);
    put_vec2(&mut b, 0.0, 0.0);
    b.push(0);
    put_varint(&mut b, 0);
    put_varint(&mut b, 2);
    put_bone(&mut b, "root", None, 0.0, 0.0, 0.0);
    put_bone(&mut b, "loop", Some(5), 0.0, 0.0, 0.0); // out of order
    let r = BinarySkeletonParser::parse(b.as_slice());
    assert_eq!(
        r.unwrap_err(),
        SpinalError::Structure(StructureError::ParentOutOfOrder(1))
    );
}

#[test]
fn bad_blend_tag_is_rejected() {
    let mut b = Vec::new();
    b.extend_from_slice(&0u64.to_be_bytes());
    put_str(&mut b, "4.1.08");
    put_vec2(&mut b, 0.0, 0.0);
    put_vec2(&mut b, 0.0, 0.0);
    b.push(0);
    put_varint(&mut b, 0);
    put_varint(&mut b, 1);
    put_bone(&mut b, "root", None, 0.0, 0.0, 0.0);
    put_varint(&mut b, 1);
    put_str(&mut b, "slot");
    put_varint(&mut b, 0);
    put_col(&mut b, 0xFFFFFFFF);
    put_col(&mut b, 0xFFFFFFFF);
    put_varint(&mut b, 0);
    put_varint(&mut b, 9); // blend out of range
    let r = BinarySkeletonParser::parse(b.as_slice());
    match r {
        Err(SpinalError::Decode(e)) => {
            assert_eq!(e.field, Field::Blend);
            assert_eq!(e.kind, DecodeKind::BadValue);
        },
        other => panic!("expected a blend error, got {:?}", other),
    }
}

#[test]
fn string_table_index_out_of_range_is_a_reference_error() {
    let mut b = Vec::new();
    b.extend_from_slice(&0u64.to_be_bytes());
    put_str(&mut b, "4.1.08");
    put_vec2(&mut b, 0.0, 0.0);
    put_vec2(&mut b, 0.0, 0.0);
    b.push(0);
    put_varint(&mut b, 0); // empty string table
    put_varint(&mut b, 1);
    put_bone(&mut b, "root", None, 0.0, 0.0, 0.0);
    put_varint(&mut b, 1);
    put_str(&mut b, "slot");
    put_varint(&mut b, 0);
    put_col(&mut b, 0xFFFFFFFF);
    put_col(&mut b, 0xFFFFFFFF);
    put_varint(&mut b, 3); // attachment points past the table
    put_varint(&mut b, 0);
    let r = BinarySkeletonParser::parse(b.as_slice());
    assert_eq!(
        r.unwrap_err(),
        SpinalError::Reference(ReferenceError::StringIndex(3))
    );
}

#[test]
fn slot_bone_out_of_range_is_a_reference_error() {
    let mut b = Vec::new();
    b.extend_from_slice(&0u64.to_be_bytes());
    put_str(&mut b, "4.1.08");
    put_vec2(&mut b, 0.0, 0.0);
    put_vec2(&mut b, 0.0, 0.0);
    b.push(0);
    put_varint(&mut b, 0);
    put_varint(&mut b, 1);
    put_bone(&mut b, "root", None, 0.0, 0.0, 0.0);
    put_varint(&mut b, 1);
    put_str(&mut b, "slot");
    put_varint(&mut b, 7); // no bone 7
    let r = BinarySkeletonParser::parse(b.as_slice());
    assert_eq!(
        r.unwrap_err(),
        SpinalError::Reference(ReferenceError::BoneIndex(7))
    );
}

#[test]
fn pose_after_decode() {
    // end to end: decode a fixture and pose it
    let b = fixture();
    let skeleton = BinarySkeletonParser::parse(b.as_slice()).unwrap();
    let mut state = spinal::DetachedSkeletonState::new();
    state.pose(&skeleton);
    assert_eq!(state.calculated_bones.len(), 18);
    let (name, root) = &state.calculated_bones[0];
    assert_eq!(name, "root");
    assert_eq!(root.rotation.bits, 0);
    let (_, child) = &state.calculated_bones[1];
    assert_eq!(child.affinity.tx, 65536);
    assert_eq!(child.affinity.ty, 2 * 65536);
}

fn fixture_with_animation() -> Vec<u8> {
    let mut b = Vec::new();
    b.extend_from_slice(&1u64.to_be_bytes());
    put_str(&mut b, "4.1.08");
    put_vec2(&mut b, 0.0, 0.0);
    put_vec2(&mut b, 0.0, 0.0);
    b.push(0);
    put_varint(&mut b, 0); // strings
    put_varint(&mut b, 2); // bones
    put_bone(&mut b, "root", None, 0.0, 0.0, 0.0);
    put_bone(&mut b, "child", Some(0), 30.0, 0.0, 50.0);
    put_varint(&mut b, 0); // slots
    put_varint(&mut b, 0); // ik
    put_varint(&mut b, 0); // transforms
    put_varint(&mut b, 0); // paths
    put_varint(&mut b, 0); // default skin: no slots
    put_varint(&mut b, 0); // no named skins
    put_varint(&mut b, 0); // events
    put_varint(&mut b, 1); // one animation
    put_str(&mut b, "wave");
    b.push(0); // reserved byte
    put_varint(&mut b, 0); // animated slots
    put_varint(&mut b, 1); // animated bones
    put_varint(&mut b, 1); // bone index
    put_varint(&mut b, 1); // one timeline
    b.push(0); // rotate timeline
    put_varint(&mut b, 2); // two keyframes
    b.push(0); // reserved byte
    put_f32(&mut b, 0.0); // first time
    put_f32(&mut b, 0.0); // first angle
    b.push(0); // linear toward the next keyframe
    put_f32(&mut b, 2.0); // last time
    put_f32(&mut b, 90.0); // last angle, no descriptor after the last
    put_varint(&mut b, 0); // animated ik
    put_varint(&mut b, 0); // animated transforms
    b.push(0); // path section marker
    b.push(0); // skin section marker
    put_varint(&mut b, 0); // draw orders
    put_varint(&mut b, 0); // events
    b
}

#[test]
fn animation_decodes_and_poses() {
    let b = fixture_with_animation();
    let skeleton = BinarySkeletonParser::parse(b.as_slice()).unwrap();
    assert_eq!(skeleton.animations.len(), 1);
    let anim = &skeleton.animations[0];
    assert_eq!(anim.name, "wave");
    assert_eq!(anim.bones.len(), 1);
    let frames = &anim.bones[0].timelines[0].frames;
    assert_eq!(frames.len(), 2);
    match &frames[0].data {
        BoneKeyframeData::BoneRotate(a, c) => {
            assert_eq!(a.to_degrees().bits, 0);
            assert_eq!(*c, Interpolation::Linear);
        },
        other => panic!("expected a rotate keyframe, got {:?}", other),
    }
    match &frames[1].data {
        BoneKeyframeData::BoneRotate(a, c) => {
            assert_eq!(a.to_degrees().bits, 90 * 65536);
            assert_eq!(*c, Interpolation::End);
        },
        other => panic!("expected a rotate keyframe, got {:?}", other),
    }

    // halfway between the keyframes the linear curve adds 45 degrees on top
    // of the child's 30-degree rest rotation
    let project = spinal::Project::new(skeleton, spinal::Atlas { pages: Vec::new() });
    let mut state = spinal::DetachedSkeletonState::new();
    state.animate("wave");
    state.update(&project, Scalar::from_int(1));
    let child = state.bone("child").unwrap();
    assert_eq!(child.rotation, Scalar::from_int(75));
    // the child's world offset is unchanged by its own rotation
    assert_eq!(child.affinity.ty, 50 * 65536);
}

#[test]
fn invalid_utf8_in_a_string_is_reported() {
    let mut b = Vec::new();
    b.extend_from_slice(&0u64.to_be_bytes());
    // a version string of two bytes that are not UTF-8
    put_varint(&mut b, 3);
    b.push(0xFF);
    b.push(0xFE);
    let r = BinarySkeletonParser::parse(b.as_slice());
    match r {
        Err(SpinalError::Decode(e)) => assert_eq!(e.kind, DecodeKind::InvalidUtf8),
        other => panic!("expected an encoding error, got {:?}", other),
    }
}
