//! Tests of the pose engine: world transforms, slot resolution and curve
//! evaluation.
use spinal::num::{Scalar, SCALE};
use spinal::geom::Vec2;
use spinal::skeleton::{AnimatedSlot, Animation, Attachment, AttachmentData, Blend, Bone, BoneKeyframe,
    BoneKeyframeData, Bezier, Interpolation, ParentTransform, RegionAttachment, Skeleton, Skin, SkinSlot, Slot,
    SlotKeyframe};
use spinal::skeleton::info::Info;
use spinal::state::{bezier_fraction, lerp, DetachedSkeletonState, SkeletonState};
use spinal::atlas::{Atlas, AtlasPage, AtlasRegion, Header, Rect};
use spinal::{Angle, Color};

fn scalar(v: i32) -> Scalar {
    Scalar::from_int(v)
}

fn vec2(x: i32, y: i32) -> Vec2 {
    Vec2 { x: scalar(x), y: scalar(y) }
}

fn bone(name: &str, parent: Option<usize>, pos: Vec2, rotation: i32) -> Bone {
    Bone {
        name: name.to_string(),
        parent,
        length: scalar(0),
        transform: ParentTransform::Normal,
        skin: false,
        position: pos,
        rotation: scalar(rotation),
        scale: vec2(1, 1),
        shear: vec2(0, 0),
        color: Color::bone_default(),
    }
}

fn two_bone_skeleton() -> Skeleton {
    let mut sk = Skeleton {
        info: Info::empty(),
        strings: Vec::new(),
        bones: vec![
            bone("root", None, vec2(0, 0), 0),
            bone("child", Some(0), vec2(0, 50), 30),
        ],
        bones_tree: Vec::new(),
        slots: Vec::new(),
        ik: Vec::new(),
        transforms: Vec::new(),
        paths: Vec::new(),
        skins: Vec::new(),
        events: Vec::new(),
        animations: Vec::new(),
    };
    sk.bones_tree = sk.build_bones_tree();
    sk
}

#[test]
fn two_bone_pose() {
    // a child at local offset (0, 50) with local rotation 30 degrees under a
    // root at the origin poses to world rotation 30 and world position (0, 50)
    let sk = two_bone_skeleton();
    let mut state = SkeletonState::new(&sk);
    state.pose();
    let child = state.bone("child").unwrap();
    assert_eq!(child.rotation, scalar(30));
    assert_eq!(child.affinity.tx, 0);
    assert_eq!(child.affinity.ty, 50 * SCALE);
    let root = state.bone("root").unwrap();
    assert_eq!(root.rotation, scalar(0));
    assert_eq!(root.affinity.tx, 0);
    assert_eq!(root.affinity.ty, 0);
}

#[test]
fn posing_is_pure() {
    // posing twice with the same skeleton and time yields identical state
    let sk = two_bone_skeleton();
    let mut a = DetachedSkeletonState::new();
    a.pose(&sk);
    let first_bones = a.calculated_bones.clone();
    let first_slots = a.slots.clone();
    a.pose(&sk);
    assert_eq!(a.calculated_bones, first_bones);
    assert_eq!(a.slots, first_slots);
    // and a read-only snapshot matches the stored pose
    assert_eq!(a.posed_bones(&sk), first_bones);
}

#[test]
fn user_override_applies() {
    let sk = two_bone_skeleton();
    let mut state = DetachedSkeletonState::new();
    state.bone_rotation("child", Angle::Degrees(scalar(15)));
    state.pose(&sk);
    assert_eq!(state.bone("child").unwrap().rotation, scalar(45));
    // overrides replace, never stack
    state.bone_rotation("child", Angle::Degrees(scalar(60)));
    state.pose(&sk);
    assert_eq!(state.bone("child").unwrap().rotation, scalar(90));
}

fn region_attachment(name: &str) -> Attachment {
    Attachment {
        placeholder_name: name.to_string(),
        attachment_name: name.to_string(),
        data: AttachmentData::Region(RegionAttachment {
            path: None,
            position: vec2(0, 0),
            scale: vec2(1, 1),
            rotation: scalar(0),
            size: vec2(10, 10),
            color: Color::white(),
        }),
    }
}

fn skeleton_with_slot(active: Option<&str>, available: &str) -> Skeleton {
    let mut sk = two_bone_skeleton();
    sk.slots = vec![Slot {
        name: "s".to_string(),
        bone: 0,
        color: Color::white(),
        dark: None,
        attachment: active.map(|s| s.to_string()),
        blend: Blend::Normal,
    }];
    sk.skins = vec![Skin {
        name: "default".to_string(),
        bones: Vec::new(),
        ik: Vec::new(),
        transforms: Vec::new(),
        paths: Vec::new(),
        slots: vec![SkinSlot { slot: 0, attachments: vec![region_attachment(available)] }],
    }];
    sk
}

#[test]
fn matched_attachment_is_visible() {
    let sk = skeleton_with_slot(Some("dagger"), "dagger");
    let mut state = DetachedSkeletonState::new();
    state.pose(&sk);
    assert_eq!(state.slots.len(), 1);
    assert_eq!(state.slots[0].0, 0);
    assert_eq!(state.slots[0].4, 0);
}

#[test]
fn unmatched_attachment_is_not_visible() {
    // a slot whose active attachment has no match in the skin renders
    // nothing: no entry, and no error
    let sk = skeleton_with_slot(Some("missing"), "dagger");
    let mut state = DetachedSkeletonState::new();
    state.pose(&sk);
    assert_eq!(state.slots.len(), 0);
    // an empty active attachment behaves the same way
    let sk = skeleton_with_slot(None, "dagger");
    let mut state = DetachedSkeletonState::new();
    state.pose(&sk);
    assert_eq!(state.slots.len(), 0);
}

#[test]
fn curve_endpoints() {
    // a Bezier at time fraction 0 yields the start value, at 1 the end value
    let c = Bezier { cx1: scalar(0), cy1: scalar(1), cx2: scalar(1), cy2: scalar(0) };
    assert_eq!(bezier_fraction(&c, scalar(0)).bits, 0);
    assert_eq!(bezier_fraction(&c, scalar(1)).bits, SCALE);
    let a = scalar(10);
    let b = scalar(50);
    assert_eq!(lerp(a, b, bezier_fraction(&c, scalar(0))), a);
    assert_eq!(lerp(a, b, bezier_fraction(&c, scalar(1))), b);
    // a linear curve matches plain interpolation at the midpoint
    assert_eq!(lerp(a, b, Scalar { bits: SCALE / 2 }), scalar(30));
}

#[test]
fn interpolation_between_keyframes() {
    let state = DetachedSkeletonState::new();
    let f1 = BoneKeyframe {
        time: scalar(0),
        data: BoneKeyframeData::BoneRotate(Angle::Degrees(scalar(0)), Interpolation::Linear),
    };
    let f2 = BoneKeyframe {
        time: scalar(2),
        data: BoneKeyframeData::BoneRotate(Angle::Degrees(scalar(90)), Interpolation::End),
    };
    // with no keyframes there is no modification
    assert!(state.interpolate(None, None).is_none());
    // with one keyframe its own value holds
    let only = state.interpolate(Some(&f1), None).unwrap();
    assert_eq!(only.rotation, Angle::Degrees(scalar(0)));
    // halfway between two keyframes a linear curve lands halfway: the state
    // time is 0, which is the start of the pair, so the fraction is 0
    let m = state.interpolate(Some(&f1), Some(&f2)).unwrap();
    assert_eq!(m.rotation, Angle::Degrees(scalar(0)));
    // a stepped curve snaps to the earlier value whatever the fraction
    let f1s = BoneKeyframe {
        time: scalar(0),
        data: BoneKeyframeData::BoneRotate(Angle::Degrees(scalar(10)), Interpolation::Stepped),
    };
    let ms = state.interpolate(Some(&f1s), Some(&f2)).unwrap();
    assert_eq!(ms.rotation, Angle::Degrees(scalar(10)));
}

#[test]
fn unsupported_transform_modes_are_reported() {
    let mut sk = two_bone_skeleton();
    sk.bones[1].transform = ParentTransform::OnlyTranslation;
    let mut state = DetachedSkeletonState::new();
    state.pose(&sk);
    assert_eq!(state.unsupported_transforms, vec![1usize]);
}

#[test]
fn slots_resolve_against_the_atlas() {
    let sk = skeleton_with_slot(Some("dagger"), "dagger");
    let atlas = Atlas {
        pages: vec![AtlasPage {
            header: Header {
                name: "page.png".to_string(),
                size: vec2(64, 64),
                premultiplied_alpha: false,
            },
            regions: vec![
                AtlasRegion {
                    name: "axe".to_string(),
                    index: None,
                    bounds: Some(Rect { position: vec2(0, 0), size: vec2(8, 8) }),
                    offsets: None,
                    rotate: scalar(0),
                },
                AtlasRegion {
                    name: "dagger".to_string(),
                    index: None,
                    bounds: Some(Rect { position: vec2(8, 0), size: vec2(8, 8) }),
                    offsets: None,
                    rotate: scalar(0),
                },
            ],
        }],
    };
    let project = spinal::Project::new(sk, atlas);
    let mut state = DetachedSkeletonState::new();
    state.update(&project, scalar(0));
    let infos = state.slots(&project);
    assert_eq!(infos.len(), 1);
    // the attachment resolves to the second atlas region, by name
    assert_eq!(infos[0].atlas_index, 1);
    assert_eq!(infos[0].slot, 0);
    // with identity transforms everywhere the world map is the identity
    assert_eq!(infos[0].affinity.tx, 0);
    assert_eq!(infos[0].affinity.a, SCALE);
    // a region name missing from the atlas renders nothing, without an error
    let sk2 = skeleton_with_slot(Some("unknown"), "unknown");
    let project2 = spinal::Project::new(sk2, spinal::Atlas { pages: Vec::new() });
    let mut state2 = DetachedSkeletonState::new();
    state2.update(&project2, scalar(0));
    assert_eq!(state2.slots(&project2).len(), 0);
}

#[test]
fn update_resets_a_stale_reference_frame() {
    let sk = two_bone_skeleton();
    let project = spinal::Project::new(sk, spinal::Atlas { pages: Vec::new() });
    let mut state = DetachedSkeletonState::new();
    state.animate("walk");
    assert_eq!(state.animation_time, scalar(0));
    // within one second the reference frame stands
    state.update(&project, Scalar { bits: SCALE / 2 });
    assert_eq!(state.animation_time, scalar(0));
    // beyond one second it resets to the current time
    state.update(&project, scalar(5));
    assert_eq!(state.animation_time, scalar(5));
}

#[test]
fn attachment_keyframes_switch_the_visible_attachment() {
    let mut sk = skeleton_with_slot(Some("dagger"), "axe");
    // the skin offers only the axe; the setup attachment is the dagger
    sk.animations = vec![Animation {
        name: "swap".to_string(),
        bones: Vec::new(),
        slots: vec![AnimatedSlot {
            slot_index: 0,
            keyframes: vec![
                SlotKeyframe::Attachment(scalar(1), Some("axe".to_string())),
                SlotKeyframe::Attachment(scalar(3), None),
            ],
        }],
    }];
    let project = spinal::Project::new(sk, spinal::Atlas { pages: Vec::new() });

    // before the first keyframe the setup attachment has no match: invisible
    let mut state = DetachedSkeletonState::new();
    state.animate("swap");
    state.update(&project, Scalar { bits: SCALE / 2 });
    assert_eq!(state.slots.len(), 0);

    // after the switch the axe is found in the skin
    let mut state = DetachedSkeletonState::new();
    state.animate("swap");
    state.update(&project, scalar(1));
    assert_eq!(state.slots.len(), 1);
    assert_eq!(state.slots[0].4, 0);

    // a switch to nothing hides the slot again; a fresh state keeps the
    // reference frame at zero so three seconds have elapsed
    let mut state = DetachedSkeletonState::new();
    state.animate("swap");
    state.calculate_bone_animations(&project);
    state.time = scalar(3);
    state.pose(&project.skeleton);
    assert_eq!(state.slots.len(), 0);
}

#[test]
fn interpolation_reaches_the_end_value() {
    // at the second keyframe's own time, a Bezier curve (time fraction 1)
    // returns the second keyframe's value exactly
    let mut state = DetachedSkeletonState::new();
    state.time = scalar(2);
    let curve = Interpolation::Bezier(vec![Bezier {
        cx1: scalar(0),
        cy1: scalar(1),
        cx2: scalar(1),
        cy2: scalar(0),
    }]);
    let f1 = BoneKeyframe {
        time: scalar(0),
        data: BoneKeyframeData::BoneRotate(Angle::Degrees(scalar(10)), curve),
    };
    let f2 = BoneKeyframe {
        time: scalar(2),
        data: BoneKeyframeData::BoneRotate(Angle::Degrees(scalar(90)), Interpolation::End),
    };
    let m = state.interpolate(Some(&f1), Some(&f2)).unwrap();
    assert_eq!(m.rotation, Angle::Degrees(scalar(90)));
}

#[test]
fn interpolation_hits_the_linear_midpoint() {
    // halfway through the time between two keyframes a linear curve returns
    // the average of the two values
    let mut state = DetachedSkeletonState::new();
    state.time = scalar(1);
    let f1 = BoneKeyframe {
        time: scalar(0),
        data: BoneKeyframeData::BoneTranslate(vec2(10, 0), Interpolation::Linear),
    };
    let f2 = BoneKeyframe {
        time: scalar(2),
        data: BoneKeyframeData::BoneTranslate(vec2(50, 8), Interpolation::End),
    };
    let m = state.interpolate(Some(&f1), Some(&f2)).unwrap();
    assert_eq!(m.translation, vec2(30, 4));
}
