//! Tests of the JSON skeleton decoder, including the behaviorally
//! significant defaults for omitted keys.
use spinal::json::{self, parse_json_tree, JsonBone, JsonInfo, JsonSlot, Lookup, json_attachment};
use spinal::num::Scalar;
use spinal::geom::Vec2;
use spinal::skeleton::{AttachmentData, ParentTransform, Vertices};
use spinal::{Color, ReferenceError, SpinalError};

fn tree(s: &str) -> spinal::json::JsonValue {
    parse_json_tree(s.as_bytes()).unwrap()
}

#[test]
fn bone_defaults() {
    let v = tree(r#"{"name": "root"}"#);
    let s = JsonBone::decode(&v).unwrap();
    assert_eq!(s.length.bits, 0);
    assert_eq!(s.transform, ParentTransform::Normal);
    assert_eq!(s.skin, false);
    assert_eq!(s.x.bits, 0);
    assert_eq!(s.y.bits, 0);
    assert_eq!(s.rotation.bits, 0);
    assert_eq!(s.scale_x, Scalar::from_int(1));
    assert_eq!(s.scale_y, Scalar::from_int(1));
    assert_eq!(s.shear_x.bits, 0);
    assert_eq!(s.shear_y.bits, 0);
    assert_eq!(s.color, "989898FF");
}

#[test]
fn bone_rename() {
    let v = tree(r#"{"name": "root", "shearX": 5}"#);
    let s = JsonBone::decode(&v).unwrap();
    assert_eq!(s.shear_x, Scalar::from_int(5));
}

#[test]
fn info_basic() {
    let v = tree(
        r#"
        {
            "hash": "itfFESDjM1c",
            "spine": "4.1.06",
            "x": -188.63,
            "y": -7.94,
            "width": 418.45,
            "height": 686.2,
            "images": "./images/",
            "audio": ""
        }
    "#,
    );
    let s = JsonInfo::decode(&v).unwrap();
    let origin = s.origin();
    let size = s.size();
    assert_eq!(origin.x.bits, -(188 * 65536 + 63 * 65536 / 100));
    assert_eq!(origin.y.bits, -(7 * 65536 + 94 * 65536 / 100));
    assert_eq!(size.x.bits, 418 * 65536 + 45 * 65536 / 100);
    assert_eq!(size.y.bits, 686 * 65536 + 2 * 65536 / 10);
    assert_eq!(s.hash, "itfFESDjM1c");
    assert_eq!(s.version, "4.1.06");
}

#[test]
fn attachment_tagged() {
    let bones: Vec<JsonBone> = Vec::new();
    let slots: Vec<JsonSlot> = Vec::new();
    let lookup = Lookup::new(&bones, &slots);
    let v = tree(
        r#"
        {
            "type": "boundingbox",
            "vertexCount": 6,
            "vertices": [ -19.14, -70.3, 40.8, -118.08, 257.78, -115.62, 285.17, 57.18, 120.77, 164.95, -5.07, 76.95 ]
        }
    "#,
    );
    let a = json_attachment(&v, &"ph".to_string(), &lookup).unwrap();
    match a.data {
        AttachmentData::BoundingBox(bb) => {
            match bb.vertices {
                Vertices::Positions { positions } => {
                    assert_eq!(positions.len(), 6);
                    assert_eq!(positions[0].x.bits, -(19 * 65536 + 14 * 65536 / 100));
                    assert_eq!(positions[0].y.bits, -(70 * 65536 + 3 * 65536 / 10));
                    assert_eq!(positions[3].x.bits, 285 * 65536 + 17 * 65536 / 100);
                },
                other => panic!("expected plain positions, got {:?}", other),
            }
            assert_eq!(bb.color, Color(0x60F000FF));
        },
        other => panic!("expected a bounding box, got {:?}", other),
    }
}

#[test]
fn attachment_untagged() {
    let bones: Vec<JsonBone> = Vec::new();
    let slots: Vec<JsonSlot> = Vec::new();
    let lookup = Lookup::new(&bones, &slots);
    let v = tree(r#"{ "x": 58.29, "y": -2.75, "rotation": 92.37, "width": 75, "height": 178 }"#);
    let a = json_attachment(&v, &"ph".to_string(), &lookup).unwrap();
    match a.data {
        AttachmentData::Region(r) => {
            assert_eq!(r.position.x.bits, 58 * 65536 + 29 * 65536 / 100);
            assert_eq!(r.position.y.bits, -(2 * 65536 + 75 * 65536 / 100));
            assert_eq!(r.rotation.bits, 92 * 65536 + 37 * 65536 / 100);
            assert_eq!(r.size, Vec2 { x: Scalar::from_int(75), y: Scalar::from_int(178) });
            assert_eq!(r.scale, Vec2 { x: Scalar::from_int(1), y: Scalar::from_int(1) });
            assert_eq!(r.color, Color::white());
        },
        other => panic!("expected a region, got {:?}", other),
    }
}

#[test]
fn whole_document() {
    let doc = r#"
    {
        "skeleton": { "hash": "h", "spine": "4.1.08", "x": 0, "y": 0, "width": 10, "height": 20 },
        "bones": [
            { "name": "root" },
            { "name": "arm", "parent": "root", "x": 3 }
        ],
        "slots": [
            { "name": "front", "bone": "arm", "attachment": "sword" }
        ],
        "ik": [],
        "skins": [
            { "name": "default", "attachments": { "front": { "sword": { "width": 5, "height": 7 } } } }
        ]
    }
    "#;
    let sk = json::parse(doc.as_bytes()).unwrap();
    assert_eq!(sk.bones.len(), 2);
    assert_eq!(sk.bones[1].parent, Some(0));
    assert_eq!(sk.bones[1].position.x, Scalar::from_int(3));
    assert_eq!(sk.slots.len(), 1);
    assert_eq!(sk.slots[0].bone, 1);
    assert_eq!(sk.slots[0].attachment.as_deref(), Some("sword"));
    assert_eq!(sk.skins.len(), 1);
    assert_eq!(sk.skins[0].slots[0].slot, 0);
    assert_eq!(sk.skins[0].slots[0].attachments[0].attachment_name, "sword");
    assert_eq!(sk.bones_tree[0], vec![1usize]);

    // the resolved skeleton poses like the binary-decoded one would
    let mut state = spinal::DetachedSkeletonState::new();
    state.pose(&sk);
    assert_eq!(state.slots.len(), 1);
}

#[test]
fn unknown_bone_reference_fails() {
    let doc = r#"
    {
        "skeleton": { "hash": "h", "spine": "4.1.08", "x": 0, "y": 0, "width": 1, "height": 1 },
        "bones": [ { "name": "root" } ],
        "slots": [ { "name": "s", "bone": "missing" } ],
        "ik": [],
        "skins": []
    }
    "#;
    let r = json::parse(doc.as_bytes());
    assert_eq!(
        r.unwrap_err(),
        SpinalError::Reference(ReferenceError::BoneName("missing".to_string()))
    );
}

#[test]
fn forward_parent_reference_fails() {
    let doc = r#"
    {
        "skeleton": { "hash": "h", "spine": "4.1.08", "x": 0, "y": 0, "width": 1, "height": 1 },
        "bones": [ { "name": "root", "parent": "later" }, { "name": "later" } ],
        "slots": [],
        "ik": [],
        "skins": []
    }
    "#;
    assert!(json::parse(doc.as_bytes()).is_err());
}

#[test]
fn second_root_fails() {
    let doc = r#"
    {
        "skeleton": { "hash": "h", "spine": "4.1.08", "x": 0, "y": 0, "width": 1, "height": 1 },
        "bones": [ { "name": "root" }, { "name": "stray" } ],
        "slots": [],
        "ik": [],
        "skins": []
    }
    "#;
    assert!(json::parse(doc.as_bytes()).is_err());
}

#[test]
fn malformed_document_fails() {
    assert!(json::parse(b"not json").is_err());
    assert!(json::parse(b"{}").is_err());
}

#[test]
fn attachment_mesh() {
    let bones: Vec<JsonBone> = Vec::new();
    let slots: Vec<JsonSlot> = Vec::new();
    let lookup = Lookup::new(&bones, &slots);
    let v = tree(
        r#"
        {
            "type": "mesh",
            "uvs": [0, 0, 1, 0, 1, 1],
            "triangles": [0, 1, 2],
            "vertices": [0, 0, 10, 0, 10, 20],
            "hull": 3
        }
    "#,
    );
    let a = json_attachment(&v, &"m".to_string(), &lookup).unwrap();
    match a.data {
        AttachmentData::Mesh(m) => {
            assert_eq!(m.uvs.len(), 3);
            assert_eq!(m.vertex_index, vec![0usize, 1, 2]);
            assert_eq!(m.hull_count, 3);
            match m.vertices {
                Vertices::Positions { positions } => {
                    assert_eq!(positions.len(), 3);
                    assert_eq!(positions[2].x, Scalar::from_int(10));
                    assert_eq!(positions[2].y, Scalar::from_int(20));
                },
                other => panic!("expected plain positions, got {:?}", other),
            }
        },
        other => panic!("expected a mesh, got {:?}", other),
    }
}
