//! The JSON skeleton decoder.
//!
//! An outside parser turns the document bytes into a [`JsonValue`] tree;
//! everything after that — field lookup, the behaviorally significant
//! defaults for omitted keys, and the resolution of name references to
//! indices — is verified code over that tree.
use vstd::prelude::*;
use crate::color::{Color, spec_color_from_hex};
use crate::geom::Vec2;
use crate::num::{Scalar, SCALE};
use crate::skeleton::bone::{Bone, ParentTransform, SpecBone};
use crate::skeleton::slot::{Blend, Slot, SpecSlot};
use crate::skeleton::ik::{Ik, SpecIk};
use crate::skeleton::info::{Info, SpecInfo};
use crate::text::{parse_decimal, sp_decimal};
use crate::{DecodeError, DecodeKind, Field, ReferenceError, SpinalError};
use vstd::string::StringSliceAdditionalSpecFns;

verus! {

/// A JSON document as a tree of plain values; numbers keep their decimal
/// text.
#[derive(Debug, PartialEq)]
pub enum JsonValue {
    Null,
    Bool(bool),
    Num(Vec<u8>),
    Str(String),
    Arr(Vec<JsonValue>),
    Obj(Vec<(String, JsonValue)>),
}

/// The mathematical value of a [`JsonValue`] tree.
pub enum SpecJsonValue {
    Null,
    Bool(bool),
    Num(Seq<u8>),
    Str(Seq<char>),
    Arr(Seq<SpecJsonValue>),
    Obj(Seq<(Seq<char>, SpecJsonValue)>),
}

impl JsonValue {
    /// The mathematical value of this tree.
    pub open spec fn deep(self) -> SpecJsonValue
        decreases self,
    {
        match self {
            JsonValue::Null => SpecJsonValue::Null,
            JsonValue::Bool(b) => SpecJsonValue::Bool(b),
            JsonValue::Num(t) => SpecJsonValue::Num(t@),
            JsonValue::Str(s) => SpecJsonValue::Str(s@),
            JsonValue::Arr(v) => SpecJsonValue::Arr(
                Seq::new(
                    v@.len(),
                    |i: int|
                        if 0 <= i < v@.len() {
                            v@[i].deep()
                        } else {
                            SpecJsonValue::Null
                        },
                ),
            ),
            JsonValue::Obj(v) => SpecJsonValue::Obj(
                Seq::new(
                    v@.len(),
                    |i: int|
                        if 0 <= i < v@.len() {
                            (v@[i].0@, v@[i].1.deep())
                        } else {
                            (Seq::empty(), SpecJsonValue::Null)
                        },
                ),
            ),
        }
    }
}

impl View for JsonValue {
    type V = SpecJsonValue;

    open spec fn view(&self) -> SpecJsonValue {
        self.deep()
    }
}

impl DeepView for JsonValue {
    type V = SpecJsonValue;

    open spec fn deep_view(&self) -> SpecJsonValue {
        self.deep()
    }
}

/// The tree that the JSON text denotes, if it is well formed: named, since
/// it is computed by an outside parser and depends on the bytes alone.
pub uninterp spec fn json_tree_of(b: Seq<u8>) -> Option<SpecJsonValue>;

/// The outside parser's document type, declared so that values of it can
/// pass through the bridge below; the library never reads it directly.
#[verifier::external_type_specification]
#[verifier::external_body]
pub struct ExValue(serde_json::Value);

/// Relies on `serde_json::Value`: maps a parsed document into the library's
/// tree, one arm per variant, keeping each number's decimal text.
#[verifier::external_body]
fn value_to_tree(v: &serde_json::Value) -> JsonValue {
    match v {
        serde_json::Value::Null => JsonValue::Null,
        serde_json::Value::Bool(b) => JsonValue::Bool(*b),
        serde_json::Value::Number(n) => JsonValue::Num(format!("{}", n).into_bytes()),
        serde_json::Value::String(s) => JsonValue::Str(s.clone()),
        serde_json::Value::Array(a) => JsonValue::Arr(a.iter().map(|x| value_to_tree(x)).collect()),
        serde_json::Value::Object(m) => JsonValue::Obj(m.iter().map(|(k, x)| (k.clone(), value_to_tree(x))).collect()),
    }
}

/// Relies on `serde_json::from_slice::<Value>`: parses JSON text; the
/// resulting tree is a function of the bytes alone.
#[verifier::external_body]
pub fn parse_json_tree(b: &[u8]) -> (r: Option<JsonValue>)
    ensures
        r matches Some(v) ==> json_tree_of(b@) == Some(v.deep_view()),
        r is None ==> json_tree_of(b@) is None,
{
    match serde_json::from_slice::<serde_json::Value>(b) {
        Ok(v) => Some(value_to_tree(&v)),
        Err(_) => None,
    }
}

/// The value under the first occurrence of `key`, from position `k`.
pub open spec fn spec_obj_get_from(
    o: Seq<(Seq<char>, SpecJsonValue)>,
    key: Seq<char>,
    k: int,
) -> Option<SpecJsonValue>
    decreases o.len() - k,
{
    if k < 0 || k >= o.len() {
        None
    } else if o[k].0 == key {
        Some(o[k].1)
    } else {
        spec_obj_get_from(o, key, k + 1)
    }
}

/// The value stored under a key of an object.
pub open spec fn spec_obj_get(v: SpecJsonValue, key: Seq<char>) -> Option<SpecJsonValue> {
    match v {
        SpecJsonValue::Obj(o) => spec_obj_get_from(o, key, 0),
        _ => None,
    }
}

/// Find the value stored under a key of an object node.
pub fn obj_get<'a>(v: &'a JsonValue, key: &str) -> (r: Option<&'a JsonValue>)
    ensures
        r matches Some(x) ==> spec_obj_get(v@, key@) == Some(x.deep_view()),
        r is None ==> spec_obj_get(v@, key@) is None,
{
    let o = match v {
        JsonValue::Obj(o) => o,
        _ => {
            return None;
        },
    };
    let owned: String = key.to_owned();
    let n = o.len();
    let mut k: usize = 0;
    while k < n
        invariant
            k <= n,
            n == o@.len(),
            owned@ == key@,
            v@ matches SpecJsonValue::Obj(oo) && oo == spec_obj_entries(o@),
            spec_obj_get_from(spec_obj_entries(o@), key@, 0) == spec_obj_get_from(spec_obj_entries(o@), key@, k as int),
        decreases n - k,
    {
        proof {
            reveal_with_fuel(spec_obj_get_from, 2);
        }
        if o[k].0 == owned {
            return Some(&o[k].1);
        }
        k = k + 1;
    }
    proof {
        reveal_with_fuel(spec_obj_get_from, 2);
    }
    None
}

/// The entries of an object node's backing list.
pub open spec fn spec_obj_entries(o: Seq<(String, JsonValue)>) -> Seq<(Seq<char>, SpecJsonValue)> {
    Seq::new(o.len(), |i: int| (o[i].0@, o[i].1.deep()))
}

/// A JSON-decoder error: the decoder works on a parsed tree, so the offset
/// is always zero and the field tells which key went wrong.
pub open spec fn sp_jerr(f: Field) -> SpinalError {
    SpinalError::Decode(DecodeError { offset: 0, field: f, kind: DecodeKind::BadValue })
}

fn jerr(f: Field) -> (r: SpinalError)
    ensures
        r == sp_jerr(f),
{
    SpinalError::Decode(DecodeError { offset: 0, field: f, kind: DecodeKind::BadValue })
}

/// A numeric key with a default when omitted.
pub open spec fn sp_get_num(v: SpecJsonValue, key: Seq<char>, dflt: Scalar, f: Field) -> Result<Scalar, SpinalError> {
    match spec_obj_get(v, key) {
        None => Ok(dflt),
        Some(SpecJsonValue::Num(t)) => match sp_decimal(t) {
            Some(x) => Ok(Scalar { bits: x as i64 }),
            None => Err(sp_jerr(f)),
        },
        Some(_) => Err(sp_jerr(f)),
    }
}

pub fn get_num(v: &JsonValue, key: &str, dflt: Scalar, f: Field) -> (r: Result<Scalar, SpinalError>)
    ensures
        r == sp_get_num(v@, key@, dflt, f),
{
    match obj_get(v, key) {
        None => Ok(dflt),
        Some(JsonValue::Num(t)) => match parse_decimal(t.as_slice()) {
            Some(x) => Ok(x),
            None => Err(jerr(f)),
        },
        Some(_) => Err(jerr(f)),
    }
}

/// A required numeric key.
pub open spec fn sp_req_num(v: SpecJsonValue, key: Seq<char>, f: Field) -> Result<Scalar, SpinalError> {
    match spec_obj_get(v, key) {
        None => Err(sp_jerr(f)),
        Some(SpecJsonValue::Num(t)) => match sp_decimal(t) {
            Some(x) => Ok(Scalar { bits: x as i64 }),
            None => Err(sp_jerr(f)),
        },
        Some(_) => Err(sp_jerr(f)),
    }
}

pub fn req_num(v: &JsonValue, key: &str, f: Field) -> (r: Result<Scalar, SpinalError>)
    ensures
        r == sp_req_num(v@, key@, f),
{
    match obj_get(v, key) {
        None => Err(jerr(f)),
        Some(JsonValue::Num(t)) => match parse_decimal(t.as_slice()) {
            Some(x) => Ok(x),
            None => Err(jerr(f)),
        },
        Some(_) => Err(jerr(f)),
    }
}

/// An optional string key; an explicit null counts as absent.
pub open spec fn sp_get_str(v: SpecJsonValue, key: Seq<char>, f: Field) -> Result<Option<Seq<char>>, SpinalError> {
    match spec_obj_get(v, key) {
        None => Ok(None),
        Some(SpecJsonValue::Str(s)) => Ok(Some(s)),
        Some(SpecJsonValue::Null) => Ok(None),
        Some(_) => Err(sp_jerr(f)),
    }
}

pub fn get_str(v: &JsonValue, key: &str, f: Field) -> (r: Result<Option<String>, SpinalError>)
    ensures
        r matches Ok(s) ==> sp_get_str(v@, key@, f) matches Ok(ss) && (s matches Some(s1) ==> ss matches Some(s2) && s1@
            == s2) && (s is None <==> ss is None),
        r matches Err(e) ==> sp_get_str(v@, key@, f) == Err::<Option<Seq<char>>, SpinalError>(e),
{
    match obj_get(v, key) {
        None => Ok(None),
        Some(JsonValue::Str(s)) => Ok(Some(s.clone())),
        Some(JsonValue::Null) => Ok(None),
        Some(_) => Err(jerr(f)),
    }
}

/// A required string key.
pub open spec fn sp_req_str(v: SpecJsonValue, key: Seq<char>, f: Field) -> Result<Seq<char>, SpinalError> {
    match spec_obj_get(v, key) {
        Some(SpecJsonValue::Str(s)) => Ok(s),
        _ => Err(sp_jerr(f)),
    }
}

pub fn req_str(v: &JsonValue, key: &str, f: Field) -> (r: Result<String, SpinalError>)
    ensures
        r matches Ok(s) ==> sp_req_str(v@, key@, f) == Ok::<Seq<char>, SpinalError>(s@),
        r matches Err(e) ==> sp_req_str(v@, key@, f) == Err::<Seq<char>, SpinalError>(e),
{
    match obj_get(v, key) {
        Some(JsonValue::Str(s)) => Ok(s.clone()),
        _ => Err(jerr(f)),
    }
}

/// A boolean key with a default when omitted.
pub open spec fn sp_get_bool(v: SpecJsonValue, key: Seq<char>, dflt: bool, f: Field) -> Result<bool, SpinalError> {
    match spec_obj_get(v, key) {
        None => Ok(dflt),
        Some(SpecJsonValue::Bool(b)) => Ok(b),
        Some(_) => Err(sp_jerr(f)),
    }
}

pub fn get_bool(v: &JsonValue, key: &str, dflt: bool, f: Field) -> (r: Result<bool, SpinalError>)
    ensures
        r == sp_get_bool(v@, key@, dflt, f),
{
    match obj_get(v, key) {
        None => Ok(dflt),
        Some(JsonValue::Bool(b)) => Ok(*b),
        Some(_) => Err(jerr(f)),
    }
}

/// A non-negative whole-number key with a default when omitted.
pub open spec fn sp_get_index(v: SpecJsonValue, key: Seq<char>, dflt: usize, f: Field) -> Result<usize, SpinalError> {
    match sp_get_num(v, key, Scalar { bits: (dflt as i64 * SCALE as i64) as i64 }, f) {
        Err(e) => Err(e),
        Ok(x) => {
            if 0 <= x.bits && x.bits as int % (SCALE as int) == 0 && x.bits as int / (SCALE as int) <= 0xffffffff {
                Ok((x.bits as int / (SCALE as int)) as usize)
            } else {
                Err(sp_jerr(f))
            }
        },
    }
}

pub fn get_index(v: &JsonValue, key: &str, dflt: usize, f: Field) -> (r: Result<usize, SpinalError>)
    requires
        dflt <= 0xffff,
    ensures
        r == sp_get_index(v@, key@, dflt, f),
{
    let d = Scalar { bits: (dflt as i64) * SCALE };
    let x = match get_num(v, key, d, f) {
        Ok(x) => x,
        Err(e) => {
            return Err(e);
        },
    };
    if 0 <= x.bits && (x.bits as u64) % 65536 == 0 && (x.bits as u64) / 65536 <= 0xffffffff {
        proof {
            assert(x.bits as int % (SCALE as int) == (x.bits as u64) % 65536);
            assert(x.bits as int / (SCALE as int) == (x.bits as u64) / 65536);
        }
        Ok(((x.bits as u64) / 65536) as usize)
    } else {
        Err(jerr(f))
    }
}

/// A color key holding eight hex digits, with a default when omitted.
pub open spec fn sp_get_color(v: SpecJsonValue, key: Seq<char>, dflt: Color, f: Field) -> Result<Color, SpinalError> {
    match spec_obj_get(v, key) {
        None => Ok(dflt),
        Some(SpecJsonValue::Str(s)) => match spec_color_of_chars(s) {
            Some(c) => Ok(c),
            None => Err(sp_jerr(f)),
        },
        Some(_) => Err(sp_jerr(f)),
    }
}

/// The color written by a character sequence, when all its characters are
/// ASCII hex digits (or a leading `#`).
#[verifier::opaque]
pub open spec fn spec_color_of_chars(s: Seq<char>) -> Option<Color> {
    if vstd::utf8::is_ascii_chars(s) {
        spec_color_from_hex(Seq::new(s.len(), |i: int| s[i] as u8))
    } else {
        None
    }
}

#[verifier::rlimit(50)]
pub fn get_color(v: &JsonValue, key: &str, dflt: Color, f: Field) -> (r: Result<Color, SpinalError>)
    ensures
        r == sp_get_color(v@, key@, dflt, f),
{
    match obj_get(v, key) {
        None => Ok(dflt),
        Some(JsonValue::Str(s)) => match color_of_str(s.as_str()) {
            Some(c) => Ok(c),
            None => Err(jerr(f)),
        },
        Some(_) => Err(jerr(f)),
    }
}

/// Parse a hex color from a string, when it is ASCII.
fn color_of_str(s: &str) -> (r: Option<Color>)
    ensures
        r == spec_color_of_chars(s@),
{
    proof {
        reveal(spec_color_of_chars);
    }
    if !s.is_ascii() {
        return None;
    }
    let c = Color::try_from_hex(s);
    proof {
        vstd::string::is_ascii_spec_bytes(s);
        assert(s.spec_bytes() == Seq::new(s@.len(), |i: int| s@[i] as u8));
    }
    c
}


/// The info block as the JSON file carries it.
#[derive(Debug, PartialEq)]
pub struct JsonInfo {
    pub hash: String,
    pub version: String,
    pub x: Scalar,
    pub y: Scalar,
    pub width: Scalar,
    pub height: Scalar,
    pub fps: Option<Scalar>,
    pub images: Option<String>,
    pub audio: Option<String>,
}

/// The mathematical value of a [`JsonInfo`].
pub struct SpecJsonInfo {
    pub hash: Seq<char>,
    pub version: Seq<char>,
    pub x: Scalar,
    pub y: Scalar,
    pub width: Scalar,
    pub height: Scalar,
    pub fps: Option<Scalar>,
    pub images: Option<Seq<char>>,
    pub audio: Option<Seq<char>>,
}

impl View for JsonInfo {
    type V = SpecJsonInfo;

    open spec fn view(&self) -> SpecJsonInfo {
        SpecJsonInfo {
            hash: self.hash@,
            version: self.version@,
            x: self.x,
            y: self.y,
            width: self.width,
            height: self.height,
            fps: self.fps,
            images: self.images.deep_view(),
            audio: self.audio.deep_view(),
        }
    }
}

/// The info block an info node denotes: hash, version (under the tool's
/// name), required bounds, and optional fps and asset paths.
#[verifier::opaque]
pub open spec fn sp_json_info(v: SpecJsonValue) -> Result<SpecJsonInfo, SpinalError> {
    match sp_req_str(v, "hash"@, Field::Hash) {
        Err(e) => Err(e),
        Ok(hash) => match sp_req_str(v, "spine"@, Field::Version) {
            Err(e) => Err(e),
            Ok(version) => match sp_req_num(v, "x"@, Field::Origin) {
                Err(e) => Err(e),
                Ok(x) => match sp_req_num(v, "y"@, Field::Origin) {
                    Err(e) => Err(e),
                    Ok(y) => match sp_req_num(v, "width"@, Field::Size) {
                        Err(e) => Err(e),
                        Ok(width) => match sp_req_num(v, "height"@, Field::Size) {
                            Err(e) => Err(e),
                            Ok(height) => match sp_opt_num(v, "fps"@, Field::Fps) {
                                Err(e) => Err(e),
                                Ok(fps) => match sp_get_str(v, "images"@, Field::Images) {
                                    Err(e) => Err(e),
                                    Ok(images) => match sp_get_str(v, "audio"@, Field::Audio) {
                                        Err(e) => Err(e),
                                        Ok(audio) => Ok(
                                            SpecJsonInfo { hash, version, x, y, width, height, fps, images, audio },
                                        ),
                                    },
                                },
                            },
                        },
                    },
                },
            },
        },
    }
}

/// An optional numeric key.
pub open spec fn sp_opt_num(v: SpecJsonValue, key: Seq<char>, f: Field) -> Result<Option<Scalar>, SpinalError> {
    match spec_obj_get(v, key) {
        None => Ok(None),
        Some(SpecJsonValue::Num(t)) => match sp_decimal(t) {
            Some(x) => Ok(Some(Scalar { bits: x as i64 })),
            None => Err(sp_jerr(f)),
        },
        Some(SpecJsonValue::Null) => Ok(None),
        Some(_) => Err(sp_jerr(f)),
    }
}

pub fn opt_num(v: &JsonValue, key: &str, f: Field) -> (r: Result<Option<Scalar>, SpinalError>)
    ensures
        r == sp_opt_num(v@, key@, f),
{
    match obj_get(v, key) {
        None => Ok(None),
        Some(JsonValue::Num(t)) => match parse_decimal(t.as_slice()) {
            Some(x) => Ok(Some(x)),
            None => Err(jerr(f)),
        },
        Some(JsonValue::Null) => Ok(None),
        Some(_) => Err(jerr(f)),
    }
}

impl JsonInfo {
    /// Decode an info node.
    pub fn decode(v: &JsonValue) -> (r: Result<JsonInfo, SpinalError>)
        ensures
            r matches Ok(info) ==> sp_json_info(v@) == Ok::<SpecJsonInfo, SpinalError>(info@),
            r matches Err(e) ==> sp_json_info(v@) == Err::<SpecJsonInfo, SpinalError>(e),
    {
        proof {
            reveal(sp_json_info);
        }
        let hash = match req_str(v, "hash", Field::Hash) {
            Ok(x) => x,
            Err(e) => {
                return Err(e);
            },
        };
        let version = match req_str(v, "spine", Field::Version) {
            Ok(x) => x,
            Err(e) => {
                return Err(e);
            },
        };
        let x = match req_num(v, "x", Field::Origin) {
            Ok(x) => x,
            Err(e) => {
                return Err(e);
            },
        };
        let y = match req_num(v, "y", Field::Origin) {
            Ok(x) => x,
            Err(e) => {
                return Err(e);
            },
        };
        let width = match req_num(v, "width", Field::Size) {
            Ok(x) => x,
            Err(e) => {
                return Err(e);
            },
        };
        let height = match req_num(v, "height", Field::Size) {
            Ok(x) => x,
            Err(e) => {
                return Err(e);
            },
        };
        let fps = match opt_num(v, "fps", Field::Fps) {
            Ok(x) => x,
            Err(e) => {
                return Err(e);
            },
        };
        let images = match get_str(v, "images", Field::Images) {
            Ok(x) => x,
            Err(e) => {
                return Err(e);
            },
        };
        let audio = match get_str(v, "audio", Field::Audio) {
            Ok(x) => x,
            Err(e) => {
                return Err(e);
            },
        };
        Ok(JsonInfo { hash, version, x, y, width, height, fps, images, audio })
    }

    /// The setup-pose bounding-box size.
    pub fn size(&self) -> (r: Vec2)
        ensures
            r == (Vec2 { x: self.width, y: self.height }),
    {
        Vec2 { x: self.width, y: self.height }
    }

    /// The bottom-left corner of the setup-pose bounding box.
    pub fn origin(&self) -> (r: Vec2)
        ensures
            r == (Vec2 { x: self.x, y: self.y }),
    {
        Vec2 { x: self.x, y: self.y }
    }

    /// The same block in the skeleton's own representation.
    pub fn to_info(self) -> (r: Info)
        ensures
            r@ == spec_json_info_to_info(self@),
    {
        Info {
            hash: self.hash,
            version: self.version,
            bottom_left: Vec2 { x: self.x, y: self.y },
            size: Vec2 { x: self.width, y: self.height },
            fps: self.fps,
            images: self.images,
            audio: self.audio,
        }
    }
}

/// The info block a JSON info denotes.
pub open spec fn spec_json_info_to_info(j: SpecJsonInfo) -> SpecInfo {
    SpecInfo {
        hash: j.hash,
        version: j.version,
        bottom_left: Vec2 { x: j.x, y: j.y },
        size: Vec2 { x: j.width, y: j.height },
        fps: j.fps,
        images: j.images,
        audio: j.audio,
    }
}

/// A bone as the JSON file carries it: references by name, defaults filled.
#[derive(Debug, PartialEq)]
pub struct JsonBone {
    pub name: String,
    pub parent: Option<String>,
    pub length: Scalar,
    pub transform: ParentTransform,
    pub skin: bool,
    pub x: Scalar,
    pub y: Scalar,
    pub rotation: Scalar,
    pub scale_x: Scalar,
    pub scale_y: Scalar,
    pub shear_x: Scalar,
    pub shear_y: Scalar,
    pub color: String,
}

/// The mathematical value of a [`JsonBone`].
pub struct SpecJsonBone {
    pub name: Seq<char>,
    pub parent: Option<Seq<char>>,
    pub length: Scalar,
    pub transform: ParentTransform,
    pub skin: bool,
    pub x: Scalar,
    pub y: Scalar,
    pub rotation: Scalar,
    pub scale_x: Scalar,
    pub scale_y: Scalar,
    pub shear_x: Scalar,
    pub shear_y: Scalar,
    pub color: Seq<char>,
}

impl View for JsonBone {
    type V = SpecJsonBone;

    open spec fn view(&self) -> SpecJsonBone {
        SpecJsonBone {
            name: self.name@,
            parent: self.parent.deep_view(),
            length: self.length,
            transform: self.transform,
            skin: self.skin,
            x: self.x,
            y: self.y,
            rotation: self.rotation,
            scale_x: self.scale_x,
            scale_y: self.scale_y,
            shear_x: self.shear_x,
            shear_y: self.shear_y,
            color: self.color@,
        }
    }
}

impl DeepView for JsonBone {
    type V = SpecJsonBone;

    open spec fn deep_view(&self) -> SpecJsonBone {
        self.view()
    }
}

/// The inheritance mode a mode name denotes.
pub open spec fn sp_transform_name(s: Seq<char>) -> Option<ParentTransform> {
    if s == "normal"@ {
        Some(ParentTransform::Normal)
    } else if s == "onlyTranslation"@ {
        Some(ParentTransform::OnlyTranslation)
    } else if s == "noRotationOrReflection"@ {
        Some(ParentTransform::NoRotationOrReflection)
    } else if s == "noScale"@ {
        Some(ParentTransform::NoScale)
    } else if s == "noScaleOrReflection"@ {
        Some(ParentTransform::NoScaleOrReflection)
    } else {
        None
    }
}

fn transform_name(s: &String) -> (r: Option<ParentTransform>)
    ensures
        r == sp_transform_name(s@),
{
    if *s == "normal".to_owned() {
        Some(ParentTransform::Normal)
    } else if *s == "onlyTranslation".to_owned() {
        Some(ParentTransform::OnlyTranslation)
    } else if *s == "noRotationOrReflection".to_owned() {
        Some(ParentTransform::NoRotationOrReflection)
    } else if *s == "noScale".to_owned() {
        Some(ParentTransform::NoScale)
    } else if *s == "noScaleOrReflection".to_owned() {
        Some(ParentTransform::NoScaleOrReflection)
    } else {
        None
    }
}

/// The bone a bone node denotes: a required name, and for each other key the
/// exact default when it is omitted — zero for positions, rotation, shear and
/// length, one for scales, full inheritance, no skin requirement, and the
/// standard debug color.
#[verifier::opaque]
pub open spec fn sp_json_bone(v: SpecJsonValue) -> Result<SpecJsonBone, SpinalError> {
    match sp_req_str(v, "name"@, Field::BoneName) {
        Err(e) => Err(e),
        Ok(name) => match sp_get_str(v, "parent"@, Field::BoneParent) {
            Err(e) => Err(e),
            Ok(parent) => match sp_get_num(v, "length"@, Scalar { bits: 0 }, Field::BoneValue) {
                Err(e) => Err(e),
                Ok(length) => match sp_get_str(v, "transform"@, Field::TransformMode) {
                    Err(e) => Err(e),
                    Ok(tname) => {
                        let tmode = match tname {
                            None => Some(ParentTransform::Normal),
                            Some(tn) => sp_transform_name(tn),
                        };
                        match tmode {
                            None => Err(sp_jerr(Field::TransformMode)),
                            Some(transform) => match sp_get_bool(v, "skin"@, false, Field::BoneValue) {
                                Err(e) => Err(e),
                                Ok(skin) => match sp_get_num(v, "x"@, Scalar { bits: 0 }, Field::BoneValue) {
                                    Err(e) => Err(e),
                                    Ok(x) => match sp_get_num(v, "y"@, Scalar { bits: 0 }, Field::BoneValue) {
                                        Err(e) => Err(e),
                                        Ok(y) => match sp_get_num(
                                            v,
                                            "rotation"@,
                                            Scalar { bits: 0 },
                                            Field::BoneValue,
                                        ) {
                                            Err(e) => Err(e),
                                            Ok(rotation) => match sp_get_num(
                                                v,
                                                "scaleX"@,
                                                Scalar { bits: SCALE as i64 },
                                                Field::BoneValue,
                                            ) {
                                                Err(e) => Err(e),
                                                Ok(scale_x) => match sp_get_num(
                                                    v,
                                                    "scaleY"@,
                                                    Scalar { bits: SCALE as i64 },
                                                    Field::BoneValue,
                                                ) {
                                                    Err(e) => Err(e),
                                                    Ok(scale_y) => match sp_get_num(
                                                        v,
                                                        "shearX"@,
                                                        Scalar { bits: 0 },
                                                        Field::BoneValue,
                                                    ) {
                                                        Err(e) => Err(e),
                                                        Ok(shear_x) => match sp_get_num(
                                                            v,
                                                            "shearY"@,
                                                            Scalar { bits: 0 },
                                                            Field::BoneValue,
                                                        ) {
                                                            Err(e) => Err(e),
                                                            Ok(shear_y) => match sp_get_str(
                                                                v,
                                                                "color"@,
                                                                Field::BoneValue,
                                                            ) {
                                                                Err(e) => Err(e),
                                                                Ok(color_opt) => Ok(
                                                                    SpecJsonBone {
                                                                        name,
                                                                        parent,
                                                                        length,
                                                                        transform,
                                                                        skin,
                                                                        x,
                                                                        y,
                                                                        rotation,
                                                                        scale_x,
                                                                        scale_y,
                                                                        shear_x,
                                                                        shear_y,
                                                                        color: match color_opt {
                                                                            Some(c) => c,
                                                                            None => "989898FF"@,
                                                                        },
                                                                    },
                                                                ),
                                                            },
                                                        },
                                                    },
                                                },
                                            },
                                        },
                                    },
                                },
                            },
                        }
                    },
                },
            },
        },
    }
}

impl JsonBone {
    /// Decode a bone node.
    pub fn decode(v: &JsonValue) -> (r: Result<JsonBone, SpinalError>)
        ensures
            r matches Ok(b) ==> sp_json_bone(v@) == Ok::<SpecJsonBone, SpinalError>(b@),
            r matches Err(e) ==> sp_json_bone(v@) == Err::<SpecJsonBone, SpinalError>(e),
    {
        proof {
            reveal(sp_json_bone);
        }
        let name = match req_str(v, "name", Field::BoneName) {
            Ok(x) => x,
            Err(e) => {
                return Err(e);
            },
        };
        let parent = match get_str(v, "parent", Field::BoneParent) {
            Ok(x) => x,
            Err(e) => {
                return Err(e);
            },
        };
        let length = match get_num(v, "length", Scalar { bits: 0 }, Field::BoneValue) {
            Ok(x) => x,
            Err(e) => {
                return Err(e);
            },
        };
        let tname = match get_str(v, "transform", Field::TransformMode) {
            Ok(x) => x,
            Err(e) => {
                return Err(e);
            },
        };
        let transform = match tname {
            None => ParentTransform::Normal,
            Some(tn) => match transform_name(&tn) {
                Some(t) => t,
                None => {
                    return Err(jerr(Field::TransformMode));
                },
            },
        };
        let skin = match get_bool(v, "skin", false, Field::BoneValue) {
            Ok(x) => x,
            Err(e) => {
                return Err(e);
            },
        };
        let x = match get_num(v, "x", Scalar { bits: 0 }, Field::BoneValue) {
            Ok(x) => x,
            Err(e) => {
                return Err(e);
            },
        };
        let y = match get_num(v, "y", Scalar { bits: 0 }, Field::BoneValue) {
            Ok(x) => x,
            Err(e) => {
                return Err(e);
            },
        };
        let rotation = match get_num(v, "rotation", Scalar { bits: 0 }, Field::BoneValue) {
            Ok(x) => x,
            Err(e) => {
                return Err(e);
            },
        };
        let scale_x = match get_num(v, "scaleX", Scalar { bits: SCALE }, Field::BoneValue) {
            Ok(x) => x,
            Err(e) => {
                return Err(e);
            },
        };
        let scale_y = match get_num(v, "scaleY", Scalar { bits: SCALE }, Field::BoneValue) {
            Ok(x) => x,
            Err(e) => {
                return Err(e);
            },
        };
        let shear_x = match get_num(v, "shearX", Scalar { bits: 0 }, Field::BoneValue) {
            Ok(x) => x,
            Err(e) => {
                return Err(e);
            },
        };
        let shear_y = match get_num(v, "shearY", Scalar { bits: 0 }, Field::BoneValue) {
            Ok(x) => x,
            Err(e) => {
                return Err(e);
            },
        };
        let color_opt = match get_str(v, "color", Field::BoneValue) {
            Ok(x) => x,
            Err(e) => {
                return Err(e);
            },
        };
        let color = match color_opt {
            Some(c) => c,
            None => "989898FF".to_owned(),
        };
        Ok(
            JsonBone {
                name,
                parent,
                length,
                transform,
                skin,
                x,
                y,
                rotation,
                scale_x,
                scale_y,
                shear_x,
                shear_y,
                color,
            },
        )
    }

    /// The bone this JSON bone denotes, its parent already resolved.
    pub fn to_bone(&self, parent: Option<usize>) -> (r: Result<Bone, SpinalError>)
        ensures
            r matches Ok(b) ==> spec_json_bone_to_bone(self@, parent) == Ok::<SpecBone, SpinalError>(b@),
            r matches Err(e) ==> spec_json_bone_to_bone(self@, parent) == Err::<SpecBone, SpinalError>(e),
    {
        let color = match color_of_str(self.color.as_str()) {
            Some(c) => c,
            None => {
                return Err(jerr(Field::BoneValue));
            },
        };
        Ok(
            Bone {
                name: self.name.clone(),
                parent,
                length: self.length,
                transform: self.transform,
                skin: self.skin,
                position: Vec2 { x: self.x, y: self.y },
                rotation: self.rotation,
                scale: Vec2 { x: self.scale_x, y: self.scale_y },
                shear: Vec2 { x: self.shear_x, y: self.shear_y },
                color,
            },
        )
    }
}

/// The bone a JSON bone denotes once its parent name is resolved; its color
/// text must spell a color.
pub open spec fn spec_json_bone_to_bone(j: SpecJsonBone, parent: Option<usize>) -> Result<SpecBone, SpinalError> {
    match spec_color_of_chars(j.color) {
        None => Err(sp_jerr(Field::BoneValue)),
        Some(color) => Ok(
            SpecBone {
                name: j.name,
                parent,
                length: j.length,
                transform: j.transform,
                skin: j.skin,
                position: Vec2 { x: j.x, y: j.y },
                rotation: j.rotation,
                scale: Vec2 { x: j.scale_x, y: j.scale_y },
                shear: Vec2 { x: j.shear_x, y: j.shear_y },
                color,
            },
        ),
    }
}



/// View an array node's items.
fn as_arr<'a>(x: &'a JsonValue) -> (r: Option<&'a Vec<JsonValue>>)
    ensures
        r matches Some(a) ==> x@ matches SpecJsonValue::Arr(s) && s == spec_arr_items(a@),
        r is None ==> !(x@ is Arr),
{
    match x {
        JsonValue::Arr(a) => {
            proof {
                assert((match x@ {
                    SpecJsonValue::Arr(s) => s,
                    _ => Seq::empty(),
                }) =~~= spec_arr_items(a@));
            }
            Some(a)
        },
        _ => None,
    }
}

/// The blend mode a mode name denotes.
pub open spec fn sp_blend_name(s: Seq<char>) -> Option<Blend> {
    if s == "normal"@ {
        Some(Blend::Normal)
    } else if s == "additive"@ {
        Some(Blend::Additive)
    } else if s == "multiply"@ {
        Some(Blend::Multiply)
    } else if s == "screen"@ {
        Some(Blend::Screen)
    } else {
        None
    }
}

fn blend_name(s: &String) -> (r: Option<Blend>)
    ensures
        r == sp_blend_name(s@),
{
    if *s == "normal".to_owned() {
        Some(Blend::Normal)
    } else if *s == "additive".to_owned() {
        Some(Blend::Additive)
    } else if *s == "multiply".to_owned() {
        Some(Blend::Multiply)
    } else if *s == "screen".to_owned() {
        Some(Blend::Screen)
    } else {
        None
    }
}

/// A slot as the JSON file carries it.
#[derive(Debug, PartialEq)]
pub struct JsonSlot {
    pub name: String,
    pub bone: String,
    pub color: String,
    pub dark: Option<String>,
    pub attachment: Option<String>,
    pub blend: Blend,
}

/// The mathematical value of a [`JsonSlot`].
pub struct SpecJsonSlot {
    pub name: Seq<char>,
    pub bone: Seq<char>,
    pub color: Seq<char>,
    pub dark: Option<Seq<char>>,
    pub attachment: Option<Seq<char>>,
    pub blend: Blend,
}

impl View for JsonSlot {
    type V = SpecJsonSlot;

    open spec fn view(&self) -> SpecJsonSlot {
        SpecJsonSlot {
            name: self.name@,
            bone: self.bone@,
            color: self.color@,
            dark: self.dark.deep_view(),
            attachment: self.attachment.deep_view(),
            blend: self.blend,
        }
    }
}

impl DeepView for JsonSlot {
    type V = SpecJsonSlot;

    open spec fn deep_view(&self) -> SpecJsonSlot {
        self.view()
    }
}

/// The slot a slot node denotes: required name and bone, opaque white tint
/// when omitted, optional dark tint and attachment, normal blending when
/// omitted.
#[verifier::opaque]
pub open spec fn sp_json_slot(v: SpecJsonValue) -> Result<SpecJsonSlot, SpinalError> {
    match sp_req_str(v, "name"@, Field::SlotName) {
        Err(e) => Err(e),
        Ok(name) => match sp_req_str(v, "bone"@, Field::SlotBone) {
            Err(e) => Err(e),
            Ok(bone) => match sp_get_str(v, "color"@, Field::SlotColor) {
                Err(e) => Err(e),
                Ok(color_opt) => match sp_get_str(v, "dark"@, Field::SlotColor) {
                    Err(e) => Err(e),
                    Ok(dark) => match sp_get_str(v, "attachment"@, Field::SlotAttachment) {
                        Err(e) => Err(e),
                        Ok(attachment) => match sp_get_str(v, "blend"@, Field::Blend) {
                            Err(e) => Err(e),
                            Ok(blend_opt) => {
                                let blend = match blend_opt {
                                    None => Some(Blend::Normal),
                                    Some(bn) => sp_blend_name(bn),
                                };
                                match blend {
                                    None => Err(sp_jerr(Field::Blend)),
                                    Some(blend) => Ok(
                                        SpecJsonSlot {
                                            name,
                                            bone,
                                            color: match color_opt {
                                                Some(c) => c,
                                                None => "FFFFFFFF"@,
                                            },
                                            dark,
                                            attachment,
                                            blend,
                                        },
                                    ),
                                }
                            },
                        },
                    },
                },
            },
        },
    }
}

impl JsonSlot {
    /// Decode a slot node.
    pub fn decode(v: &JsonValue) -> (r: Result<JsonSlot, SpinalError>)
        ensures
            r matches Ok(b) ==> sp_json_slot(v@) == Ok::<SpecJsonSlot, SpinalError>(b@),
            r matches Err(e) ==> sp_json_slot(v@) == Err::<SpecJsonSlot, SpinalError>(e),
    {
        proof {
            reveal(sp_json_slot);
        }
        let name = match req_str(v, "name", Field::SlotName) {
            Ok(x) => x,
            Err(e) => {
                return Err(e);
            },
        };
        let bone = match req_str(v, "bone", Field::SlotBone) {
            Ok(x) => x,
            Err(e) => {
                return Err(e);
            },
        };
        let color_opt = match get_str(v, "color", Field::SlotColor) {
            Ok(x) => x,
            Err(e) => {
                return Err(e);
            },
        };
        let dark = match get_str(v, "dark", Field::SlotColor) {
            Ok(x) => x,
            Err(e) => {
                return Err(e);
            },
        };
        let attachment = match get_str(v, "attachment", Field::SlotAttachment) {
            Ok(x) => x,
            Err(e) => {
                return Err(e);
            },
        };
        let blend_opt = match get_str(v, "blend", Field::Blend) {
            Ok(x) => x,
            Err(e) => {
                return Err(e);
            },
        };
        let blend = match blend_opt {
            None => Blend::Normal,
            Some(bn) => match blend_name(&bn) {
                Some(b) => b,
                None => {
                    return Err(jerr(Field::Blend));
                },
            },
        };
        let color = match color_opt {
            Some(c) => c,
            None => "FFFFFFFF".to_owned(),
        };
        Ok(JsonSlot { name, bone, color, dark, attachment, blend })
    }

    /// The slot this JSON slot denotes, its bone already resolved.
    pub fn into_slot(&self, bone: usize) -> (r: Result<Slot, SpinalError>)
        ensures
            r matches Ok(s) ==> spec_json_slot_to_slot(self@, bone) == Ok::<SpecSlot, SpinalError>(s@),
            r matches Err(e) ==> spec_json_slot_to_slot(self@, bone) == Err::<SpecSlot, SpinalError>(e),
    {
        let color = match color_of_str(self.color.as_str()) {
            Some(c) => c,
            None => {
                return Err(jerr(Field::SlotColor));
            },
        };
        let dark = match &self.dark {
            None => None,
            Some(d) => match color_of_str(d.as_str()) {
                Some(c) => Some(c),
                None => {
                    return Err(jerr(Field::SlotColor));
                },
            },
        };
        let attachment = match &self.attachment {
            None => None,
            Some(a) => Some(a.clone()),
        };
        Ok(Slot { name: self.name.clone(), bone, color, dark, attachment, blend: self.blend })
    }
}

/// The slot a JSON slot denotes once its bone name is resolved; its color
/// texts must spell colors.
pub open spec fn spec_json_slot_to_slot(j: SpecJsonSlot, bone: usize) -> Result<SpecSlot, SpinalError> {
    match spec_color_of_chars(j.color) {
        None => Err(sp_jerr(Field::SlotColor)),
        Some(color) => {
            let dark = match j.dark {
                None => Ok(None),
                Some(d) => match spec_color_of_chars(d) {
                    None => Err(sp_jerr(Field::SlotColor)),
                    Some(c) => Ok(Some(c)),
                },
            };
            match dark {
                Err(e) => Err(e),
                Ok(dark) => Ok(
                    SpecSlot { name: j.name, bone, color, dark, attachment: j.attachment, blend: j.blend },
                ),
            }
        },
    }
}

/// An IK constraint as the JSON file carries it.
#[derive(Debug, PartialEq)]
pub struct JsonIk {
    pub name: String,
    pub order: u32,
    pub skin: bool,
    pub bones: Vec<String>,
    pub target: String,
    pub mix: Scalar,
    pub softness: Scalar,
    pub bend_positive: bool,
    pub compress: bool,
    pub stretch: bool,
    pub uniform: bool,
}

/// The mathematical value of a [`JsonIk`].
pub struct SpecJsonIk {
    pub name: Seq<char>,
    pub order: u32,
    pub skin: bool,
    pub bones: Seq<Seq<char>>,
    pub target: Seq<char>,
    pub mix: Scalar,
    pub softness: Scalar,
    pub bend_positive: bool,
    pub compress: bool,
    pub stretch: bool,
    pub uniform: bool,
}

impl View for JsonIk {
    type V = SpecJsonIk;

    open spec fn view(&self) -> SpecJsonIk {
        SpecJsonIk {
            name: self.name@,
            order: self.order,
            skin: self.skin,
            bones: self.bones.deep_view(),
            target: self.target@,
            mix: self.mix,
            softness: self.softness,
            bend_positive: self.bend_positive,
            compress: self.compress,
            stretch: self.stretch,
            uniform: self.uniform,
        }
    }
}

impl DeepView for JsonIk {
    type V = SpecJsonIk;

    open spec fn deep_view(&self) -> SpecJsonIk {
        self.view()
    }
}

/// The names in a JSON array of strings.
pub open spec fn sp_str_array_rec(a: Seq<SpecJsonValue>, k: int, acc: Seq<Seq<char>>) -> Result<
    Seq<Seq<char>>,
    SpinalError,
>
    decreases a.len() - k,
{
    if k < 0 || k >= a.len() {
        Ok(acc)
    } else {
        match a[k] {
            SpecJsonValue::Str(s) => sp_str_array_rec(a, k + 1, acc.push(s)),
            _ => Err(sp_jerr(Field::IkBones)),
        }
    }
}

fn str_array(items: &Vec<JsonValue>) -> (r: Result<Vec<String>, SpinalError>)
    ensures
        r matches Ok(v) ==> sp_str_array_rec(spec_arr_items(items@), 0, Seq::empty()) == Ok::<
            Seq<Seq<char>>,
            SpinalError,
        >(v.deep_view()),
        r matches Err(e) ==> sp_str_array_rec(spec_arr_items(items@), 0, Seq::empty()) == Err::<
            Seq<Seq<char>>,
            SpinalError,
        >(e),
{
    let n = items.len();
    let mut out: Vec<String> = Vec::new();
    let mut k: usize = 0;
    proof {
        assert(out.deep_view() =~= Seq::<Seq<char>>::empty());
    }
    while k < n
        invariant
            k <= n,
            n == items@.len(),
            sp_str_array_rec(spec_arr_items(items@), 0, Seq::empty()) == sp_str_array_rec(
                spec_arr_items(items@),
                k as int,
                out.deep_view(),
            ),
        decreases n - k,
    {
        let ghost acc = out.deep_view();
        proof {
            reveal_with_fuel(sp_str_array_rec, 2);
        }
        match &items[k] {
            JsonValue::Str(sv) => {
                let c = sv.clone();
                let ghost cv = c@;
                out.push(c);
                proof {
                    assert(out.deep_view() =~= acc.push(cv));
                }
            },
            _ => {
                return Err(jerr(Field::IkBones));
            },
        }
        k = k + 1;
    }
    proof {
        reveal_with_fuel(sp_str_array_rec, 2);
    }
    Ok(out)
}

/// The items of an array node's backing list.
pub open spec fn spec_arr_items(a: Seq<JsonValue>) -> Seq<SpecJsonValue> {
    Seq::new(a.len(), |i: int| a[i].deep())
}

/// The IK constraint an IK node denotes: required name, bones and target,
/// the documented defaults elsewhere — order zero, mix one, softness zero,
/// and all flags off.
#[verifier::opaque]
pub open spec fn sp_json_ik(v: SpecJsonValue) -> Result<SpecJsonIk, SpinalError> {
    match sp_req_str(v, "name"@, Field::IkName) {
        Err(e) => Err(e),
        Ok(name) => match sp_get_index(v, "order"@, 0, Field::IkValue) {
            Err(e) => Err(e),
            Ok(order) => {
                if order > 0xffffffff {
                    Err(sp_jerr(Field::IkValue))
                } else {
                    match sp_get_bool(v, "skin"@, false, Field::IkValue) {
                        Err(e) => Err(e),
                        Ok(skin) => match spec_obj_get(v, "bones"@) {
                            Some(SpecJsonValue::Arr(ba)) => match sp_str_array_rec(ba, 0, Seq::empty()) {
                                Err(e) => Err(e),
                                Ok(bones) => match sp_req_str(v, "target"@, Field::IkValue) {
                                    Err(e) => Err(e),
                                    Ok(target) => match sp_get_num(
                                        v,
                                        "mix"@,
                                        Scalar { bits: SCALE as i64 },
                                        Field::IkValue,
                                    ) {
                                        Err(e) => Err(e),
                                        Ok(mix) => match sp_get_num(
                                            v,
                                            "softness"@,
                                            Scalar { bits: 0 },
                                            Field::IkValue,
                                        ) {
                                            Err(e) => Err(e),
                                            Ok(softness) => match sp_get_bool(
                                                v,
                                                "bendPositive"@,
                                                false,
                                                Field::Bend,
                                            ) {
                                                Err(e) => Err(e),
                                                Ok(bend_positive) => match sp_get_bool(
                                                    v,
                                                    "compress"@,
                                                    false,
                                                    Field::IkValue,
                                                ) {
                                                    Err(e) => Err(e),
                                                    Ok(compress) => match sp_get_bool(
                                                        v,
                                                        "stretch"@,
                                                        false,
                                                        Field::IkValue,
                                                    ) {
                                                        Err(e) => Err(e),
                                                        Ok(stretch) => match sp_get_bool(
                                                            v,
                                                            "uniform"@,
                                                            false,
                                                            Field::IkValue,
                                                        ) {
                                                            Err(e) => Err(e),
                                                            Ok(uniform) => Ok(
                                                                SpecJsonIk {
                                                                    name,
                                                                    order: order as u32,
                                                                    skin,
                                                                    bones,
                                                                    target,
                                                                    mix,
                                                                    softness,
                                                                    bend_positive,
                                                                    compress,
                                                                    stretch,
                                                                    uniform,
                                                                },
                                                            ),
                                                        },
                                                    },
                                                },
                                            },
                                        },
                                    },
                                },
                            },
                            _ => Err(sp_jerr(Field::IkBones)),
                        },
                    }
                }
            },
        },
    }
}

impl JsonIk {
    /// Decode an IK node.
    pub fn decode(v: &JsonValue) -> (r: Result<JsonIk, SpinalError>)
        ensures
            r matches Ok(b) ==> sp_json_ik(v@) == Ok::<SpecJsonIk, SpinalError>(b@),
            r matches Err(e) ==> sp_json_ik(v@) == Err::<SpecJsonIk, SpinalError>(e),
    {
        proof {
            reveal(sp_json_ik);
        }
        let name = match req_str(v, "name", Field::IkName) {
            Ok(x) => x,
            Err(e) => {
                return Err(e);
            },
        };
        let order = match get_index(v, "order", 0, Field::IkValue) {
            Ok(x) => x,
            Err(e) => {
                return Err(e);
            },
        };
        if order > 0xffffffff {
            return Err(jerr(Field::IkValue));
        }
        let skin = match get_bool(v, "skin", false, Field::IkValue) {
            Ok(x) => x,
            Err(e) => {
                return Err(e);
            },
        };
        let bones_node = match obj_get(v, "bones") {
            Some(bv) => bv,
            None => {
                return Err(jerr(Field::IkBones));
            },
        };
        let ba = match as_arr(bones_node) {
            Some(ba) => ba,
            None => {
                return Err(jerr(Field::IkBones));
            },
        };
        let bones = match str_array(ba) {
            Ok(x) => x,
            Err(e) => {
                return Err(e);
            },
        };
        let target = match req_str(v, "target", Field::IkValue) {
            Ok(x) => x,
            Err(e) => {
                return Err(e);
            },
        };
        let mix = match get_num(v, "mix", Scalar { bits: SCALE }, Field::IkValue) {
            Ok(x) => x,
            Err(e) => {
                return Err(e);
            },
        };
        let softness = match get_num(v, "softness", Scalar { bits: 0 }, Field::IkValue) {
            Ok(x) => x,
            Err(e) => {
                return Err(e);
            },
        };
        let bend_positive = match get_bool(v, "bendPositive", false, Field::Bend) {
            Ok(x) => x,
            Err(e) => {
                return Err(e);
            },
        };
        let compress = match get_bool(v, "compress", false, Field::IkValue) {
            Ok(x) => x,
            Err(e) => {
                return Err(e);
            },
        };
        let stretch = match get_bool(v, "stretch", false, Field::IkValue) {
            Ok(x) => x,
            Err(e) => {
                return Err(e);
            },
        };
        let uniform = match get_bool(v, "uniform", false, Field::IkValue) {
            Ok(x) => x,
            Err(e) => {
                return Err(e);
            },
        };
        Ok(
            JsonIk {
                name,
                order: order as u32,
                skin,
                bones,
                target,
                mix,
                softness,
                bend_positive,
                compress,
                stretch,
                uniform,
            },
        )
    }
}


/// View an object node's entries.
fn as_obj<'a>(x: &'a JsonValue) -> (r: Option<&'a Vec<(String, JsonValue)>>)
    ensures
        r matches Some(o) ==> x@ matches SpecJsonValue::Obj(s) && s == spec_obj_entries(o@),
        r is None ==> !(x@ is Obj),
{
    match x {
        JsonValue::Obj(o) => {
            proof {
                assert((match x@ {
                    SpecJsonValue::Obj(s) => s,
                    _ => Seq::empty(),
                }) =~~= spec_obj_entries(o@));
            }
            Some(o)
        },
        _ => None,
    }
}

/// The numbers in a JSON array.
pub open spec fn sp_num_array_rec(a: Seq<SpecJsonValue>, k: int, acc: Seq<Scalar>) -> Result<Seq<Scalar>, SpinalError>
    decreases a.len() - k,
{
    if k < 0 || k >= a.len() {
        Ok(acc)
    } else {
        match a[k] {
            SpecJsonValue::Num(t) => match sp_decimal(t) {
                Some(x) => sp_num_array_rec(a, k + 1, acc.push(Scalar { bits: x as i64 })),
                None => Err(sp_jerr(Field::VertexData)),
            },
            _ => Err(sp_jerr(Field::VertexData)),
        }
    }
}

fn num_array(items: &Vec<JsonValue>) -> (r: Result<Vec<Scalar>, SpinalError>)
    ensures
        r matches Ok(v) ==> sp_num_array_rec(spec_arr_items(items@), 0, Seq::empty()) == Ok::<
            Seq<Scalar>,
            SpinalError,
        >(v@),
        r matches Err(e) ==> sp_num_array_rec(spec_arr_items(items@), 0, Seq::empty()) == Err::<
            Seq<Scalar>,
            SpinalError,
        >(e),
{
    let n = items.len();
    let mut out: Vec<Scalar> = Vec::new();
    let mut k: usize = 0;
    proof {
        assert(out@ =~= Seq::<Scalar>::empty());
    }
    while k < n
        invariant
            k <= n,
            n == items@.len(),
            sp_num_array_rec(spec_arr_items(items@), 0, Seq::empty()) == sp_num_array_rec(
                spec_arr_items(items@),
                k as int,
                out@,
            ),
        decreases n - k,
    {
        proof {
            reveal_with_fuel(sp_num_array_rec, 2);
        }
        match &items[k] {
            JsonValue::Num(t) => match parse_decimal(t.as_slice()) {
                Some(x) => {
                    out.push(x);
                },
                None => {
                    return Err(jerr(Field::VertexData));
                },
            },
            _ => {
                return Err(jerr(Field::VertexData));
            },
        }
        k = k + 1;
    }
    proof {
        reveal_with_fuel(sp_num_array_rec, 2);
    }
    Ok(out)
}

/// Consecutive pairs of a number list as points.
pub open spec fn sp_pairs_rec(nums: Seq<Scalar>, k: int, acc: Seq<Vec2>) -> Seq<Vec2>
    decreases nums.len() - k,
{
    if k < 0 || k + 1 >= nums.len() {
        acc
    } else {
        sp_pairs_rec(nums, k + 2, acc.push(Vec2 { x: nums[k], y: nums[k + 1] }))
    }
}

fn pairs(nums: &Vec<Scalar>) -> (r: Vec<Vec2>)
    ensures
        r.deep_view() == sp_pairs_rec(nums@, 0, Seq::empty()),
{
    let n = nums.len();
    let mut out: Vec<Vec2> = Vec::new();
    let mut k: usize = 0;
    proof {
        assert(out.deep_view() =~= Seq::<Vec2>::empty());
    }
    while k < n && k + 1 < n
        invariant
            k <= n + 1,
            n == nums@.len(),
            sp_pairs_rec(nums@, 0, Seq::empty()) == sp_pairs_rec(nums@, k as int, out.deep_view()),
        decreases n - k,
    {
        let ghost acc = out.deep_view();
        proof {
            reveal_with_fuel(sp_pairs_rec, 2);
        }
        let p = Vec2 { x: nums[k], y: nums[k + 1] };
        out.push(p);
        proof {
            assert(out.deep_view() =~= acc.push(p));
        }
        k = k + 2;
    }
    proof {
        reveal_with_fuel(sp_pairs_rec, 2);
    }
    out
}

/// The first position holding a name among JSON bones, from `k`.
pub open spec fn sp_find_bone_id(bones: Seq<SpecJsonBone>, name: Seq<char>, k: int) -> Option<int>
    decreases bones.len() - k,
{
    if k < 0 || k >= bones.len() {
        None
    } else if bones[k].name == name {
        Some(k)
    } else {
        sp_find_bone_id(bones, name, k + 1)
    }
}

/// The first position holding a name among JSON slots, from `k`.
pub open spec fn sp_find_slot_id(slots: Seq<SpecJsonSlot>, name: Seq<char>, k: int) -> Option<int>
    decreases slots.len() - k,
{
    if k < 0 || k >= slots.len() {
        None
    } else if slots[k].name == name {
        Some(k)
    } else {
        sp_find_slot_id(slots, name, k + 1)
    }
}

/// The index of the first bone with a name, or a reference error.
pub fn find_bone_id(bones: &Vec<JsonBone>, name: &String) -> (r: Result<usize, SpinalError>)
    ensures
        r matches Ok(i) ==> sp_find_bone_id(bones.deep_view(), name@, 0) == Some(i as int),
        r matches Err(e) ==> sp_find_bone_id(bones.deep_view(), name@, 0) is None && (e matches
            SpinalError::Reference(re) && (re matches ReferenceError::BoneName(nm) && nm@ == name@)),
{
    let n = bones.len();
    let mut k: usize = 0;
    while k < n
        invariant
            k <= n,
            n == bones@.len(),
            sp_find_bone_id(bones.deep_view(), name@, 0) == sp_find_bone_id(bones.deep_view(), name@, k as int),
        decreases n - k,
    {
        proof {
            reveal_with_fuel(sp_find_bone_id, 2);
        }
        if bones[k].name == *name {
            return Ok(k);
        }
        k = k + 1;
    }
    proof {
        reveal_with_fuel(sp_find_bone_id, 2);
    }
    Err(SpinalError::Reference(ReferenceError::BoneName(name.clone())))
}

/// Resolves bone and slot names to their indices: the first definition of a
/// name wins.
pub struct Lookup<'a> {
    pub bones: &'a Vec<JsonBone>,
    pub slots: &'a Vec<JsonSlot>,
}

impl<'a> Lookup<'a> {
    pub fn new(bones: &'a Vec<JsonBone>, slots: &'a Vec<JsonSlot>) -> (r: Lookup<'a>)
        ensures
            r.bones == bones,
            r.slots == slots,
    {
        Lookup { bones, slots }
    }

    /// The index of the bone with a name, or a reference error.
    pub fn bone_name_to_id(&self, name: &String) -> (r: Result<usize, SpinalError>)
        ensures
            r matches Ok(i) ==> sp_find_bone_id(self.bones.deep_view(), name@, 0) == Some(i as int),
            r matches Err(e) ==> sp_find_bone_id(self.bones.deep_view(), name@, 0) is None && (e matches
                SpinalError::Reference(re) && (re matches ReferenceError::BoneName(nm) && nm@ == name@)),
    {
        find_bone_id(self.bones, name)
    }

    /// The index of the bone with a name, when one is given.
    pub fn opt_bone_name_to_id(&self, name: &Option<String>) -> (r: Result<Option<usize>, SpinalError>)
        ensures
            r matches Ok(oi) ==> (match name {
                Some(nm) => oi matches Some(i) && sp_find_bone_id(self.bones.deep_view(), nm@, 0) == Some(i as int),
                None => oi is None,
            }),
            r matches Err(e) ==> name matches Some(nm) && sp_find_bone_id(self.bones.deep_view(), nm@, 0) is None
                && (e matches SpinalError::Reference(re) && (re matches ReferenceError::BoneName(nm2) && nm2@
                == nm@)),
    {
        match name {
            None => Ok(None),
            Some(nm) => match self.bone_name_to_id(nm) {
                Ok(i) => Ok(Some(i)),
                Err(e) => Err(e),
            },
        }
    }

    /// The index of the slot with a name, or a reference error.
    pub fn slot_name_to_id(&self, name: &String) -> (r: Result<usize, SpinalError>)
        ensures
            r matches Ok(i) ==> sp_find_slot_id(self.slots.deep_view(), name@, 0) == Some(i as int),
            r matches Err(e) ==> sp_find_slot_id(self.slots.deep_view(), name@, 0) is None && (e matches
                SpinalError::Reference(re) && (re matches ReferenceError::SlotName(nm) && nm@ == name@)),
    {
        let n = self.slots.len();
        let mut k: usize = 0;
        while k < n
            invariant
                k <= n,
                n == self.slots@.len(),
                sp_find_slot_id(self.slots.deep_view(), name@, 0) == sp_find_slot_id(
                    self.slots.deep_view(),
                    name@,
                    k as int,
                ),
            decreases n - k,
        {
            proof {
                reveal_with_fuel(sp_find_slot_id, 2);
            }
            if self.slots[k].name == *name {
                return Ok(k);
            }
            k = k + 1;
        }
        proof {
            reveal_with_fuel(sp_find_slot_id, 2);
        }
        Err(SpinalError::Reference(ReferenceError::SlotName(name.clone())))
    }
}


/// The attachment an attachment node denotes, under a placeholder name. The
/// tag key selects the variant, a textured region when omitted; the mesh
/// variants and weighted vertex lists travel only in the binary format, and
/// are refused here.
#[verifier::opaque]
pub open spec fn sp_json_attachment(
    v: SpecJsonValue,
    placeholder: Seq<char>,
    slots: Seq<SpecJsonSlot>,
) -> Result<crate::skeleton::attachment::SpecAttachment, SpinalError> {
    match sp_get_str(v, "name"@, Field::AttachmentName) {
        Err(e) => Err(e),
        Ok(name_opt) => {
            let aname = match name_opt {
                Some(nm) => nm,
                None => placeholder,
            };
            match sp_get_str(v, "type"@, Field::AttachmentTag) {
                Err(e) => Err(e),
                Ok(tag_opt) => {
                    let tag = match tag_opt {
                        Some(t) => t,
                        None => "region"@,
                    };
                    match sp_json_attachment_data(v, tag, slots) {
                        Err(e) => Err(e),
                        Ok(data) => Ok(
                            crate::skeleton::attachment::SpecAttachment {
                                placeholder_name: placeholder,
                                attachment_name: aname,
                                data,
                            },
                        ),
                    }
                },
            }
        },
    }
}

/// The variant-specific payload of a JSON attachment.
#[verifier::opaque]
pub open spec fn sp_json_attachment_data(v: SpecJsonValue, tag: Seq<char>, slots: Seq<SpecJsonSlot>) -> Result<
    crate::skeleton::attachment::SpecAttachmentData,
    SpinalError,
> {
    if tag == "region"@ {
        match sp_get_str(v, "path"@, Field::AttachmentValue) {
            Err(e) => Err(e),
            Ok(path) => match sp_get_num(v, "x"@, Scalar { bits: 0 }, Field::AttachmentValue) {
                Err(e) => Err(e),
                Ok(x) => match sp_get_num(v, "y"@, Scalar { bits: 0 }, Field::AttachmentValue) {
                    Err(e) => Err(e),
                    Ok(y) => match sp_get_num(v, "scaleX"@, Scalar { bits: SCALE as i64 }, Field::AttachmentValue) {
                        Err(e) => Err(e),
                        Ok(sx) => match sp_get_num(
                            v,
                            "scaleY"@,
                            Scalar { bits: SCALE as i64 },
                            Field::AttachmentValue,
                        ) {
                            Err(e) => Err(e),
                            Ok(sy) => match sp_get_num(v, "rotation"@, Scalar { bits: 0 }, Field::AttachmentValue) {
                                Err(e) => Err(e),
                                Ok(rotation) => match sp_req_num(v, "width"@, Field::AttachmentValue) {
                                    Err(e) => Err(e),
                                    Ok(w) => match sp_req_num(v, "height"@, Field::AttachmentValue) {
                                        Err(e) => Err(e),
                                        Ok(h) => match sp_get_color(
                                            v,
                                            "color"@,
                                            Color(0xFFFFFFFFu32),
                                            Field::AttachmentValue,
                                        ) {
                                            Err(e) => Err(e),
                                            Ok(color) => Ok(
                                                crate::skeleton::attachment::SpecAttachmentData::Region(
                                                    crate::skeleton::attachment::SpecRegionAttachment {
                                                        path,
                                                        position: Vec2 { x, y },
                                                        scale: Vec2 { x: sx, y: sy },
                                                        rotation,
                                                        size: Vec2 { x: w, y: h },
                                                        color,
                                                    },
                                                ),
                                            ),
                                        },
                                    },
                                },
                            },
                        },
                    },
                },
            },
        }
    } else if tag == "boundingbox"@ {
        match sp_json_vertices(v) {
            Err(e) => Err(e),
            Ok(vertices) => match sp_get_color(v, "color"@, Color(0x60F000FFu32), Field::AttachmentValue) {
                Err(e) => Err(e),
                Ok(color) => Ok(
                    crate::skeleton::attachment::SpecAttachmentData::BoundingBox(
                        crate::skeleton::attachment::SpecBoundingBoxAttachment { vertices, color },
                    ),
                ),
            },
        }
    } else if tag == "point"@ {
        match sp_get_num(v, "x"@, Scalar { bits: 0 }, Field::AttachmentValue) {
            Err(e) => Err(e),
            Ok(x) => match sp_get_num(v, "y"@, Scalar { bits: 0 }, Field::AttachmentValue) {
                Err(e) => Err(e),
                Ok(y) => match sp_get_num(v, "rotation"@, Scalar { bits: 0 }, Field::AttachmentValue) {
                    Err(e) => Err(e),
                    Ok(rotation) => Ok(
                        crate::skeleton::attachment::SpecAttachmentData::Point(
                            crate::skeleton::attachment::PointAttachment {
                                rotation,
                                position: Vec2 { x, y },
                                color: None,
                            },
                        ),
                    ),
                },
            },
        }
    } else if tag == "path"@ {
        match sp_get_bool(v, "closed"@, false, Field::AttachmentValue) {
            Err(e) => Err(e),
            Ok(closed) => match sp_get_bool(v, "constantSpeed"@, true, Field::AttachmentValue) {
                Err(e) => Err(e),
                Ok(constant_speed) => Ok(
                    crate::skeleton::attachment::SpecAttachmentData::Path(
                        crate::skeleton::attachment::PathAttachment { closed, constant_speed },
                    ),
                ),
            },
        }
    } else if tag == "mesh"@ {
        match sp_get_num_list(v, "uvs"@) {
            Err(e) => Err(e),
            Ok(uv_nums) => {
                if uv_nums.len() % 2 != 0 {
                    Err(sp_jerr(Field::VertexData))
                } else {
                    match sp_get_int_list(v, "triangles"@) {
                        Err(e) => Err(e),
                        Ok(triangles) => match sp_get_num_list(v, "vertices"@) {
                            Err(e) => Err(e),
                            Ok(vert_nums) => {
                                if vert_nums.len() != uv_nums.len() {
                                    Err(sp_jerr(Field::VertexData))
                                } else {
                                    match sp_get_index(v, "hull"@, 0, Field::VertexData) {
                                        Err(e) => Err(e),
                                        Ok(hull) => match sp_get_color(
                                            v,
                                            "color"@,
                                            Color(0xFFFFFFFFu32),
                                            Field::AttachmentValue,
                                        ) {
                                            Err(e) => Err(e),
                                            Ok(color) => match sp_opt_num(v, "width"@, Field::AttachmentValue) {
                                                Err(e) => Err(e),
                                                Ok(w) => match sp_opt_num(v, "height"@, Field::AttachmentValue) {
                                                    Err(e) => Err(e),
                                                    Ok(h) => Ok(
                                                        crate::skeleton::attachment::SpecAttachmentData::Mesh(
                                                            crate::skeleton::attachment::SpecMeshAttachment {
                                                                path_string: 0,
                                                                color,
                                                                uvs: sp_pairs_rec(uv_nums, 0, Seq::empty()),
                                                                vertex_index: triangles,
                                                                vertices: crate::skeleton::attachment::SpecVertices::Positions(
                                                                    sp_pairs_rec(vert_nums, 0, Seq::empty()),
                                                                ),
                                                                hull_count: hull,
                                                                edges: None,
                                                                size: match (w, h) {
                                                                    (Some(w), Some(h)) => Some(Vec2 { x: w, y: h }),
                                                                    _ => None,
                                                                },
                                                            },
                                                        ),
                                                    ),
                                                },
                                            },
                                        },
                                    }
                                }
                            },
                        },
                    }
                }
            },
        }
    } else if tag == "linkedmesh"@ {
        match sp_get_str(v, "path"@, Field::AttachmentValue) {
            Err(e) => Err(e),
            Ok(path) => match sp_get_str(v, "skin"@, Field::AttachmentValue) {
                Err(e) => Err(e),
                Ok(skin) => match sp_get_str(v, "parent"@, Field::AttachmentValue) {
                    Err(e) => Err(e),
                    Ok(parent) => match sp_get_bool(v, "deform"@, true, Field::AttachmentValue) {
                        Err(e) => Err(e),
                        Ok(deform) => match sp_get_color(v, "color"@, Color(0xFFFFFFFFu32), Field::AttachmentValue) {
                            Err(e) => Err(e),
                            Ok(color) => match sp_opt_num(v, "width"@, Field::AttachmentValue) {
                                Err(e) => Err(e),
                                Ok(w) => match sp_opt_num(v, "height"@, Field::AttachmentValue) {
                                    Err(e) => Err(e),
                                    Ok(h) => Ok(
                                        crate::skeleton::attachment::SpecAttachmentData::LinkedMesh(
                                            crate::skeleton::attachment::SpecLinkedMeshAttachment {
                                                path,
                                                skin,
                                                parent,
                                                deform,
                                                color,
                                                size: match (w, h) {
                                                    (Some(w), Some(h)) => Some(Vec2 { x: w, y: h }),
                                                    _ => None,
                                                },
                                            },
                                        ),
                                    ),
                                },
                            },
                        },
                    },
                },
            },
        }
    } else if tag == "clipping"@ {
        match sp_req_str(v, "end"@, Field::AttachmentValue) {
            Err(e) => Err(e),
            Ok(end_name) => match sp_find_slot_id(slots, end_name, 0) {
                None => Err(sp_jerr(Field::AttachmentValue)),
                Some(end) => match sp_json_vertices(v) {
                    Err(e) => Err(e),
                    Ok(vertices) => Ok(
                        crate::skeleton::attachment::SpecAttachmentData::Clipping(
                            crate::skeleton::attachment::SpecClippingAttachment {
                                end_slot_index: end as usize,
                                vertices,
                                color: None,
                            },
                        ),
                    ),
                },
            },
        }
    } else {
        Err(sp_jerr(Field::AttachmentTag))
    }
}

/// The numbers stored under a required array key.
pub open spec fn sp_get_num_list(v: SpecJsonValue, key: Seq<char>) -> Result<Seq<Scalar>, SpinalError> {
    match spec_obj_get(v, key) {
        Some(SpecJsonValue::Arr(a)) => sp_num_array_rec(a, 0, Seq::empty()),
        _ => Err(sp_jerr(Field::VertexData)),
    }
}

/// The whole numbers stored under a required array key.
pub open spec fn sp_get_int_list(v: SpecJsonValue, key: Seq<char>) -> Result<Seq<usize>, SpinalError> {
    match sp_get_num_list(v, key) {
        Err(e) => Err(e),
        Ok(nums) => sp_ints_rec(nums, 0, Seq::empty()),
    }
}

/// The whole numbers a scalar list holds.
pub open spec fn sp_ints_rec(nums: Seq<Scalar>, k: int, acc: Seq<usize>) -> Result<Seq<usize>, SpinalError>
    decreases nums.len() - k,
{
    if k < 0 || k >= nums.len() {
        Ok(acc)
    } else {
        let b = nums[k].bits as int;
        if 0 <= b && b % (SCALE as int) == 0 && b / (SCALE as int) <= 0xffffffff {
            sp_ints_rec(nums, k + 1, acc.push((b / (SCALE as int)) as usize))
        } else {
            Err(sp_jerr(Field::VertexData))
        }
    }
}

fn get_num_list(v: &JsonValue, key: &str) -> (r: Result<Vec<Scalar>, SpinalError>)
    ensures
        r matches Ok(ns) ==> sp_get_num_list(v@, key@) == Ok::<Seq<Scalar>, SpinalError>(ns@),
        r matches Err(e) ==> sp_get_num_list(v@, key@) == Err::<Seq<Scalar>, SpinalError>(e),
{
    let node = match obj_get(v, key) {
        Some(n) => n,
        None => {
            return Err(jerr(Field::VertexData));
        },
    };
    let arr = match as_arr(node) {
        Some(a) => a,
        None => {
            return Err(jerr(Field::VertexData));
        },
    };
    num_array(arr)
}

fn ints(nums: &Vec<Scalar>) -> (r: Result<Vec<usize>, SpinalError>)
    ensures
        r matches Ok(v) ==> sp_ints_rec(nums@, 0, Seq::empty()) == Ok::<Seq<usize>, SpinalError>(v@),
        r matches Err(e) ==> sp_ints_rec(nums@, 0, Seq::empty()) == Err::<Seq<usize>, SpinalError>(e),
{
    let n = nums.len();
    let mut out: Vec<usize> = Vec::new();
    let mut k: usize = 0;
    proof {
        assert(out@ =~= Seq::<usize>::empty());
    }
    while k < n
        invariant
            k <= n,
            n == nums@.len(),
            sp_ints_rec(nums@, 0, Seq::empty()) == sp_ints_rec(nums@, k as int, out@),
        decreases n - k,
    {
        proof {
            reveal_with_fuel(sp_ints_rec, 2);
        }
        let b = nums[k].bits;
        if 0 <= b && (b as u64) % 65536 == 0 && (b as u64) / 65536 <= 0xffffffff {
            proof {
                assert(b as int % (SCALE as int) == (b as u64) % 65536);
                assert(b as int / (SCALE as int) == (b as u64) / 65536);
            }
            out.push(((b as u64) / 65536) as usize);
        } else {
            return Err(jerr(Field::VertexData));
        }
        k = k + 1;
    }
    proof {
        reveal_with_fuel(sp_ints_rec, 2);
    }
    Ok(out)
}

/// The plain vertex list of a JSON attachment: a vertex count and twice as
/// many numbers.
pub open spec fn sp_json_vertices(v: SpecJsonValue) -> Result<
    crate::skeleton::attachment::SpecVertices,
    SpinalError,
> {
    match sp_get_index(v, "vertexCount"@, 0, Field::VertexData) {
        Err(e) => Err(e),
        Ok(count) => match spec_obj_get(v, "vertices"@) {
            Some(SpecJsonValue::Arr(a)) => match sp_num_array_rec(a, 0, Seq::empty()) {
                Err(e) => Err(e),
                Ok(nums) => {
                    if nums.len() == 2 * count {
                        Ok(
                            crate::skeleton::attachment::SpecVertices::Positions(
                                sp_pairs_rec(nums, 0, Seq::empty()),
                            ),
                        )
                    } else {
                        Err(sp_jerr(Field::VertexData))
                    }
                },
            },
            _ => Err(sp_jerr(Field::VertexData)),
        },
    }
}

fn json_vertices(v: &JsonValue) -> (r: Result<crate::skeleton::Vertices, SpinalError>)
    ensures
        r matches Ok(vs) ==> sp_json_vertices(v@) == Ok::<crate::skeleton::attachment::SpecVertices, SpinalError>(vs@),
        r matches Err(e) ==> sp_json_vertices(v@) == Err::<crate::skeleton::attachment::SpecVertices, SpinalError>(e),
{
    let count = match get_index(v, "vertexCount", 0, Field::VertexData) {
        Ok(c) => c,
        Err(e) => {
            return Err(e);
        },
    };
    let node = match obj_get(v, "vertices") {
        Some(n) => n,
        None => {
            return Err(jerr(Field::VertexData));
        },
    };
    let arr = match as_arr(node) {
        Some(a) => a,
        None => {
            return Err(jerr(Field::VertexData));
        },
    };
    let nums = match num_array(arr) {
        Ok(nums) => nums,
        Err(e) => {
            return Err(e);
        },
    };
    proof {
        vstd::arithmetic::div_mod::lemma_fundamental_div_mod(nums@.len() as int, 2);
    }
    if nums.len() % 2 == 0 && nums.len() / 2 == count {
        let ps = pairs(&nums);
        Ok(crate::skeleton::Vertices::Positions { positions: ps })
    } else {
        Err(jerr(Field::VertexData))
    }
}

/// Decode one attachment node stored under a placeholder name.
pub fn json_attachment(v: &JsonValue, placeholder: &String, lookup: &Lookup) -> (r: Result<
    crate::skeleton::Attachment,
    SpinalError,
>)
    ensures
        r matches Ok(a) ==> sp_json_attachment(v@, placeholder@, lookup.slots.deep_view()) == Ok::<
            crate::skeleton::attachment::SpecAttachment,
            SpinalError,
        >(a@),
        r matches Err(e) ==> sp_json_attachment(v@, placeholder@, lookup.slots.deep_view()) == Err::<
            crate::skeleton::attachment::SpecAttachment,
            SpinalError,
        >(e),
{
    proof {
        reveal(sp_json_attachment);
        reveal(sp_json_attachment_data);
    }
    let name_opt = match get_str(v, "name", Field::AttachmentName) {
        Ok(x) => x,
        Err(e) => {
            return Err(e);
        },
    };
    let aname = match name_opt {
        Some(nm) => nm,
        None => placeholder.clone(),
    };
    let tag_opt = match get_str(v, "type", Field::AttachmentTag) {
        Ok(x) => x,
        Err(e) => {
            return Err(e);
        },
    };
    let tag = match tag_opt {
        Some(t) => t,
        None => "region".to_owned(),
    };
    let data = if tag == "region".to_owned() {
        let path = match get_str(v, "path", Field::AttachmentValue) {
            Ok(x) => x,
            Err(e) => {
                return Err(e);
            },
        };
        let x = match get_num(v, "x", Scalar { bits: 0 }, Field::AttachmentValue) {
            Ok(x) => x,
            Err(e) => {
                return Err(e);
            },
        };
        let y = match get_num(v, "y", Scalar { bits: 0 }, Field::AttachmentValue) {
            Ok(x) => x,
            Err(e) => {
                return Err(e);
            },
        };
        let sx = match get_num(v, "scaleX", Scalar { bits: SCALE }, Field::AttachmentValue) {
            Ok(x) => x,
            Err(e) => {
                return Err(e);
            },
        };
        let sy = match get_num(v, "scaleY", Scalar { bits: SCALE }, Field::AttachmentValue) {
            Ok(x) => x,
            Err(e) => {
                return Err(e);
            },
        };
        let rotation = match get_num(v, "rotation", Scalar { bits: 0 }, Field::AttachmentValue) {
            Ok(x) => x,
            Err(e) => {
                return Err(e);
            },
        };
        let w = match req_num(v, "width", Field::AttachmentValue) {
            Ok(x) => x,
            Err(e) => {
                return Err(e);
            },
        };
        let h = match req_num(v, "height", Field::AttachmentValue) {
            Ok(x) => x,
            Err(e) => {
                return Err(e);
            },
        };
        let color = match get_color(v, "color", Color(0xFFFFFFFF), Field::AttachmentValue) {
            Ok(x) => x,
            Err(e) => {
                return Err(e);
            },
        };
        crate::skeleton::AttachmentData::Region(
            crate::skeleton::RegionAttachment {
                path,
                position: Vec2 { x, y },
                scale: Vec2 { x: sx, y: sy },
                rotation,
                size: Vec2 { x: w, y: h },
                color,
            },
        )
    } else if tag == "boundingbox".to_owned() {
        let vertices = match json_vertices(v) {
            Ok(x) => x,
            Err(e) => {
                return Err(e);
            },
        };
        let color = match get_color(v, "color", Color(0x60F000FF), Field::AttachmentValue) {
            Ok(x) => x,
            Err(e) => {
                return Err(e);
            },
        };
        crate::skeleton::AttachmentData::BoundingBox(
            crate::skeleton::BoundingBoxAttachment { vertices, color },
        )
    } else if tag == "point".to_owned() {
        let x = match get_num(v, "x", Scalar { bits: 0 }, Field::AttachmentValue) {
            Ok(x) => x,
            Err(e) => {
                return Err(e);
            },
        };
        let y = match get_num(v, "y", Scalar { bits: 0 }, Field::AttachmentValue) {
            Ok(x) => x,
            Err(e) => {
                return Err(e);
            },
        };
        let rotation = match get_num(v, "rotation", Scalar { bits: 0 }, Field::AttachmentValue) {
            Ok(x) => x,
            Err(e) => {
                return Err(e);
            },
        };
        crate::skeleton::AttachmentData::Point(
            crate::skeleton::PointAttachment { rotation, position: Vec2 { x, y }, color: None },
        )
    } else if tag == "path".to_owned() {
        let closed = match get_bool(v, "closed", false, Field::AttachmentValue) {
            Ok(x) => x,
            Err(e) => {
                return Err(e);
            },
        };
        let constant_speed = match get_bool(v, "constantSpeed", true, Field::AttachmentValue) {
            Ok(x) => x,
            Err(e) => {
                return Err(e);
            },
        };
        crate::skeleton::AttachmentData::Path(crate::skeleton::PathAttachment { closed, constant_speed })
    } else if tag == "mesh".to_owned() {
        let uv_nums = match get_num_list(v, "uvs") {
            Ok(x) => x,
            Err(e) => {
                return Err(e);
            },
        };
        if uv_nums.len() % 2 != 0 {
            return Err(jerr(Field::VertexData));
        }
        let tri_nums = match get_num_list(v, "triangles") {
            Ok(x) => x,
            Err(e) => {
                return Err(e);
            },
        };
        let triangles = match ints(&tri_nums) {
            Ok(x) => x,
            Err(e) => {
                return Err(e);
            },
        };
        let vert_nums = match get_num_list(v, "vertices") {
            Ok(x) => x,
            Err(e) => {
                return Err(e);
            },
        };
        if vert_nums.len() != uv_nums.len() {
            return Err(jerr(Field::VertexData));
        }
        let hull = match get_index(v, "hull", 0, Field::VertexData) {
            Ok(x) => x,
            Err(e) => {
                return Err(e);
            },
        };
        let color = match get_color(v, "color", Color(0xFFFFFFFF), Field::AttachmentValue) {
            Ok(x) => x,
            Err(e) => {
                return Err(e);
            },
        };
        let w = match opt_num(v, "width", Field::AttachmentValue) {
            Ok(x) => x,
            Err(e) => {
                return Err(e);
            },
        };
        let h = match opt_num(v, "height", Field::AttachmentValue) {
            Ok(x) => x,
            Err(e) => {
                return Err(e);
            },
        };
        let uvs = pairs(&uv_nums);
        let positions = pairs(&vert_nums);
        crate::skeleton::AttachmentData::Mesh(
            crate::skeleton::MeshAttachment {
                path_string: 0,
                color,
                uvs,
                vertex_index: triangles,
                vertices: crate::skeleton::Vertices::Positions { positions },
                hull_count: hull,
                edges: None,
                size: match (w, h) {
                    (Some(w), Some(h)) => Some(Vec2 { x: w, y: h }),
                    _ => None,
                },
            },
        )
    } else if tag == "linkedmesh".to_owned() {
        let path = match get_str(v, "path", Field::AttachmentValue) {
            Ok(x) => x,
            Err(e) => {
                return Err(e);
            },
        };
        let skin = match get_str(v, "skin", Field::AttachmentValue) {
            Ok(x) => x,
            Err(e) => {
                return Err(e);
            },
        };
        let parent = match get_str(v, "parent", Field::AttachmentValue) {
            Ok(x) => x,
            Err(e) => {
                return Err(e);
            },
        };
        let deform = match get_bool(v, "deform", true, Field::AttachmentValue) {
            Ok(x) => x,
            Err(e) => {
                return Err(e);
            },
        };
        let color = match get_color(v, "color", Color(0xFFFFFFFF), Field::AttachmentValue) {
            Ok(x) => x,
            Err(e) => {
                return Err(e);
            },
        };
        let w = match opt_num(v, "width", Field::AttachmentValue) {
            Ok(x) => x,
            Err(e) => {
                return Err(e);
            },
        };
        let h = match opt_num(v, "height", Field::AttachmentValue) {
            Ok(x) => x,
            Err(e) => {
                return Err(e);
            },
        };
        crate::skeleton::AttachmentData::LinkedMesh(
            crate::skeleton::LinkedMeshAttachment {
                path,
                skin,
                parent,
                deform,
                color,
                size: match (w, h) {
                    (Some(w), Some(h)) => Some(Vec2 { x: w, y: h }),
                    _ => None,
                },
            },
        )
    } else if tag == "clipping".to_owned() {
        let end_name = match req_str(v, "end", Field::AttachmentValue) {
            Ok(x) => x,
            Err(e) => {
                return Err(e);
            },
        };
        let end = match slot_id_or_bad(lookup, &end_name) {
            Ok(x) => x,
            Err(e) => {
                return Err(e);
            },
        };
        let vertices = match json_vertices(v) {
            Ok(x) => x,
            Err(e) => {
                return Err(e);
            },
        };
        crate::skeleton::AttachmentData::Clipping(
            crate::skeleton::ClippingAttachment { end_slot_index: end, vertices, color: None },
        )
    } else {
        return Err(jerr(Field::AttachmentTag));
    };
    Ok(crate::skeleton::Attachment { placeholder_name: placeholder.clone(), attachment_name: aname, data })
}

/// A slot index by name, or the decode error a clipping region reports.
fn slot_id_or_bad(lookup: &Lookup, name: &String) -> (r: Result<usize, SpinalError>)
    ensures
        r matches Ok(i) ==> sp_find_slot_id(lookup.slots.deep_view(), name@, 0) == Some(i as int),
        r matches Err(e) ==> sp_find_slot_id(lookup.slots.deep_view(), name@, 0) is None && e == sp_jerr(
            Field::AttachmentValue,
        ),
{
    match lookup.slot_name_to_id(name) {
        Ok(i) => Ok(i),
        Err(_) => Err(jerr(Field::AttachmentValue)),
    }
}


/// The JSON file's top-level content, decoded but not yet resolved.
#[derive(Debug, PartialEq)]
pub struct JsonSkeleton {
    pub skeleton: JsonInfo,
    pub bones: Vec<JsonBone>,
    pub slots: Vec<JsonSlot>,
    pub ik: Vec<JsonIk>,
}

/// The JSON bones a bones array denotes.
pub open spec fn sp_json_bones_rec(a: Seq<SpecJsonValue>, k: int, acc: Seq<SpecJsonBone>) -> Result<
    Seq<SpecJsonBone>,
    SpinalError,
>
    decreases a.len() - k,
{
    if k < 0 || k >= a.len() {
        Ok(acc)
    } else {
        match sp_json_bone(a[k]) {
            Ok(b) => sp_json_bones_rec(a, k + 1, acc.push(b)),
            Err(e) => Err(e),
        }
    }
}

/// The JSON slots a slots array denotes.
pub open spec fn sp_json_slots_rec(a: Seq<SpecJsonValue>, k: int, acc: Seq<SpecJsonSlot>) -> Result<
    Seq<SpecJsonSlot>,
    SpinalError,
>
    decreases a.len() - k,
{
    if k < 0 || k >= a.len() {
        Ok(acc)
    } else {
        match sp_json_slot(a[k]) {
            Ok(b) => sp_json_slots_rec(a, k + 1, acc.push(b)),
            Err(e) => Err(e),
        }
    }
}

/// The JSON IK constraints an ik array denotes.
pub open spec fn sp_json_iks_rec(a: Seq<SpecJsonValue>, k: int, acc: Seq<SpecJsonIk>) -> Result<
    Seq<SpecJsonIk>,
    SpinalError,
>
    decreases a.len() - k,
{
    if k < 0 || k >= a.len() {
        Ok(acc)
    } else {
        match sp_json_ik(a[k]) {
            Ok(b) => sp_json_iks_rec(a, k + 1, acc.push(b)),
            Err(e) => Err(e),
        }
    }
}

fn json_bones(items: &Vec<JsonValue>) -> (r: Result<Vec<JsonBone>, SpinalError>)
    ensures
        r matches Ok(v) ==> sp_json_bones_rec(spec_arr_items(items@), 0, Seq::empty()) == Ok::<
            Seq<SpecJsonBone>,
            SpinalError,
        >(v.deep_view()),
        r matches Err(e) ==> sp_json_bones_rec(spec_arr_items(items@), 0, Seq::empty()) == Err::<
            Seq<SpecJsonBone>,
            SpinalError,
        >(e),
{
    let n = items.len();
    let mut out: Vec<JsonBone> = Vec::new();
    let mut k: usize = 0;
    proof {
        assert(out.deep_view() =~= Seq::<SpecJsonBone>::empty());
    }
    while k < n
        invariant
            k <= n,
            n == items@.len(),
            sp_json_bones_rec(spec_arr_items(items@), 0, Seq::empty()) == sp_json_bones_rec(
                spec_arr_items(items@),
                k as int,
                out.deep_view(),
            ),
        decreases n - k,
    {
        let ghost acc = out.deep_view();
        proof {
            reveal_with_fuel(sp_json_bones_rec, 2);
        }
        let b = match JsonBone::decode(&items[k]) {
            Ok(b) => b,
            Err(e) => {
                return Err(e);
            },
        };
        let ghost bv = b@;
        out.push(b);
        proof {
            assert(out.deep_view() =~= acc.push(bv));
        }
        k = k + 1;
    }
    proof {
        reveal_with_fuel(sp_json_bones_rec, 2);
    }
    Ok(out)
}

fn json_slots(items: &Vec<JsonValue>) -> (r: Result<Vec<JsonSlot>, SpinalError>)
    ensures
        r matches Ok(v) ==> sp_json_slots_rec(spec_arr_items(items@), 0, Seq::empty()) == Ok::<
            Seq<SpecJsonSlot>,
            SpinalError,
        >(v.deep_view()),
        r matches Err(e) ==> sp_json_slots_rec(spec_arr_items(items@), 0, Seq::empty()) == Err::<
            Seq<SpecJsonSlot>,
            SpinalError,
        >(e),
{
    let n = items.len();
    let mut out: Vec<JsonSlot> = Vec::new();
    let mut k: usize = 0;
    proof {
        assert(out.deep_view() =~= Seq::<SpecJsonSlot>::empty());
    }
    while k < n
        invariant
            k <= n,
            n == items@.len(),
            sp_json_slots_rec(spec_arr_items(items@), 0, Seq::empty()) == sp_json_slots_rec(
                spec_arr_items(items@),
                k as int,
                out.deep_view(),
            ),
        decreases n - k,
    {
        let ghost acc = out.deep_view();
        proof {
            reveal_with_fuel(sp_json_slots_rec, 2);
        }
        let b = match JsonSlot::decode(&items[k]) {
            Ok(b) => b,
            Err(e) => {
                return Err(e);
            },
        };
        let ghost bv = b@;
        out.push(b);
        proof {
            assert(out.deep_view() =~= acc.push(bv));
        }
        k = k + 1;
    }
    proof {
        reveal_with_fuel(sp_json_slots_rec, 2);
    }
    Ok(out)
}

fn json_iks(items: &Vec<JsonValue>) -> (r: Result<Vec<JsonIk>, SpinalError>)
    ensures
        r matches Ok(v) ==> sp_json_iks_rec(spec_arr_items(items@), 0, Seq::empty()) == Ok::<
            Seq<SpecJsonIk>,
            SpinalError,
        >(v.deep_view()),
        r matches Err(e) ==> sp_json_iks_rec(spec_arr_items(items@), 0, Seq::empty()) == Err::<
            Seq<SpecJsonIk>,
            SpinalError,
        >(e),
{
    let n = items.len();
    let mut out: Vec<JsonIk> = Vec::new();
    let mut k: usize = 0;
    proof {
        assert(out.deep_view() =~= Seq::<SpecJsonIk>::empty());
    }
    while k < n
        invariant
            k <= n,
            n == items@.len(),
            sp_json_iks_rec(spec_arr_items(items@), 0, Seq::empty()) == sp_json_iks_rec(
                spec_arr_items(items@),
                k as int,
                out.deep_view(),
            ),
        decreases n - k,
    {
        let ghost acc = out.deep_view();
        proof {
            reveal_with_fuel(sp_json_iks_rec, 2);
        }
        let b = match JsonIk::decode(&items[k]) {
            Ok(b) => b,
            Err(e) => {
                return Err(e);
            },
        };
        let ghost bv = b@;
        out.push(b);
        proof {
            assert(out.deep_view() =~= acc.push(bv));
        }
        k = k + 1;
    }
    proof {
        reveal_with_fuel(sp_json_iks_rec, 2);
    }
    Ok(out)
}

/// The bones a JSON bone list denotes once every parent name is resolved:
/// the first bone is the only root, and every parent resolves to a strictly
/// earlier bone.
pub open spec fn sp_resolve_bones(jbones: Seq<SpecJsonBone>, k: int, acc: Seq<SpecBone>) -> Result<
    Seq<SpecBone>,
    crate::SpecSpinalError,
>
    decreases jbones.len() - k,
{
    if k < 0 || k >= jbones.len() {
        Ok(acc)
    } else {
        let jb = jbones[k];
        let parent: Result<Option<usize>, crate::SpecSpinalError> = match jb.parent {
            None => {
                if k == 0 {
                    Ok(None)
                } else {
                    Err(crate::SpecSpinalError::Structure(crate::StructureError::DuplicateRoot(k as usize)))
                }
            },
            Some(pname) => {
                match sp_find_bone_id(jbones, pname, 0) {
                    None => Err(
                        crate::SpecSpinalError::Reference(crate::SpecReferenceError::BoneName(pname)),
                    ),
                    Some(p) => {
                        if 0 <= p < k {
                            Ok(Some(p as usize))
                        } else {
                            Err(
                                crate::SpecSpinalError::Structure(
                                    crate::StructureError::ParentOutOfOrder(k as usize),
                                ),
                            )
                        }
                    },
                }
            },
        };
        match parent {
            Err(e) => Err(e),
            Ok(parent) => match spec_json_bone_to_bone(jb, parent) {
                Err(e) => Err(e@),
                Ok(b) => sp_resolve_bones(jbones, k + 1, acc.push(b)),
            },
        }
    }
}

/// Resolve every parent reference of a decoded bone list.
pub fn resolve_bones(jbones: &Vec<JsonBone>) -> (r: Result<Vec<Bone>, SpinalError>)
    ensures
        r matches Ok(v) ==> sp_resolve_bones(jbones.deep_view(), 0, Seq::empty()) == Ok::<
            Seq<SpecBone>,
            crate::SpecSpinalError,
        >(v.deep_view()),
        r matches Err(e) ==> sp_resolve_bones(jbones.deep_view(), 0, Seq::empty()) == Err::<
            Seq<SpecBone>,
            crate::SpecSpinalError,
        >(e@),
{
    let n = jbones.len();
    let mut out: Vec<Bone> = Vec::new();
    let mut k: usize = 0;
    proof {
        assert(out.deep_view() =~= Seq::<SpecBone>::empty());
    }
    while k < n
        invariant
            k <= n,
            n == jbones@.len(),
            out@.len() == k as int,
            sp_resolve_bones(jbones.deep_view(), 0, Seq::empty()) == sp_resolve_bones(
                jbones.deep_view(),
                k as int,
                out.deep_view(),
            ),
        decreases n - k,
    {
        let ghost acc = out.deep_view();
        proof {
            reveal_with_fuel(sp_resolve_bones, 2);
        }
        let jb = &jbones[k];
        let parent: Option<usize> = match &jb.parent {
            None => {
                if k == 0 {
                    None
                } else {
                    return Err(SpinalError::Structure(crate::StructureError::DuplicateRoot(k)));
                }
            },
            Some(pname) => {
                match find_bone_id(jbones, pname) {
                    Err(e) => {
                        return Err(e);
                    },
                    Ok(p) => {
                        if p < k {
                            Some(p)
                        } else {
                            return Err(SpinalError::Structure(crate::StructureError::ParentOutOfOrder(k)));
                        }
                    },
                }
            },
        };
        let b = match jb.to_bone(parent) {
            Ok(b) => b,
            Err(e) => {
                return Err(e);
            },
        };
        let ghost bv = b@;
        out.push(b);
        proof {
            assert(out.deep_view() =~= acc.push(bv));
        }
        k = k + 1;
    }
    proof {
        reveal_with_fuel(sp_resolve_bones, 2);
    }
    Ok(out)
}



/// The slots a JSON slot list denotes once every bone name is resolved.
pub open spec fn sp_resolve_slots(
    jslots: Seq<SpecJsonSlot>,
    jbones: Seq<SpecJsonBone>,
    k: int,
    acc: Seq<SpecSlot>,
) -> Result<Seq<SpecSlot>, crate::SpecSpinalError>
    decreases jslots.len() - k,
{
    if k < 0 || k >= jslots.len() {
        Ok(acc)
    } else {
        let js = jslots[k];
        match sp_find_bone_id(jbones, js.bone, 0) {
            None => Err(crate::SpecSpinalError::Reference(crate::SpecReferenceError::BoneName(js.bone))),
            Some(b) => match spec_json_slot_to_slot(js, b as usize) {
                Err(e) => Err(e@),
                Ok(slot) => sp_resolve_slots(jslots, jbones, k + 1, acc.push(slot)),
            },
        }
    }
}

/// The IK constraint one JSON constraint denotes against a bone list: every
/// controlled-bone name and the target name must resolve, and the controlled
/// chain must hold one or two bones.
pub open spec fn sp_json_ik_to_ik(ji: SpecJsonIk, jbones: Seq<SpecJsonBone>) -> Result<
    SpecIk,
    crate::SpecSpinalError,
> {
    match sp_resolve_names(ji.bones, jbones, 0, Seq::empty()) {
        Err(e) => Err(e),
        Ok(bones) => {
            if !(1 <= bones.len() <= 2) {
                Err(crate::SpecSpinalError::Decode(
                    DecodeError { offset: 0, field: Field::IkBones, kind: DecodeKind::BadValue },
                ))
            } else {
                match sp_find_bone_id(jbones, ji.target, 0) {
                    None => Err(
                        crate::SpecSpinalError::Reference(crate::SpecReferenceError::BoneName(ji.target)),
                    ),
                    Some(t) => Ok(
                        SpecIk {
                            name: ji.name,
                            order: ji.order,
                            skin: ji.skin,
                            bones,
                            target: t as usize,
                            mix: ji.mix,
                            softness: ji.softness,
                            bend_positive: ji.bend_positive,
                            compress: ji.compress,
                            stretch: ji.stretch,
                            uniform: ji.uniform,
                        },
                    ),
                }
            }
        },
    }
}

impl JsonIk {
    /// The IK constraint this JSON constraint denotes, every bone name
    /// resolved against the lookup's bone list: succeeds exactly when each
    /// controlled-bone name and the target name resolve and the chain holds
    /// one or two bones, and fails with the reference error naming the first
    /// unresolved name, or the controlled-chain decode error.
    pub fn into_ik(&self, lookup: &Lookup) -> (r: Result<Ik, SpinalError>)
        ensures
            r matches Ok(ik) ==> sp_json_ik_to_ik(self@, lookup.bones.deep_view()) == Ok::<
                SpecIk,
                crate::SpecSpinalError,
            >(ik@),
            r matches Err(e) ==> sp_json_ik_to_ik(self@, lookup.bones.deep_view()) == Err::<
                SpecIk,
                crate::SpecSpinalError,
            >(e@),
    {
        let bones = match resolve_names(&self.bones, lookup.bones) {
            Ok(b) => b,
            Err(e) => {
                return Err(e);
            },
        };
        if !(1 <= bones.len() && bones.len() <= 2) {
            return Err(jerr(Field::IkBones));
        }
        let t = match find_bone_id(lookup.bones, &self.target) {
            Ok(t) => t,
            Err(e) => {
                return Err(e);
            },
        };
        Ok(
            Ik {
                name: self.name.clone(),
                order: self.order,
                skin: self.skin,
                bones,
                target: t,
                mix: self.mix,
                softness: self.softness,
                bend_positive: self.bend_positive,
                compress: self.compress,
                stretch: self.stretch,
                uniform: self.uniform,
            },
        )
    }
}

/// Law: every bone list a successful JSON resolution returns is well formed —
/// only the first bone is the root, and every parent index points strictly
/// earlier in the list.
pub proof fn lemma_sp_resolve_bones_well_formed(jbones: Seq<SpecJsonBone>, k: int, acc: Seq<SpecBone>)
    requires
        crate::skeleton::spec_bones_well_formed(acc),
        acc.len() == k,
    ensures
        sp_resolve_bones(jbones, k, acc) matches Ok(v) ==> crate::skeleton::spec_bones_well_formed(v),
    decreases jbones.len() - k,
{
    if 0 <= k < jbones.len() {
        let jb = jbones[k];
        let parent: Result<Option<usize>, crate::SpecSpinalError> = match jb.parent {
            None => {
                if k == 0 {
                    Ok(None)
                } else {
                    Err(crate::SpecSpinalError::Structure(crate::StructureError::DuplicateRoot(k as usize)))
                }
            },
            Some(pname) => {
                match sp_find_bone_id(jbones, pname, 0) {
                    None => Err(
                        crate::SpecSpinalError::Reference(crate::SpecReferenceError::BoneName(pname)),
                    ),
                    Some(p) => {
                        if 0 <= p < k {
                            Ok(Some(p as usize))
                        } else {
                            Err(
                                crate::SpecSpinalError::Structure(
                                    crate::StructureError::ParentOutOfOrder(k as usize),
                                ),
                            )
                        }
                    },
                }
            },
        };
        match parent {
            Err(_) => {},
            Ok(parent) => match spec_json_bone_to_bone(jb, parent) {
                Err(_) => {},
                Ok(b) => {
                    let acc2 = acc.push(b);
                    assert forall|i: int| 0 <= i < acc2.len() implies (#[trigger] acc2[i].parent matches Some(q)
                        ==> i > 0 && q < i) by {
                        if i < acc.len() {
                            assert(acc2[i] == acc[i]);
                        }
                    }
                    lemma_sp_resolve_bones_well_formed(jbones, k + 1, acc2);
                },
            },
        }
    }
}

/// Resolve every bone reference of a decoded slot list.
pub fn resolve_slots(jslots: &Vec<JsonSlot>, jbones: &Vec<JsonBone>) -> (r: Result<Vec<Slot>, SpinalError>)
    ensures
        r matches Ok(v) ==> sp_resolve_slots(jslots.deep_view(), jbones.deep_view(), 0, Seq::empty()) == Ok::<
            Seq<SpecSlot>,
            crate::SpecSpinalError,
        >(v.deep_view()),
        r matches Err(e) ==> sp_resolve_slots(jslots.deep_view(), jbones.deep_view(), 0, Seq::empty()) == Err::<
            Seq<SpecSlot>,
            crate::SpecSpinalError,
        >(e@),
{
    let n = jslots.len();
    let mut out: Vec<Slot> = Vec::new();
    let mut k: usize = 0;
    proof {
        assert(out.deep_view() =~= Seq::<SpecSlot>::empty());
    }
    while k < n
        invariant
            k <= n,
            n == jslots@.len(),
            sp_resolve_slots(jslots.deep_view(), jbones.deep_view(), 0, Seq::empty()) == sp_resolve_slots(
                jslots.deep_view(),
                jbones.deep_view(),
                k as int,
                out.deep_view(),
            ),
        decreases n - k,
    {
        let ghost acc = out.deep_view();
        proof {
            reveal_with_fuel(sp_resolve_slots, 2);
        }
        let js = &jslots[k];
        let b = match find_bone_id(jbones, &js.bone) {
            Ok(b) => b,
            Err(e) => {
                return Err(e);
            },
        };
        let slot = match js.into_slot(b) {
            Ok(s) => s,
            Err(e) => {
                return Err(e);
            },
        };
        let ghost sv = slot@;
        out.push(slot);
        proof {
            assert(out.deep_view() =~= acc.push(sv));
        }
        k = k + 1;
    }
    proof {
        reveal_with_fuel(sp_resolve_slots, 2);
    }
    Ok(out)
}

/// The IK constraints a JSON IK list denotes once every name is resolved.
pub open spec fn sp_resolve_iks(
    jiks: Seq<SpecJsonIk>,
    jbones: Seq<SpecJsonBone>,
    k: int,
    acc: Seq<SpecIk>,
) -> Result<Seq<SpecIk>, crate::SpecSpinalError>
    decreases jiks.len() - k,
{
    if k < 0 || k >= jiks.len() {
        Ok(acc)
    } else {
        match sp_json_ik_to_ik(jiks[k], jbones) {
            Err(e) => Err(e),
            Ok(ik) => sp_resolve_iks(jiks, jbones, k + 1, acc.push(ik)),
        }
    }
}

/// The bone indices a name list denotes.
pub open spec fn sp_resolve_names(
    names: Seq<Seq<char>>,
    jbones: Seq<SpecJsonBone>,
    k: int,
    acc: Seq<usize>,
) -> Result<Seq<usize>, crate::SpecSpinalError>
    decreases names.len() - k,
{
    if k < 0 || k >= names.len() {
        Ok(acc)
    } else {
        match sp_find_bone_id(jbones, names[k], 0) {
            None => Err(crate::SpecSpinalError::Reference(crate::SpecReferenceError::BoneName(names[k]))),
            Some(b) => sp_resolve_names(names, jbones, k + 1, acc.push(b as usize)),
        }
    }
}

fn resolve_names(names: &Vec<String>, jbones: &Vec<JsonBone>) -> (r: Result<Vec<usize>, SpinalError>)
    ensures
        r matches Ok(v) ==> sp_resolve_names(names.deep_view(), jbones.deep_view(), 0, Seq::empty()) == Ok::<
            Seq<usize>,
            crate::SpecSpinalError,
        >(v@),
        r matches Err(e) ==> sp_resolve_names(names.deep_view(), jbones.deep_view(), 0, Seq::empty()) == Err::<
            Seq<usize>,
            crate::SpecSpinalError,
        >(e@),
{
    let n = names.len();
    let mut out: Vec<usize> = Vec::new();
    let mut k: usize = 0;
    proof {
        assert(out@ =~= Seq::<usize>::empty());
    }
    while k < n
        invariant
            k <= n,
            n == names@.len(),
            sp_resolve_names(names.deep_view(), jbones.deep_view(), 0, Seq::empty()) == sp_resolve_names(
                names.deep_view(),
                jbones.deep_view(),
                k as int,
                out@,
            ),
        decreases n - k,
    {
        proof {
            reveal_with_fuel(sp_resolve_names, 2);
        }
        let b = match find_bone_id(jbones, &names[k]) {
            Ok(b) => b,
            Err(e) => {
                return Err(e);
            },
        };
        out.push(b);
        k = k + 1;
    }
    proof {
        reveal_with_fuel(sp_resolve_names, 2);
    }
    Ok(out)
}

/// Resolve every reference of a decoded IK list.
pub fn resolve_iks(jiks: &Vec<JsonIk>, lookup: &Lookup) -> (r: Result<Vec<Ik>, SpinalError>)
    ensures
        r matches Ok(v) ==> sp_resolve_iks(jiks.deep_view(), lookup.bones.deep_view(), 0, Seq::empty()) == Ok::<
            Seq<SpecIk>,
            crate::SpecSpinalError,
        >(v.deep_view()),
        r matches Err(e) ==> sp_resolve_iks(jiks.deep_view(), lookup.bones.deep_view(), 0, Seq::empty()) == Err::<
            Seq<SpecIk>,
            crate::SpecSpinalError,
        >(e@),
{
    let n = jiks.len();
    let mut out: Vec<Ik> = Vec::new();
    let mut k: usize = 0;
    proof {
        assert(out.deep_view() =~= Seq::<SpecIk>::empty());
    }
    while k < n
        invariant
            k <= n,
            n == jiks@.len(),
            sp_resolve_iks(jiks.deep_view(), lookup.bones.deep_view(), 0, Seq::empty()) == sp_resolve_iks(
                jiks.deep_view(),
                lookup.bones.deep_view(),
                k as int,
                out.deep_view(),
            ),
        decreases n - k,
    {
        let ghost acc = out.deep_view();
        proof {
            reveal_with_fuel(sp_resolve_iks, 2);
        }
        let ik = match jiks[k].into_ik(lookup) {
            Ok(ik) => ik,
            Err(e) => {
                return Err(e);
            },
        };
        let ghost iv = ik@;
        out.push(ik);
        proof {
            assert(out.deep_view() =~= acc.push(iv));
        }
        k = k + 1;
    }
    proof {
        reveal_with_fuel(sp_resolve_iks, 2);
    }
    Ok(out)
}


/// The attachments one skin offers for one slot, keyed by placeholder name.
pub open spec fn sp_skin_slot_atts(
    entries: Seq<(Seq<char>, SpecJsonValue)>,
    k: int,
    jslots: Seq<SpecJsonSlot>,
    acc: Seq<crate::skeleton::attachment::SpecAttachment>,
) -> Result<Seq<crate::skeleton::attachment::SpecAttachment>, SpinalError>
    decreases entries.len() - k,
{
    if k < 0 || k >= entries.len() {
        Ok(acc)
    } else {
        match sp_json_attachment(entries[k].1, entries[k].0, jslots) {
            Err(e) => Err(e),
            Ok(a) => sp_skin_slot_atts(entries, k + 1, jslots, acc.push(a)),
        }
    }
}

/// The skin slots one skin's attachment map denotes: each key is a slot
/// name, each value the attachments stored under it.
pub open spec fn sp_skin_slots_json(
    entries: Seq<(Seq<char>, SpecJsonValue)>,
    k: int,
    jslots: Seq<SpecJsonSlot>,
    acc: Seq<crate::skeleton::skin::SpecSkinSlot>,
) -> Result<Seq<crate::skeleton::skin::SpecSkinSlot>, crate::SpecSpinalError>
    decreases entries.len() - k,
{
    if k < 0 || k >= entries.len() {
        Ok(acc)
    } else {
        match sp_find_slot_id(jslots, entries[k].0, 0) {
            None => Err(crate::SpecSpinalError::Reference(crate::SpecReferenceError::SlotName(entries[k].0))),
            Some(si) => match entries[k].1 {
                SpecJsonValue::Obj(atts) => match sp_skin_slot_atts(atts, 0, jslots, Seq::empty()) {
                    Err(e) => Err(e@),
                    Ok(attachments) => sp_skin_slots_json(
                        entries,
                        k + 1,
                        jslots,
                        acc.push(crate::skeleton::skin::SpecSkinSlot { slot: si as usize, attachments }),
                    ),
                },
                _ => Err(crate::SpecSpinalError::Decode(
                    DecodeError { offset: 0, field: Field::SkinSlot, kind: DecodeKind::BadValue },
                )),
            },
        }
    }
}

/// The skin a skin node denotes: its name, and its attachments resolved
/// against the slot list.
pub open spec fn sp_json_skin(v: SpecJsonValue, jslots: Seq<SpecJsonSlot>) -> Result<
    crate::skeleton::skin::SpecSkin,
    crate::SpecSpinalError,
> {
    match sp_req_str(v, "name"@, Field::SkinName) {
        Err(e) => Err(e@),
        Ok(name) => {
            let atts = match spec_obj_get(v, "attachments"@) {
                None => Ok(Seq::<crate::skeleton::skin::SpecSkinSlot>::empty()),
                Some(SpecJsonValue::Obj(entries)) => sp_skin_slots_json(entries, 0, jslots, Seq::empty()),
                Some(_) => Err(
                    crate::SpecSpinalError::Decode(
                        DecodeError { offset: 0, field: Field::SkinSlot, kind: DecodeKind::BadValue },
                    ),
                ),
            };
            match atts {
                Err(e) => Err(e),
                Ok(slots) => Ok(
                    crate::skeleton::skin::SpecSkin {
                        name,
                        bones: Seq::empty(),
                        ik: Seq::empty(),
                        transforms: Seq::empty(),
                        paths: Seq::empty(),
                        slots,
                    },
                ),
            }
        },
    }
}

/// Decode one skin node.
pub fn json_skin(v: &JsonValue, lookup: &Lookup) -> (r: Result<crate::skeleton::Skin, SpinalError>)
    ensures
        r matches Ok(s) ==> sp_json_skin(v@, lookup.slots.deep_view()) == Ok::<
            crate::skeleton::skin::SpecSkin,
            crate::SpecSpinalError,
        >(s@),
        r matches Err(e) ==> sp_json_skin(v@, lookup.slots.deep_view()) == Err::<
            crate::skeleton::skin::SpecSkin,
            crate::SpecSpinalError,
        >(e@),
{
    let name = match req_str(v, "name", Field::SkinName) {
        Ok(x) => x,
        Err(e) => {
            return Err(e);
        },
    };
    let mut slots: Vec<crate::skeleton::SkinSlot> = Vec::new();
    proof {
        assert(slots.deep_view() =~= Seq::<crate::skeleton::skin::SpecSkinSlot>::empty());
    }
    match obj_get(v, "attachments") {
        None => {},
        Some(node) => {
            let entries = match as_obj(node) {
                Some(o) => o,
                None => {
                    return Err(SpinalError::Decode(
                        DecodeError { offset: 0, field: Field::SkinSlot, kind: DecodeKind::BadValue },
                    ));
                },
            };
            let n = entries.len();
            let mut k: usize = 0;
            while k < n
                invariant
                    k <= n,
                    n == entries@.len(),
                    sp_req_str(v@, "name"@, Field::SkinName) matches Ok(nm) && nm == name@,
                    spec_obj_get(v@, "attachments"@) matches Some(nd) && (nd matches SpecJsonValue::Obj(oo) && oo
                        == spec_obj_entries(entries@)),
                    sp_skin_slots_json(spec_obj_entries(entries@), 0, lookup.slots.deep_view(), Seq::empty())
                        == sp_skin_slots_json(
                        spec_obj_entries(entries@),
                        k as int,
                        lookup.slots.deep_view(),
                        slots.deep_view(),
                    ),
                decreases n - k,
            {
                let ghost acc = slots.deep_view();
                proof {
                    reveal_with_fuel(sp_skin_slots_json, 2);
                }
                let slot_name = &entries[k].0;
                let si = match lookup.slot_name_to_id(slot_name) {
                    Ok(si) => si,
                    Err(e) => {
                        return Err(e);
                    },
                };
                let atts_node = &entries[k].1;
                let att_entries = match as_obj(atts_node) {
                    Some(o) => o,
                    None => {
                        return Err(SpinalError::Decode(
                            DecodeError { offset: 0, field: Field::SkinSlot, kind: DecodeKind::BadValue },
                        ));
                    },
                };
                let an = att_entries.len();
                let mut attachments: Vec<crate::skeleton::Attachment> = Vec::new();
                let mut a: usize = 0;
                proof {
                    assert(attachments.deep_view() =~= Seq::<
                        crate::skeleton::attachment::SpecAttachment,
                    >::empty());
                }
                while a < an
                    invariant
                        a <= an,
                        an == att_entries@.len(),
                        k < entries@.len(),
                        n == entries@.len(),
                        sp_req_str(v@, "name"@, Field::SkinName) matches Ok(nm) && nm == name@,
                        spec_obj_get(v@, "attachments"@) matches Some(nd) && (nd matches SpecJsonValue::Obj(oo2)
                            && oo2 == spec_obj_entries(entries@)),
                        sp_find_slot_id(lookup.slots.deep_view(), entries@[k as int].0@, 0) == Some(si as int),
                        spec_obj_entries(entries@)[k as int].1 matches SpecJsonValue::Obj(oo3) && oo3
                            == spec_obj_entries(att_entries@),
                        sp_skin_slots_json(spec_obj_entries(entries@), 0, lookup.slots.deep_view(), Seq::empty())
                            == sp_skin_slots_json(
                            spec_obj_entries(entries@),
                            k as int,
                            lookup.slots.deep_view(),
                            slots.deep_view(),
                        ),
                        sp_skin_slot_atts(
                            spec_obj_entries(att_entries@),
                            0,
                            lookup.slots.deep_view(),
                            Seq::empty(),
                        ) == sp_skin_slot_atts(
                            spec_obj_entries(att_entries@),
                            a as int,
                            lookup.slots.deep_view(),
                            attachments.deep_view(),
                        ),
                    decreases an - a,
                {
                    let ghost aacc = attachments.deep_view();
                    proof {
                        reveal_with_fuel(sp_skin_slot_atts, 2);
                    }
                    let att = match json_attachment(&att_entries[a].1, &att_entries[a].0, lookup) {
                        Ok(att) => att,
                        Err(e) => {
                            return Err(e);
                        },
                    };
                    let ghost av = att@;
                    attachments.push(att);
                    proof {
                        assert(attachments.deep_view() =~= aacc.push(av));
                    }
                    a = a + 1;
                }
                proof {
                    reveal_with_fuel(sp_skin_slot_atts, 2);
                }
                let ss = crate::skeleton::SkinSlot { slot: si, attachments };
                let ghost ssv = ss@;
                slots.push(ss);
                proof {
                    assert(slots.deep_view() =~= acc.push(ssv));
                }
                k = k + 1;
            }
            proof {
                reveal_with_fuel(sp_skin_slots_json, 2);
            }
        },
    }
    Ok(
        crate::skeleton::Skin {
            name,
            bones: Vec::new(),
            ik: Vec::new(),
            transforms: Vec::new(),
            paths: Vec::new(),
            slots,
        },
    )
}

/// The skins a skins array denotes.
pub open spec fn sp_json_skins_rec(
    a: Seq<SpecJsonValue>,
    k: int,
    jslots: Seq<SpecJsonSlot>,
    acc: Seq<crate::skeleton::skin::SpecSkin>,
) -> Result<Seq<crate::skeleton::skin::SpecSkin>, crate::SpecSpinalError>
    decreases a.len() - k,
{
    if k < 0 || k >= a.len() {
        Ok(acc)
    } else {
        match sp_json_skin(a[k], jslots) {
            Err(e) => Err(e),
            Ok(s) => sp_json_skins_rec(a, k + 1, jslots, acc.push(s)),
        }
    }
}

fn json_skins(items: &Vec<JsonValue>, lookup: &Lookup) -> (r: Result<Vec<crate::skeleton::Skin>, SpinalError>)
    ensures
        r matches Ok(v) ==> sp_json_skins_rec(spec_arr_items(items@), 0, lookup.slots.deep_view(), Seq::empty())
            == Ok::<Seq<crate::skeleton::skin::SpecSkin>, crate::SpecSpinalError>(v.deep_view()),
        r matches Err(e) ==> sp_json_skins_rec(spec_arr_items(items@), 0, lookup.slots.deep_view(), Seq::empty())
            == Err::<Seq<crate::skeleton::skin::SpecSkin>, crate::SpecSpinalError>(e@),
{
    let n = items.len();
    let mut out: Vec<crate::skeleton::Skin> = Vec::new();
    let mut k: usize = 0;
    proof {
        assert(out.deep_view() =~= Seq::<crate::skeleton::skin::SpecSkin>::empty());
    }
    while k < n
        invariant
            k <= n,
            n == items@.len(),
            sp_json_skins_rec(spec_arr_items(items@), 0, lookup.slots.deep_view(), Seq::empty())
                == sp_json_skins_rec(
                spec_arr_items(items@),
                k as int,
                lookup.slots.deep_view(),
                out.deep_view(),
            ),
        decreases n - k,
    {
        let ghost acc = out.deep_view();
        proof {
            reveal_with_fuel(sp_json_skins_rec, 2);
        }
        let sk = match json_skin(&items[k], lookup) {
            Ok(sk) => sk,
            Err(e) => {
                return Err(e);
            },
        };
        let ghost sv = sk@;
        out.push(sk);
        proof {
            assert(out.deep_view() =~= acc.push(sv));
        }
        k = k + 1;
    }
    proof {
        reveal_with_fuel(sp_json_skins_rec, 2);
    }
    Ok(out)
}

/// The skeleton a whole JSON document denotes: the info block under the
/// `skeleton` key, then bones, slots, IK constraints and skins, every name
/// reference resolved to an index, and the bone list well formed.
#[verifier::opaque]
pub open spec fn sp_json_skeleton(b: Seq<u8>) -> Result<crate::skeleton::SpecSkeleton, crate::SpecSpinalError> {
    match json_tree_of(b) {
        None => Err(
            crate::SpecSpinalError::Decode(
                DecodeError { offset: 0, field: Field::Document, kind: DecodeKind::BadValue },
            ),
        ),
        Some(tree) => match spec_obj_get(tree, "skeleton"@) {
            None => Err(sp_jerr(Field::Document)@),
            Some(info_node) => match sp_json_info(info_node) {
                Err(e) => Err(e@),
                Ok(jinfo) => match spec_obj_get(tree, "bones"@) {
                    Some(SpecJsonValue::Arr(ba)) => match sp_json_bones_rec(ba, 0, Seq::empty()) {
                        Err(e) => Err(e@),
                        Ok(jbones) => match spec_obj_get(tree, "slots"@) {
                            Some(SpecJsonValue::Arr(sa)) => match sp_json_slots_rec(sa, 0, Seq::empty()) {
                                Err(e) => Err(e@),
                                Ok(jslots) => match spec_obj_get(tree, "ik"@) {
                                    Some(SpecJsonValue::Arr(ia)) => match sp_json_iks_rec(ia, 0, Seq::empty()) {
                                        Err(e) => Err(e@),
                                        Ok(jiks) => match spec_obj_get(tree, "skins"@) {
                                            Some(SpecJsonValue::Arr(ka)) => match sp_resolve_bones(
                                                jbones,
                                                0,
                                                Seq::empty(),
                                            ) {
                                                Err(e) => Err(e),
                                                Ok(bones) => match sp_resolve_slots(
                                                    jslots,
                                                    jbones,
                                                    0,
                                                    Seq::empty(),
                                                ) {
                                                    Err(e) => Err(e),
                                                    Ok(slots) => match sp_resolve_iks(
                                                        jiks,
                                                        jbones,
                                                        0,
                                                        Seq::empty(),
                                                    ) {
                                                        Err(e) => Err(e),
                                                        Ok(ik) => match sp_json_skins_rec(
                                                            ka,
                                                            0,
                                                            jslots,
                                                            Seq::empty(),
                                                        ) {
                                                            Err(e) => Err(e),
                                                            Ok(skins) => Ok(
                                                                crate::skeleton::SpecSkeleton {
                                                                    info: spec_json_info_to_info(jinfo),
                                                                    strings: Seq::empty(),
                                                                    bones,
                                                                    bones_tree: crate::skeleton::spec_bones_tree(
                                                                        bones,
                                                                        bones.len() as int,
                                                                    ),
                                                                    slots,
                                                                    ik,
                                                                    transforms: Seq::empty(),
                                                                    paths: Seq::empty(),
                                                                    skins,
                                                                    events: Seq::empty(),
                                                                    animations: Seq::empty(),
                                                                },
                                                            ),
                                                        },
                                                    },
                                                },
                                            },
                                            _ => Err(sp_jerr(Field::Document)@),
                                        },
                                    },
                                    _ => Err(sp_jerr(Field::Document)@),
                                },
                            },
                            _ => Err(sp_jerr(Field::Document)@),
                        },
                    },
                    _ => Err(sp_jerr(Field::Document)@),
                },
            },
        },
    }
}

/// Decode a whole JSON skeleton document.
pub fn parse(b: &[u8]) -> (r: Result<crate::skeleton::Skeleton, SpinalError>)
    ensures
        r matches Ok(s) ==> sp_json_skeleton(b@) == Ok::<crate::skeleton::SpecSkeleton, crate::SpecSpinalError>(s@)
            && crate::skeleton::spec_bones_well_formed(s@.bones),
        r matches Err(e) ==> sp_json_skeleton(b@) == Err::<crate::skeleton::SpecSkeleton, crate::SpecSpinalError>(e@),
{
    proof {
        reveal(sp_json_skeleton);
    }
    let tree = match parse_json_tree(b) {
        Some(t) => t,
        None => {
            return Err(SpinalError::Decode(
                DecodeError { offset: 0, field: Field::Document, kind: DecodeKind::BadValue },
            ));
        },
    };
    let info_node = match obj_get(&tree, "skeleton") {
        Some(x) => x,
        None => {
            return Err(jerr(Field::Document));
        },
    };
    let jinfo = match JsonInfo::decode(info_node) {
        Ok(x) => x,
        Err(e) => {
            return Err(e);
        },
    };
    let ba = match obj_get(&tree, "bones") {
        Some(node) => match as_arr(node) {
            Some(a) => a,
            None => {
                return Err(jerr(Field::Document));
            },
        },
        None => {
            return Err(jerr(Field::Document));
        },
    };
    let jbones = match json_bones(ba) {
        Ok(x) => x,
        Err(e) => {
            return Err(e);
        },
    };
    let sa = match obj_get(&tree, "slots") {
        Some(node) => match as_arr(node) {
            Some(a) => a,
            None => {
                return Err(jerr(Field::Document));
            },
        },
        None => {
            return Err(jerr(Field::Document));
        },
    };
    let jslots = match json_slots(sa) {
        Ok(x) => x,
        Err(e) => {
            return Err(e);
        },
    };
    let ia = match obj_get(&tree, "ik") {
        Some(node) => match as_arr(node) {
            Some(a) => a,
            None => {
                return Err(jerr(Field::Document));
            },
        },
        None => {
            return Err(jerr(Field::Document));
        },
    };
    let jiks = match json_iks(ia) {
        Ok(x) => x,
        Err(e) => {
            return Err(e);
        },
    };
    let ka = match obj_get(&tree, "skins") {
        Some(node) => match as_arr(node) {
            Some(a) => a,
            None => {
                return Err(jerr(Field::Document));
            },
        },
        None => {
            return Err(jerr(Field::Document));
        },
    };
    let lookup = Lookup::new(&jbones, &jslots);
    let bones = match resolve_bones(&jbones) {
        Ok(x) => x,
        Err(e) => {
            return Err(e);
        },
    };
    let slots = match resolve_slots(&jslots, &jbones) {
        Ok(x) => x,
        Err(e) => {
            return Err(e);
        },
    };
    let ik = match resolve_iks(&jiks, &lookup) {
        Ok(x) => x,
        Err(e) => {
            return Err(e);
        },
    };
    let skins = match json_skins(ka, &lookup) {
        Ok(x) => x,
        Err(e) => {
            return Err(e);
        },
    };
    let mut skeleton = crate::skeleton::Skeleton {
        info: jinfo.to_info(),
        strings: Vec::new(),
        bones,
        bones_tree: Vec::new(),
        slots,
        ik,
        transforms: Vec::new(),
        paths: Vec::new(),
        skins,
        events: Vec::new(),
        animations: Vec::new(),
    };
    let tree2 = skeleton.build_bones_tree();
    skeleton.bones_tree = tree2;
    proof {
        lemma_sp_resolve_bones_well_formed(jbones.deep_view(), 0, Seq::empty());
        assert(skeleton@.strings =~= Seq::<Seq<char>>::empty());
        assert(skeleton@.transforms =~= Seq::<crate::skeleton::transform::SpecTransform>::empty());
        assert(skeleton@.paths =~= Seq::<crate::skeleton::path::SpecPath>::empty());
        assert(skeleton@.events =~= Seq::<crate::skeleton::event::SpecEvent>::empty());
        assert(skeleton@.animations =~= Seq::<crate::skeleton::animation::SpecAnimation>::empty());
    }
    Ok(skeleton)
}

} // verus!
