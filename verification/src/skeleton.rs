//! The immutable skeleton data model: the result of decoding a binary or
//! JSON skeleton file.
use vstd::prelude::*;

pub mod animation;
pub mod attachment;
pub mod bone;
pub mod event;
pub mod ik;
pub mod info;
pub mod path;
pub mod skin;
pub mod slot;
pub mod transform;

pub use animation::{AnimatedBone, AnimatedSlot, Animation, Bezier, BoneKeyframe, BoneKeyframeData, Interpolation,
    SlotKeyframe, Timeline};
pub use attachment::{Attachment, AttachmentData, BoneInfluence, BoundingBoxAttachment, ClippingAttachment,
    LinkedMeshAttachment, MeshAttachment, PathAttachment, PointAttachment, RegionAttachment, Vertices};
pub use bone::{Bone, ParentTransform};
pub use event::Event;
pub use ik::Ik;
pub use info::Info;
pub use path::{Path, PathPositionMode, PathRotateMode, PathSpacingMode};
pub use skin::{Skin, SkinSlot};
pub use slot::{Blend, Slot};
pub use transform::Transform;

verus! {

/// A fully decoded skeleton. Never mutated after decoding; the pose engine
/// takes it by shared reference.
#[derive(Debug, Clone, PartialEq)]
pub struct Skeleton {
    pub info: Info,
    /// The string table used by indirect references in the binary format.
    pub strings: Vec<String>,
    /// All bones, the root first; every parent index points earlier in the list.
    pub bones: Vec<Bone>,
    /// Children of each bone, in order of definition; index is the parent.
    pub bones_tree: Vec<Vec<usize>>,
    pub slots: Vec<Slot>,
    pub ik: Vec<Ik>,
    pub transforms: Vec<Transform>,
    pub paths: Vec<Path>,
    /// The default skin first, then the named skins.
    pub skins: Vec<Skin>,
    pub events: Vec<Event>,
    pub animations: Vec<Animation>,
}

/// The mathematical value of a [`Skeleton`].
pub struct SpecSkeleton {
    pub info: info::SpecInfo,
    pub strings: Seq<Seq<char>>,
    pub bones: Seq<bone::SpecBone>,
    pub bones_tree: Seq<Seq<usize>>,
    pub slots: Seq<slot::SpecSlot>,
    pub ik: Seq<ik::SpecIk>,
    pub transforms: Seq<transform::SpecTransform>,
    pub paths: Seq<path::SpecPath>,
    pub skins: Seq<skin::SpecSkin>,
    pub events: Seq<event::SpecEvent>,
    pub animations: Seq<animation::SpecAnimation>,
}

impl View for Skeleton {
    type V = SpecSkeleton;

    open spec fn view(&self) -> SpecSkeleton {
        SpecSkeleton {
            info: self.info@,
            strings: self.strings.deep_view(),
            bones: self.bones.deep_view(),
            bones_tree: self.bones_tree.deep_view(),
            slots: self.slots.deep_view(),
            ik: self.ik.deep_view(),
            transforms: self.transforms.deep_view(),
            paths: self.paths.deep_view(),
            skins: self.skins.deep_view(),
            events: self.events.deep_view(),
            animations: self.animations.deep_view(),
        }
    }
}

/// Every non-root bone names a parent defined strictly earlier in the list,
/// and only the first bone is the root.
pub open spec fn spec_bones_well_formed(bones: Seq<bone::SpecBone>) -> bool {
    forall|i: int|
        0 <= i < bones.len() ==> (#[trigger] bones[i].parent matches Some(p) ==> i > 0 && p < i)
}

/// The adjacency lists of the bone tree: element `p` lists the children of
/// bone `p`, in order of definition, considering the first `n` bones.
pub open spec fn spec_bones_tree(bones: Seq<bone::SpecBone>, n: int) -> Seq<Seq<usize>>
    decreases n,
{
    if n <= 0 {
        Seq::new(bones.len(), |i: int| Seq::empty())
    } else {
        let prev = spec_bones_tree(bones, n - 1);
        match bones[n - 1].parent {
            Some(p) => {
                if 0 <= p < prev.len() {
                    prev.update(p as int, prev[p as int].push((n - 1) as usize))
                } else {
                    prev
                }
            },
            None => prev,
        }
    }
}

impl Skeleton {
    /// An empty skeleton, as decoding starts from.
    pub fn new() -> (r: Skeleton)
        ensures
            r.strings@ =~= Seq::<String>::empty(),
            r.bones@ =~= Seq::<Bone>::empty(),
            r.bones_tree@ =~= Seq::<Vec<usize>>::empty(),
            r.slots@ =~= Seq::<Slot>::empty(),
            r.ik@ =~= Seq::<Ik>::empty(),
            r.transforms@ =~= Seq::<Transform>::empty(),
            r.paths@ =~= Seq::<Path>::empty(),
            r.skins@ =~= Seq::<Skin>::empty(),
            r.events@ =~= Seq::<Event>::empty(),
            r.animations@ =~= Seq::<Animation>::empty(),
            r.info.spec_is_default(),
    {
        Skeleton {
            info: Info::empty(),
            strings: Vec::new(),
            bones: Vec::new(),
            bones_tree: Vec::new(),
            slots: Vec::new(),
            ik: Vec::new(),
            transforms: Vec::new(),
            paths: Vec::new(),
            skins: Vec::new(),
            events: Vec::new(),
            animations: Vec::new(),
        }
    }

    /// Build the parent-to-children adjacency lists from the bone list.
    pub fn build_bones_tree(&self) -> (r: Vec<Vec<usize>>)
        ensures
            r.deep_view() == spec_bones_tree(self.bones.deep_view(), self.bones@.len() as int),
            r@.len() == self.bones@.len(),
    {
        let n = self.bones.len();
        let mut tree: Vec<Vec<usize>> = Vec::new();
        let mut i: usize = 0;
        while i < n
            invariant
                i <= n,
                tree@.len() == i,
                forall|j: int| 0 <= j < i ==> #[trigger] tree@[j]@ =~= Seq::<usize>::empty(),
            decreases n - i,
        {
            tree.push(Vec::new());
            i = i + 1;
        }
        proof {
            assert(tree.deep_view() =~~= spec_bones_tree(self.bones.deep_view(), 0));
        }
        let mut k: usize = 0;
        while k < n
            invariant
                k <= n,
                n == self.bones@.len(),
                tree@.len() == n,
                tree.deep_view() == spec_bones_tree(self.bones.deep_view(), k as int),
            decreases n - k,
        {
            let ghost prev = tree.deep_view();
            match self.bones[k].parent {
                Some(p) => {
                    if p < n {
                        let mut lst = tree.remove(p);
                        lst.push(k);
                        tree.insert(p, lst);
                        proof {
                            assert(tree.deep_view() =~~= prev.update(p as int, prev[p as int].push(k)));
                        }
                    }
                },
                None => {},
            }
            k = k + 1;
        }
        tree
    }
}

} // verus!
