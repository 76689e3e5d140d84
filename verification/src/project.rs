//! A loaded project: a skeleton together with its texture atlas.
use vstd::prelude::*;
use crate::atlas::Atlas;
use crate::skeleton::Skeleton;

verus! {

/// A skeleton paired with the atlas its attachments are looked up in.
#[derive(Debug, Clone, PartialEq)]
pub struct Project {
    pub skeleton: Skeleton,
    pub atlas: Atlas,
}

impl Project {
    pub fn new(skeleton: Skeleton, atlas: Atlas) -> (r: Project)
        ensures
            r.skeleton == skeleton,
            r.atlas == atlas,
    {
        Project { skeleton, atlas }
    }
}

} // verus!
