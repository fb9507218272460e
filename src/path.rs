//! Properties within containers and root-relative paths.
use crate::ids::ObjId;
use vstd::prelude::*;

verus! {

/// A property of a container: a key of a map or an index into a sequence.
#[derive(Clone, Debug, PartialEq)]
pub enum Prop {
    Key { value: String },
    Index { value: u64 },
}

/// One step of a path: the container and the property within it.
#[derive(Clone, Debug, PartialEq)]
pub struct PathElement {
    pub prop: Prop,
    pub obj: ObjId,
}

impl PathElement {
    pub fn new(prop: Prop, obj: ObjId) -> (r: PathElement)
        ensures
            r == (PathElement { prop, obj }),
    {
        PathElement { obj, prop }
    }
}

} // verus!
