//! Patches: high-level descriptions of the net effect of a batch of mutations.
use crate::ids::ObjId;
use crate::mark::Mark;
use crate::path::{PathElement, Prop};
use crate::value::Value;
use std::collections::HashMap;
use vstd::prelude::*;

verus! {

/// A change to the document, located by the path from the root to the changed object.
#[derive(Clone, Debug, PartialEq)]
pub struct Patch {
    pub path: Vec<PathElement>,
    pub action: PatchAction,
}

/// What a patch does within the object it names.
#[derive(Clone, Debug, PartialEq)]
pub enum PatchAction {
    Put { obj: ObjId, prop: Prop, value: Value },
    Insert { obj: ObjId, index: u64, values: Vec<Value> },
    SpliceText { obj: ObjId, index: u64, value: String, marks: HashMap<String, Value> },
    JoinBlock { index: u64 },
    SplitBlock { index: u64 },
    UpdateBlock,
    Increment { obj: ObjId, prop: Prop, value: i64 },
    Conflict { obj: ObjId, prop: Prop },
    DeleteMap { obj: ObjId, key: String },
    DeleteSeq { obj: ObjId, index: u64, length: u64 },
    Marks { obj: ObjId, marks: Vec<Mark> },
}

/// A patch action as mathematical values: object identifiers as bytes, indices as
/// integers, runs of values and text as sequences.
pub enum ActionModel {
    Put { obj: Seq<u8>, prop: Prop, value: Value },
    Insert { obj: Seq<u8>, index: int, values: Seq<Value> },
    SpliceText { obj: Seq<u8>, index: int, text: Seq<char>, marks: Map<String, Value> },
    JoinBlock { index: int },
    SplitBlock { index: int },
    UpdateBlock,
    Increment { obj: Seq<u8>, prop: Prop, delta: int },
    Conflict { obj: Seq<u8>, prop: Prop },
    DeleteMap { obj: Seq<u8>, key: Seq<char> },
    DeleteSeq { obj: Seq<u8>, index: int, length: int },
    Marks { obj: Seq<u8>, marks: Seq<Mark> },
}

/// A patch as mathematical values.
pub struct PatchModel {
    pub path: Seq<PathElement>,
    pub action: ActionModel,
}

impl View for PatchAction {
    type V = ActionModel;

    open spec fn view(&self) -> ActionModel {
        match self {
            PatchAction::Put { obj, prop, value } => ActionModel::Put {
                obj: obj@,
                prop: *prop,
                value: *value,
            },
            PatchAction::Insert { obj, index, values } => ActionModel::Insert {
                obj: obj@,
                index: *index as int,
                values: values@,
            },
            PatchAction::SpliceText { obj, index, value, marks } => ActionModel::SpliceText {
                obj: obj@,
                index: *index as int,
                text: value@,
                marks: marks@,
            },
            PatchAction::JoinBlock { index } => ActionModel::JoinBlock { index: *index as int },
            PatchAction::SplitBlock { index } => ActionModel::SplitBlock { index: *index as int },
            PatchAction::UpdateBlock => ActionModel::UpdateBlock,
            PatchAction::Increment { obj, prop, value } => ActionModel::Increment {
                obj: obj@,
                prop: *prop,
                delta: *value as int,
            },
            PatchAction::Conflict { obj, prop } => ActionModel::Conflict { obj: obj@, prop: *prop },
            PatchAction::DeleteMap { obj, key } => ActionModel::DeleteMap { obj: obj@, key: key@ },
            PatchAction::DeleteSeq { obj, index, length } => ActionModel::DeleteSeq {
                obj: obj@,
                index: *index as int,
                length: *length as int,
            },
            PatchAction::Marks { obj, marks } => ActionModel::Marks { obj: obj@, marks: marks@ },
        }
    }
}

impl View for Patch {
    type V = PatchModel;

    open spec fn view(&self) -> PatchModel {
        PatchModel { path: self.path@, action: self.action@ }
    }
}

} // verus!
