//! Path resolution against the document: the chain of containers from the root down to
//! an object.
use crate::ids::ObjId;
use crate::path::{PathElement, Prop};
use automerge as am;
use automerge::ReadDoc;
use vstd::prelude::*;

verus! {

/// Declares automerge's auto-committing document, which answers path queries.
#[verifier::external_type_specification]
#[verifier::external_body]
pub struct ExAutoCommit(am::AutoCommit);

/// Relies on automerge's `ObjId::try_from(&[u8])`, `ReadDoc::parents` and
/// `Parents::visible_path`: the root-to-object path of `obj` as it stands in `doc`, or
/// `None` when the bytes name no object, the object is unknown, or one of its ancestors
/// is no longer visible. Each step's object and property are converted as they come.
#[verifier::external_body]
pub(crate) fn resolve_path(doc: &am::AutoCommit, obj: &ObjId) -> Option<Vec<PathElement>> {
    let id = am::ObjId::try_from(obj.0.as_slice()).ok()?;
    let steps = doc.parents(id).ok()?.visible_path()?;
    Some(steps.into_iter().map(|(o, p)| PathElement {
        obj: ObjId(o.to_bytes()),
        prop: match p {
            am::Prop::Map(key) => Prop::Key { value: key },
            am::Prop::Seq(i) => Prop::Index { value: i as u64 },
        },
    }).collect())
}

} // verus!
