//! Checks that an operation addresses an object of the kind it works on.
use crate::ids::ObjId;
use crate::value::ObjType;
use automerge as am;
use automerge::ReadDoc;
use vstd::prelude::*;

verus! {

/// Declares automerge's general error.
#[verifier::external_type_specification]
#[verifier::external_body]
pub struct ExAutomergeError(am::AutomergeError);

/// Why an operation on the document failed.
#[derive(Debug)]
pub enum DocError {
    WrongObjectType,
    Internal(am::AutomergeError),
}

/// Relies on automerge's `ObjId::try_from(&[u8])` and `ReadDoc::object_type`: the kind
/// of the object that `obj` names in `doc`, a table counting as a map; automerge's error
/// when the bytes are no object identifier or name no object of `doc`.
#[verifier::external_body]
fn object_type_of(doc: &am::AutoCommit, obj: &ObjId) -> Result<ObjType, am::AutomergeError> {
    let id = am::ObjId::try_from(obj.0.as_slice()).map_err(
        |e| am::AutomergeError::InvalidObjIdFormat(e.to_string()),
    )?;
    Ok(
        match doc.object_type(id)? {
            am::ObjType::Map => ObjType::Mapping,
            am::ObjType::Table => ObjType::Mapping,
            am::ObjType::List => ObjType::List,
            am::ObjType::Text => ObjType::Text,
        },
    )
}

/// The outcome of checking an object's kind: `found` is what the document said of the
/// object, `expected` the kind the operation works on. A lookup error is passed on; a
/// kind other than the expected one is `WrongObjectType`.
pub open spec fn type_check(found: Result<ObjType, am::AutomergeError>, expected: ObjType) -> Result<
    (),
    DocError,
> {
    match found {
        Err(e) => Err(DocError::Internal(e)),
        Ok(t) => if t == expected {
            Ok(())
        } else {
            Err(DocError::WrongObjectType)
        },
    }
}

/// Checks what the document said of an object's kind against the kind expected.
pub fn check_object_type(found: Result<ObjType, am::AutomergeError>, expected: ObjType) -> (r:
    Result<(), DocError>)
    ensures
        r == type_check(found, expected),
{
    match found {
        Err(e) => Err(DocError::Internal(e)),
        Ok(t) => if t == expected {
            Ok(())
        } else {
            Err(DocError::WrongObjectType)
        },
    }
}

/// Fails unless `obj` names a map of `doc`: the result is the check of whatever the
/// document says of `obj`.
pub fn assert_map(doc: &am::AutoCommit, obj: &ObjId) -> (r: Result<(), DocError>)
    ensures
        exists|found: Result<ObjType, am::AutomergeError>| r == #[trigger] type_check(found, ObjType::Mapping),
{
    check_object_type(object_type_of(doc, obj), ObjType::Mapping)
}

/// Fails unless `obj` names a list of `doc`: the result is the check of whatever the
/// document says of `obj`.
pub fn assert_list(doc: &am::AutoCommit, obj: &ObjId) -> (r: Result<(), DocError>)
    ensures
        exists|found: Result<ObjType, am::AutomergeError>| r == #[trigger] type_check(found, ObjType::List),
{
    check_object_type(object_type_of(doc, obj), ObjType::List)
}

/// Fails unless `obj` names a text of `doc`: the result is the check of whatever the
/// document says of `obj`.
pub fn assert_text(doc: &am::AutoCommit, obj: &ObjId) -> (r: Result<(), DocError>)
    ensures
        exists|found: Result<ObjType, am::AutomergeError>| r == #[trigger] type_check(found, ObjType::Text),
{
    check_object_type(object_type_of(doc, obj), ObjType::Text)
}

} // verus!
