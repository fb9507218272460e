//! Changes: the unit in which a document's history is recorded and exchanged.
use crate::ids::{ActorId, ChangeHash};
use automerge as am;
use vstd::prelude::*;

verus! {

/// Declares automerge's error for bytes that do not hold a change.
#[verifier::external_type_specification]
#[verifier::external_body]
pub struct ExLoadChangeError(am::LoadChangeError);

/// A decoded change: who made it, when, on top of which changes, and its encoding.
#[derive(Clone, Debug, PartialEq)]
pub struct Change {
    pub actor_id: ActorId,
    pub message: Option<String>,
    pub deps: Vec<ChangeHash>,
    pub timestamp: i64,
    pub bytes: Vec<u8>,
    pub hash: ChangeHash,
}

/// Why bytes could not be decoded as a change.
#[derive(Debug)]
pub enum DecodeChangeError {
    Internal(am::LoadChangeError),
}

/// Whether `bytes` hold exactly one well-formed change, as automerge's change decoder
/// judges it.
pub uninterp spec fn change_decodes(bytes: Seq<u8>) -> bool;

/// Relies on automerge's `Change::try_from(&[u8])`, which decodes one change chunk and
/// rejects trailing bytes, and on the decoded change's accessors for its fields. A change
/// hash is an array of 32 bytes.
#[verifier::external_body]
fn load_change(bytes: &[u8]) -> (r: Result<Change, am::LoadChangeError>)
    ensures
        r is Ok == change_decodes(bytes@),
        r matches Ok(c) ==> c.hash@.len() == 32,
{
    let mut c = am::Change::try_from(bytes)?;
    Ok(Change {
        actor_id: ActorId(c.actor_id().to_bytes().to_vec()),
        message: c.message().cloned(),
        deps: c.deps().iter().map(|h| ChangeHash(h.0.to_vec())).collect(),
        timestamp: c.timestamp(),
        hash: ChangeHash(c.hash().0.to_vec()),
        bytes: c.bytes().into_owned(),
    })
}

/// Decodes one change from its encoding.
pub fn decode_change(bytes: Vec<u8>) -> (r: Result<Change, DecodeChangeError>)
    ensures
        r is Ok == change_decodes(bytes@),
        r matches Ok(c) ==> c.hash@.len() == 32,
{
    match load_change(bytes.as_slice()) {
        Ok(c) => Ok(c),
        Err(e) => Err(DecodeChangeError::Internal(e)),
    }
}

/// Whether `bytes` hold exactly one well-formed change.
pub fn valid_change(bytes: Vec<u8>) -> (r: bool)
    ensures
        r == change_decodes(bytes@),
{
    let x = decode_change(bytes);
    x.is_ok()
}

/// A set of changes.
pub struct ChangeSet(Vec<Change>);

/// Why bytes could not be decoded as a set of changes.
#[derive(Debug)]
pub enum DecodeChangeSetError {
    Internal(am::LoadChangeError),
}

impl ChangeSet {
    /// The empty set.
    pub fn new() -> (r: ChangeSet)
        ensures
            r.len() == 0,
    {
        ChangeSet(Vec::new())
    }

    /// The number of changes in the set.
    pub closed spec fn len(&self) -> nat {
        self.0@.len()
    }

    /// The number of changes in the set.
    pub fn count(&self) -> (r: usize)
        ensures
            r == self.len(),
    {
        self.0.len()
    }

    /// Reading a set of changes from bytes is not supported yet: decoding succeeds and
    /// yields the empty set, whatever `bytes` hold.
    pub fn decode(bytes: Vec<u8>) -> (r: Result<ChangeSet, DecodeChangeSetError>)
        ensures
            r matches Ok(s) && s.len() == 0,
    {
        Ok(ChangeSet(Vec::new()))
    }
}

impl Default for ChangeSet {
    fn default() -> (r: ChangeSet)
        ensures
            r.len() == 0,
    {
        ChangeSet::new()
    }
}

} // verus!
