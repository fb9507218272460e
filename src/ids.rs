//! Opaque byte identifiers of documents, objects, actors and changes.
use automerge as am;
use vstd::prelude::*;

verus! {

/// Identifier of a container in the document tree, as its serialized bytes.
#[derive(Clone, Debug, PartialEq, Eq, Hash)]
pub struct ObjId(pub Vec<u8>);

impl View for ObjId {
    type V = Seq<u8>;

    open spec fn view(&self) -> Seq<u8> {
        self.0@
    }
}

/// Identifier of an actor (a replica that makes changes), as its bytes.
#[derive(Clone, Debug, PartialEq, Eq, Hash)]
pub struct ActorId(pub Vec<u8>);

/// Hash of a change, as its bytes (32 of them for a hash the document produced).
#[derive(Clone, Debug, PartialEq, Eq, Hash)]
pub struct ChangeHash(pub Vec<u8>);

/// A stable reference to a position in a sequence, as its serialized bytes.
#[derive(Clone, Debug, PartialEq, Eq, Hash)]
pub struct Cursor(pub Vec<u8>);

impl View for ActorId {
    type V = Seq<u8>;

    open spec fn view(&self) -> Seq<u8> {
        self.0@
    }
}

impl View for ChangeHash {
    type V = Seq<u8>;

    open spec fn view(&self) -> Seq<u8> {
        self.0@
    }
}

impl View for Cursor {
    type V = Seq<u8>;

    open spec fn view(&self) -> Seq<u8> {
        self.0@
    }
}

/// A position in a sequence: given by a cursor or by an index.
#[derive(Clone, Debug, PartialEq)]
pub enum Position {
    Cursor { position: Cursor },
    Index { position: u64 },
}

/// Relies on `automerge::ObjId::to_bytes`: the root identifier serializes to the single
/// byte `0` (version tag 0, type tag 0, no data).
#[verifier::external_body]
fn root_id_bytes() -> (r: Vec<u8>)
    ensures
        r@ == seq![0u8],
{
    am::ROOT.to_bytes()
}

/// The identifier of the document's root map.
pub fn root() -> (r: ObjId)
    ensures
        r@ == seq![0u8],
{
    ObjId(root_id_bytes())
}

impl ObjId {
    /// Whether two identifiers name the same object (byte equality).
    pub fn same_as(&self, other: &ObjId) -> (r: bool)
        ensures
            r == (self@ == other@),
    {
        let a = &self.0;
        let b = &other.0;
        if a.len() != b.len() {
            return false;
        }
        let mut i: usize = 0;
        while i < a.len()
            invariant
                a@ == self@,
                b@ == other@,
                a.len() == b.len(),
                i <= a.len(),
                forall|j: int| 0 <= j < i ==> a@[j] == b@[j],
            decreases a.len() - i,
        {
            if a[i] != b[i] {
                assert(a@[i as int] != b@[i as int]);
                return false;
            }
            i = i + 1;
        }
        assert(a@ =~= b@);
        true
    }
}

} // verus!
