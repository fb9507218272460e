//! Change observation for a replicated document: captures the effects of mutations,
//! coalesces runs of sequence edits, resolves where each change happened, and hands out
//! an ordered list of patches.
use vstd::prelude::*;

pub mod change;
pub mod doc;
pub mod ids;
pub mod lemmas;
pub mod mark;
pub mod observer;
pub mod patches;
pub mod path;
mod resolve;
pub mod span;
mod text;
pub mod value;

pub use change::{
    decode_change, valid_change, Change, ChangeSet, DecodeChangeError, DecodeChangeSetError,
};
pub use doc::{assert_list, assert_map, assert_text, check_object_type, DocError};
pub use ids::{root, ActorId, ChangeHash, Cursor, ObjId, Position};
pub use mark::{ExpandMark, KeyValue, Mark};
pub use observer::Observer;
pub use patches::{Patch, PatchAction};
pub use path::{PathElement, Prop};
pub use span::{AMValue, Block, HydratedListItem, HydratedText, MarkSet, Span};
pub use value::{ObjType, ScalarValue, TextEncoding, Value};
