//! Rich-text marks.
use crate::value::{ScalarValue, Value};
use vstd::prelude::*;

verus! {

/// How a mark grows when text is inserted at its edges.
#[derive(Clone, Copy, Debug, PartialEq, Eq, Structural)]
pub enum ExpandMark {
    Before,
    After,
    Neither,
    Both,
}

/// A named mark with a value, over the range `start..end` of a text.
#[derive(Clone, Debug, PartialEq)]
pub struct Mark {
    pub start: u64,
    pub end: u64,
    pub name: String,
    pub value: ScalarValue,
}

/// A key and its value.
#[derive(Clone, Debug, PartialEq)]
pub struct KeyValue {
    pub key: String,
    pub value: Value,
}

impl Mark {
    /// The marks active at one position: each named mark of `mark_set` becomes a mark
    /// that starts and ends at `index`, in the order given.
    pub fn from_markset(mark_set: Vec<(String, ScalarValue)>, index: u64) -> (r: Vec<Mark>)
        ensures
            r@.len() == mark_set@.len(),
            forall|i: int|
                0 <= i < r@.len() ==> #[trigger] r@[i] == (Mark {
                    start: index,
                    end: index,
                    name: mark_set@[i].0,
                    value: mark_set@[i].1,
                }),
    {
        let mut result: Vec<Mark> = Vec::new();
        for entry in it: mark_set.into_iter()
            invariant
                it.seq() == mark_set@,
                result@.len() == it.index(),
                forall|i: int|
                    0 <= i < it.index() ==> #[trigger] result@[i] == (Mark {
                        start: index,
                        end: index,
                        name: mark_set@[i].0,
                        value: mark_set@[i].1,
                    }),
        {
            let (name, value) = entry;
            result.push(Mark { start: index, end: index, name, value });
        }
        result
    }
}

} // verus!
