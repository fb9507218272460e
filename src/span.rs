//! Rich text as spans of text and block markers, and fully materialized values.
use crate::value::ScalarValue;
use std::collections::HashMap;
use vstd::prelude::*;

verus! {

/// A piece of rich text.
#[derive(Debug, PartialEq)]
pub enum Span {
    /// A run of text and the marks active over all of it.
    Text { text: String, marks: Option<MarkSet> },
    /// A block marker and its attributes.
    Block { value: HashMap<String, AMValue> },
}

/// The marks active at a place in a text, by name.
#[derive(Clone, Debug, PartialEq)]
pub struct MarkSet {
    pub marks: HashMap<String, ScalarValue>,
}

/// A fully materialized value: nested objects are given by their contents.
#[derive(Debug, PartialEq)]
pub enum AMValue {
    Mapping { value: HashMap<String, AMValue> },
    Scalar { value: ScalarValue },
    List { value: Vec<HydratedListItem> },
    Text { value: HydratedText },
}

/// An element of a materialized list.
#[derive(Debug, PartialEq)]
pub struct HydratedListItem {
    pub value: AMValue,
    pub marks: HashMap<String, ScalarValue>,
    pub conflict: bool,
}

/// A materialized text.
#[derive(Clone, Debug, PartialEq)]
pub struct HydratedText {
    pub value: String,
    pub marks: HashMap<String, ScalarValue>,
}

/// A block of rich text: its type name and the names of its enclosing blocks.
#[derive(Clone, Debug, PartialEq)]
pub struct Block {
    pub name: String,
    pub parents: Vec<String>,
}

} // verus!
