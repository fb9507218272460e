//! Values stored in a document: scalars and references to nested objects.
use crate::ids::ObjId;
use vstd::prelude::*;

verus! {

/// The kind of a container object.
#[derive(Clone, Copy, Debug, PartialEq, Eq, Structural)]
pub enum ObjType {
    Mapping,
    List,
    Text,
}

/// A primitive value.
///
/// A 64-bit float is held as its IEEE 754 bit pattern: nothing here computes with it,
/// and the bit pattern keeps equality exact.
#[derive(Clone, Debug, PartialEq)]
pub enum ScalarValue {
    Bytes { value: Vec<u8> },
    String { value: String },
    Int { value: i64 },
    Uint { value: u64 },
    F64 { bits: u64 },
    Counter { value: i64 },
    Timestamp { value: i64 },
    Boolean { value: bool },
    Unknown { type_code: u8, data: Vec<u8> },
    Null,
}

/// A value in the document: either a nested object or a scalar.
#[derive(Clone, Debug, PartialEq)]
pub enum Value {
    Object { typ: ObjType, id: ObjId },
    Scalar { value: ScalarValue },
}

/// The unit in which text indices and lengths are counted.
#[derive(Clone, Copy, Debug, PartialEq, Eq, Structural)]
pub enum TextEncoding {
    UnicodeCodePoint,
    Utf8CodeUnit,
    Utf16CodeUnit,
    GraphemeCluster,
}

impl TextEncoding {
    /// The human-readable name of the encoding.
    pub open spec fn label(self) -> Seq<char> {
        match self {
            TextEncoding::UnicodeCodePoint => "Unicode Scalar"@,
            TextEncoding::Utf8CodeUnit => "UTF-8"@,
            TextEncoding::Utf16CodeUnit => "UTF-16"@,
            TextEncoding::GraphemeCluster => "Grapheme Cluster"@,
        }
    }

    /// The human-readable name of the encoding, as a string.
    pub fn to_string(&self) -> (r: String)
        ensures
            r@ == self.label(),
    {
        match self {
            TextEncoding::UnicodeCodePoint => String::from_str("Unicode Scalar"),
            TextEncoding::Utf8CodeUnit => String::from_str("UTF-8"),
            TextEncoding::Utf16CodeUnit => String::from_str("UTF-16"),
            TextEncoding::GraphemeCluster => String::from_str("Grapheme Cluster"),
        }
    }
}

} // verus!
