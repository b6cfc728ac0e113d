//! The part of a JSON document that the vmess parser reads: the top-level
//! value, and for each member of a top-level object or array, its kind.
use vstd::prelude::*;

verus! {

/// A member of the top-level value, reduced to what the parser reads of it.
pub enum JsonLeaf {
    Null,
    Str(String),
    /// A number, with what `serde_json::Number::as_u64` gives for it.
    Number(Option<u64>),
    /// A boolean, an array or an object.
    Other,
}

/// The top-level value of a JSON document.
pub enum JsonTop {
    /// An object's members, each key once.
    Object(Vec<(String, JsonLeaf)>),
    Array(Vec<JsonLeaf>),
    /// Null, a boolean, a number or a string.
    Other,
}

pub enum JsonLeafV {
    Null,
    Str(Seq<char>),
    Number(Option<u64>),
    Other,
}

pub enum JsonTopV {
    Object(Seq<(Seq<char>, JsonLeafV)>),
    Array(Seq<JsonLeafV>),
    Other,
}

impl View for JsonLeaf {
    type V = JsonLeafV;

    open spec fn view(&self) -> JsonLeafV {
        match self {
            JsonLeaf::Null => JsonLeafV::Null,
            JsonLeaf::Str(s) => JsonLeafV::Str(s@),
            JsonLeaf::Number(n) => JsonLeafV::Number(*n),
            JsonLeaf::Other => JsonLeafV::Other,
        }
    }
}

impl View for JsonTop {
    type V = JsonTopV;

    open spec fn view(&self) -> JsonTopV {
        match self {
            JsonTop::Object(m) => JsonTopV::Object(
                m@.map_values(|e: (String, JsonLeaf)| (e.0@, e.1@)),
            ),
            JsonTop::Array(a) => JsonTopV::Array(a@.map_values(|e: JsonLeaf| e@)),
            JsonTop::Other => JsonTopV::Other,
        }
    }
}

} // verus!
