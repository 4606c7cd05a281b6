//! Labels and optional texts.

use vstd::prelude::*;

verus! {

/// What a dumped kind starts with when the parser inserted the node.
pub const MISSING_PREFIX: &'static str = "MISSING ";

/// The model of an optional string.
pub open spec fn optional_text(text: Option<String>) -> Option<Seq<char>> {
    match text {
        Some(s) => Some(s@),
        None => None,
    }
}

/// The label under which a node of the given kind is dumped: the kind's
/// name, behind the missing-node prefix where the parser inserted the node.
pub open spec fn kind_label_spec(kind: Seq<char>, is_missing: bool) -> Seq<char> {
    if is_missing {
        MISSING_PREFIX@ + kind
    } else {
        kind
    }
}

/// Computes the label under which a node of the given kind is dumped.
pub fn kind_label(kind: &str, is_missing: bool) -> (label: String)
    ensures
        label@ == kind_label_spec(kind@, is_missing),
{
    if is_missing {
        String::from_str(MISSING_PREFIX).concat(kind)
    } else {
        String::from_str(kind)
    }
}

} // verus!
