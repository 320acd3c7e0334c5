//! Strings as contracts see them: sequences of characters.

use vstd::prelude::*;

verus! {

/// The views of `strings`, in order.
pub open spec fn string_views(strings: Seq<String>) -> Seq<Seq<char>> {
    strings.map_values(|s: String| s@)
}

/// The view of a string that may be missing.
pub open spec fn optional_view(text: Option<String>) -> Option<Seq<char>> {
    match text {
        Some(text) => Some(text@),
        None => None,
    }
}

/// The view of a borrowed string that may be missing.
pub open spec fn optional_str_view(text: Option<&str>) -> Option<Seq<char>> {
    match text {
        Some(text) => Some(text@),
        None => None,
    }
}

} // verus!
