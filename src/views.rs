//! Mathematical views of the string-bearing values that contracts speak of.

use vstd::prelude::*;

verus! {

pub open spec fn opt_view(p: Option<String>) -> Option<Seq<char>> {
    match p {
        Some(s) => Some(s@),
        None => None,
    }
}

pub open spec fn string_views(s: Seq<String>) -> Seq<Seq<char>> {
    s.map_values(|e: String| e@)
}

} // verus!
