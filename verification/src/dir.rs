//! Naming rules for locating the search-index artifact inside a
//! documentation root directory.

use vstd::prelude::*;

use crate::strutil::str_starts_with;

verus! {

/// Whether a directory entry's name is a search-index artifact name.
pub open spec fn is_search_index_name_spec(name: Seq<char>) -> bool {
    name.len() >= "search-index"@.len() && name.subrange(0, "search-index"@.len() as int)
        == "search-index"@
}

/// Whether a directory entry's name is a search-index artifact name: the
/// artifact is the first entry whose name starts with `search-index`.
pub fn is_search_index_name(name: &str) -> (r: bool)
    ensures
        r == is_search_index_name_spec(name@),
{
    str_starts_with(name, "search-index")
}

/// Discovery of the target directory is left to the external metadata
/// query; nothing of it is computed here.
pub fn find_target() {
}

} // verus!
