use vstd::prelude::*;

use crate::string_util::prefix_right_bound::bound_view;
use crate::string_util::prefix_right_bound::prefix_right_bound;
use crate::string_util::prefix_right_bound::right_bound;

verus! {

/// Converts a prefix to the range that covers all strings starting with it.
///
/// The range starts at the prefix itself and ends before its right bound.
/// Where the prefix has no right bound, the range is open to the right.
pub fn prefix_to_range(prefix: &str) -> (range: (String, Option<String>))
    ensures
        range.0@ == prefix@,
        bound_view(range.1) == right_bound(prefix@),
{
    (prefix.to_owned(), prefix_right_bound(prefix))
}

} // verus!
