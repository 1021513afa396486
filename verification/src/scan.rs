//! First-match search over a sequence.
//!
//! Both the codec fuzzy search and the pool matching algorithms pick the
//! earliest element of an ordered collection that satisfies a predicate; this
//! module gives that notion one definition.

use vstd::prelude::*;

verus! {

/// The index of the first element of `s` at or after `i` satisfying `p`, or
/// `None` if no such element exists.
pub open spec fn first_from<T>(s: Seq<T>, p: spec_fn(T) -> bool, i: int) -> Option<int>
    decreases s.len() - i,
{
    if i < 0 || i >= s.len() {
        None
    } else if p(s[i]) {
        Some(i)
    } else {
        first_from(s, p, i + 1)
    }
}

/// The index of the first element of `s` satisfying `p`, or `None` if no
/// element does.
pub open spec fn first_index<T>(s: Seq<T>, p: spec_fn(T) -> bool) -> Option<int> {
    first_from(s, p, 0)
}

} // verus!
