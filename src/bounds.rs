//! Ranges of positions given as a pair of bounds, and the positions they
//! select in a sequence of a given length.

use vstd::prelude::*;

use std::ops::{Bound, RangeBounds};

verus! {

#[verifier::external_type_specification]
#[verifier::reject_recursive_types(T)]
pub struct ExBound<T>(std::ops::Bound<T>);

/// Relies on the `Clone` impl of `Bound`, which `derive` wrote; recording
/// operations that carry bounds copies them through it.
pub assume_specification<T: Clone>[ <std::ops::Bound<T> as Clone>::clone ](b: &std::ops::Bound<T>) -> std::ops::Bound<T>;

/// The first position that `start` selects.
pub open spec fn start_of(start: Bound<usize>) -> int {
    match start {
        Bound::Included(s) => s as int,
        Bound::Excluded(s) => s + 1,
        Bound::Unbounded => 0,
    }
}

/// The position just past the last one that `end` selects, in a sequence of
/// `len` items.
pub open spec fn end_of(end: Bound<usize>, len: nat) -> int {
    match end {
        Bound::Included(e) => e + 1,
        Bound::Excluded(e) => e as int,
        Bound::Unbounded => len as int,
    }
}

/// The bounds select a run of positions inside a sequence of `len` items.
pub open spec fn selects_within(start: Bound<usize>, end: Bound<usize>, len: nat) -> bool {
    start_of(start) <= end_of(end, len) <= len
}

/// Relies on `RangeBounds::start_bound`: the start of `range`, copied out.
#[verifier::external_body]
pub(crate) fn start_bound_of<R: RangeBounds<usize>>(range: &R) -> Bound<usize> {
    range.start_bound().cloned()
}

/// Relies on `RangeBounds::end_bound`: the end of `range`, copied out.
#[verifier::external_body]
pub(crate) fn end_bound_of<R: RangeBounds<usize>>(range: &R) -> Bound<usize> {
    range.end_bound().cloned()
}

/// The two bounds of `range`.
pub(crate) fn bounds_of<R: RangeBounds<usize>>(range: &R) -> (Bound<usize>, Bound<usize>) {
    (start_bound_of(range), end_bound_of(range))
}

/// The positions `[s, e)` that the bounds select in a sequence of `len`
/// items, or `None` where they reach outside it or end before they start.
pub fn resolve(start: &Bound<usize>, end: &Bound<usize>, len: usize) -> (r: Option<(usize, usize)>)
    ensures
        r is Some <==> selects_within(*start, *end, len as nat),
        r matches Some((s, e)) ==> (s == start_of(*start) && e == end_of(*end, len as nat)),
{
    let s: usize = match start {
        Bound::Included(s) => *s,
        Bound::Excluded(s) => {
            if *s == usize::MAX {
                return None;
            }
            *s + 1
        },
        Bound::Unbounded => 0,
    };
    let e: usize = match end {
        Bound::Included(e) => {
            if *e == usize::MAX {
                return None;
            }
            *e + 1
        },
        Bound::Excluded(e) => *e,
        Bound::Unbounded => len,
    };
    if s <= e && e <= len {
        Some((s, e))
    } else {
        None
    }
}

} // verus!
