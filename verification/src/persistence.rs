//! Save-file conventions that do not touch the database itself.

use vstd::prelude::*;

verus! {

/// The order in which a save file stores a route's two ends: the smaller
/// id first.
pub open spec fn stored_pair(a: u128, b: u128) -> (u128, u128) {
    if a <= b {
        (a, b)
    } else {
        (b, a)
    }
}

/// A route's two ends in stored order. Ids are written in their
/// hyphenated hexadecimal form, whose text order is the order of the
/// numbers, so the pair is ordered by the numbers themselves.
pub fn ordered_pair(a: u128, b: u128) -> (r: (u128, u128))
    ensures
        r == stored_pair(a, b),
{
    if a <= b {
        (a, b)
    } else {
        (b, a)
    }
}

/// A route is stored the same way whichever end it is given from, with
/// the smaller id first and both ends kept.
pub proof fn law_stored_pair_symmetric(a: u128, b: u128)
    ensures
        stored_pair(a, b) == stored_pair(b, a),
        stored_pair(a, b).0 <= stored_pair(a, b).1,
        (stored_pair(a, b).0 == a && stored_pair(a, b).1 == b) || (stored_pair(a, b).0 == b
            && stored_pair(a, b).1 == a),
{
}

} // verus!
