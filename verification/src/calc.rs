//! A collection of utilities to make performing certain calculations more
//! convenient.

use vstd::prelude::*;

verus! {

/// Adds right to left.
pub fn add(left: usize, right: usize) -> (r: usize)
    requires
        left + right <= usize::MAX,
    ensures
        r == left + right,
{
    left + right
}

} // verus!
