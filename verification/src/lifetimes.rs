//! References that outlive their owners: an excerpt borrowed from a novel and
//! the longer of two borrowed strings.

use vstd::prelude::*;
use vstd::string::StringSliceAdditionalSpecFns;

verus! {

/// A part borrowed from a longer text; it cannot outlive that text.
pub struct ImportantExcerpt<'a> {
    pub part: &'a str,
}

impl<'a> ImportantExcerpt<'a> {
    /// How important the excerpt is.
    pub fn level(&self) -> (r: i32)
        ensures
            r == 3,
    {
        3
    }
}

/// The longer of the two strings, measured in bytes; ties go to the second.
pub fn longest<'a>(x: &'a str, y: &'a str) -> (r: &'a str)
    requires
        x.spec_bytes().len() <= usize::MAX,
        y.spec_bytes().len() <= usize::MAX,
    ensures
        x.spec_bytes().len() > y.spec_bytes().len() ==> r@ == x@,
        x.spec_bytes().len() <= y.spec_bytes().len() ==> r@ == y@,
{
    if x.len() > y.len() {
        x
    } else {
        y
    }
}

} // verus!
