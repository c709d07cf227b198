//! Function pointers as values.

use vstd::prelude::*;

verus! {

/// One more than the argument.
pub fn add_one(x: i32) -> (r: i32)
    requires
        x < i32::MAX,
    ensures
        r == x + 1,
{
    x + 1
}

/// Applies `f` to `arg` twice and adds both results. The caller vouches that
/// the call is allowed and that any two of its results fit in the sum.
pub fn do_twice(f: impl Fn(i32) -> i32, arg: i32) -> (r: i32)
    requires
        call_requires(f, (arg,)),
        forall|y1: i32, y2: i32|
            call_ensures(f, (arg,), y1) && call_ensures(f, (arg,), y2) ==> i32::MIN <= y1 + y2
                <= i32::MAX,
    ensures
        exists|y1: i32, y2: i32|
            call_ensures(f, (arg,), y1) && call_ensures(f, (arg,), y2) && r == y1 + y2,
{
    let a = f(arg);
    let b = f(arg);
    a + b
}

} // verus!
