//! Leftovers from the language-basics walkthrough that return a value.

use vstd::prelude::*;

verus! {

/// The trailing expression is the function's value.
pub fn func_with_ret_value() -> (r: i32)
    ensures
        r == 99999i32 % 55555i32,
{
    99999 % 55555
}

} // verus!
