//! Small arithmetic and greeting helpers, together with a guarded guess value.

use vstd::prelude::*;
use vstd::string::StringExecFns;

verus! {

/// Sum of two counters.
pub fn add(left: usize, right: usize) -> (r: usize)
    requires
        left + right <= usize::MAX,
    ensures
        r == left + right,
{
    left + right
}

/// The greeting shown to a visitor; it always names the visitor.
pub fn greeting(name: &str) -> (r: String)
    ensures
        r@ == "Hello, "@ + name@ + "!"@,
{
    let mut s = String::from_str("Hello, ");
    s.append(name);
    s.append("!");
    s
}

/// An axis-aligned rectangle with integer sides.
#[derive(Debug)]
pub struct Rectangle {
    pub width: u32,
    pub height: u32,
}

impl Rectangle {
    /// Whether `other` fits strictly inside `self` on both axes.
    pub fn can_hold(&self, other: &Rectangle) -> (r: bool)
        ensures
            r == (self.width > other.width && self.height > other.height),
    {
        self.width > other.width && self.height > other.height
    }
}

/// A guess that is known to lie between 1 and 100.
pub struct Guess {
    value: i32,
}

impl Guess {
    pub closed spec fn spec_value(&self) -> i32 {
        self.value
    }

    /// An out-of-range value is a caller error, so callers must stay inside
    /// the range.
    pub fn new(value: i32) -> (r: Guess)
        requires
            1 <= value <= 100,
        ensures
            r.spec_value() == value,
    {
        Guess { value }
    }

    pub fn value(&self) -> (r: i32)
        ensures
            r == self.spec_value(),
    {
        self.value
    }
}

} // verus!
