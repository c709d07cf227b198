//! Generic functions and a generic point type.

use core::cmp::Ordering;
use vstd::prelude::*;
use vstd::std_specs::cmp::PartialOrdSpec;

verus! {

/// The largest element of a non-empty list of integers: an element of the
/// list that no element exceeds.
pub fn largest_i32(list: &Vec<i32>) -> (r: i32)
    requires
        list@.len() > 0,
    ensures
        list@.contains(r),
        forall|i: int| 0 <= i < list@.len() ==> list@[i] <= r,
{
    let mut best: i32 = list[0];
    let mut i: usize = 1;
    while i < list.len()
        invariant
            1 <= i <= list@.len(),
            list@.contains(best),
            forall|j: int| 0 <= j < i ==> list@[j] <= best,
        decreases list@.len() - i,
    {
        if list[i] > best {
            best = list[i];
        }
        i = i + 1;
    }
    best
}

/// The largest element of a non-empty list of characters.
pub fn largest_char(list: &Vec<char>) -> (r: char)
    requires
        list@.len() > 0,
    ensures
        list@.contains(r),
        forall|i: int| 0 <= i < list@.len() ==> list@[i] <= r,
{
    let mut best: char = list[0];
    let mut i: usize = 1;
    while i < list.len()
        invariant
            1 <= i <= list@.len(),
            list@.contains(best),
            forall|j: int| 0 <= j < i ==> list@[j] <= best,
        decreases list@.len() - i,
    {
        if list[i] > best {
            best = list[i];
        }
        i = i + 1;
    }
    best
}

/// The generic form: an element of the list that no element strictly exceeds
/// under the type's own order. The caller vouches that the order behaves as
/// its specification says and that strict "greater" is transitive, as it is
/// for the integer and character types this is used with.
pub fn largest<T: PartialOrd + Copy>(list: &Vec<T>) -> (r: T)
    requires
        list@.len() > 0,
        T::obeys_partial_cmp_spec(),
        forall|a: T| #[trigger] a.partial_cmp_spec(&a) != Some(Ordering::Greater),
        forall|a: T, b: T, c: T|
            a.partial_cmp_spec(&b) == Some(Ordering::Greater) && b.partial_cmp_spec(&c) == Some(
                Ordering::Greater,
            ) ==> a.partial_cmp_spec(&c) == Some(Ordering::Greater),
    ensures
        list@.contains(r),
        forall|i: int|
            0 <= i < list@.len() ==> (#[trigger] list@[i]).partial_cmp_spec(&r) != Some(
                Ordering::Greater,
            ),
{
    let mut best: T = list[0];
    let mut i: usize = 1;
    while i < list.len()
        invariant
            1 <= i <= list@.len(),
            T::obeys_partial_cmp_spec(),
            forall|a: T| #[trigger] a.partial_cmp_spec(&a) != Some(Ordering::Greater),
            forall|a: T, b: T, c: T|
                a.partial_cmp_spec(&b) == Some(Ordering::Greater) && b.partial_cmp_spec(&c) == Some(
                    Ordering::Greater,
                ) ==> a.partial_cmp_spec(&c) == Some(Ordering::Greater),
            list@.contains(best),
            forall|j: int|
                0 <= j < i ==> (#[trigger] list@[j]).partial_cmp_spec(&best) != Some(
                    Ordering::Greater,
                ),
        decreases list@.len() - i,
    {
        if list[i] > best {
            best = list[i];
        }
        i = i + 1;
    }
    best
}

/// A point whose two coordinates may have different types.
#[derive(Debug)]
pub struct Point<X1, Y1> {
    pub x: X1,
    pub y: Y1,
}

impl<X1, Y1> Point<X1, Y1> {
    /// The first coordinate.
    pub fn x(&self) -> (r: &X1)
        ensures
            *r == self.x,
    {
        &self.x
    }

    /// The second coordinate.
    pub fn y(&self) -> (r: &Y1)
        ensures
            *r == self.y,
    {
        &self.y
    }

    /// A point made of this point's first coordinate and the other point's
    /// second coordinate.
    pub fn mixup<X2, Y2>(self, other: Point<X2, Y2>) -> (r: Point<X1, Y2>)
        ensures
            r.x == self.x,
            r.y == other.y,
    {
        Point { x: self.x, y: other.y }
    }
}

} // verus!
