//! Filtering a shoe collection by size.

use vstd::prelude::*;

verus! {

/// A shoe with a size and a named style.
#[derive(Debug, PartialEq)]
pub struct Shoe {
    pub size: u32,
    pub style: String,
}

impl Clone for Shoe {
    fn clone(&self) -> (r: Self)
        ensures
            r == *self,
    {
        Shoe { size: self.size, style: self.style.clone() }
    }
}

/// Picks the shoes of the wanted size.
pub open spec fn of_size(shoe_size: u32) -> spec_fn(Shoe) -> bool {
    |s: Shoe| s.size == shoe_size
}

/// Keeps exactly the shoes of the wanted size, in their original order.
pub fn shoes_in_size(shoes: Vec<Shoe>, shoe_size: u32) -> (r: Vec<Shoe>)
    ensures
        r@ == shoes@.filter(of_size(shoe_size)),
{
    let mut result: Vec<Shoe> = Vec::new();
    let mut i: usize = 0;
    while i < shoes.len()
        invariant
            i <= shoes@.len(),
            result@ == shoes@.take(i as int).filter(of_size(shoe_size)),
        decreases shoes@.len() - i,
    {
        proof {
            reveal(Seq::filter);
            assert(shoes@.take(i + 1).drop_last() =~= shoes@.take(i as int));
            assert(shoes@.take(i + 1).last() == shoes@[i as int]);
        }
        if shoes[i].size == shoe_size {
            result.push(shoes[i].clone());
        }
        i = i + 1;
    }
    proof {
        assert(shoes@.take(i as int) =~= shoes@);
    }
    result
}

} // verus!
