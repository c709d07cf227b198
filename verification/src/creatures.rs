//! A pie eaten at the sea floor. The pie is held by value here; callers that
//! share one pie among several creatures do so behind their own
//! reference-counted cell, so the slice bookkeeping itself is verified.

use vstd::prelude::*;

verus! {

/// A pie with a number of slices left.
pub struct Pie {
    pub slices: u8,
}

impl Pie {
    /// One slice goes to the named eater.
    #[allow(unused_variables)]
    pub fn eat_slice(&mut self, name: &str)
        requires
            old(self).slices >= 1,
        ensures
            final(self).slices == old(self).slices - 1,
    {
        self.slices = self.slices - 1;
    }
}

/// A named creature with a pie of its own.
pub struct SeaCreature {
    pub name: String,
    pub pie: Pie,
}

impl SeaCreature {
    /// Take a bite: one slice fewer.
    pub fn eat(&mut self)
        requires
            old(self).pie.slices >= 1,
        ensures
            final(self).pie.slices == old(self).pie.slices - 1,
            final(self).name == old(self).name,
    {
        self.pie.eat_slice(self.name.as_str());
    }
}

} // verus!
