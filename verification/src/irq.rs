//! Model of the vector-level interrupt controller.
//!
//! The controller is an externally owned collaborator: the driver never owns
//! it, it only writes mask and unmask bits for the vector of its own timer
//! instance. The model holds one unmasked bit per vector line.

use vstd::pervasive::VecAdditionalExecFns;
use vstd::prelude::*;

verus! {

/// Interrupt controller with one unmasked bit per vector line; its view is
/// the sequence of those bits, indexed by vector.
pub struct InterruptController {
    /// `lines[v]` is true when vector `v` is unmasked at the controller.
    pub lines: Vec<bool>,
}

impl View for InterruptController {
    type V = Seq<bool>;

    open spec fn view(&self) -> Seq<bool> {
        self.lines@
    }
}

impl InterruptController {
    /// A controller with `line_count` vector lines, all masked.
    pub fn new(line_count: u16) -> (c: InterruptController)
        ensures
            c@.len() == line_count,
            forall|v: int| 0 <= v < line_count ==> !c@[v],
    {
        let mut lines: Vec<bool> = Vec::new();
        let mut i: u16 = 0;
        while i < line_count
            invariant
                i <= line_count,
                lines@.len() == i,
                forall|v: int| 0 <= v < i ==> !lines@[v],
            decreases line_count - i,
        {
            lines.push(false);
            i = i + 1;
        }
        InterruptController { lines }
    }

    /// Number of vector lines.
    pub fn line_count(&self) -> (n: usize)
        ensures
            n == self@.len(),
    {
        self.lines.len()
    }

    /// Unmask `vector` at the controller.
    pub fn unmask(&mut self, vector: u16)
        requires
            vector < old(self)@.len(),
        ensures
            final(self)@ == old(self)@.update(vector as int, true),
    {
        self.lines.set(vector as usize, true);
    }

    /// Mask `vector` at the controller.
    pub fn mask(&mut self, vector: u16)
        requires
            vector < old(self)@.len(),
        ensures
            final(self)@ == old(self)@.update(vector as int, false),
    {
        self.lines.set(vector as usize, false);
    }

    /// Whether `vector` is unmasked at the controller.
    pub fn is_unmasked(&self, vector: u16) -> (r: bool)
        requires
            vector < self@.len(),
        ensures
            r == self@[vector as int],
    {
        self.lines[vector as usize]
    }
}

} // verus!
