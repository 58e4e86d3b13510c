//! The scratch mask: one flag per grid cell, set once the cell is scratched.

use vstd::prelude::*;

use crate::geometry::AREA;

verus! {

/// Which cells of the grid have been scratched, index-aligned with the grid.
pub struct ScratchMask {
    cells: Vec<bool>,
}

impl View for ScratchMask {
    type V = Seq<bool>;

    closed spec fn view(&self) -> Seq<bool> {
        self.cells@
    }
}

impl ScratchMask {
    /// A mask holds exactly one flag per grid cell.
    pub open spec fn wf(&self) -> bool {
        self@.len() == AREA
    }

    /// A mask with no cell scratched.
    pub fn new() -> (r: ScratchMask)
        ensures
            r.wf(),
            r@ == Seq::new(AREA as nat, |i: int| false),
    {
        let mut cells: Vec<bool> = Vec::new();
        let mut k: usize = 0;
        while k < AREA
            invariant
                k <= AREA,
                cells@ == Seq::new(k as nat, |i: int| false),
            decreases AREA - k,
        {
            cells.push(false);
            k = k + 1;
        }
        ScratchMask { cells }
    }

    /// Marks cell `index` as scratched; scratching it again changes nothing.
    pub fn set(&mut self, index: usize)
        requires
            old(self).wf(),
            index < AREA,
        ensures
            final(self).wf(),
            final(self)@ == old(self)@.update(index as int, true),
    {
        self.cells.set(index, true);
    }

    /// Whether cell `index` has been scratched.
    pub fn get(&self, index: usize) -> (r: bool)
        requires
            self.wf(),
            index < AREA,
        ensures
            r == self@[index as int],
    {
        self.cells[index]
    }

    /// The flags of all cells, in grid order.
    pub fn all(&self) -> (r: &Vec<bool>)
        ensures
            r@ == self@,
    {
        &self.cells
    }
}

} // verus!
