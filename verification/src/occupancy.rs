//! The grid occupancy model.
//!
//! The set of occupied integer grid cells, with average O(1) membership
//! tests. Cells are packed injectively into `u64` hash keys; the
//! mathematical view of the structure is the set of occupied cells
//! themselves. The set only grows: there is no removal operation.

use vstd::prelude::*;
use std::collections::HashSet;

verus! {

broadcast use vstd::std_specs::hash::group_hash_axioms;

/// Grid coordinates stay below this limit on every axis, so that a cell
/// packs injectively into a single `u64` key.
pub const CELL_LIMIT: u32 = 0x20_0000;

/// A cell whose coordinates a hash key can carry.
pub open spec fn valid_cell(p: (u32, u32, u32)) -> bool {
    p.0 < CELL_LIMIT && p.1 < CELL_LIMIT && p.2 < CELL_LIMIT
}

/// The packing of a cell into one hash key, as a mathematical integer:
/// a base-`CELL_LIMIT` numeral with digits x, y, z.
pub open spec fn cell_key(p: (u32, u32, u32)) -> int {
    p.0 + p.1 * CELL_LIMIT + p.2 * CELL_LIMIT * CELL_LIMIT
}

/// The packing is injective on valid cells: distinct cells get distinct
/// keys, so one hash entry stands for exactly one cell.
pub proof fn lemma_cell_key_injective(a: (u32, u32, u32), b: (u32, u32, u32))
    requires
        valid_cell(a),
        valid_cell(b),
        cell_key(a) == cell_key(b),
    ensures
        a == b,
{
}

/// The set of occupied grid cells.
pub struct Occupancy {
    cells: HashSet<u64>,
    model: Ghost<Set<(u32, u32, u32)>>,
}

impl View for Occupancy {
    type V = Set<(u32, u32, u32)>;

    closed spec fn view(&self) -> Set<(u32, u32, u32)> {
        self.model@
    }
}

impl Occupancy {
    /// Consistency between the hash keys and the set of cells they stand
    /// for: the view is a finite set of valid cells, and a valid cell is in
    /// the view exactly when its key is in the hash set.
    pub closed spec fn wf(&self) -> bool {
        &&& self.model@.finite()
        &&& forall|p: (u32, u32, u32)| self.model@.contains(p) ==> valid_cell(p)
        &&& forall|p: (u32, u32, u32)|
            valid_cell(p) ==> (self.model@.contains(p) <==> self.cells@.contains(
                cell_key(p) as u64,
            ))
    }

    /// An empty occupancy set.
    pub fn new() -> (r: Occupancy)
        ensures
            r.wf(),
            r@ == Set::<(u32, u32, u32)>::empty(),
    {
        Occupancy { cells: HashSet::new(), model: Ghost(Set::empty()) }
    }

    /// Whether `position` was previously marked occupied.
    pub fn is_occupied(&self, position: (u32, u32, u32)) -> (b: bool)
        requires
            self.wf(),
        ensures
            b == self@.contains(position),
    {
        if position.0 < CELL_LIMIT && position.1 < CELL_LIMIT && position.2 < CELL_LIMIT {
            let key = Self::key_of(position);
            let found = self.cells.contains(&key);
            proof {
                assert(self@.contains(position) <==> self.cells@.contains(
                    cell_key(position) as u64,
                ));
            }
            found
        } else {
            proof {
                if self@.contains(position) {
                    assert(valid_cell(position));
                }
            }
            false
        }
    }

    /// Marks `position` occupied. The insert is idempotent: marking a cell
    /// twice leaves the set as after the first mark.
    pub fn mark_occupied(&mut self, position: (u32, u32, u32))
        requires
            old(self).wf(),
            valid_cell(position),
        ensures
            final(self).wf(),
            final(self)@ == old(self)@.insert(position),
    {
        let key = Self::key_of(position);
        self.cells.insert(key);
        proof {
            self.model@ = self.model@.insert(position);
            assert forall|p: (u32, u32, u32)| valid_cell(p) implies (self.model@.contains(p)
                <==> self.cells@.contains(cell_key(p) as u64)) by {
                if p != position && cell_key(p) == cell_key(position) {
                    lemma_cell_key_injective(p, position);
                }
            }
        }
    }

    /// The hash key of a valid cell.
    fn key_of(position: (u32, u32, u32)) -> (key: u64)
        requires
            valid_cell(position),
        ensures
            key as int == cell_key(position),
    {
        let limit = CELL_LIMIT as u64;
        position.0 as u64 + position.1 as u64 * limit + position.2 as u64 * limit * limit
    }
}

} // verus!
