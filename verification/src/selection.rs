//! The set of selected positions and the sum over it.

use std::collections::HashSet;
use vstd::prelude::*;
use crate::record::{record_views, RecordStore, RecordView};

verus! {

/// The set after `index` is toggled: without it where it was a member, with
/// it where it was not.
pub open spec fn toggled(selection: Set<usize>, index: usize) -> Set<usize> {
    if selection.contains(index) {
        selection.remove(index)
    } else {
        selection.insert(index)
    }
}

/// Whether `position` is a member of `selection`.
pub open spec fn is_selected(selection: Set<usize>, position: int) -> bool {
    0 <= position <= usize::MAX && selection.contains(position as usize)
}

/// The sum of `value` over the records whose position is in `selection`.
/// A member of `selection` that is no position of `records` adds nothing.
pub open spec fn selected_sum(records: Seq<RecordView>, selection: Set<usize>) -> int
    decreases records.len(),
{
    if records.len() == 0 {
        0
    } else {
        let last = records.len() - 1;
        let rest = selected_sum(records.drop_last(), selection);
        if is_selected(selection, last) {
            rest + records[last].value
        } else {
            rest
        }
    }
}

/// Every member of `selection` is a position of a store of `len` records.
pub open spec fn within_store(selection: Set<usize>, len: nat) -> bool {
    forall|index: usize| selection.contains(index) ==> index < len
}

/// The positions of the records that are selected.
#[derive(Debug)]
pub struct SelectionSet {
    indices: HashSet<usize>,
}

impl View for SelectionSet {
    type V = Set<usize>;

    closed spec fn view(&self) -> Set<usize> {
        self.indices@
    }
}

impl SelectionSet {
    /// The empty selection.
    pub fn new() -> (selection: SelectionSet)
        ensures
            selection@ == Set::<usize>::empty(),
    {
        SelectionSet { indices: HashSet::new() }
    }

    /// The selection that holds the members of `indices`.
    pub fn from_indices(indices: HashSet<usize>) -> (selection: SelectionSet)
        ensures
            selection@ == indices@,
    {
        SelectionSet { indices }
    }

    /// The members, as a hash set.
    pub fn into_indices(self) -> (indices: HashSet<usize>)
        ensures
            indices@ == self@,
    {
        self.indices
    }

    /// Removes `index` if it is a member, inserts it if it is not. Every
    /// index is accepted.
    pub fn toggle(&mut self, index: usize)
        ensures
            final(self)@ == toggled(old(self)@, index),
    {
        broadcast use vstd::std_specs::hash::group_hash_axioms;

        if !self.indices.insert(index) {
            self.indices.remove(&index);
        }
    }

    /// Whether `index` is selected.
    pub fn contains(&self, index: usize) -> (member: bool)
        ensures
            member == self@.contains(index),
    {
        broadcast use vstd::std_specs::hash::group_hash_axioms;

        self.indices.contains(&index)
    }

    /// The sum of `value` over the selected records of `records`, computed
    /// anew at each call. The result is exact: it cannot overflow.
    pub fn sum(&self, records: &RecordStore) -> (total: i128)
        ensures
            total == selected_sum(records@, self@),
    {
        let all = records.records();
        let mut total: i128 = 0;
        let mut i: usize = 0;
        while i < all.len()
            invariant
                record_views(all@) == records@,
                i <= all.len(),
                total == selected_sum(records@.take(i as int), self@),
                -(i as int) * 0x8000_0000_0000_0000 <= total <= (i as int) * 0x7fff_ffff_ffff_ffff,
            decreases all.len() - i,
        {
            assert(records@.take(i + 1).drop_last() =~= records@.take(i as int));
            if self.contains(i) {
                total = total + all[i].value as i128;
            }
            i += 1;
        }
        assert(records@.take(i as int) =~= records@);
        total
    }
}

} // verus!
