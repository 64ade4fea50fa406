//! The set of item identifiers that a run skips without building.

use vstd::prelude::*;
use std::collections::HashSet;

verus! {

broadcast use vstd::std_specs::hash::group_hash_axioms;

/// A fixed set of item identifiers. It is filled when it is made and only
/// read afterwards.
pub struct IgnoreSet {
    ids: HashSet<u64>,
}

impl View for IgnoreSet {
    type V = Set<u64>;

    closed spec fn view(&self) -> Set<u64> {
        self.ids@
    }
}

impl IgnoreSet {
    /// The set that ignores nothing.
    pub fn empty() -> (set: IgnoreSet)
        ensures
            set@ == Set::<u64>::empty(),
    {
        IgnoreSet { ids: HashSet::new() }
    }

    /// The set of the identifiers listed in `ids`.
    pub fn from_ids(ids: &Vec<u64>) -> (set: IgnoreSet)
        ensures
            set@ == ids@.to_set(),
    {
        let mut set: HashSet<u64> = HashSet::new();
        let mut i: usize = 0;
        while i < ids.len()
            invariant
                i <= ids.len(),
                set@ == ids@.take(i as int).to_set(),
            decreases ids.len() - i,
        {
            set.insert(ids[i]);
            assert(ids@.take(i + 1) =~= ids@.take(i as int).push(ids@[i as int]));
            proof {
                ids@.take(i as int).lemma_push_to_set_commute(ids@[i as int]);
            }
            i = i + 1;
        }
        assert(ids@.take(i as int) =~= ids@);
        IgnoreSet { ids: set }
    }

    /// Whether the set holds `id`.
    pub fn contains(&self, id: u64) -> (found: bool)
        ensures
            found == self@.contains(id),
    {
        self.ids.contains(&id)
    }
}

/// The identifiers of the two feed items that are known to be prose rather
/// than code.
pub open spec fn known_prose_ids() -> Set<u64> {
    set![574310847759040512u64, 574285011484020736u64]
}

/// The compiled-in ignore list: the items known to hold prose, not code.
pub fn get_ignore_list() -> (set: IgnoreSet)
    ensures
        set@ == known_prose_ids(),
{
    let mut ids: HashSet<u64> = HashSet::new();
    ids.insert(574310847759040512);
    ids.insert(574285011484020736);
    IgnoreSet { ids }
}

} // verus!
