//! Building a hash map from a list of entries.
use vstd::prelude::*;
use std::collections::HashMap;
use std::hash::Hash;
use vstd::std_specs::hash::obeys_key_model;

verus! {

broadcast use vstd::std_specs::hash::group_hash_axioms;

/// The map that inserting the entries of `s` one after the other, into an
/// empty map, yields (a later entry for a key replaces an earlier one).
pub open spec fn map_of_entries<K, V>(s: Seq<(K, V)>) -> Map<K, V>
    decreases s.len(),
{
    if s.len() == 0 {
        Map::empty()
    } else {
        map_of_entries(s.drop_last()).insert(s.last().0, s.last().1)
    }
}

/// A hash map holding the given entries, inserted in order, so that a later
/// entry for a key replaces an earlier one. The contract is stated for key
/// types that hash consistently with their equality, such as the integers.
pub fn hash_map<K: Eq + Hash, V>(entries: Vec<(K, V)>) -> (m: HashMap<K, V>)
    ensures
        obeys_key_model::<K>() ==> m@ == map_of_entries(entries@),
{
    let mut m: HashMap<K, V> = HashMap::new();
    let ghost all = entries@;
    for e in it: entries
        invariant
            it.seq() == all,
            obeys_key_model::<K>() ==> m@ == map_of_entries(all.take(it.index() as int)),
    {
        proof {
            assert(all.take(it.index() + 1).drop_last() =~= all.take(it.index() as int));
        }
        m.insert(e.0, e.1);
    }
    assert(all.take(all.len() as int) =~= all);
    m
}

} // verus!
