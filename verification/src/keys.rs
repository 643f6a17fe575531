use vstd::prelude::*;
use std::collections::HashMap;
use vstd::std_specs::hash::obeys_key_model;
use vstd::std_specs::iter::IteratorSpec;

verus! {

/// `walk` names every key of the map once, in some order.
pub open spec fn is_walk_of<K>(walk: Seq<K>, keys: Set<K>) -> bool {
    &&& walk.no_duplicates()
    &&& forall|key: K| walk.contains(key) <==> keys.contains(key)
}

/// The keys of a hash map, each once, in the order in which the map hands
/// them out: an order that callers must not count on.
pub fn keys_of<K: Copy, V>(map: &HashMap<K, V>) -> (keys: Vec<K>)
    requires
        obeys_key_model::<K>(),
    ensures
        is_walk_of(keys@, map@.dom()),
{
    broadcast use vstd::std_specs::hash::group_hash_axioms;

    let mut keys: Vec<K> = Vec::new();
    for key in iter: map.keys()
        invariant
            iter.seq() == map.keys().remaining(),
            keys@.len() == iter.index(),
            forall|i: int| 0 <= i < keys@.len() ==> keys@[i] == *iter.seq()[i],
    {
        keys.push(*key);
    }
    proof {
        let walked = map.keys().remaining();
        assert(keys@ =~= walked.unref());
        assert forall|key: K| keys@.contains(key) <==> map@.dom().contains(key) by {
            assert(keys@.to_set().contains(key) <==> map@.dom().contains(key));
        }
    }
    keys
}

} // verus!
