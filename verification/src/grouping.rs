//! Rows of one read gathered under the keys of another.

use std::collections::HashMap;

use vstd::prelude::*;

use crate::rag_message::oldest_first;

verus! {

/// The items under `key`, in order.
pub open spec fn group<T>(items: Seq<(u128, T)>, key: u128) -> Seq<T>
    decreases items.len(),
{
    if items.len() == 0 {
        Seq::empty()
    } else {
        let before = group(items.drop_last(), key);
        if items.last().0 == key {
            before.push(items.last().1)
        } else {
            before
        }
    }
}

/// Whether a map holds exactly the groups of some items that are not empty.
pub open spec fn groups<T>(grouped: Map<u128, Vec<T>>, items: Seq<(u128, T)>) -> bool {
    forall|key: u128| #[trigger]
        grouped.contains_key(key) == (group(items, key).len() > 0) && (grouped.contains_key(key)
            ==> grouped[key]@ == group(items, key))
}

/// The items gathered by key, each group in order: a key without items has no
/// group.
pub fn by_key<T>(items: Vec<(u128, T)>) -> (grouped: HashMap<u128, Vec<T>>)
    ensures
        groups(grouped@, items@),
{
    broadcast use vstd::std_specs::hash::group_hash_axioms;

    let ghost all = items@;
    let mut rest = oldest_first(items);
    let mut grouped: HashMap<u128, Vec<T>> = HashMap::new();
    let ghost mut done: int = 0;
    assert(all.take(0) =~= Seq::empty());
    while rest.len() > 0
        invariant
            0 <= done <= all.len(),
            rest@.len() == all.len() - done,
            forall|i: int| 0 <= i < rest@.len() ==> #[trigger] rest@[i] == all[all.len() - 1 - i],
            groups(grouped@, all.take(done)),
        decreases rest.len(),
    {
        broadcast use vstd::std_specs::hash::group_hash_axioms;

        let ghost before = rest@;
        if let Some((key, item)) = rest.pop() {
            let ghost seen = all.take(done + 1);
            let ghost earlier = grouped@;
            assert(before[before.len() - 1] == all[done]);
            assert(seen.drop_last() =~= all.take(done));
            assert(seen.last() == (key, item));
            let mut members = match grouped.remove(&key) {
                Some(members) => members,
                None => Vec::new(),
            };
            assert(members@ =~= group(all.take(done), key)) by {
                assert(earlier.contains_key(key) == (group(all.take(done), key).len() > 0));
            }
            members.push(item);
            grouped.insert(key, members);
            assert forall|other: u128| #[trigger]
                grouped@.contains_key(other) == (group(seen, other).len() > 0) && (
                grouped@.contains_key(other) ==> grouped@[other]@ == group(seen, other)) by {
                assert(earlier.contains_key(other) == (group(all.take(done), other).len() > 0));
            }
            proof {
                done = done + 1;
            }
        }
    }
    assert(all.take(all.len() as int) =~= all);
    grouped
}

} // verus!
