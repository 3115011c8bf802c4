use std::collections::HashMap;
use std::hash::Hash;
use vstd::prelude::*;
use vstd::std_specs::hash::obeys_key_model;

verus! {

/// What the maps of this crate ask of a key type: it hashes and compares as
/// its value says, and a clone of a key is that key.
pub open spec fn key_model<K: Clone>() -> bool {
    &&& obeys_key_model::<K>()
    &&& forall|a: K, b: K| call_ensures(K::clone, (&a,), b) ==> a == b
}

/// Removes one entry from the map and returns it; `None` on an empty map.
/// Which entry leaves is up to the map's iteration order.
pub fn take_one_from_hashmap<K: Eq + Hash + Clone, V>(hashmap: &mut HashMap<K, V>) -> (taken: Option<
    (K, V),
>)
    requires
        key_model::<K>(),
    ensures
        taken is None <==> old(hashmap)@.len() == 0,
        taken is None ==> final(hashmap)@ == old(hashmap)@,
        taken matches Some((k, v)) ==> {
            &&& old(hashmap)@.contains_key(k)
            &&& old(hashmap)@[k] == v
            &&& final(hashmap)@ == old(hashmap)@.remove(k)
        },
{
    let mut picked: Option<K> = None;
    for key in it: hashmap.keys()
        invariant_except_break
            picked is None,
            it.index() == 0,
        invariant
            key_model::<K>(),
            it.seq().unref().to_set() == hashmap@.dom(),
            it.seq().len() == hashmap@.dom().len(),
        ensures
            picked is None ==> hashmap@.dom().len() == 0,
            picked matches Some(k) ==> hashmap@.contains_key(k),
    {
        proof {
            let i = it.index();
            assert(it.seq().unref()[i] == *key);
            assert(it.seq().unref().to_set().contains(*key));
        }
        picked = Some(key.clone());
        break;
    }
    match picked {
        Some(key) => {
            let value = hashmap.remove(&key);
            match value {
                Some(v) => Some((key, v)),
                None => None,
            }
        },
        None => None,
    }
}

/// Whether `order` lists each key of `map` exactly once.
pub open spec fn lists_keys<K, V>(order: Seq<K>, map: Map<K, V>) -> bool {
    order.no_duplicates() && order.to_set() == map.dom()
}

/// The keys of the map, each once, in the map's iteration order.
pub fn key_list<K: Eq + Hash + Clone, V>(hashmap: &HashMap<K, V>) -> (keys: Vec<K>)
    requires
        key_model::<K>(),
    ensures
        lists_keys(keys@, hashmap@),
{
    let mut keys: Vec<K> = Vec::new();
    for key in it: hashmap.keys()
        invariant
            key_model::<K>(),
            it.seq().unref().to_set() == hashmap@.dom(),
            it.seq().no_duplicates(),
            keys@ == it.seq().unref().take(it.index()),
            keys@.no_duplicates(),
            it.index() == it.seq().len() ==> keys@ == it.seq().unref(),
        ensures
            lists_keys(keys@, hashmap@),
    {
        let owned = key.clone();
        proof {
            let i = it.index();
            assert(it.seq().unref()[i] == *key);
            assert(it.seq().unref().take(i + 1) == it.seq().unref().take(i).push(owned));
            assert forall|j: int| 0 <= j < i implies it.seq().unref()[j] != owned by {
                assert(it.seq()[j] != it.seq()[i]);
            }
            assert(i + 1 == it.seq().len() ==> it.seq().unref().take(i + 1)
                == it.seq().unref());
        }
        keys.push(owned);
    }
    keys
}

/// Removes the entries under the given keys; a key that the map does not
/// hold changes nothing.
pub fn remove_all<K: Eq + Hash + Clone, V>(hashmap: &mut HashMap<K, V>, keys: &Vec<K>)
    requires
        key_model::<K>(),
    ensures
        final(hashmap)@ == old(hashmap)@.remove_keys(keys@.to_set()),
{
    let mut i: usize = 0;
    while i < keys.len()
        invariant
            key_model::<K>(),
            i <= keys.len(),
            hashmap@ == old(hashmap)@.remove_keys(keys@.take(i as int).to_set()),
        decreases keys.len() - i,
    {
        let _ = hashmap.remove(&keys[i]);
        proof {
            let done = keys@.take(i as int);
            let more = keys@.take(i + 1);
            assert(more == done.push(keys@[i as int]));
            done.lemma_push_to_set_commute(keys@[i as int]);
            assert(hashmap@ =~= old(hashmap)@.remove_keys(more.to_set()));
        }
        i += 1;
    }
    proof {
        assert(keys@.take(keys.len() as int) == keys@);
    }
}

} // verus!
