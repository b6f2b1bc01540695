//! The default key-chord map built from the catalog.

use vstd::prelude::*;
use vstd::hash_map::StringHashMap;

use crate::catalog::{actions_view, catalog_spec, hotkey_catalog, keys_distinct, ActionView};

verus! {

/// The key-chord -> action-id map that inserting the bound actions of
/// `acts` in order gives (a later action wins a chord that an earlier one
/// also has).
pub open spec fn bindings_of(acts: Seq<ActionView>) -> Map<Seq<char>, Seq<char>>
    decreases acts.len(),
{
    if acts.len() == 0 {
        Map::empty()
    } else {
        let m = bindings_of(acts.drop_last());
        match acts.last().key {
            Some(k) => m.insert(k, acts.last().id),
            None => m,
        }
    }
}

/// The number of actions of `acts` that have a default key.
pub open spec fn bound_count(acts: Seq<ActionView>) -> nat
    decreases acts.len(),
{
    if acts.len() == 0 {
        0
    } else {
        bound_count(acts.drop_last()) + if acts.last().key is Some {
            1nat
        } else {
            0nat
        }
    }
}

/// When every action but the one at `j` has a default key, all but one count.
pub proof fn lemma_bound_count_all_but_one(acts: Seq<ActionView>, j: int)
    requires
        0 <= j < acts.len(),
        acts[j].key is None,
        forall|i: int| 0 <= i < acts.len() && i != j ==> (#[trigger] acts[i]).key is Some,
    ensures
        bound_count(acts) == acts.len() - 1,
    decreases acts.len(),
{
    let pre = acts.drop_last();
    if j < acts.len() - 1 {
        assert forall|i: int| 0 <= i < pre.len() && i != j implies (#[trigger] pre[i]).key is Some by {
            assert(acts[i] == pre[i]);
        }
        assert(pre[j] == acts[j]);
        lemma_bound_count_all_but_one(pre, j);
    } else {
        lemma_bound_count_all_bound(pre);
    }
}

/// When every action has a default key, all of them count.
pub proof fn lemma_bound_count_all_bound(acts: Seq<ActionView>)
    requires
        forall|i: int| 0 <= i < acts.len() ==> (#[trigger] acts[i]).key is Some,
    ensures
        bound_count(acts) == acts.len(),
    decreases acts.len(),
{
    if acts.len() > 0 {
        let pre = acts.drop_last();
        assert forall|i: int| 0 <= i < pre.len() implies (#[trigger] pre[i]).key is Some by {
            assert(acts[i] == pre[i]);
        }
        lemma_bound_count_all_bound(pre);
        assert(acts[acts.len() - 1].key is Some);
    }
}

/// When no two actions share a default key, the bindings hold exactly one
/// entry per bound action, mapping its key to its id.
pub proof fn lemma_bindings_of_distinct(acts: Seq<ActionView>)
    requires
        keys_distinct(acts),
    ensures
        bindings_of(acts).dom().finite(),
        bindings_of(acts).len() == bound_count(acts),
        forall|i: int|
            0 <= i < acts.len() && (#[trigger] acts[i]).key is Some ==> bindings_of(
                acts,
            ).contains_key(acts[i].key.unwrap()) && bindings_of(acts)[acts[i].key.unwrap()]
                == acts[i].id,
        forall|k: Seq<char>|
            #[trigger] bindings_of(acts).contains_key(k) ==> exists|i: int|
                0 <= i < acts.len() && (#[trigger] acts[i]).key == Some(k),
    decreases acts.len(),
{
    if acts.len() > 0 {
        let pre = acts.drop_last();
        let n = acts.len() - 1;
        assert(keys_distinct(pre)) by {
            assert forall|i: int, j: int|
                0 <= i < pre.len() && 0 <= j < pre.len() && i != j && (#[trigger] pre[i]).key is Some
                    && (#[trigger] pre[j]).key is Some implies pre[i].key != pre[j].key by {
                assert(acts[i] == pre[i] && acts[j] == pre[j]);
            }
        }
        lemma_bindings_of_distinct(pre);
        match acts.last().key {
            Some(k) => {
                if bindings_of(pre).contains_key(k) {
                    let i = choose|i: int| 0 <= i < pre.len() && (#[trigger] pre[i]).key == Some(k);
                    assert(acts[i] == pre[i]);
                    assert(acts[n].key == Some(k));
                    assert(false);
                }
                assert forall|i: int|
                    0 <= i < acts.len() && (#[trigger] acts[i]).key is Some implies bindings_of(
                        acts,
                    ).contains_key(acts[i].key.unwrap()) && bindings_of(acts)[acts[i].key.unwrap()]
                        == acts[i].id by {
                    if i < n {
                        assert(acts[i] == pre[i]);
                        assert(acts[i].key != acts[n].key);
                    }
                }
                assert forall|k2: Seq<char>| #[trigger]
                    bindings_of(acts).contains_key(k2) implies exists|i: int|
                        0 <= i < acts.len() && (#[trigger] acts[i]).key == Some(k2) by {
                    if k2 == k {
                        assert(acts[n].key == Some(k2));
                    } else {
                        let i = choose|i: int| 0 <= i < pre.len() && (#[trigger] pre[i]).key == Some(k2);
                        assert(acts[i] == pre[i]);
                    }
                }
            },
            None => {
                assert forall|i: int|
                    0 <= i < acts.len() && (#[trigger] acts[i]).key is Some implies bindings_of(
                        acts,
                    ).contains_key(acts[i].key.unwrap()) && bindings_of(acts)[acts[i].key.unwrap()]
                        == acts[i].id by {
                    assert(i < n);
                    assert(acts[i] == pre[i]);
                }
                assert forall|k2: Seq<char>| #[trigger]
                    bindings_of(acts).contains_key(k2) implies exists|i: int|
                        0 <= i < acts.len() && (#[trigger] acts[i]).key == Some(k2) by {
                    let i = choose|i: int| 0 <= i < pre.len() && (#[trigger] pre[i]).key == Some(k2);
                    assert(acts[i] == pre[i]);
                }
            },
        }
    }
}

/// The map seen through the characters of its values.
pub open spec fn chars_map(m: Map<Seq<char>, String>) -> Map<Seq<char>, Seq<char>> {
    m.map_values(|v: String| v@)
}

/// Builds the default key-chord -> action-id map from the catalog (skipping
/// actions without a default binding).
pub fn default_bindings_map() -> (m: StringHashMap<String>)
    ensures
        chars_map(m@) == bindings_of(catalog_spec()),
{
    let catalog = hotkey_catalog();
    let mut m: StringHashMap<String> = StringHashMap::new();
    let mut i: usize = 0;
    while i < catalog.len()
        invariant
            i <= catalog.len(),
            actions_view(catalog@) == catalog_spec(),
            chars_map(m@) =~= bindings_of(actions_view(catalog@).take(i as int)),
        decreases catalog.len() - i,
    {
        let ghost acts = actions_view(catalog@);
        assert(acts.take(i + 1).drop_last() =~= acts.take(i as int));
        assert(acts.take(i + 1).last() == catalog@[i as int]@);
        match &catalog[i].default_key {
            Some(key) => {
                let ghost before = m@;
                m.insert(key.clone(), catalog[i].id.clone());
                assert(chars_map(m@) =~= chars_map(before).insert(key@, catalog@[i as int].id@));
            },
            None => {},
        }
        i = i + 1;
    }
    assert(actions_view(catalog@).take(catalog.len() as int) =~= actions_view(catalog@));
    m
}

} // verus!
