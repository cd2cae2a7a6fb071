//! Ordered maps.

use vstd::prelude::*;

use crate::ordered_map::OrderedMapView;

verus! {

/// Whether `keys` are some of `all`, in the order in which `all` has them.
pub open spec fn in_order_of<K>(keys: Seq<K>, all: Seq<K>) -> bool {
    &&& forall|i: int| 0 <= i < keys.len() ==> #[trigger] all.contains(keys[i])
    &&& forall|i: int, j: int|
        #![trigger keys[i], keys[j]]
        0 <= i < j < keys.len() ==> all.index_of(keys[i]) < all.index_of(keys[j])
}

/// The place of a key does not change when another key comes after it.
proof fn lemma_index_of_push<K>(keys: Seq<K>, last: K, key: K)
    requires
        keys.push(last).no_duplicates(),
        keys.contains(key),
    ensures
        keys.push(last).index_of(key) == keys.index_of(key),
        keys.push(last).index_of(last) == keys.len(),
        keys.push(last).contains(key),
        keys.push(last).contains(last),
{
    let all = keys.push(last);
    let i = keys.index_of(key);
    assert(all[i] == key);
    assert(all[keys.len() as int] == last);
    assert(all.contains(key) && all.contains(last));
    assert(all[all.index_of(key)] == key);
    assert(all[all.index_of(last)] == last);
}

/// Filtering keeps the order.
proof fn lemma_filter_in_order<K>(keys: Seq<K>, p: spec_fn(K) -> bool)
    requires
        keys.no_duplicates(),
    ensures
        in_order_of(keys.filter(p), keys),
        forall|key: K| #[trigger] keys.filter(p).contains(key) <==> keys.contains(key) && p(key),
    decreases keys.len(),
{
    reveal(Seq::filter);
    if keys.len() > 0 {
        let rest = keys.drop_last();
        let last = keys.last();
        lemma_filter_in_order(rest, p);
        assert(keys =~= rest.push(last));
        let kept = rest.filter(p);
        let after = keys.filter(p);
        assert(after == (if p(last) {
            kept.push(last)
        } else {
            kept
        }));
        assert forall|key: K| #[trigger] rest.contains(key) implies keys.index_of(key)
            == rest.index_of(key) && keys.index_of(last) == rest.len() && keys.contains(key) by {
            lemma_index_of_push(rest, last, key);
        }
        assert(keys[keys.len() - 1] == last);
        assert(keys.contains(last));
        assert(keys[keys.index_of(last)] == last);
        assert forall|i: int| 0 <= i < kept.len() implies rest.contains(#[trigger] kept[i]) && 0
            <= rest.index_of(kept[i]) < rest.len() by {
            assert(kept.contains(kept[i]));
        }
        assert forall|i: int| 0 <= i < after.len() implies #[trigger] keys.contains(after[i]) by {
            if i < kept.len() {
                assert(after[i] == kept[i]);
            }
        }
        assert forall|i: int, j: int|
            #![trigger after[i], after[j]]
            0 <= i < j < after.len() implies keys.index_of(after[i]) < keys.index_of(after[j]) by {
            assert(after[i] == kept[i]);
            if j < kept.len() {
                assert(after[j] == kept[j]);
            }
        }
        assert forall|key: K| #[trigger] after.contains(key) <==> keys.contains(key) && p(key) by {
            if kept.contains(key) {
                assert(after[kept.index_of(key)] == key);
            }
            if p(last) {
                assert(after[kept.len() as int] == last);
            }
            if keys.contains(key) && key != last {
                assert(rest[keys.index_of(key)] == key);
            }
            if after.contains(key) {
                let i = after.index_of(key);
                if i < kept.len() {
                    assert(kept[i] == key);
                }
            }
        }
    }
}

/// The empty map has no keys.
pub proof fn law_empty<K, V>(key: K)
    ensures
        OrderedMapView::<K, V>::empty().keys.len() == 0,
        !OrderedMapView::<K, V>::empty().map.contains_key(key),
{
}

/// A key that gets a value has that value, and the other keys keep theirs. A new key comes last; no
/// other key moves.
pub proof fn law_insert<K, V>(map: OrderedMapView<K, V>, key: K, value: V, other: K)
    requires
        map.wf(),
    ensures
        ({
            let after = map.insert(key, value);
            &&& after.map.contains_key(key) && after.map[key] == value
            &&& other != key ==> (after.map.contains_key(other) <==> map.map.contains_key(other))
            &&& other != key ==> after.map[other] == map.map[other]
            &&& map.keys.contains(key) ==> after.keys == map.keys
            &&& !map.keys.contains(key) ==> after.keys.len() == map.keys.len() + 1
                && after.keys.drop_last() == map.keys && after.keys.last() == key
        }),
{
    assert(map.keys.contains(key) <==> map.map.contains_key(key));
    assert(map.keys.push(key).drop_last() =~= map.keys);
}

/// A key that is taken out is gone, and the other keys keep their values and their order.
pub proof fn law_remove<K, V>(map: OrderedMapView<K, V>, key: K, other: K)
    requires
        map.wf(),
    ensures
        ({
            let after = map.remove(key);
            &&& !after.map.contains_key(key)
            &&& other != key ==> (after.map.contains_key(other) <==> map.map.contains_key(other))
            &&& other != key ==> after.map[other] == map.map[other]
            &&& in_order_of(after.keys, map.keys)
            &&& after.keys.len() == map.keys.len() - (if map.map.contains_key(key) {
                1int
            } else {
                0
            })
            &&& !after.keys.contains(key)
        }),
{
    let after = map.remove(key);
    assert(map.keys.contains(key) <==> map.map.contains_key(key));
    let at = map.keys.index_of(key);
    assert forall|i: int| 0 <= i < after.keys.len() implies #[trigger] map.keys.contains(
        after.keys[i],
    ) && map.keys.index_of(after.keys[i]) == (if map.map.contains_key(key) && i >= at {
        i + 1
    } else {
        i
    }) by {
        let k = if map.map.contains_key(key) && i >= at {
            i + 1
        } else {
            i
        };
        assert(map.keys[k] == after.keys[i]);
        assert(map.keys[map.keys.index_of(after.keys[i])] == after.keys[i]);
    }
    assert forall|i: int, j: int|
        #![trigger after.keys[i], after.keys[j]]
        0 <= i < j < after.keys.len() implies map.keys.index_of(after.keys[i])
        < map.keys.index_of(after.keys[j]) by {
        assert(map.keys.contains(after.keys[i]) && map.keys.contains(after.keys[j]));
    }
    if after.keys.contains(key) {
        let i = after.keys.index_of(key);
        assert(map.keys.contains(after.keys[i]));
    }
}

/// What is left of a map are the keys that `other` has too, with the values and in the order that
/// they had.
pub proof fn law_restrict_to<K, V>(map: OrderedMapView<K, V>, other: Map<K, V>, key: K)
    requires
        map.wf(),
    ensures
        ({
            let after = map.restrict_to(other);
            &&& after.map.contains_key(key) <==> map.map.contains_key(key) && other.contains_key(key)
            &&& after.map.contains_key(key) ==> after.map[key] == map.map[key]
            &&& after.keys.contains(key) <==> after.map.contains_key(key)
            &&& in_order_of(after.keys, map.keys)
        }),
{
    lemma_filter_in_order(map.keys, |k: K| other.contains_key(k));
    assert(map.keys.contains(key) <==> map.map.contains_key(key));
}

/// What is selected are the keys whose values are asked for, with what becomes of their values and
/// in the order that they had.
pub proof fn law_select<K, V, W>(
    map: OrderedMapView<K, V>,
    keep: spec_fn(V) -> bool,
    change: spec_fn(V) -> W,
    key: K,
)
    requires
        map.wf(),
    ensures
        ({
            let after = map.select(keep, change);
            &&& after.map.contains_key(key) <==> map.map.contains_key(key) && keep(map.map[key])
            &&& after.map.contains_key(key) ==> after.map[key] == change(map.map[key])
            &&& after.keys.contains(key) <==> after.map.contains_key(key)
            &&& in_order_of(after.keys, map.keys)
        }),
{
    lemma_filter_in_order(map.keys, |k: K| keep(map.map[k]));
    assert(map.keys.contains(key) <==> map.map.contains_key(key));
}

} // verus!
