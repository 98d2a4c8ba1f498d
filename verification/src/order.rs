//! Stable ordering by an integer key: the order in which spaces and tabs are shown.
use vstd::prelude::*;

verus! {

/// Item `a` comes before item `b`: a smaller key, or the same key and an earlier place.
pub open spec fn key_before(keys: Seq<i64>, a: int, b: int) -> bool {
    keys[a] < keys[b] || (keys[a] == keys[b] && a < b)
}

/// `order` lists distinct places of `keys`, each one before the next.
pub open spec fn ordered_by_key(order: Seq<usize>, keys: Seq<i64>) -> bool {
    &&& forall|k: int| 0 <= k < order.len() ==> #[trigger] order[k] < keys.len()
    &&& forall|k: int, l: int|
        0 <= k < l < order.len() ==> key_before(keys, #[trigger] order[k] as int, #[trigger] order[l] as int)
}

/// `order` is the stable sort of the places of `keys`: every place exactly once, by key, ties
/// kept in their first order.
pub open spec fn is_stable_order(order: Seq<usize>, keys: Seq<i64>) -> bool {
    &&& order.len() == keys.len()
    &&& ordered_by_key(order, keys)
}

/// The places of `keys`, stably sorted by key (an insertion sort of the places).
pub fn stable_order(keys: &[i64]) -> (order: Vec<usize>)
    ensures
        is_stable_order(order@, keys@),
        order@ == stable_order_of(keys@),
{
    let n = keys.len();
    let mut order: Vec<usize> = Vec::new();
    let mut i: usize = 0;
    while i < n
        invariant
            n == keys@.len(),
            i <= n,
            order@.len() == i,
            ordered_by_key(order@, keys@),
            forall|k: int| 0 <= k < order@.len() ==> #[trigger] order@[k] < i,
        decreases n - i,
    {
        let key = keys[i];
        let mut j: usize = 0;
        while j < order.len() && keys[order[j]] <= key
            invariant
                n == keys@.len(),
                i < n,
                key == keys@[i as int],
                j <= order@.len(),
                ordered_by_key(order@, keys@),
                forall|k: int| 0 <= k < j ==> keys@[#[trigger] order@[k] as int] <= key,
            decreases order@.len() - j,
        {
            j = j + 1;
        }
        let ghost old_order = order@;
        proof {
            // From `j` on, every key is above `key`.
            assert forall|k: int| j <= k < old_order.len() implies keys@[#[trigger] old_order[k] as int]
                > key by {
                if k > j {
                    assert(key_before(keys@, old_order[j as int] as int, old_order[k] as int));
                }
            }
        }
        order.insert(j, i);
        proof {
            let o = order@;
            assert(o == old_order.insert(j as int, i));
            assert forall|k: int| 0 <= k < o.len() implies #[trigger] o[k] < i + 1 by {
                if k < j {
                    assert(o[k] == old_order[k]);
                } else if k > j {
                    assert(o[k] == old_order[k - 1]);
                }
            }
            assert forall|k: int| 0 <= k < o.len() implies #[trigger] o[k] < keys@.len() by {
                if k < j {
                    assert(o[k] == old_order[k]);
                } else if k > j {
                    assert(o[k] == old_order[k - 1]);
                }
            }
            assert forall|k: int, l: int| 0 <= k < l < o.len() implies key_before(
                keys@,
                #[trigger] o[k] as int,
                #[trigger] o[l] as int,
            ) by {
                if l < j {
                    assert(o[k] == old_order[k] && o[l] == old_order[l]);
                    assert(key_before(keys@, old_order[k] as int, old_order[l] as int));
                } else if l == j {
                    assert(o[k] == old_order[k]);
                    assert(keys@[old_order[k] as int] <= key);
                    assert(old_order[k] < i);
                } else if k < j {
                    assert(o[k] == old_order[k] && o[l] == old_order[l - 1]);
                    assert(key_before(keys@, old_order[k] as int, old_order[l - 1] as int));
                } else if k == j {
                    assert(o[l] == old_order[l - 1]);
                    assert(keys@[old_order[l - 1] as int] > key);
                } else {
                    assert(o[k] == old_order[k - 1] && o[l] == old_order[l - 1]);
                    assert(key_before(keys@, old_order[k - 1] as int, old_order[l - 1] as int));
                }
            }
        }
        i = i + 1;
    }
    proof {
        lemma_stable_order_unique(order@, keys@);
    }
    order
}

/// Whether `order` lists the place `p`.
pub open spec fn lists_place(order: Seq<usize>, p: int) -> bool {
    exists|k: int| 0 <= k < order.len() && #[trigger] order[k] == p
}

/// A stable order lists every place exactly once: no place twice, and every place of the keys
/// somewhere in it.
pub proof fn lemma_stable_order_is_permutation(order: Seq<usize>, keys: Seq<i64>)
    requires
        is_stable_order(order, keys),
    ensures
        forall|k: int, l: int| 0 <= k < l < order.len() ==> #[trigger] order[k] != #[trigger] order[l],
        forall|p: int| 0 <= p < keys.len() ==> #[trigger] lists_place(order, p),
{
    assert forall|k: int, l: int| 0 <= k < l < order.len() implies #[trigger] order[k]
        != #[trigger] order[l] by {
        assert(key_before(keys, order[k] as int, order[l] as int));
    }
    assert forall|p: int| 0 <= p < keys.len() implies #[trigger] lists_place(order, p) by {
        if !lists_place(order, p) {
            lemma_missing_place_shrinks(order, keys.len() as int, p);
        }
    }
}

/// Distinct places below `n`, with `p` among none of them, are fewer than `n`.
proof fn lemma_missing_place_shrinks(order: Seq<usize>, n: int, p: int)
    requires
        0 <= p < n,
        forall|k: int| 0 <= k < order.len() ==> #[trigger] order[k] < n,
        forall|k: int, l: int| 0 <= k < l < order.len() ==> #[trigger] order[k] != #[trigger] order[l],
        forall|k: int| 0 <= k < order.len() ==> #[trigger] order[k] != p,
    ensures
        order.len() < n,
{
    let o = order.map_values(|x: usize| x as int);
    let range = vstd::set_lib::set_int_range(0, n).remove(p);
    vstd::set_lib::lemma_int_range(0, n);
    assert(vstd::set_lib::set_int_range(0, n).contains(p));
    assert(range.len() == n - 1);
    assert forall|k: int, l: int| 0 <= k < l < o.len() implies #[trigger] o[k] != #[trigger] o[l] by {
        assert(order[k] != order[l]);
    }
    assert(o.no_duplicates());
    assert forall|x: int| o.to_set().contains(x) implies range.contains(x) by {
        let k = choose|k: int| 0 <= k < o.len() && o[k] == x;
        assert(order[k] < n && order[k] != p);
    }
    assert(o.to_set().subset_of(range));
    vstd::set_lib::lemma_len_subset(o.to_set(), range);
    o.unique_seq_to_set();
}

/// The stable order of `keys` (there is exactly one: see `lemma_stable_order_unique`).
pub open spec fn stable_order_of(keys: Seq<i64>) -> Seq<usize> {
    choose|order: Seq<usize>| is_stable_order(order, keys)
}

/// Two stable orders of the same keys agree on their first `k` places.
proof fn lemma_stable_prefix_equal(o1: Seq<usize>, o2: Seq<usize>, keys: Seq<i64>, k: int)
    requires
        is_stable_order(o1, keys),
        is_stable_order(o2, keys),
        0 <= k <= keys.len(),
    ensures
        forall|j: int| 0 <= j < k ==> #[trigger] o1[j] == o2[j],
    decreases k,
{
    if k > 0 {
        lemma_stable_prefix_equal(o1, o2, keys, k - 1);
        lemma_stable_order_is_permutation(o1, keys);
        lemma_stable_order_is_permutation(o2, keys);
        let a = o1[k - 1];
        let b = o2[k - 1];
        if a != b {
            assert(lists_place(o1, b as int));
            let m = choose|m: int| 0 <= m < o1.len() && #[trigger] o1[m] == b as int;
            assert(lists_place(o2, a as int));
            let n = choose|n: int| 0 <= n < o2.len() && #[trigger] o2[n] == a as int;
            if m < k - 1 {
                assert(o2[m] == b);
                assert(false);
            }
            if n < k - 1 {
                assert(o1[n] == a);
                assert(false);
            }
            assert(key_before(keys, a as int, b as int));
            assert(key_before(keys, b as int, a as int));
        }
    }
}

/// The keys determine their stable order: any stable order of them is `stable_order_of(keys)`.
pub proof fn lemma_stable_order_unique(order: Seq<usize>, keys: Seq<i64>)
    requires
        is_stable_order(order, keys),
    ensures
        order == stable_order_of(keys),
{
    let other = stable_order_of(keys);
    assert(is_stable_order(other, keys));
    lemma_stable_prefix_equal(order, other, keys, keys.len() as int);
    assert(order =~= other);
}

} // verus!
