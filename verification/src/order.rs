//! The stable order of a sequence of keys: the one arrangement of their
//! positions in which the keys ascend (or descend) and equal keys keep the
//! order in which they came.

use vstd::prelude::*;
use crate::field::{field_views, lemma_value_less_asymmetric,
    lemma_value_less_negatively_transitive, value_less, FieldValue, FieldView};

verus! {

/// Key `a` has to stand before key `b`: it is smaller where the keys ascend,
/// larger where they descend.
pub open spec fn key_before(a: FieldView, b: FieldView, descending: bool) -> bool {
    if descending {
        value_less(b, a)
    } else {
        value_less(a, b)
    }
}

/// Position `p` has to stand before position `q`: its key goes first, or the
/// two keys tie and `p` came first.
pub open spec fn comes_first(keys: Seq<FieldView>, descending: bool, p: int, q: int) -> bool {
    ||| key_before(keys[p], keys[q], descending)
    ||| (!key_before(keys[q], keys[p], descending) && p < q)
}

/// `order` lists every position of `keys` once, each before all those that
/// it has to stand before.
pub open spec fn is_stable_order(keys: Seq<FieldView>, descending: bool, order: Seq<int>) -> bool {
    &&& order.len() == keys.len()
    &&& forall|i: int| 0 <= i < order.len() ==> 0 <= #[trigger] order[i] < keys.len()
    &&& forall|p: int| 0 <= p < keys.len() ==> #[trigger] order.contains(p)
    &&& forall|i: int, j: int|
        0 <= i < j < order.len() ==> comes_first(keys, descending, #[trigger] order[i], #[trigger] order[j])
}

/// The stable order of `keys`. There is exactly one: see
/// `lemma_stable_order_exists` and `lemma_stable_order_unique`.
pub open spec fn stable_order(keys: Seq<FieldView>, descending: bool) -> Seq<int> {
    choose|order: Seq<int>| is_stable_order(keys, descending, order)
}

/// The items of `items` in the order that `order` gives.
pub open spec fn arranged<T>(items: Seq<T>, order: Seq<int>) -> Seq<T> {
    Seq::new(order.len(), |i: int| items[order[i]])
}

/// The positions held in a vector of indices.
pub open spec fn positions(order: Seq<usize>) -> Seq<int> {
    order.map_values(|p: usize| p as int)
}

/// Where a new last key lands in an order of the keys before it: behind the
/// last position whose key it does not have to stand before. `n` is the
/// number of entries of `order` still to look at, from the end.
pub open spec fn landing(keys: Seq<FieldView>, descending: bool, order: Seq<int>, k: int, n: int) -> int
    decreases n,
{
    if n <= 0 {
        0
    } else if key_before(keys[k], keys[order[n - 1]], descending) {
        landing(keys, descending, order, k, n - 1)
    } else {
        n
    }
}

proof fn lemma_landing(keys: Seq<FieldView>, descending: bool, order: Seq<int>, k: int, n: int)
    requires
        0 <= n <= order.len(),
    ensures
        0 <= landing(keys, descending, order, k, n) <= n,
        forall|i: int|
            landing(keys, descending, order, k, n) <= i < n ==> key_before(
                keys[k],
                keys[#[trigger] order[i]],
                descending,
            ),
        landing(keys, descending, order, k, n) > 0 ==> !key_before(
            keys[k],
            keys[order[landing(keys, descending, order, k, n) - 1]],
            descending,
        ),
    decreases n,
{
    if n > 0 && key_before(keys[k], keys[order[n - 1]], descending) {
        lemma_landing(keys, descending, order, k, n - 1);
    }
}

/// Putting position `k` at `pos` into a stable order of the first `k` keys
/// gives a stable order of the first `k + 1` keys, where `pos` parts the
/// entries that key `k` has to stand before from those it has not.
pub proof fn lemma_insert_keeps_stable(
    keys: Seq<FieldView>,
    descending: bool,
    order: Seq<int>,
    k: int,
    pos: int,
)
    requires
        0 <= k < keys.len(),
        is_stable_order(keys.take(k), descending, order),
        0 <= pos <= k,
        forall|i: int| pos <= i < k ==> key_before(keys[k], keys[#[trigger] order[i]], descending),
        pos > 0 ==> !key_before(keys[k], keys[order[pos - 1]], descending),
    ensures
        is_stable_order(keys.take(k + 1), descending, order.insert(pos, k)),
{
    let next = order.insert(pos, k);
    assert forall|p: int| 0 <= p <= k implies #[trigger] next.contains(p) by {
        if p == k {
            assert(next[pos] == p);
        } else {
            assert(order.contains(p));
            let i = choose|i: int| 0 <= i < order.len() && order[i] == p;
            if i < pos {
                assert(next[i] == p);
            } else {
                assert(next[i + 1] == p);
            }
        }
    }
    assert forall|i: int, j: int| 0 <= i < j < next.len() implies comes_first(
        keys.take(k + 1),
        descending,
        #[trigger] next[i],
        #[trigger] next[j],
    ) by {
        if i < pos - 1 && j == pos {
            // The new key does not go before the key of entry pos - 1, nor
            // that key before the key of an earlier entry.
            let x = keys[k];
            let a = keys[order[pos - 1]];
            let e = keys[order[i]];
            lemma_value_less_asymmetric(a, e);
            if descending {
                lemma_value_less_negatively_transitive(e, a, x);
            } else {
                lemma_value_less_negatively_transitive(x, a, e);
            }
        }
    }
}

/// The step from the keys before the last to all keys: a stable order of
/// the former, with the last position put where it lands, is a stable order
/// of the latter.
proof fn lemma_landing_keeps_stable(keys: Seq<FieldView>, descending: bool, order: Seq<int>)
    requires
        keys.len() > 0,
        is_stable_order(keys.drop_last(), descending, order),
    ensures
        ({
            let k = keys.len() - 1;
            let pos = landing(keys, descending, order, k, k);
            &&& 0 <= pos <= k
            &&& is_stable_order(keys, descending, order.insert(pos, k))
        }),
{
    let k = keys.len() - 1;
    lemma_landing(keys, descending, order, k, k);
    lemma_insert_keeps_stable(keys, descending, order, k, landing(keys, descending, order, k, k));
}

/// Every sequence of keys has a stable order.
pub proof fn lemma_stable_order_exists(keys: Seq<FieldView>, descending: bool)
    ensures
        is_stable_order(keys, descending, stable_order(keys, descending)),
    decreases keys.len(),
{
    if keys.len() == 0 {
        assert(is_stable_order(keys, descending, Seq::<int>::empty()));
    } else {
        let k = keys.len() - 1;
        lemma_stable_order_exists(keys.drop_last(), descending);
        let order = stable_order(keys.drop_last(), descending);
        lemma_landing_keeps_stable(keys, descending, order);
    }
}

proof fn lemma_orders_agree_below(
    keys: Seq<FieldView>,
    descending: bool,
    a: Seq<int>,
    b: Seq<int>,
    n: int,
)
    requires
        is_stable_order(keys, descending, a),
        is_stable_order(keys, descending, b),
        0 <= n <= keys.len(),
    ensures
        forall|i: int| 0 <= i < n ==> a[i] == b[i],
    decreases n,
{
    if n > 0 {
        lemma_orders_agree_below(keys, descending, a, b, n - 1);
        let i = n - 1;
        if a[i] != b[i] {
            // a[i] stands in b, and b[i] in a. Neither stands there before
            // i, where the two orders agree and hold no position twice. So
            // each stands behind i, and has to stand behind the other.
            assert(b.contains(a[i]));
            let m = choose|m: int| 0 <= m < b.len() && b[m] == a[i];
            assert(a.contains(b[i]));
            let w = choose|w: int| 0 <= w < a.len() && a[w] == b[i];
            lemma_value_less_asymmetric(keys[a[i]], keys[b[i]]);
            lemma_value_less_asymmetric(keys[a[i]], keys[a[i]]);
            lemma_value_less_asymmetric(keys[b[i]], keys[b[i]]);
        }
    }
}

/// A sequence of keys has no second stable order.
pub proof fn lemma_stable_order_unique(keys: Seq<FieldView>, descending: bool, order: Seq<int>)
    requires
        is_stable_order(keys, descending, order),
    ensures
        order == stable_order(keys, descending),
{
    let chosen = stable_order(keys, descending);
    lemma_orders_agree_below(keys, descending, order, chosen, keys.len() as int);
}

/// The stable order of a sequence of keys is that of the keys before the
/// last, with the last position put where it lands.
pub proof fn lemma_stable_order_grows(keys: Seq<FieldView>, descending: bool)
    requires
        keys.len() > 0,
    ensures
        ({
            let k = keys.len() - 1;
            let order = stable_order(keys.drop_last(), descending);
            let pos = landing(keys, descending, order, k, k);
            &&& is_stable_order(keys.drop_last(), descending, order)
            &&& 0 <= pos <= k
            &&& stable_order(keys, descending) == order.insert(pos, k)
        }),
{
    let k = keys.len() - 1;
    lemma_stable_order_exists(keys.drop_last(), descending);
    let order = stable_order(keys.drop_last(), descending);
    lemma_landing_keeps_stable(keys, descending, order);
    lemma_stable_order_unique(
        keys,
        descending,
        order.insert(landing(keys, descending, order, k, k), k),
    );
}

/// Arranging items by the stable order of their keys keeps every item, as
/// often as it occurs.
pub proof fn lemma_stable_order_keeps_items<T>(items: Seq<T>, keys: Seq<FieldView>, descending: bool)
    requires
        items.len() == keys.len(),
    ensures
        arranged(items, stable_order(keys, descending)).to_multiset() == items.to_multiset(),
    decreases keys.len(),
{
    if keys.len() == 0 {
        lemma_stable_order_exists(keys, descending);
        assert(arranged(items, stable_order(keys, descending)) =~= items);
    } else {
        let k = keys.len() - 1;
        let order = stable_order(keys.drop_last(), descending);
        let pos = landing(keys, descending, order, k, k);
        lemma_stable_order_grows(keys, descending);
        lemma_stable_order_keeps_items(items.drop_last(), keys.drop_last(), descending);
        let shorter = arranged(items.drop_last(), order);
        assert(arranged(items, order.insert(pos, k)) =~= shorter.insert(pos, items[k]));
        vstd::seq_lib::to_multiset_insert(shorter, pos, items[k]);
        assert(items =~= items.drop_last().push(items[k]));
        vstd::seq_lib::to_multiset_build(items.drop_last(), items[k]);
    }
}

/// Whether `a` has to stand before `b`.
fn goes_before(a: &FieldValue, b: &FieldValue, descending: bool) -> (before: bool)
    ensures
        before == key_before(a@, b@, descending),
{
    if descending {
        b.less(a)
    } else {
        a.less(b)
    }
}

/// The stable order of `keys`, by insertion: each position in turn goes
/// behind the last entry that it does not have to stand before.
pub fn stable_positions(keys: &Vec<FieldValue>, descending: bool) -> (order: Vec<usize>)
    ensures
        positions(order@) == stable_order(field_views(keys@), descending),
        is_stable_order(field_views(keys@), descending, positions(order@)),
{
    let ghost views = field_views(keys@);
    let mut order: Vec<usize> = Vec::new();
    let mut k: usize = 0;
    while k < keys.len()
        invariant
            views == field_views(keys@),
            k <= keys.len(),
            is_stable_order(views.take(k as int), descending, positions(order@)),
        decreases keys.len() - k,
    {
        let mut pos: usize = k;
        assert forall|i: int| 0 <= i < order.len() implies #[trigger] order[i] < k by {
            assert(positions(order@)[i] == order[i]);
        }
        while pos > 0 && goes_before(&keys[k], &keys[order[pos - 1]], descending)
            invariant
                views == field_views(keys@),
                k < keys.len(),
                is_stable_order(views.take(k as int), descending, positions(order@)),
                order.len() == k,
                forall|i: int| 0 <= i < order.len() ==> #[trigger] order[i] < k,
                pos <= k,
                forall|i: int|
                    pos <= i < k ==> key_before(
                        views[k as int],
                        views[#[trigger] positions(order@)[i]],
                        descending,
                    ),
            decreases pos,
        {
            pos -= 1;
        }
        proof {
            lemma_insert_keeps_stable(views, descending, positions(order@), k as int, pos as int);
            assert(positions(order@.insert(pos as int, k)) =~= positions(order@).insert(
                pos as int,
                k as int,
            ));
        }
        order.insert(pos, k);
        k += 1;
    }
    proof {
        lemma_stable_order_unique(views, descending, positions(order@));
    }
    order
}

} // verus!
