//! Stable ordering of items by a key.
//!
//! An order is a list of positions: the position of the item that comes
//! first, then that of the second, and so on.

use vstd::prelude::*;

verus! {

/// A key by which items are ordered. The relation is total and transitive;
/// two keys may be equal in rank without being the same.
pub trait Ranked: Sized {
    /// Whether an item with this key may stand before one with the other.
    spec fn not_after(&self, other: &Self) -> bool;

    /// Whether an item with this key may stand before one with the other.
    fn is_not_after(&self, other: &Self) -> (r: bool)
        ensures
            r == self.not_after(other),
    ;

    /// Of two keys, one may stand before the other.
    proof fn lemma_total(a: &Self, b: &Self)
        ensures
            a.not_after(b) || b.not_after(a),
    ;

    /// The relation is transitive.
    proof fn lemma_transitive(a: &Self, b: &Self, c: &Self)
        requires
            a.not_after(b),
            b.not_after(c),
        ensures
            a.not_after(c),
    ;
}

/// Whether `order` lists each position of `keys` once.
pub open spec fn is_permutation<K>(keys: Seq<K>, order: Seq<usize>) -> bool {
    &&& order.len() == keys.len()
    &&& forall|i: int| 0 <= i < order.len() ==> (#[trigger] order[i]) < keys.len()
    &&& forall|i: int, j: int|
        0 <= i < j < order.len() ==> (#[trigger] order[i]) != (#[trigger] order[j])
}

/// Whether `order` is the stable ascending order of `keys`: it lists each
/// position once, no key stands before a lesser one, and keys of equal rank
/// stand as they did.
pub open spec fn is_stable_order<K: Ranked>(keys: Seq<K>, order: Seq<usize>) -> bool {
    &&& is_permutation(keys, order)
    &&& forall|i: int, j: int|
        0 <= i < j < order.len() ==> keys[(#[trigger] order[i]) as int].not_after(
            &keys[(#[trigger] order[j]) as int],
        )
    &&& forall|i: int, j: int|
        0 <= i < j < order.len() && keys[(#[trigger] order[j]) as int].not_after(
            &keys[(#[trigger] order[i]) as int],
        ) ==> order[i] < order[j]
}

/// The stable ascending order of the keys.
pub fn stable_order<K: Ranked>(keys: &Vec<K>) -> (order: Vec<usize>)
    ensures
        is_stable_order(keys@, order@),
{
    let mut order: Vec<usize> = Vec::new();
    let mut i: usize = 0;
    while i < keys.len()
        invariant
            i <= keys.len(),
            is_stable_order(keys@.take(i as int), order@),
        decreases keys.len() - i,
    {
        let ghost before = order@;
        let ghost prefix = keys@.take(i as int);
        let mut pos: usize = order.len();
        while pos > 0 && !keys[order[pos - 1]].is_not_after(&keys[i])
            invariant
                pos <= order.len(),
                order@ == before,
                i < keys.len(),
                prefix == keys@.take(i as int),
                is_stable_order(prefix, before),
                forall|b: int|
                    pos <= b < before.len() ==> !keys[(#[trigger] before[b]) as int].not_after(
                        &keys[i as int],
                    ),
            decreases pos,
        {
            pos -= 1;
        }
        order.insert(pos, i);
        proof {
            let after = order@;
            let grown = keys@.take(i + 1);
            assert(after.len() == before.len() + 1);
            assert forall|a: int| 0 <= a < after.len() implies (#[trigger] after[a]) < grown.len() by {
                if a < pos {
                    assert(after[a] == before[a]);
                } else if a > pos {
                    assert(after[a] == before[a - 1]);
                }
            }
            assert forall|a: int, b: int| 0 <= a < b < after.len() implies {
                &&& (#[trigger] after[a]) != (#[trigger] after[b])
                &&& grown[after[a] as int].not_after(&grown[after[b] as int])
                &&& (grown[after[b] as int].not_after(&grown[after[a] as int]) ==> after[a]
                    < after[b])
            } by {
                if b < pos {
                    assert(after[a] == before[a] && after[b] == before[b]);
                    assert(prefix[before[a] as int] == grown[before[a] as int]);
                    assert(prefix[before[b] as int] == grown[before[b] as int]);
                } else if a > pos {
                    assert(after[a] == before[a - 1] && after[b] == before[b - 1]);
                    assert(prefix[before[a - 1] as int] == grown[before[a - 1] as int]);
                    assert(prefix[before[b - 1] as int] == grown[before[b - 1] as int]);
                } else if a < pos && b > pos {
                    assert(after[a] == before[a] && after[b] == before[b - 1]);
                    assert(prefix[before[a] as int] == grown[before[a] as int]);
                    assert(prefix[before[b - 1] as int] == grown[before[b - 1] as int]);
                } else if b == pos {
                    // `a` stands before the new item.
                    assert(after[a] == before[a] && after[b] == i);
                    assert(before[a] < i);
                    assert(prefix[before[a] as int] == grown[before[a] as int]);
                    assert(before[pos - 1] < i);
                    assert(keys[before[pos - 1] as int].not_after(&keys[i as int]));
                    if a < pos - 1 {
                        assert(prefix[before[a] as int].not_after(
                            &prefix[before[pos - 1] as int],
                        ));
                        K::lemma_transitive(
                            &keys[before[a] as int],
                            &keys[before[pos - 1] as int],
                            &keys[i as int],
                        );
                    }
                } else {
                    // The new item stands before `b`.
                    assert(a == pos);
                    assert(after[a] == i && after[b] == before[b - 1]);
                    assert(before[b - 1] < i);
                    assert(!keys[before[b - 1] as int].not_after(&keys[i as int]));
                    K::lemma_total(&keys[before[b - 1] as int], &keys[i as int]);
                }
            }
        }
        i += 1;
    }
    assert(keys@.take(keys.len() as int) =~= keys@);
    order
}

/// The items in the given order.
pub open spec fn permuted<T>(items: Seq<T>, order: Seq<usize>) -> Seq<T> {
    Seq::new(order.len(), |i: int| items[order[i] as int])
}

/// Puts the items in the given order.
pub fn permute<T>(items: Vec<T>, order: &Vec<usize>) -> (r: Vec<T>)
    requires
        is_permutation(items@, order@),
    ensures
        r@ == permuted(items@, order@),
{
    let ghost source = items@;
    let mut slots: Vec<Option<T>> = Vec::new();
    let mut items = items;
    // The items are taken from the back, so the slots are filled in reverse.
    let mut n: usize = items.len();
    while n > 0
        invariant
            n == items.len(),
            items@ == source.take(n as int),
            slots.len() == source.len() - n,
            forall|k: int|
                0 <= k < slots.len() ==> slots[k] == Some(source[source.len() - 1 - k]),
        decreases n,
    {
        let item = items.pop();
        n -= 1;
        slots.push(item);
        assert(items@ =~= source.take(n as int));
    }
    let count = slots.len();
    let mut out: Vec<T> = Vec::new();
    let mut i: usize = 0;
    while i < order.len()
        invariant
            i <= order.len(),
            count == source.len(),
            slots.len() == count,
            is_permutation(source, order@),
            out.len() == i,
            forall|k: int| 0 <= k < i ==> out[k] == source[order[k] as int],
            forall|k: int|
                0 <= k < count ==> (#[trigger] slots[k]) == (if exists|a: int|
                    0 <= a < i && order[a] == count - 1 - k {
                    None
                } else {
                    Some(source[count - 1 - k])
                }),
        decreases order.len() - i,
    {
        let at = count - 1 - order[i];
        let ghost old_slots = slots@;
        assert(!(exists|a: int| 0 <= a < i && order[a] == count - 1 - at)) by {
            if exists|a: int| 0 <= a < i && order[a] == count - 1 - at {
                let a = choose|a: int| 0 <= a < i && order[a] == count - 1 - at;
                assert(order[a] != order[i as int]);
            }
        }
        let mut taken: Option<T> = None;
        core::mem::swap(&mut taken, &mut slots[at]);
        match taken {
            Some(item) => {
                out.push(item);
            },
            None => {
                assert(false);
            },
        }
        proof {
            assert forall|k: int| 0 <= k < count implies (#[trigger] slots[k]) == (if exists|
                a: int,
            |
                0 <= a < i + 1 && order[a] == count - 1 - k {
                None
            } else {
                Some(source[count - 1 - k])
            }) by {
                if k == at {
                    assert(order[i as int] == count - 1 - k);
                } else {
                    assert(slots[k] == old_slots[k]);
                    if exists|a: int| 0 <= a < i + 1 && order[a] == count - 1 - k {
                        let a = choose|a: int| 0 <= a < i + 1 && order[a] == count - 1 - k;
                        assert(a < i);
                    }
                }
            }
        }
        i += 1;
    }
    assert(out@ =~= permuted(source, order@));
    out
}

/// An order that lists each position once lists every position.
pub proof fn lemma_permutation_covers<K>(keys: Seq<K>, order: Seq<usize>, position: int)
    requires
        is_permutation(keys, order),
        0 <= position < keys.len(),
    ensures
        exists|i: int| 0 <= i < order.len() && (#[trigger] order[i]) == position,
{
    let n = keys.len() as int;
    let places = Seq::new(order.len(), |i: int| order[i] as int);
    assert(places.no_duplicates()) by {
        assert forall|i: int, j: int|
            0 <= i < places.len() && 0 <= j < places.len() && i != j implies places[i]
            != places[j] by {
            if i < j {
                assert(order[i] != order[j]);
            } else {
                assert(order[j] != order[i]);
            }
        }
    }
    places.unique_seq_to_set();
    vstd::seq_lib::seq_to_set_is_finite(places);
    vstd::set_lib::lemma_int_range(0, n);
    let range = vstd::set_lib::set_int_range(0, n);
    assert(places.to_set().subset_of(range)) by {
        assert forall|v: int| places.to_set().contains(v) implies range.contains(v) by {
            let i = choose|i: int| 0 <= i < places.len() && places[i] == v;
            assert(order[i] < keys.len());
        }
    }
    vstd::set_lib::lemma_subset_equality(places.to_set(), range);
    assert(range.contains(position));
    assert(places.to_set().contains(position));
    let i = choose|i: int| 0 <= i < places.len() && places[i] == position;
    assert(order[i] == position);
}

/// Whether position `a` has to stand before position `b`: its key is the
/// lesser one, or the keys are of equal rank and `a` is the earlier
/// position.
pub open spec fn stands_before<K: Ranked>(keys: Seq<K>, a: int, b: int) -> bool {
    if keys[b].not_after(&keys[a]) {
        keys[a].not_after(&keys[b]) && a < b
    } else {
        true
    }
}

/// The keys have one stable order only: whatever puts them in stable order
/// puts them in the same order.
pub proof fn lemma_stable_order_is_unique<K: Ranked>(
    keys: Seq<K>,
    first: Seq<usize>,
    second: Seq<usize>,
)
    requires
        is_stable_order(keys, first),
        is_stable_order(keys, second),
    ensures
        first == second,
{
    assert forall|i: int| 0 <= i < first.len() implies first[i] == second[i] by {
        lemma_orders_agree(keys, first, second, i);
    }
    assert(first =~= second);
}

proof fn lemma_sorted_pair<K: Ranked>(keys: Seq<K>, order: Seq<usize>, i: int, j: int)
    requires
        is_stable_order(keys, order),
        0 <= i < j < order.len(),
    ensures
        stands_before(keys, order[i] as int, order[j] as int),
{
    assert(keys[order[i] as int].not_after(&keys[order[j] as int]));
}

proof fn lemma_orders_agree<K: Ranked>(
    keys: Seq<K>,
    first: Seq<usize>,
    second: Seq<usize>,
    i: int,
)
    requires
        is_stable_order(keys, first),
        is_stable_order(keys, second),
        0 <= i < first.len(),
    ensures
        first[i] == second[i],
    decreases i,
{
    // The positions before `i` agree.
    assert forall|k: int| 0 <= k < i implies first[k] == second[k] by {
        lemma_orders_agree(keys, first, second, k);
    }
    let x = first[i];
    let y = second[i];
    assert(x < keys.len());
    assert(y < keys.len());
    if x != y {
        lemma_permutation_covers(keys, second, x as int);
        let j = choose|j: int| 0 <= j < second.len() && (#[trigger] second[j]) == x;
        if j < i {
            assert(first[j] == second[j]);
            assert(first[j] != first[i]);
        }
        assert(j > i);
        lemma_sorted_pair(keys, second, i, j);
        lemma_permutation_covers(keys, first, y as int);
        let m = choose|m: int| 0 <= m < first.len() && (#[trigger] first[m]) == y;
        if m < i {
            assert(first[m] == second[m]);
            assert(second[m] != second[i]);
        }
        assert(m > i);
        lemma_sorted_pair(keys, first, i, m);
        // Each of the two stands before the other, which cannot be.
        K::lemma_total(&keys[x as int], &keys[y as int]);
        assert(false);
    }
}

} // verus!
