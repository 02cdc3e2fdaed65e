//! The order in which a list shows its rows: by a text of each row, in the
//! order of a dictionary, rows with the same text in the order they came in.

use vstd::prelude::*;
use vstd::set_lib::{lemma_int_range, lemma_set_subset_finite, lemma_subset_equality, set_int_range};
use crate::text::{lex_le, text_le};

verus! {

/// Whether `order` lists the positions of `keys` so that the keys ascend and
/// equal keys keep the order of their positions. There is one such order for
/// every list of keys.
pub open spec fn is_stable_order(keys: Seq<Seq<char>>, order: Seq<usize>) -> bool {
    &&& order.len() == keys.len()
    &&& forall|i: int| 0 <= i < order.len() ==> (#[trigger] order[i]) < keys.len()
    &&& forall|i: int, j: int|
        0 <= i < j < order.len() ==> {
            &&& (#[trigger] order[i]) != (#[trigger] order[j])
            &&& lex_le(keys[order[i] as int], keys[order[j] as int])
            &&& keys[order[i] as int] == keys[order[j] as int] ==> order[i] < order[j]
        }
}

/// The items in the order that `order` gives: its first position first.
pub open spec fn arranged<T>(items: Seq<T>, order: Seq<usize>) -> Seq<T> {
    Seq::new(order.len(), |i: int| items[order[i] as int])
}

/// The positions of a list in the order they came in.
pub fn identity_order(count: usize) -> (order: Vec<usize>)
    ensures
        order.len() == count,
        forall|i: int| 0 <= i < count ==> order[i] == i,
{
    let mut order: Vec<usize> = Vec::new();
    let mut i: usize = 0;
    while i < count
        invariant
            i <= count,
            order.len() == i,
            forall|k: int| 0 <= k < i ==> order[k] == k,
        decreases count - i,
    {
        order.push(i);
        i += 1;
    }
    order
}

/// Every text is at most itself.
pub proof fn lex_le_reflexive(a: Seq<char>)
    ensures
        lex_le(a, a),
    decreases a.len(),
{
    if a.len() > 0 {
        lex_le_reflexive(a.drop_first());
    }
}

/// Of two texts one is at most the other.
pub proof fn lex_le_total(a: Seq<char>, b: Seq<char>)
    ensures
        lex_le(a, b) || lex_le(b, a),
    decreases a.len(),
{
    if a.len() > 0 && b.len() > 0 && a[0] == b[0] {
        lex_le_total(a.drop_first(), b.drop_first());
    }
}

/// What is at most a text that is at most a third one is at most the third.
pub proof fn lex_le_transitive(a: Seq<char>, b: Seq<char>, c: Seq<char>)
    requires
        lex_le(a, b),
        lex_le(b, c),
    ensures
        lex_le(a, c),
    decreases a.len(),
{
    if a.len() > 0 && b.len() > 0 && c.len() > 0 && a[0] == b[0] && b[0] == c[0] {
        lex_le_transitive(a.drop_first(), b.drop_first(), c.drop_first());
    }
}

/// Two texts that are at most each other are the same text.
pub proof fn lex_le_antisymmetric(a: Seq<char>, b: Seq<char>)
    requires
        lex_le(a, b),
        lex_le(b, a),
    ensures
        a == b,
    decreases a.len(),
{
    if a.len() > 0 && b.len() > 0 {
        let rest_a = a.drop_first();
        let rest_b = b.drop_first();
        assert(a[0] == b[0]);
        lex_le_antisymmetric(rest_a, rest_b);
        assert(a.len() == b.len());
        assert forall|i: int| 0 <= i < a.len() implies a[i] == b[i] by {
            if i > 0 {
                assert(a[i] == rest_a[i - 1]);
                assert(b[i] == rest_b[i - 1]);
            }
        }
        assert(a =~= b);
    } else {
        assert(a.len() == 0 && b.len() == 0);
        assert(a =~= b);
    }
}

/// An order holds every position of its keys.
pub proof fn order_holds_every_position(keys: Seq<Seq<char>>, order: Seq<usize>, wanted: int)
    requires
        is_stable_order(keys, order),
        0 <= wanted < keys.len(),
    ensures
        exists|at: int| 0 <= at < order.len() && order[at] == wanted,
{
    let positions = order.map_values(|p: usize| p as int);
    let all = set_int_range(0, keys.len() as int);
    assert(positions.no_duplicates()) by {
        assert forall|i: int, j: int|
            0 <= i < positions.len() && 0 <= j < positions.len() && i != j implies positions[i]
            != positions[j] by {
            if i < j {
                assert(order[i] != order[j]);
            } else {
                assert(order[j] != order[i]);
            }
        }
    }
    positions.unique_seq_to_set();
    lemma_int_range(0, keys.len() as int);
    assert(positions.to_set().subset_of(all)) by {
        assert forall|v: int| positions.to_set().contains(v) implies all.contains(v) by {
            let at = choose|at: int| 0 <= at < positions.len() && positions[at] == v;
            assert(order[at] < keys.len());
        }
    }
    lemma_set_subset_finite(all, positions.to_set());
    lemma_subset_equality(positions.to_set(), all);
    assert(all.contains(wanted));
    assert(positions.contains(wanted));
    let at = choose|at: int| 0 <= at < positions.len() && positions[at] == wanted;
    assert(order[at] == wanted);
}

/// There is one stable order for every list of keys: two orders of the same
/// keys are the same order.
pub proof fn stable_order_is_unique(keys: Seq<Seq<char>>, first: Seq<usize>, second: Seq<usize>)
    requires
        is_stable_order(keys, first),
        is_stable_order(keys, second),
    ensures
        first == second,
{
    assert forall|at: int| 0 <= at < first.len() implies first[at] == second[at] by {
        same_up_to(keys, first, second, at);
    }
    assert(first =~= second);
}

/// Two stable orders of the same keys agree at every place up to `at`.
proof fn same_up_to(keys: Seq<Seq<char>>, first: Seq<usize>, second: Seq<usize>, at: int)
    requires
        is_stable_order(keys, first),
        is_stable_order(keys, second),
        0 <= at < first.len(),
    ensures
        forall|k: int| 0 <= k <= at ==> first[k] == second[k],
    decreases at,
{
    if at > 0 {
        same_up_to(keys, first, second, at - 1);
    }
    let x = first[at];
    let y = second[at];
    if x != y {
        order_holds_every_position(keys, second, x as int);
        let x_in_second = choose|p: int| 0 <= p < second.len() && second[p] == x as int;
        order_holds_every_position(keys, first, y as int);
        let y_in_first = choose|p: int| 0 <= p < first.len() && first[p] == y as int;
        // neither stands at an earlier place, where the orders agree
        if x_in_second < at {
            assert(first[x_in_second] == second[x_in_second]);
            assert(first[x_in_second] != first[at]);
        }
        if y_in_first < at {
            assert(first[y_in_first] == second[y_in_first]);
            assert(second[y_in_first] != second[at]);
        }
        assert(x_in_second > at);
        assert(y_in_first > at);
        // so each comes before the other, which equal keys forbid
        assert(lex_le(keys[second[at] as int], keys[second[x_in_second] as int]));
        assert(lex_le(keys[first[at] as int], keys[first[y_in_first] as int]));
        lex_le_antisymmetric(keys[x as int], keys[y as int]);
        assert(second[at] < second[x_in_second]);
        assert(first[at] < first[y_in_first]);
        assert(false);
    }
}

/// Whether `order` arranges the first `count` positions of `keys`.
spec fn arranges_first(keys: Seq<Seq<char>>, order: Seq<usize>, count: int) -> bool {
    &&& order.len() == count
    &&& forall|i: int| 0 <= i < order.len() ==> (#[trigger] order[i]) < count
    &&& forall|i: int, j: int|
        0 <= i < j < order.len() ==> {
            &&& (#[trigger] order[i]) != (#[trigger] order[j])
            &&& lex_le(keys[order[i] as int], keys[order[j] as int])
            &&& keys[order[i] as int] == keys[order[j] as int] ==> order[i] < order[j]
        }
}

/// Putting the next position behind every position whose key is at most its
/// own, and before the others, keeps the arrangement.
proof fn insert_keeps_arrangement(
    keys: Seq<Seq<char>>,
    order: Seq<usize>,
    count: usize,
    at: int,
)
    requires
        count < keys.len(),
        arranges_first(keys, order, count as int),
        0 <= at <= order.len(),
        at > 0 ==> lex_le(keys[order[at - 1] as int], keys[count as int]),
        forall|i: int|
            at <= i < order.len() ==> !lex_le(keys[(#[trigger] order[i]) as int], keys[count as int]),
    ensures
        arranges_first(keys, order.insert(at, count), count + 1),
{
    let next = order.insert(at, count);
    let key = keys[count as int];
    assert forall|i: int, j: int| 0 <= i < j < next.len() implies {
        &&& (#[trigger] next[i]) != (#[trigger] next[j])
        &&& lex_le(keys[next[i] as int], keys[next[j] as int])
        &&& keys[next[i] as int] == keys[next[j] as int] ==> next[i] < next[j]
    } by {
        if j == at {
            // next[i] lies before the new position
            assert(next[i] == order[i]);
            if i < at - 1 {
                assert(lex_le(keys[order[i] as int], keys[order[at - 1] as int]));
                lex_le_transitive(keys[order[i] as int], keys[order[at - 1] as int], key);
            }
        } else if i == at {
            // next[j] lies behind the new position
            assert(next[j] == order[j - 1]);
            lex_le_total(keys[order[j - 1] as int], key);
            if keys[order[j - 1] as int] == key {
                lex_le_reflexive(key);
            }
        } else {
            let oi = if i < at { i } else { i - 1 };
            let oj = if j < at { j } else { j - 1 };
            assert(next[i] == order[oi]);
            assert(next[j] == order[oj]);
        }
    }
    assert forall|i: int| 0 <= i < next.len() implies (#[trigger] next[i]) < count + 1 by {
        if i < at {
            assert(next[i] == order[i]);
        } else if i > at {
            assert(next[i] == order[i - 1]);
        }
    }
}

/// The order in which rows with these keys are shown.
pub fn stable_order(keys: &Vec<String>) -> (order: Vec<usize>)
    ensures
        is_stable_order(keys.deep_view(), order@),
{
    let n = keys.len();
    let mut order: Vec<usize> = Vec::new();
    let mut count: usize = 0;
    while count < n
        invariant
            count <= n,
            n == keys.len(),
            arranges_first(keys.deep_view(), order@, count as int),
        decreases n - count,
    {
        let mut at: usize = order.len();
        while at > 0 && !text_le(keys[order[at - 1]].as_str(), keys[count].as_str())
            invariant
                at <= order.len(),
                count < n,
                n == keys.len(),
                arranges_first(keys.deep_view(), order@, count as int),
                forall|i: int|
                    at <= i < order.len() ==> !lex_le(
                        keys.deep_view()[(#[trigger] order@[i]) as int],
                        keys.deep_view()[count as int],
                    ),
            decreases at,
        {
            at -= 1;
        }
        proof {
            insert_keeps_arrangement(keys.deep_view(), order@, count, at as int);
        }
        order.insert(at, count);
        count += 1;
    }
    order
}

} // verus!
