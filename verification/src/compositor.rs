//! The depth compositor: a painter's algorithm over vertical anchors.
//!
//! What stands lower on the screen is nearer to the viewer, so it is painted
//! later. The order is a stable ascending sort of the anchors: among equal
//! anchors, what came first in the collection is painted first.

use vstd::prelude::*;
use vstd::relations::{sorted_by, total_ordering};
use vstd::seq_lib::{lemma_sorted_unique, to_multiset_remove};
use vstd::set_lib::{lemma_int_range, lemma_len_subset, lemma_subset_equality, set_int_range};
use crate::traits::Drawable;

verus! {

/// Whether entity `a` is painted before entity `b`: its anchor is smaller, or
/// the anchors are equal and it comes earlier in the collection.
pub open spec fn paints_before(anchors: Seq<i64>, a: int, b: int) -> bool {
    anchors[a] < anchors[b] || (anchors[a] == anchors[b] && a < b)
}

/// Whether `run` lists entities of `anchors`, each at most once, so that every
/// one is painted before all that follow it.
pub open spec fn is_painted_run(anchors: Seq<i64>, run: Seq<usize>) -> bool {
    &&& forall|i: int| 0 <= i < run.len() ==> (#[trigger] run[i]) < anchors.len()
    &&& forall|i: int, j: int|
        0 <= i < j < run.len() ==> paints_before(anchors, #[trigger] run[i] as int, #[trigger] run[j] as int)
}

/// Whether `order` is the order in which the entities with these anchors are
/// painted: all of them, each before all that follow it.
pub open spec fn is_draw_order(anchors: Seq<i64>, order: Seq<usize>) -> bool {
    order.len() == anchors.len() && is_painted_run(anchors, order)
}

/// The anchors of a collection of entities, in the collection's order.
pub open spec fn anchors_of<T: Drawable>(entities: Seq<T>) -> Seq<i64> {
    Seq::new(entities.len(), |i: int| entities[i].position().1)
}

/// The anchors in the order in which they are painted.
pub open spec fn painted_anchors(anchors: Seq<i64>, order: Seq<usize>) -> Seq<i64> {
    Seq::new(order.len(), |i: int| anchors[order[i] as int])
}

/// Merges two painted runs, the first over entities before `mid` and the
/// second over entities from `mid` on, into one.
fn merge_runs(anchors: &Vec<i64>, left: &Vec<usize>, right: &Vec<usize>, mid: usize) -> (out: Vec<usize>)
    requires
        is_painted_run(anchors@, left@),
        is_painted_run(anchors@, right@),
        forall|i: int| 0 <= i < left@.len() ==> (#[trigger] left@[i]) < mid,
        forall|i: int| 0 <= i < right@.len() ==> (#[trigger] right@[i]) >= mid,
        left@.len() + right@.len() <= usize::MAX,
    ensures
        is_painted_run(anchors@, out@),
        out@.len() == left@.len() + right@.len(),
        forall|k: int|
            0 <= k < out@.len() ==> left@.contains(#[trigger] out@[k]) || right@.contains(out@[k]),
{
    let mut out: Vec<usize> = Vec::new();
    let mut i: usize = 0;
    let mut j: usize = 0;
    while i < left.len() || j < right.len()
        invariant
            i <= left@.len(),
            j <= right@.len(),
            out@.len() == i + j,
            is_painted_run(anchors@, left@),
            is_painted_run(anchors@, right@),
            is_painted_run(anchors@, out@),
            forall|k: int| 0 <= k < left@.len() ==> (#[trigger] left@[k]) < mid,
            forall|k: int| 0 <= k < right@.len() ==> (#[trigger] right@[k]) >= mid,
            forall|k: int|
                0 <= k < out@.len() && i < left@.len() ==> paints_before(
                    anchors@,
                    #[trigger] out@[k] as int,
                    left@[i as int] as int,
                ),
            forall|k: int|
                0 <= k < out@.len() && j < right@.len() ==> paints_before(
                    anchors@,
                    #[trigger] out@[k] as int,
                    right@[j as int] as int,
                ),
            forall|k: int|
                0 <= k < out@.len() ==> left@.contains(#[trigger] out@[k]) || right@.contains(out@[k]),
        decreases left@.len() - i + right@.len() - j,
    {
        let take_left = if i >= left.len() {
            false
        } else if j >= right.len() {
            true
        } else {
            anchors[left[i]] <= anchors[right[j]]
        };
        let ghost before = out@;
        if take_left {
            let e = left[i];
            out.push(e);
            i += 1;
            assert(left@.contains(e)) by {
                assert(left@[i - 1] == e);
            }
        } else {
            let e = right[j];
            out.push(e);
            j += 1;
            assert(right@.contains(e)) by {
                assert(right@[j - 1] == e);
            }
        }
        assert(forall|k: int| 0 <= k < before.len() ==> out@[k] == before[k]);
    }
    out
}

/// Paints the entities from `lo` up to `hi` in order.
fn order_range(anchors: &Vec<i64>, lo: usize, hi: usize) -> (run: Vec<usize>)
    requires
        lo <= hi <= anchors@.len(),
    ensures
        is_painted_run(anchors@, run@),
        run@.len() == hi - lo,
        forall|k: int| 0 <= k < run@.len() ==> lo <= (#[trigger] run@[k]) < hi,
    decreases hi - lo,
{
    if hi - lo == 0 {
        Vec::new()
    } else if hi - lo == 1 {
        let mut run: Vec<usize> = Vec::new();
        run.push(lo);
        run
    } else {
        let mid = lo + (hi - lo) / 2;
        let left = order_range(anchors, lo, mid);
        let right = order_range(anchors, mid, hi);
        let run = merge_runs(anchors, &left, &right, mid);
        assert forall|k: int| 0 <= k < run@.len() implies lo <= (#[trigger] run@[k]) < hi by {
            if left@.contains(run@[k]) {
                let p = choose|p: int| 0 <= p < left@.len() && left@[p] == run@[k];
                assert(lo <= left@[p] < mid);
            } else {
                let p = choose|p: int| 0 <= p < right@.len() && right@[p] == run@[k];
                assert(mid <= right@[p] < hi);
            }
        }
        run
    }
}

/// Finds the order in which entities with the given anchors are painted: a
/// stable ascending sort of the anchors, returned as positions in `anchors`.
pub fn stable_order(anchors: &Vec<i64>) -> (order: Vec<usize>)
    ensures
        is_draw_order(anchors@, order@),
{
    order_range(anchors, 0, anchors.len())
}

/// Finds the order in which a collection of entities is painted, as positions
/// in the collection. The caller paints `entities[order[0]]` first.
pub fn paint<T: Drawable>(entities: &Vec<T>) -> (order: Vec<usize>)
    ensures
        is_draw_order(anchors_of(entities@), order@),
{
    let mut anchors: Vec<i64> = Vec::new();
    let mut i: usize = 0;
    while i < entities.len()
        invariant
            i <= entities@.len(),
            anchors@.len() == i,
            forall|k: int| 0 <= k < i ==> #[trigger] anchors@[k] == entities@[k].position().1,
        decreases entities@.len() - i,
    {
        let p = entities[i].get_position();
        anchors.push(p.1);
        i += 1;
    }
    assert(anchors@ =~= anchors_of(entities@));
    stable_order(&anchors)
}

/// Whether `order` lists every position below its length exactly once.
pub open spec fn is_permutation(order: Seq<usize>) -> bool {
    &&& forall|i: int| 0 <= i < order.len() ==> (#[trigger] order[i]) < order.len()
    &&& forall|i: int, j: int| 0 <= i < j < order.len() ==> order[i] != order[j]
}

/// A draw order names every entity exactly once.
pub proof fn lemma_draw_order_is_permutation(anchors: Seq<i64>, order: Seq<usize>)
    requires
        is_draw_order(anchors, order),
    ensures
        is_permutation(order),
{
}

/// A permutation is no longer than there are positions to name.
pub proof fn lemma_permutation_fits(order: Seq<usize>)
    requires
        is_permutation(order),
    ensures
        order.len() <= usize::MAX + 1,
{
    let ints = order.map_values(|v: usize| v as int);
    assert(ints.no_duplicates());
    ints.unique_seq_to_set();
    lemma_int_range(0, usize::MAX + 1);
    assert(ints.to_set().subset_of(set_int_range(0, usize::MAX + 1))) by {
        assert forall|v: int| ints.to_set().contains(v) implies set_int_range(
            0,
            usize::MAX + 1,
        ).contains(v) by {
            let k = choose|k: int| 0 <= k < ints.len() && ints[k] == v;
            assert(ints[k] == order[k]);
        }
    }
    lemma_len_subset(ints.to_set(), set_int_range(0, usize::MAX + 1));
}

/// Every position occurs in a permutation; the lemma hands back where.
pub proof fn lemma_permutation_covers(order: Seq<usize>, e: usize) -> (p: int)
    requires
        is_permutation(order),
        e < order.len(),
    ensures
        0 <= p < order.len(),
        order[p] == e,
{
    let n = order.len() as int;
    let ints = order.map_values(|v: usize| v as int);
    assert(ints.no_duplicates());
    ints.unique_seq_to_set();
    lemma_int_range(0, n);
    assert(ints.to_set().subset_of(set_int_range(0, n))) by {
        assert forall|v: int| ints.to_set().contains(v) implies set_int_range(0, n).contains(v) by {
            let k = choose|k: int| 0 <= k < ints.len() && ints[k] == v;
            assert(order[k] < order.len());
        }
    }
    lemma_subset_equality(ints.to_set(), set_int_range(0, n));
    assert(set_int_range(0, n).contains(e as int));
    assert(ints.contains(e as int));
    let p = choose|p: int| 0 <= p < ints.len() && ints[p] == e as int;
    p
}

/// The draw order is fixed by the anchors: two orders that both meet
/// [`is_draw_order`] are the same.
pub proof fn lemma_draw_order_unique(anchors: Seq<i64>, first: Seq<usize>, second: Seq<usize>)
    requires
        is_draw_order(anchors, first),
        is_draw_order(anchors, second),
    ensures
        first == second,
{
    assert forall|i: int| 0 <= i < first.len() implies first[i] == second[i] by {
        lemma_draw_order_agrees_up_to(anchors, first, second, i);
    }
    assert(first =~= second);
}

proof fn lemma_draw_order_agrees_up_to(anchors: Seq<i64>, first: Seq<usize>, second: Seq<usize>, i: int)
    requires
        is_draw_order(anchors, first),
        is_draw_order(anchors, second),
        0 <= i < first.len(),
    ensures
        first[i] == second[i],
    decreases i,
{
    assert forall|k: int| 0 <= k < i implies first[k] == second[k] by {
        lemma_draw_order_agrees_up_to(anchors, first, second, k);
    }
    let a = first[i];
    let b = second[i];
    if a != b {
        // Each of the two entities stands later in the other order, so each
        // would have to be painted before the other.
        let p = lemma_permutation_covers(second, a);
        let q = lemma_permutation_covers(first, b);
        assert(p > i) by {
            if p < i {
                assert(first[p] == second[p]);
            }
        }
        assert(q > i) by {
            if q < i {
                assert(first[q] == second[q]);
            }
        }
        assert(paints_before(anchors, second[i] as int, second[p] as int));
        assert(paints_before(anchors, first[i] as int, first[q] as int));
    }
}

/// Entities whose anchors already ascend are painted in the order in which they
/// stand, ties included.
pub proof fn lemma_ascending_input_keeps_order(anchors: Seq<i64>, order: Seq<usize>)
    requires
        forall|i: int, j: int| 0 <= i < j < anchors.len() ==> anchors[i] <= anchors[j],
        is_draw_order(anchors, order),
    ensures
        forall|i: int| 0 <= i < order.len() ==> order[i] == i,
{
    lemma_permutation_fits(order);
    let identity = Seq::new(anchors.len(), |i: int| i as usize);
    assert(is_draw_order(anchors, identity));
    lemma_draw_order_unique(anchors, order, identity);
}

/// Painting shows the anchors in ascending order.
pub proof fn lemma_painted_anchors_ascend(anchors: Seq<i64>, order: Seq<usize>)
    requires
        is_draw_order(anchors, order),
    ensures
        forall|i: int, j: int|
            0 <= i < j < order.len() ==> painted_anchors(anchors, order)[i] <= painted_anchors(
                anchors,
                order,
            )[j],
{
    assert forall|i: int, j: int| 0 <= i < j < order.len() implies painted_anchors(anchors, order)[i]
        <= painted_anchors(anchors, order)[j] by {
        assert(paints_before(anchors, order[i] as int, order[j] as int));
    }
}

/// Reading a sequence through a permutation of its positions keeps what it
/// holds, each value as often as before.
pub proof fn lemma_painted_anchors_same_multiset(anchors: Seq<i64>, order: Seq<usize>)
    requires
        order.len() == anchors.len(),
        is_permutation(order),
    ensures
        painted_anchors(anchors, order).to_multiset() == anchors.to_multiset(),
    decreases anchors.len(),
{
    let painted = painted_anchors(anchors, order);
    if anchors.len() == 0 {
        assert(painted =~= anchors);
    } else {
        lemma_permutation_fits(order);
        let last = (anchors.len() - 1) as usize;
        let p = lemma_permutation_covers(order, last);
        let fewer = anchors.remove(last as int);
        let shorter = order.remove(p);
        assert(is_permutation(shorter)) by {
            assert forall|i: int| 0 <= i < shorter.len() implies (#[trigger] shorter[i])
                < shorter.len() by {
                let k = if i < p { i } else { i + 1 };
                assert(shorter[i] == order[k]);
                assert(order[k] != order[p]);
            }
            assert forall|i: int, j: int| 0 <= i < j < shorter.len() implies shorter[i]
                != shorter[j] by {
                let ki = if i < p { i } else { i + 1 };
                let kj = if j < p { j } else { j + 1 };
                assert(shorter[i] == order[ki]);
                assert(shorter[j] == order[kj]);
            }
        }
        lemma_painted_anchors_same_multiset(fewer, shorter);
        assert(painted_anchors(fewer, shorter) =~= painted.remove(p)) by {
            assert forall|i: int| 0 <= i < shorter.len() implies painted_anchors(fewer, shorter)[i]
                == painted.remove(p)[i] by {
                let k = if i < p { i } else { i + 1 };
                assert(shorter[i] == order[k]);
                assert(order[k] != order[p]);
                assert(order[k] < order.len());
                assert(fewer[order[k] as int] == anchors[order[k] as int]);
                assert(painted.remove(p)[i] == painted[k]);
            }
        }
        to_multiset_remove(painted, p);
        to_multiset_remove(anchors, last as int);
        assert(painted[p] == anchors[last as int]);
        assert(painted.to_multiset() =~= painted.to_multiset().remove(painted[p]).insert(painted[p]))
            by {
            broadcast use vstd::seq_lib::group_to_multiset_ensures;
            broadcast use vstd::multiset::group_multiset_axioms;

            assert(painted.to_multiset().count(painted[p]) > 0);
        }
        assert(anchors.to_multiset() =~= anchors.to_multiset().remove(anchors[last as int]).insert(
            anchors[last as int],
        )) by {
            broadcast use vstd::seq_lib::group_to_multiset_ensures;
            broadcast use vstd::multiset::group_multiset_axioms;

            assert(anchors.to_multiset().count(anchors[last as int]) > 0);
        }
    }
}

/// What is painted, and in which order, does not depend on the order in which
/// the entities were handed over: two collections that hold the same anchors,
/// each as often as the other, show the same sequence of anchors.
pub proof fn lemma_painting_ignores_input_order(
    anchors: Seq<i64>,
    order: Seq<usize>,
    shuffled: Seq<i64>,
    shuffled_order: Seq<usize>,
)
    requires
        is_draw_order(anchors, order),
        is_draw_order(shuffled, shuffled_order),
        anchors.to_multiset() == shuffled.to_multiset(),
    ensures
        painted_anchors(anchors, order) == painted_anchors(shuffled, shuffled_order),
{
    let leq = |a: i64, b: i64| a <= b;
    let x = painted_anchors(anchors, order);
    let y = painted_anchors(shuffled, shuffled_order);
    lemma_painted_anchors_ascend(anchors, order);
    lemma_painted_anchors_ascend(shuffled, shuffled_order);
    lemma_painted_anchors_same_multiset(anchors, order);
    lemma_painted_anchors_same_multiset(shuffled, shuffled_order);
    assert(sorted_by(x, leq)) by {
        assert forall|i: int, j: int| 0 <= i < j < x.len() implies #[trigger] leq(x[i], x[j]) by {
            assert(x[i] <= x[j]);
        }
    }
    assert(sorted_by(y, leq)) by {
        assert forall|i: int, j: int| 0 <= i < j < y.len() implies #[trigger] leq(y[i], y[j]) by {
            assert(y[i] <= y[j]);
        }
    }
    assert(total_ordering(leq));
    lemma_sorted_unique(x, y, leq);
}

} // verus!
