//! The order in which overlapping entities are drawn.
//!
//! Entities are drawn back to front: one that stands higher up the board
//! (a smaller `y`) is drawn before one that stands lower, and of two at the
//! same height the one that comes first in the collection is drawn first.
//! The collection itself is never reordered.

use vstd::prelude::*;
use crate::entity::{entity_views, Entity, EntityView};

verus! {

/// The depth of an entity: the height at which it is drawn.
pub open spec fn depth_of(e: EntityView) -> i32 {
    e.coords().1
}

/// Whether an entry `(depth, index)` is drawn before another.
pub open spec fn drawn_before(a: (i32, usize), b: (i32, usize)) -> bool {
    a.0 < b.0 || (a.0 == b.0 && a.1 < b.1)
}

/// Whether some entry of `order` names the entity at place `k`.
pub open spec fn names(order: Seq<(i32, usize)>, k: int) -> bool {
    exists|i: int| 0 <= i < order.len() && (#[trigger] order[i]).1 == k
}

/// Whether `order` is the draw order of `entities`: it names every entity
/// once, each with its depth, and each entry is drawn before the next.
pub open spec fn is_depth_order(entities: Seq<EntityView>, order: Seq<(i32, usize)>) -> bool {
    &&& order.len() == entities.len()
    &&& forall|i: int|
        0 <= i < order.len() ==> (#[trigger] order[i]).1 < entities.len() && order[i].0
            == depth_of(entities[order[i].1 as int])
    &&& forall|i: int, j: int|
        0 <= i < j < order.len() ==> drawn_before(#[trigger] order[i], #[trigger] order[j])
    &&& forall|k: int| 0 <= k < entities.len() ==> #[trigger] names(order, k)
}

/// The draw order of the entities, as pairs of a depth and a place in the
/// collection, back to front. The collection is left as it is.
pub fn order_sort(entities: &Vec<Entity>) -> (order: Vec<(i32, usize)>)
    ensures
        is_depth_order(entity_views(entities@), order@),
{
    let ghost views = entity_views(entities@);
    let mut order: Vec<(i32, usize)> = Vec::new();
    let mut k: usize = 0;
    while k < entities.len()
        invariant
            k <= entities.len(),
            views == entity_views(entities@),
            order.len() == k,
            forall|i: int|
                0 <= i < order.len() ==> (#[trigger] order@[i]).1 < k && order@[i].0 == depth_of(
                    views[order@[i].1 as int],
                ),
            forall|i: int, j: int|
                0 <= i < j < order.len() ==> drawn_before(
                    #[trigger] order@[i],
                    #[trigger] order@[j],
                ),
            forall|idx: int| 0 <= idx < k ==> #[trigger] names(order@, idx),
        decreases entities.len() - k,
    {
        let depth = entities[k].get_coords().1;
        assert(depth == depth_of(views[k as int]));
        let mut p: usize = order.len();
        while p > 0 && order[p - 1].0 > depth
            invariant
                p <= order.len(),
                forall|i: int| p <= i < order.len() ==> (#[trigger] order@[i]).0 > depth,
            decreases p,
        {
            p -= 1;
        }
        let ghost before = order@;
        order.insert(p, (depth, k));
        proof {
            let after = order@;
            assert(after == before.insert(p as int, (depth, k)));
            assert forall|i: int| 0 <= i < after.len() implies (#[trigger] after[i]).1 < k + 1
                && after[i].0 == depth_of(views[after[i].1 as int]) by {
                if i < p {
                    assert(after[i] == before[i]);
                } else if i > p {
                    assert(after[i] == before[i - 1]);
                }
            }
            assert forall|i: int, j: int| 0 <= i < j < after.len() implies drawn_before(
                #[trigger] after[i],
                #[trigger] after[j],
            ) by {
                if j < p {
                    assert(after[i] == before[i] && after[j] == before[j]);
                } else if j == p {
                    assert(after[i] == before[i]);
                    if p > 0 {
                        assert(before[p - 1].0 <= depth);
                        if i < p - 1 {
                            assert(drawn_before(before[i], before[p - 1]));
                        }
                    }
                    assert(before[i].1 < k);
                } else if i < p {
                    assert(after[i] == before[i] && after[j] == before[j - 1]);
                } else if i == p {
                    assert(after[j] == before[j - 1]);
                } else {
                    assert(after[i] == before[i - 1] && after[j] == before[j - 1]);
                }
            }
            assert forall|idx: int| 0 <= idx < k + 1 implies #[trigger] names(after, idx) by {
                if idx == k {
                    assert(after[p as int].1 == idx);
                } else {
                    assert(names(before, idx));
                    let i = choose|i: int| 0 <= i < before.len() && (#[trigger] before[i]).1 == idx;
                    if i < p {
                        assert(after[i].1 == idx);
                    } else {
                        assert(after[i + 1] == before[i]);
                        assert(after[i + 1].1 == idx);
                    }
                }
            }
        }
        k += 1;
    }
    order
}

/// The draw order is settled by the entities' positions alone: two orders
/// of the same collection are the same order.
pub proof fn lemma_depth_order_unique(
    entities: Seq<EntityView>,
    a: Seq<(i32, usize)>,
    b: Seq<(i32, usize)>,
)
    requires
        is_depth_order(entities, a),
        is_depth_order(entities, b),
    ensures
        a == b,
{
    lemma_same_entries(entities, a, b, 0);
    assert(a =~= b);
}

/// Two orders of one collection agree from place `from` on, given that
/// they agree before it.
proof fn lemma_same_entries(
    entities: Seq<EntityView>,
    a: Seq<(i32, usize)>,
    b: Seq<(i32, usize)>,
    from: int,
)
    requires
        is_depth_order(entities, a),
        is_depth_order(entities, b),
        0 <= from <= a.len(),
        forall|i: int| 0 <= i < from ==> a[i] == b[i],
    ensures
        forall|i: int| 0 <= i < a.len() ==> a[i] == b[i],
    decreases a.len() - from,
{
    if from < a.len() {
        // The entry of `a` at `from` stands somewhere in `b`, and not before `from`.
        let ka = a[from].1 as int;
        assert(names(b, ka));
        let jb = choose|j: int| 0 <= j < b.len() && (#[trigger] b[j]).1 == ka;
        assert(b[jb] == a[from]);
        let kb = b[from].1 as int;
        assert(names(a, kb));
        let ja = choose|j: int| 0 <= j < a.len() && (#[trigger] a[j]).1 == kb;
        assert(a[ja] == b[from]);
        if jb < from {
            assert(a[jb] == b[jb]);
            assert(drawn_before(a[jb], a[from]));
        }
        if ja < from {
            assert(b[ja] == a[ja]);
            assert(drawn_before(b[ja], b[from]));
        }
        if jb > from {
            assert(drawn_before(b[from], b[jb]));
            if ja > from {
                assert(drawn_before(a[from], a[ja]));
            }
        }
        assert(a[from] == b[from]);
        lemma_same_entries(entities, a, b, from + 1);
    }
}

} // verus!
