//! The list of a surface's subsurfaces, from the bottom to the top.

use vstd::prelude::*;

use crate::surface::SubsurfaceChild;

verus! {

/// Position of the first entry for `id`; the length of the list where there is
/// none.
pub open spec fn position(children: Seq<SubsurfaceChild>, id: u64) -> int
    decreases children.len(),
{
    if children.len() == 0 || children[0].surface == id {
        0
    } else {
        1 + position(children.drop_first(), id)
    }
}

/// Whether the list holds an entry for `id`.
pub open spec fn listed(children: Seq<SubsurfaceChild>, id: u64) -> bool {
    position(children, id) < children.len()
}

/// Whether no surface is listed twice.
pub open spec fn distinct(children: Seq<SubsurfaceChild>) -> bool {
    forall|i: int, j: int|
        0 <= i < j < children.len() ==> (#[trigger] children[i]).surface != (
        #[trigger] children[j]).surface
}

proof fn lemma_position(children: Seq<SubsurfaceChild>, id: u64)
    ensures
        0 <= position(children, id) <= children.len(),
        listed(children, id) ==> children[position(children, id)].surface == id,
        forall|k: int|
            0 <= k < position(children, id) ==> (#[trigger] children[k]).surface != id,
    decreases children.len(),
{
    if children.len() > 0 && children[0].surface != id {
        let rest = children.drop_first();
        lemma_position(rest, id);
        let p = position(rest, id);
        if p < rest.len() {
            assert(children[p + 1] == rest[p]);
        }
        assert forall|k: int| 0 <= k < p + 1 implies (#[trigger] children[k]).surface != id by {
            if k > 0 {
                assert(children[k] == rest[k - 1]);
            }
        }
    }
}

proof fn lemma_position_is(children: Seq<SubsurfaceChild>, id: u64, p: int)
    requires
        0 <= p < children.len(),
        children[p].surface == id,
        forall|k: int| 0 <= k < p ==> (#[trigger] children[k]).surface != id,
    ensures
        position(children, id) == p,
{
    lemma_position(children, id);
    let q = position(children, id);
    if q < p {
        assert(children[q].surface != id);
    }
}

fn find(children: &Vec<SubsurfaceChild>, id: u64) -> (r: usize)
    ensures
        r == position(children@, id),
        r <= children@.len(),
{
    let n: usize = children.len();
    let mut i: usize = 0;
    proof {
        lemma_position(children@, id);
    }
    while i < n
        invariant
            i <= n == children@.len(),
            forall|k: int| 0 <= k < i ==> (#[trigger] children@[k]).surface != id,
        decreases n - i,
    {
        if children[i].surface == id {
            proof {
                lemma_position_is(children@, id, i as int);
            }
            return i;
        }
        i = i + 1;
    }
    proof {
        lemma_position(children@, id);
        let q = position(children@, id);
        if q < children@.len() {
            assert(children@[q].surface != id);
        }
    }
    n
}

/// Enters a new subsurface, at the top and at its parent's origin.
pub fn enter(children: &mut Vec<SubsurfaceChild>, id: u64)
    ensures
        final(children)@ == old(children)@.push(SubsurfaceChild { surface: id, x: 0, y: 0 }),
{
    children.push(SubsurfaceChild { surface: id, x: 0, y: 0 });
}

/// Moves the subsurface to that position.
pub fn set_position(children: &mut Vec<SubsurfaceChild>, id: u64, x: i32, y: i32)
    ensures
        final(children)@ == if listed(old(children)@, id) {
            old(children)@.update(
                position(old(children)@, id),
                SubsurfaceChild { surface: id, x, y },
            )
        } else {
            old(children)@
        },
{
    let n: usize = children.len();
    let i: usize = find(children, id);
    if i < n {
        children.set(i, SubsurfaceChild { surface: id, x, y });
    }
}

/// The entries that are not for `id`, in order.
pub open spec fn without(children: Seq<SubsurfaceChild>, id: u64) -> Seq<SubsurfaceChild>
    decreases children.len(),
{
    if children.len() == 0 {
        Seq::empty()
    } else if children.last().surface == id {
        without(children.drop_last(), id)
    } else {
        without(children.drop_last(), id).push(children.last())
    }
}

/// Removes the subsurface, because it or its client is gone.
pub fn remove(children: &mut Vec<SubsurfaceChild>, id: u64)
    ensures
        final(children)@ == without(old(children)@, id),
{
    let ghost all = children@;
    let n: usize = children.len();
    let mut kept: Vec<SubsurfaceChild> = Vec::new();
    let mut i: usize = 0;
    while i < n
        invariant
            i <= n == all.len(),
            children@ == all,
            kept@ == without(all.take(i as int), id),
        decreases n - i,
    {
        assert(all.take(i + 1).drop_last() =~= all.take(i as int));
        assert(all.take(i + 1).last() == all[i as int]);
        let c: SubsurfaceChild = children[i];
        if c.surface != id {
            kept.push(c);
        }
        i = i + 1;
    }
    assert(all.take(n as int) =~= all);
    *children = kept;
}

/// Where a subsurface goes that is put above `sibling` among `rest`: above all
/// where the sibling is the parent or is not listed.
pub open spec fn slot_above(rest: Seq<SubsurfaceChild>, sibling: u64, parent: u64) -> int {
    if sibling == parent || !listed(rest, sibling) {
        rest.len() as int
    } else {
        position(rest, sibling) + 1
    }
}

/// Where a subsurface goes that is put below `sibling` among `rest`: below all
/// where the sibling is the parent or is not listed.
pub open spec fn slot_below(rest: Seq<SubsurfaceChild>, sibling: u64, parent: u64) -> int {
    if sibling == parent || !listed(rest, sibling) {
        0
    } else {
        position(rest, sibling)
    }
}

/// The list after the subsurface has been put above `sibling`.
pub open spec fn placed_above(
    children: Seq<SubsurfaceChild>,
    id: u64,
    sibling: u64,
    parent: u64,
) -> Seq<SubsurfaceChild> {
    if listed(children, id) {
        let i = position(children, id);
        let rest = children.remove(i);
        rest.insert(slot_above(rest, sibling, parent), children[i])
    } else {
        children
    }
}

/// The list after the subsurface has been put below `sibling`.
pub open spec fn placed_below(
    children: Seq<SubsurfaceChild>,
    id: u64,
    sibling: u64,
    parent: u64,
) -> Seq<SubsurfaceChild> {
    if listed(children, id) {
        let i = position(children, id);
        let rest = children.remove(i);
        rest.insert(slot_below(rest, sibling, parent), children[i])
    } else {
        children
    }
}

/// Puts the subsurface above `sibling`.
pub fn place_above(children: &mut Vec<SubsurfaceChild>, id: u64, sibling: u64, parent: u64)
    ensures
        final(children)@ == placed_above(old(children)@, id, sibling, parent),
{
    let n: usize = children.len();
    let i: usize = find(children, id);
    if i < n {
        let child: SubsurfaceChild = children.remove(i);
        let m: usize = children.len();
        let at: usize = if sibling == parent {
            m
        } else {
            let j: usize = find(children, sibling);
            if j < m {
                j + 1
            } else {
                m
            }
        };
        children.insert(at, child);
    }
}

/// Puts the subsurface below `sibling`.
pub fn place_below(children: &mut Vec<SubsurfaceChild>, id: u64, sibling: u64, parent: u64)
    ensures
        final(children)@ == placed_below(old(children)@, id, sibling, parent),
{
    let n: usize = children.len();
    let i: usize = find(children, id);
    if i < n {
        let child: SubsurfaceChild = children.remove(i);
        let m: usize = children.len();
        let at: usize = if sibling == parent {
            0
        } else {
            let j: usize = find(children, sibling);
            if j < m {
                j
            } else {
                0
            }
        };
        children.insert(at, child);
    }
}

/// A subsurface that was removed is listed no more, and the others keep their
/// entries.
pub proof fn removed_surfaces_are_not_listed(children: Seq<SubsurfaceChild>, id: u64)
    ensures
        !listed(without(children, id), id),
        forall|c: SubsurfaceChild|
            c.surface != id ==> (without(children, id).contains(c) <==> #[trigger]
            children.contains(c)),
{
    lemma_without(children, id);
    lemma_position(without(children, id), id);
}

proof fn lemma_without(children: Seq<SubsurfaceChild>, id: u64)
    ensures
        forall|k: int|
            0 <= k < without(children, id).len() ==> (#[trigger] without(
                children,
                id,
            )[k]).surface != id,
        forall|c: SubsurfaceChild|
            c.surface != id ==> (without(children, id).contains(c) <==> #[trigger]
            children.contains(c)),
    decreases children.len(),
{
    let w = without(children, id);
    if children.len() > 0 {
        let rest = children.drop_last();
        let v = without(rest, id);
        lemma_without(rest, id);
        assert forall|c: SubsurfaceChild| c.surface != id implies (w.contains(c) <==> #[trigger]
        children.contains(c)) by {
            assert(rest.contains(c) ==> children.contains(c)) by {
                if rest.contains(c) {
                    let k = choose|k: int| 0 <= k < rest.len() && rest[k] == c;
                    assert(children[k] == c);
                }
            }
            if children.contains(c) {
                let k = choose|k: int| 0 <= k < children.len() && children[k] == c;
                if k < rest.len() {
                    assert(rest[k] == c);
                    assert(rest.contains(c));
                    assert(v.contains(c));
                    let m = choose|m: int| 0 <= m < v.len() && v[m] == c;
                    assert(w[m] == c);
                } else {
                    assert(w.last() == c);
                }
            }
            if w.contains(c) {
                let m = choose|m: int| 0 <= m < w.len() && w[m] == c;
                if m < v.len() {
                    assert(v[m] == c);
                    assert(v.contains(c));
                } else {
                    assert(children[children.len() - 1] == c);
                }
            }
        }
    }
}

/// Reordering neither adds nor loses an entry.
pub proof fn placing_keeps_the_entries(
    children: Seq<SubsurfaceChild>,
    id: u64,
    sibling: u64,
    parent: u64,
)
    ensures
        placed_above(children, id, sibling, parent).to_multiset() == children.to_multiset(),
        placed_below(children, id, sibling, parent).to_multiset() == children.to_multiset(),
{
    broadcast use vstd::seq_lib::group_to_multiset_ensures;

    lemma_position(children, id);
    if listed(children, id) {
        let i = position(children, id);
        let rest = children.remove(i);
        lemma_position(rest, sibling);
        assert(rest.to_multiset().insert(children[i]) =~= children.to_multiset());
        vstd::seq_lib::to_multiset_insert(rest, slot_above(rest, sibling, parent), children[i]);
        vstd::seq_lib::to_multiset_insert(rest, slot_below(rest, sibling, parent), children[i]);
    }
}

/// A subsurface that is put above another one ends up directly above it; put
/// above its parent, it ends up on top.
pub proof fn placed_above_is_next_to_the_sibling(
    children: Seq<SubsurfaceChild>,
    id: u64,
    sibling: u64,
    parent: u64,
)
    requires
        distinct(children),
        listed(children, id),
        sibling != id,
    ensures
        sibling != parent && listed(children, sibling) ==> position(
            placed_above(children, id, sibling, parent),
            id,
        ) == position(placed_above(children, id, sibling, parent), sibling) + 1,
        sibling == parent ==> placed_above(children, id, sibling, parent).last().surface == id,
{
    lemma_position(children, id);
    lemma_position(children, sibling);
    let i = position(children, id);
    let rest = children.remove(i);
    lemma_rest(children, i, sibling);
    lemma_position(rest, sibling);
    let at = slot_above(rest, sibling, parent);
    let placed = rest.insert(at, children[i]);
    if sibling != parent && listed(children, sibling) {
        let j = position(rest, sibling);
        lemma_position_is(placed, sibling, j);
        assert forall|k: int| 0 <= k < at implies (#[trigger] placed[k]).surface != id by {
            assert(placed[k] == rest[k]);
        }
        lemma_position_is(placed, id, at);
    }
}

/// A subsurface that is put below another one ends up directly below it; put
/// below its parent, it ends up at the bottom.
pub proof fn placed_below_is_next_to_the_sibling(
    children: Seq<SubsurfaceChild>,
    id: u64,
    sibling: u64,
    parent: u64,
)
    requires
        distinct(children),
        listed(children, id),
        sibling != id,
    ensures
        sibling != parent && listed(children, sibling) ==> position(
            placed_below(children, id, sibling, parent),
            id,
        ) + 1 == position(placed_below(children, id, sibling, parent), sibling),
        sibling == parent ==> placed_below(children, id, sibling, parent)[0].surface == id,
{
    lemma_position(children, id);
    lemma_position(children, sibling);
    let i = position(children, id);
    let rest = children.remove(i);
    lemma_rest(children, i, sibling);
    lemma_position(rest, sibling);
    let at = slot_below(rest, sibling, parent);
    let placed = rest.insert(at, children[i]);
    if sibling != parent && listed(children, sibling) {
        assert forall|k: int| 0 <= k < at implies (#[trigger] placed[k]).surface != id by {
            assert(placed[k] == rest[k]);
        }
        lemma_position_is(placed, id, at);
        assert(placed[at + 1] == rest[at]);
        assert forall|k: int| 0 <= k < at + 1 implies (#[trigger] placed[k]).surface
            != sibling by {
            if k < at {
                assert(placed[k] == rest[k]);
            }
        }
        lemma_position_is(placed, sibling, at + 1);
    }
}

proof fn lemma_rest(children: Seq<SubsurfaceChild>, i: int, sibling: u64)
    requires
        distinct(children),
        0 <= i < children.len(),
        children[i].surface != sibling,
    ensures
        forall|k: int|
            0 <= k < children.len() - 1 ==> (#[trigger] children.remove(i)[k]).surface
                != children[i].surface,
        listed(children, sibling) <==> listed(children.remove(i), sibling),
{
    let rest = children.remove(i);
    assert forall|k: int| 0 <= k < children.len() - 1 implies (#[trigger] rest[k]).surface
        != children[i].surface by {
        if k < i {
            assert(rest[k] == children[k]);
        } else {
            assert(rest[k] == children[k + 1]);
        }
    }
    lemma_position(children, sibling);
    lemma_position(rest, sibling);
    if listed(children, sibling) {
        let p = position(children, sibling);
        let q = if p < i {
            p
        } else {
            p - 1
        };
        assert(rest[q] == children[p]);
        if !listed(rest, sibling) {
            assert(rest[q].surface != sibling);
        }
    }
    if listed(rest, sibling) {
        let q = position(rest, sibling);
        let p = if q < i {
            q
        } else {
            q + 1
        };
        assert(rest[q] == children[p]);
        if !listed(children, sibling) {
            assert(children[p].surface != sibling);
        }
    }
}

/// The other subsurfaces keep their order when one of them is moved, wherever it
/// goes: without it, the list is the same before and after.
pub proof fn placing_keeps_the_order_of_the_others(
    children: Seq<SubsurfaceChild>,
    id: u64,
    sibling: u64,
    parent: u64,
)
    requires
        distinct(children),
        listed(children, id),
    ensures
        ({
            let above = placed_above(children, id, sibling, parent);
            let below = placed_below(children, id, sibling, parent);
            &&& listed(above, id) && above.remove(position(above, id)) == children.remove(
                position(children, id),
            )
            &&& listed(below, id) && below.remove(position(below, id)) == children.remove(
                position(children, id),
            )
        }),
{
    lemma_position(children, id);
    let i = position(children, id);
    let rest = children.remove(i);
    assert forall|k: int| 0 <= k < rest.len() implies (#[trigger] rest[k]).surface != id by {
        assert(rest[k] == if k < i {
            children[k]
        } else {
            children[k + 1]
        });
    }
    lemma_position(rest, sibling);
    lemma_inserted(rest, slot_above(rest, sibling, parent), children[i]);
    lemma_inserted(rest, slot_below(rest, sibling, parent), children[i]);
}

proof fn lemma_inserted(rest: Seq<SubsurfaceChild>, at: int, child: SubsurfaceChild)
    requires
        0 <= at <= rest.len(),
        forall|k: int| 0 <= k < rest.len() ==> (#[trigger] rest[k]).surface != child.surface,
    ensures
        position(rest.insert(at, child), child.surface) == at,
        rest.insert(at, child).remove(at) == rest,
{
    let placed = rest.insert(at, child);
    assert forall|k: int| 0 <= k < at implies (#[trigger] placed[k]).surface != child.surface by {
        assert(placed[k] == rest[k]);
    }
    lemma_position_is(placed, child.surface, at);
    assert(placed.remove(at) =~= rest);
}

/// A new subsurface comes on top, at its parent's origin, and leaves the others as
/// they are.
pub proof fn new_subsurfaces_come_on_top(id: u64)
    ensures
        forall|m: &mut Vec<SubsurfaceChild>|
            #[trigger] call_ensures(enter, (m, id), ()) ==> final(m)@.len() == m@.len() + 1
                && final(m)@.last().surface == id && final(m)@.last().x == 0 && final(m)@.last().y
                == 0 && final(m)@.drop_last() == m@,
{
    assert forall|m: &mut Vec<SubsurfaceChild>| #[trigger] call_ensures(enter, (m, id), ()) implies
        final(m)@.drop_last() == m@ by {
        assert(final(m)@.drop_last() =~= m@);
    }
}

/// Moving a subsurface changes its position and nothing else: it keeps its place
/// in the list, and the others keep theirs and their positions.
pub proof fn moving_changes_one_position(id: u64, x: i32, y: i32, i: int)
    ensures
        forall|m: &mut Vec<SubsurfaceChild>|
            distinct(m@) && 0 <= i < m@.len() && #[trigger] call_ensures(
                set_position,
                (m, id, x, y),
                (),
            ) ==> {
                &&& final(m)@.len() == m@.len()
                &&& m@[i].surface == id ==> final(m)@[i].surface == id && final(m)@[i].x == x
                    && final(m)@[i].y == y
                &&& m@[i].surface != id ==> final(m)@[i] == m@[i]
            },
{
    assert forall|m: &mut Vec<SubsurfaceChild>|
        distinct(m@) && 0 <= i < m@.len() && #[trigger] call_ensures(
            set_position,
            (m, id, x, y),
            (),
        ) implies {
        &&& final(m)@.len() == m@.len()
        &&& m@[i].surface == id ==> final(m)@[i].surface == id && final(m)@[i].x == x
            && final(m)@[i].y == y
        &&& m@[i].surface != id ==> final(m)@[i] == m@[i]
    } by {
        lemma_position(m@, id);
        if m@[i].surface == id {
            assert forall|k: int| 0 <= k < i implies (#[trigger] m@[k]).surface != id by {
                assert(m@[k].surface != m@[i].surface);
            }
            lemma_position_is(m@, id, i);
        }
    }
}

/// Removing a subsurface takes every entry of it out and keeps the order of the
/// rest.
pub proof fn removing_keeps_the_order_of_the_rest(a: Seq<SubsurfaceChild>, b: Seq<SubsurfaceChild>, c: SubsurfaceChild)
    requires
        forall|i: int| 0 <= i < a.len() ==> (#[trigger] a[i]).surface != c.surface,
        forall|i: int| 0 <= i < b.len() ==> (#[trigger] b[i]).surface != c.surface,
    ensures
        forall|m: &mut Vec<SubsurfaceChild>|
            m@ == a + seq![c] + b && #[trigger] call_ensures(remove, (m, c.surface), ())
                ==> final(m)@ == a + b,
{
    lemma_without_between(a, b, c);
}

proof fn lemma_without_between(a: Seq<SubsurfaceChild>, b: Seq<SubsurfaceChild>, c: SubsurfaceChild)
    requires
        forall|i: int| 0 <= i < a.len() ==> (#[trigger] a[i]).surface != c.surface,
        forall|i: int| 0 <= i < b.len() ==> (#[trigger] b[i]).surface != c.surface,
    ensures
        without(a + seq![c] + b, c.surface) == a + b,
    decreases b.len(),
{
    let s = a + seq![c] + b;
    if b.len() == 0 {
        assert(s =~= a.push(c));
        assert(s.drop_last() =~= a);
        lemma_without_none(a, c.surface);
        assert(a + b =~= a);
    } else {
        let rest = b.drop_last();
        assert forall|i: int| 0 <= i < rest.len() implies (#[trigger] rest[i]).surface
            != c.surface by {
            assert(rest[i] == b[i]);
        }
        lemma_without_between(a, rest, c);
        assert(s.drop_last() =~= a + seq![c] + rest);
        assert(s.last() == b.last());
        assert(b.last() == b[b.len() - 1]);
        assert((a + rest).push(b.last()) =~= a + b);
    }
}

proof fn lemma_without_none(a: Seq<SubsurfaceChild>, id: u64)
    requires
        forall|i: int| 0 <= i < a.len() ==> (#[trigger] a[i]).surface != id,
    ensures
        without(a, id) == a,
    decreases a.len(),
{
    if a.len() > 0 {
        let rest = a.drop_last();
        assert forall|i: int| 0 <= i < rest.len() implies (#[trigger] rest[i]).surface != id by {
            assert(rest[i] == a[i]);
        }
        lemma_without_none(rest, id);
        assert(a.last() == a[a.len() - 1]);
        assert(rest.push(a.last()) =~= a);
    } else {
        assert(a =~= Seq::empty());
    }
}

/// What placing does to the list, entry by entry: directly above its sibling, the
/// subsurface is the next entry in the list, which is drawn over it; directly
/// below, the one before.
pub proof fn placing_above_means_later_in_the_list(
    id: u64,
    sibling: u64,
    parent: u64,
    i: int,
    j: int,
)
    requires
        id != sibling,
        sibling != parent,
    ensures
        forall|m: &mut Vec<SubsurfaceChild>|
            distinct(m@) && 0 <= i < m@.len() && m@[i].surface == id && 0 <= j < m@.len()
                && m@[j].surface == sibling && #[trigger] call_ensures(
                place_above,
                (m, id, sibling, parent),
                (),
            ) ==> {
                let at = if i < j {
                    j - 1
                } else {
                    j
                };
                &&& final(m)@.len() == m@.len()
                &&& final(m)@[at] == m@[j]
                &&& final(m)@[at + 1] == m@[i]
            },
        forall|m: &mut Vec<SubsurfaceChild>|
            distinct(m@) && 0 <= i < m@.len() && m@[i].surface == id && 0 <= j < m@.len()
                && m@[j].surface == sibling && #[trigger] call_ensures(
                place_below,
                (m, id, sibling, parent),
                (),
            ) ==> {
                let at = if i < j {
                    j - 1
                } else {
                    j
                };
                &&& final(m)@.len() == m@.len()
                &&& final(m)@[at] == m@[i]
                &&& final(m)@[at + 1] == m@[j]
            },
{
    assert forall|m: &mut Vec<SubsurfaceChild>|
        distinct(m@) && 0 <= i < m@.len() && m@[i].surface == id && 0 <= j < m@.len()
            && m@[j].surface == sibling && #[trigger] call_ensures(
            place_above,
            (m, id, sibling, parent),
            (),
        ) implies {
        let at = if i < j {
            j - 1
        } else {
            j
        };
        &&& final(m)@.len() == m@.len()
        &&& final(m)@[at] == m@[j]
        &&& final(m)@[at + 1] == m@[i]
    } by {
        lemma_places(m@, id, sibling, i, j);
    }
    assert forall|m: &mut Vec<SubsurfaceChild>|
        distinct(m@) && 0 <= i < m@.len() && m@[i].surface == id && 0 <= j < m@.len()
            && m@[j].surface == sibling && #[trigger] call_ensures(
            place_below,
            (m, id, sibling, parent),
            (),
        ) implies {
        let at = if i < j {
            j - 1
        } else {
            j
        };
        &&& final(m)@.len() == m@.len()
        &&& final(m)@[at] == m@[i]
        &&& final(m)@[at + 1] == m@[j]
    } by {
        lemma_places(m@, id, sibling, i, j);
    }
}

proof fn lemma_places(children: Seq<SubsurfaceChild>, id: u64, sibling: u64, i: int, j: int)
    requires
        distinct(children),
        0 <= i < children.len(),
        children[i].surface == id,
        0 <= j < children.len(),
        children[j].surface == sibling,
        id != sibling,
    ensures
        position(children, id) == i,
        position(children.remove(i), sibling) == if i < j {
            j - 1
        } else {
            j
        },
{
    assert forall|k: int| 0 <= k < i implies (#[trigger] children[k]).surface != id by {
        assert(children[k].surface != children[i].surface);
    }
    lemma_position_is(children, id, i);
    let rest = children.remove(i);
    let at = if i < j {
        j - 1
    } else {
        j
    };
    assert(rest[at] == children[j]);
    assert forall|k: int| 0 <= k < at implies (#[trigger] rest[k]).surface != sibling by {
        if k < i {
            assert(rest[k] == children[k]);
            assert(children[k].surface != children[j].surface);
        } else {
            assert(rest[k] == children[k + 1]);
            assert(children[k + 1].surface != children[j].surface);
        }
    }
    lemma_position_is(rest, sibling, at);
}

} // verus!
