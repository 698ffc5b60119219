//! The slot-table laws: what holds of texture slot allocation across a
//! whole batch and across flushes, stated over the spec-level table
//! transitions that the executable contracts are phrased in.

use vstd::prelude::*;
use vstd::set_lib::lemma_len_subset;

use crate::batch::{
    alloc_slot, alloc_table, allocates, lemma_slot_of_first, lemma_slot_of_resident, slot_of,
};
use crate::simple2d_renderer::flushed_textures;

verus! {

/// Membership in a table after an append, index by index.
pub proof fn lemma_push_contains(t: Seq<u32>, e: u32, x: u32)
    ensures
        t.push(e).contains(x) <==> (t.contains(x) || x == e),
{
    if t.push(e).contains(x) {
        let k = choose|k: int| 0 <= k < t.push(e).len() && t.push(e)[k] == x;
        if k < t.len() {
            assert(t[k] == x);
        }
    }
    if t.contains(x) {
        let k = choose|k: int| 0 <= k < t.len() && t[k] == x;
        assert(t.push(e)[k] == x);
    }
    if x == e {
        assert(t.push(e)[t.len() as int] == x);
    }
}

/// Membership in a sequence of pushes, split at its first element.
pub proof fn lemma_first_rest_contains(ids: Seq<u32>, x: u32)
    requires
        ids.len() > 0,
    ensures
        ids.contains(x) <==> (ids[0] == x || ids.drop_first().contains(x)),
{
    if ids.contains(x) {
        let k = choose|k: int| 0 <= k < ids.len() && ids[k] == x;
        if k > 0 {
            assert(ids.drop_first()[k - 1] == ids[k]);
        }
    }
    if ids.drop_first().contains(x) {
        let k = choose|k: int| 0 <= k < ids.drop_first().len() && ids.drop_first()[k] == x;
        assert(ids[k + 1] == ids.drop_first()[k]);
    }
}

/// A resident identity keeps its slot when any other allocation happens:
/// allocation only ever appends, so earlier slots never move.  This is
/// why all pushes of one texture within one batch resolve to the same
/// slot, whatever is pushed between them.
pub proof fn lemma_slot_stable_under_alloc(t: Seq<u32>, id: u32, x: u32)
    requires
        t.contains(x),
    ensures
        alloc_table(t, id).contains(x),
        slot_of(alloc_table(t, id), x) == slot_of(t, x),
{
    lemma_slot_of_resident(t, x);
    let i = slot_of(t, x);
    if !t.contains(id) {
        let t2 = t.push(id);
        assert(t2[i] == t[i]);
        assert(t2.contains(x));
        assert forall|j: int| 0 <= j < i implies t2[j] != x by {
            assert(t2[j] == t[j]);
        }
        lemma_slot_of_first(t2, x, i);
    }
}

/// Two distinct resident identities always hold two distinct slots.
pub proof fn lemma_distinct_slots(t: Seq<u32>, a: u32, b: u32)
    requires
        t.contains(a),
        t.contains(b),
        a != b,
    ensures
        slot_of(t, a) != slot_of(t, b),
{
    lemma_slot_of_resident(t, a);
    lemma_slot_of_resident(t, b);
}

/// Allocating the same identity twice within one batch resolves to the
/// same slot both times, and the second allocation appends nothing.
pub proof fn lemma_same_texture_same_slot(t: Seq<u32>, id: u32, cap: int)
    requires
        allocates(t, id, cap),
    ensures
        alloc_table(t, id).contains(id),
        allocates(alloc_table(t, id), id, cap),
        alloc_table(alloc_table(t, id), id) == alloc_table(t, id),
        alloc_slot(alloc_table(t, id), id) == alloc_slot(t, id),
{
    if t.contains(id) {
        lemma_slot_of_resident(t, id);
    } else {
        let t2 = t.push(id);
        assert(t2[t.len() as int] == id);
        assert(t2.contains(id));
        lemma_slot_of_first(t2, id, t.len() as int);
    }
}

/// Whether a whole sequence of lookup-or-allocate calls runs to the end
/// without ever signalling "full".
pub open spec fn run_allocates(t: Seq<u32>, ids: Seq<u32>, cap: int) -> bool
    decreases ids.len(),
{
    ids.len() == 0 || (allocates(t, ids[0], cap) && run_allocates(
        alloc_table(t, ids[0]),
        ids.drop_first(),
        cap,
    ))
}

/// The table left behind by a whole sequence of lookup-or-allocate calls.
pub open spec fn run_table(t: Seq<u32>, ids: Seq<u32>) -> Seq<u32>
    decreases ids.len(),
{
    if ids.len() == 0 {
        t
    } else {
        run_table(alloc_table(t, ids[0]), ids.drop_first())
    }
}

/// As long as the resident identities and the pushed identities together
/// number at most `cap`, no allocation in the whole run signals "full",
/// the table stays duplicate-free, it ends up holding exactly the old
/// residents plus the pushed identities, and every identity resident at
/// the start keeps its slot through the whole run.
pub proof fn lemma_run_alloc_under_capacity(t: Seq<u32>, ids: Seq<u32>, cap: int)
    requires
        t.no_duplicates(),
        t.to_set().union(ids.to_set()).len() <= cap,
    ensures
        run_allocates(t, ids, cap),
        run_table(t, ids).no_duplicates(),
        run_table(t, ids).to_set() == t.to_set().union(ids.to_set()),
        forall|x: u32|
            t.contains(x) ==> run_table(t, ids).contains(x) && slot_of(run_table(t, ids), x)
                == slot_of(t, x),
    decreases ids.len(),
{
    broadcast use vstd::seq_lib::seq_to_set_is_finite;
    broadcast use vstd::set::group_set_axioms;

    if ids.len() == 0 {
        assert(ids.to_set() =~= Set::<u32>::empty());
        assert(t.to_set().union(ids.to_set()) =~= t.to_set());
    } else {
        let id = ids[0];
        let rest = ids.drop_first();
        assert(ids[0] == id && ids.contains(id));
        assert forall|x: u32| ids.contains(x) <==> (x == id || rest.contains(x)) by {
            lemma_first_rest_contains(ids, x);
        }
        assert(ids.to_set() =~= rest.to_set().insert(id));

        if !t.contains(id) {
            t.unique_seq_to_set();
            assert(t.to_set().insert(id).subset_of(t.to_set().union(ids.to_set())));
            lemma_len_subset(t.to_set().insert(id), t.to_set().union(ids.to_set()));
            assert(t.to_set().insert(id).len() == t.to_set().len() + 1);
            assert(t.len() < cap);
        }
        assert(allocates(t, id, cap));

        let t1 = alloc_table(t, id);
        assert forall|x: u32| t1.contains(x) <==> (t.contains(x) || x == id) by {
            if !t.contains(id) {
                lemma_push_contains(t, id, x);
            }
        }
        assert(t1.no_duplicates()) by {
            if !t.contains(id) {
                assert(forall|j: int| 0 <= j < t.len() ==> t1[j] == t[j]);
                assert(t1[t.len() as int] == id);
            }
        }
        assert(t1.to_set() =~= t.to_set().insert(id));
        assert(t1.to_set().union(rest.to_set()) =~= t.to_set().union(ids.to_set()));

        lemma_run_alloc_under_capacity(t1, rest, cap);
        assert(run_table(t, ids) == run_table(t1, rest));

        assert forall|x: u32|
            t.contains(x) implies run_table(t, ids).contains(x) && slot_of(run_table(t, ids), x)
            == slot_of(t, x) by {
            lemma_slot_stable_under_alloc(t, id, x);
        }
    }
}

/// For any sequence of texture pushes with at most `cap` distinct
/// identities, starting from an empty table, no allocation ever signals
/// "full" — so no implicit flush is ever due to slot exhaustion — and
/// the table ends up holding exactly those identities, each at one
/// stable slot (stability and uniqueness of the slots themselves are
/// `lemma_run_alloc_under_capacity` and `lemma_distinct_slots`).
pub proof fn lemma_bounded_textures_never_flush(ids: Seq<u32>, cap: int)
    requires
        ids.to_set().len() <= cap,
    ensures
        run_allocates(Seq::<u32>::empty(), ids, cap),
        run_table(Seq::<u32>::empty(), ids).no_duplicates(),
        run_table(Seq::<u32>::empty(), ids).to_set() == ids.to_set(),
{
    broadcast use vstd::set::group_set_axioms;

    let e = Seq::<u32>::empty();
    assert(e.to_set() =~= Set::<u32>::empty());
    assert(e.to_set().union(ids.to_set()) =~= ids.to_set());
    lemma_run_alloc_under_capacity(e, ids, cap);
}

/// Pushing a new texture against a table exactly at capacity forces one
/// flush and only one: the flush empties the table, the retry against
/// the emptied table succeeds, and the new texture occupies slot 0.
pub proof fn lemma_full_table_single_flush(t: Seq<u32>, id: u32, cap: int)
    requires
        1 <= cap,
        t.len() == cap,
        !t.contains(id),
    ensures
        !allocates(t, id, cap),
        flushed_textures(t, cap) == Seq::<u32>::empty(),
        allocates(Seq::<u32>::empty(), id, cap),
        alloc_slot(Seq::<u32>::empty(), id) == 0,
        alloc_table(Seq::<u32>::empty(), id) == seq![id],
{
    assert(Seq::<u32>::empty().push(id) =~= seq![id]);
}

/// A flush of a table under capacity keeps its residents, so a texture
/// pushed again after such a flush resolves to its original slot
/// without being appended again.
pub proof fn lemma_texture_reuse_across_flush(t: Seq<u32>, id: u32, cap: int)
    requires
        t.len() < cap,
        t.contains(id),
    ensures
        flushed_textures(t, cap) == t,
        allocates(t, id, cap),
        alloc_table(t, id) == t,
        alloc_slot(t, id) == slot_of(t, id),
{
}

} // verus!
