//! The properties the design exists for, proved once over the model.
//!
//! Every law below is stated over realm models — sequences of
//! [`SlotModel`] — and the step relations of [`crate::traits`].  The
//! operations of every pointer family ensure exactly those relations, so
//! each law holds of the thread-safe and the thread-confined family
//! alike: the laws are family-generic by construction, and
//! [`lemma_family_parity_knot`] pins the two families to the very same
//! model moves.

use vstd::prelude::*;

use crate::traits::SlotModel;
use crate::traits::alloc_step;
use crate::traits::clone_step;
use crate::traits::dead;
use crate::traits::drop_step;
use crate::traits::knot_step;
use crate::traits::live;
use crate::traits::same_slots;
use crate::traits::step_rel;
use crate::traits::tie_step;
use crate::traits::upgrade_ok;

verus! {

/// Round trip: tying a knot over payload `p` leaves the fresh slot's
/// cell pointing back at that very slot, the slot live, and the payload
/// unchanged — so upgrading what the cell holds succeeds and yields the
/// payload the construction started from.
pub proof fn lemma_round_trip<P>(
    pre: Seq<SlotModel<P>>,
    post: Seq<SlotModel<P>>,
    i: int,
    p: P,
)
    requires
        knot_step(pre, post, i, p),
    ensures
        post[i].back_ref == Some(i),
        upgrade_ok(post, post[i].back_ref),
        post[post[i].back_ref->0].payload == p,
{
}

/// Liveness while shared: any single move after which at least one
/// strong handle to slot `i` is still outstanding keeps the slot
/// upgradable, keeps its payload, and keeps an already-tied cell tied
/// to the same target.
pub proof fn lemma_live_stable<P>(pre: Seq<SlotModel<P>>, post: Seq<SlotModel<P>>, i: int)
    requires
        step_rel(pre, post),
        live(pre, i),
        post[i].strong > 0,
    ensures
        live(post, i),
        upgrade_ok(post, Some(i)),
        post[i].payload == pre[i].payload,
        pre[i].back_ref is Some ==> post[i].back_ref == pre[i].back_ref,
{
    if exists|j: int, p: P, br: Option<int>| alloc_step(pre, post, j, p, br) {
        let (j, p, br) = choose|j: int, p: P, br: Option<int>| alloc_step(pre, post, j, p, br);
        assert(post[i] == pre[i]);
    } else if exists|j: int| clone_step(pre, post, j) {
        let j = choose|j: int| clone_step(pre, post, j);
        if j != i {
            assert(post[i] == pre[i]);
        }
    } else if exists|j: int| drop_step(pre, post, j) {
        let j = choose|j: int| drop_step(pre, post, j);
        if j != i {
            assert(post[i] == pre[i]);
        }
    } else if exists|j: int| tie_step(pre, post, j) {
        let j = choose|j: int| tie_step(pre, post, j);
        if j != i {
            assert(post[i] == pre[i]);
        }
    } else if exists|j: int, p: P| knot_step(pre, post, j, p) {
        let (j, p) = choose|j: int, p: P| knot_step(pre, post, j, p);
        assert(post[i] == pre[i]);
    } else {
        assert(same_slots(pre, post));
        assert(post[i] == pre[i]);
    }
}

/// Liveness along any run: while every state of the run keeps at least
/// one strong handle to slot `i`, the slot stays upgradable, its payload
/// stays the one the run began with, and a cell tied at the start stays
/// tied to the same target throughout.
pub proof fn lemma_live_stable_trace<P>(tr: Seq<Seq<SlotModel<P>>>, i: int)
    requires
        tr.len() > 0,
        forall|k: int| 0 <= k < tr.len() - 1 ==> #[trigger] step_rel(tr[k], tr[k + 1]),
        live(tr[0], i),
        forall|k: int| #![trigger tr[k]] 0 < k < tr.len() ==> tr[k][i].strong > 0,
    ensures
        live(tr.last(), i),
        upgrade_ok(tr.last(), Some(i)),
        tr.last()[i].payload == tr[0][i].payload,
        tr[0][i].back_ref is Some ==> tr.last()[i].back_ref == tr[0][i].back_ref,
    decreases tr.len(),
{
    if tr.len() > 1 {
        let k0: int = 0;
        assert(step_rel(tr[k0], tr[k0 + 1]));
        assert(tr[k0 + 1][i].strong > 0);
        lemma_live_stable(tr[0], tr[1], i);
        let tl = tr.subrange(1, tr.len() as int);
        assert forall|k: int| 0 <= k < tl.len() - 1 implies #[trigger] step_rel(
            tl[k],
            tl[k + 1],
        ) by {
            assert(tl[k] == tr[k + 1]);
            assert(tl[k + 1] == tr[k + 2]);
            assert(step_rel(tr[k + 1], tr[k + 2]));
        }
        assert forall|k: int| #![trigger tl[k]] 0 < k < tl.len() implies tl[k][i].strong > 0 by {
            assert(tl[k] == tr[k + 1]);
            assert(tr[k + 1][i].strong > 0);
        }
        lemma_live_stable_trace(tl, i);
        assert(tl.last() == tr.last());
        assert(tl[0] == tr[1]);
    }
}

/// Death after last release: once slot `i` is dead, no single move
/// revives it — every later upgrade of a weak pointer observing it
/// fails, and fails again on every retry.
pub proof fn lemma_death_permanent<P>(pre: Seq<SlotModel<P>>, post: Seq<SlotModel<P>>, i: int)
    requires
        step_rel(pre, post),
        dead(pre, i),
    ensures
        dead(post, i),
        !upgrade_ok(post, Some(i)),
{
    if exists|j: int, p: P, br: Option<int>| alloc_step(pre, post, j, p, br) {
        let (j, p, br) = choose|j: int, p: P, br: Option<int>| alloc_step(pre, post, j, p, br);
        assert(post[i] == pre[i]);
    } else if exists|j: int| clone_step(pre, post, j) {
        let j = choose|j: int| clone_step(pre, post, j);
        assert(post[i] == pre[i]);
    } else if exists|j: int| drop_step(pre, post, j) {
        let j = choose|j: int| drop_step(pre, post, j);
        assert(post[i] == pre[i]);
    } else if exists|j: int| tie_step(pre, post, j) {
        let j = choose|j: int| tie_step(pre, post, j);
        assert(post[i] == pre[i]);
    } else if exists|j: int, p: P| knot_step(pre, post, j, p) {
        let (j, p) = choose|j: int, p: P| knot_step(pre, post, j, p);
        assert(post[i] == pre[i]);
    } else {
        assert(same_slots(pre, post));
        assert(post[i] == pre[i]);
    }
}

/// Death is permanent along any run: a dead slot stays dead through an
/// arbitrary sequence of moves, not just one.
pub proof fn lemma_death_permanent_trace<P>(tr: Seq<Seq<SlotModel<P>>>, i: int)
    requires
        tr.len() > 0,
        forall|k: int| 0 <= k < tr.len() - 1 ==> #[trigger] step_rel(tr[k], tr[k + 1]),
        dead(tr[0], i),
    ensures
        dead(tr.last(), i),
    decreases tr.len(),
{
    if tr.len() > 1 {
        let k0: int = 0;
        assert(step_rel(tr[k0], tr[k0 + 1]));
        lemma_death_permanent(tr[0], tr[1], i);
        let tl = tr.subrange(1, tr.len() as int);
        assert forall|k: int| 0 <= k < tl.len() - 1 implies #[trigger] step_rel(
            tl[k],
            tl[k + 1],
        ) by {
            assert(tl[k] == tr[k + 1]);
            assert(tl[k + 1] == tr[k + 2]);
            assert(step_rel(tr[k + 1], tr[k + 2]));
        }
        lemma_death_permanent_trace(tl, i);
        assert(tl.last() == tr.last());
    }
}

/// Single assignment: a cell that is already tied admits no further tie
/// move, whatever the rest of the realm does.
pub proof fn lemma_tie_at_most_once<P>(m: Seq<SlotModel<P>>, post: Seq<SlotModel<P>>, i: int)
    requires
        m[i].back_ref is Some,
    ensures
        !tie_step(m, post, i),
{
}

/// Family equivalence: the construction protocol's move is a function
/// of the realm's model and the payload alone.  Two realms with equal
/// models — whether of the thread-safe or the thread-confined family —
/// that tie a knot over the same payload end in equal models, with the
/// new slot at the same index; every law above therefore reads the same
/// for both families.
pub proof fn lemma_family_parity_knot<P>(
    m: Seq<SlotModel<P>>,
    post_a: Seq<SlotModel<P>>,
    post_b: Seq<SlotModel<P>>,
    ia: int,
    ib: int,
    p: P,
)
    requires
        knot_step(m, post_a, ia, p),
        knot_step(m, post_b, ib, p),
    ensures
        ia == ib,
        post_a =~= post_b,
{
    assert forall|j: int| 0 <= j < post_a.len() implies post_a[j] == post_b[j] by {
        if j != ia {
            assert(post_a[j] == m[j]);
            assert(post_b[j] == m[j]);
        }
    }
}

} // verus!
