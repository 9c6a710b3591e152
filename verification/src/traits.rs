//! The capability contract a strong/weak pointer family satisfies.
//!
//! A family is modelled as a realm of reference-counted allocations.  Each
//! allocation lives in a numbered slot and holds a payload next to a
//! single-assignment back-reference cell.  The mathematical model of a
//! realm is a sequence of [`SlotModel`] values: the strong count of each
//! slot, the payload stored while the slot is live, and the target of the
//! slot's back-reference cell.  Every operation of the contract says
//! exactly how it moves that model, as one of the step relations below.
//!
//! A slot whose strong count has reached zero is dead: its value has been
//! destroyed, and no operation ever revives it.  Slots are never reused,
//! which is what makes death permanent.

use vstd::prelude::*;

use crate::generic::Tied;

verus! {

/// The model of one slot of a realm: its strong count, the payload it
/// holds, and the target of its back-reference cell.  The `payload` and
/// `back_ref` fields are meaningful only while `strong > 0`; a dead
/// slot's value has been destroyed and those fields say nothing.
pub struct SlotModel<P> {
    /// How many strong handles to this slot are outstanding.
    pub strong: int,
    /// The payload stored in the slot.
    pub payload: P,
    /// The slot the back-reference cell points at; `None` while untied.
    pub back_ref: Option<int>,
}

/// A strong, owning handle on one allocation of a pointer family.
///
/// A strong handle keeps its allocation alive: the slot it names stays live
/// while the realm has not released every strong handle to it.  The handle
/// itself is only a name; all behaviour lives on [`SharedPointerTag`].
pub trait SharedStrongPointer: Sized {
    /// The index of the slot this handle owns a share of.
    spec fn id(&self) -> int;

    /// The slot index as a machine integer, for identity comparisons.
    fn slot_index(&self) -> (i: usize)
        ensures
            i as int == self.id(),
    ;
}

/// A weak, non-owning handle on at most one allocation of a pointer family.
///
/// A weak pointer observes a slot without keeping it alive, or observes
/// nothing at all (the empty weak pointer, which can never upgrade).
pub trait SharedWeakPointer: Sized + Copy {
    /// The zero-size capability token of the family this weak pointer
    /// belongs to.
    type Tag;

    /// The slot this weak pointer observes; `None` for the empty pointer.
    spec fn target(&self) -> Option<int>;

    /// The single value of the family's token type.
    spec fn spec_tag() -> Self::Tag;

    /// Create an empty weak pointer: one whose upgrade always fails.
    fn new() -> (w: Self)
        ensures
            w.target() is None,
    ;

    /// The family's capability token, a zero-size, side-effect-free value.
    fn family_tag() -> (t: Self::Tag)
        ensures
            t == Self::spec_tag(),
    ;
}

/// Slot `i` exists and at least one strong handle to it is outstanding.
pub open spec fn live<P>(m: Seq<SlotModel<P>>, i: int) -> bool {
    0 <= i < m.len() && m[i].strong > 0
}

/// Slot `i` exists and its last strong handle has been released: its
/// value is gone for good.
pub open spec fn dead<P>(m: Seq<SlotModel<P>>, i: int) -> bool {
    0 <= i < m.len() && m[i].strong == 0
}

/// Whether upgrading a weak pointer with target `t` would succeed in a
/// realm with model `m`: exactly when it observes a live slot.
pub open spec fn upgrade_ok<P>(m: Seq<SlotModel<P>>, t: Option<int>) -> bool {
    match t {
        Some(i) => live(m, i),
        None => false,
    }
}

/// Every slot of `pre` other than `i` reads the same in `post`.
pub open spec fn others_unchanged<P>(
    pre: Seq<SlotModel<P>>,
    post: Seq<SlotModel<P>>,
    i: int,
) -> bool {
    forall|j: int| 0 <= j < pre.len() && j != i ==> post[j] == pre[j]
}

/// `post` has the same slots as `pre`, all reading the same.
pub open spec fn same_slots<P>(pre: Seq<SlotModel<P>>, post: Seq<SlotModel<P>>) -> bool {
    &&& post.len() == pre.len()
    &&& forall|j: int| 0 <= j < pre.len() ==> post[j] == pre[j]
}

/// The move of [`SharedPointerTag::new`]: a fresh slot `i` at the end of
/// the realm, holding payload `p` and a cell with target `br`, with
/// strong count one; nothing else moves.
pub open spec fn alloc_step<P>(
    pre: Seq<SlotModel<P>>,
    post: Seq<SlotModel<P>>,
    i: int,
    p: P,
    br: Option<int>,
) -> bool {
    &&& i == pre.len()
    &&& post.len() == pre.len() + 1
    &&& post[i].strong == 1
    &&& post[i].payload == p
    &&& post[i].back_ref == br
    &&& others_unchanged(pre, post, i)
}

/// The move of [`SharedPointerTag::clone_strong`] and of a successful
/// [`SharedPointerTag::upgrade`]: one more strong handle to live slot
/// `i`; nothing else moves.
pub open spec fn clone_step<P>(pre: Seq<SlotModel<P>>, post: Seq<SlotModel<P>>, i: int) -> bool {
    &&& live(pre, i)
    &&& post.len() == pre.len()
    &&& post[i].strong == pre[i].strong + 1
    &&& post[i].payload == pre[i].payload
    &&& post[i].back_ref == pre[i].back_ref
    &&& others_unchanged(pre, post, i)
}

/// The move of [`SharedPointerTag::drop_strong`]: one strong handle to
/// live slot `i` released; if it was the last, the slot's value is
/// destroyed with it; nothing else moves.
pub open spec fn drop_step<P>(pre: Seq<SlotModel<P>>, post: Seq<SlotModel<P>>, i: int) -> bool {
    &&& live(pre, i)
    &&& post.len() == pre.len()
    &&& post[i].strong == pre[i].strong - 1
    &&& pre[i].strong > 1 ==> post[i].payload == pre[i].payload && post[i].back_ref
        == pre[i].back_ref
    &&& others_unchanged(pre, post, i)
}

/// The move of [`SharedPointerTag::tie_back_ref`]: the one write of the
/// back-reference cell of live slot `i`, from empty to the slot's own
/// index; payload and counts do not move.
pub open spec fn tie_step<P>(pre: Seq<SlotModel<P>>, post: Seq<SlotModel<P>>, i: int) -> bool {
    &&& live(pre, i)
    &&& pre[i].back_ref is None
    &&& post.len() == pre.len()
    &&& post[i].strong == pre[i].strong
    &&& post[i].payload == pre[i].payload
    &&& post[i].back_ref == Some(i)
    &&& others_unchanged(pre, post, i)
}

/// The move of the whole construction protocol [`crate::tie`]: a fresh
/// slot holding payload `p` whose cell already points back at the slot
/// itself.
pub open spec fn knot_step<P>(
    pre: Seq<SlotModel<P>>,
    post: Seq<SlotModel<P>>,
    i: int,
    p: P,
) -> bool {
    &&& i == pre.len()
    &&& post.len() == pre.len() + 1
    &&& post[i].strong == 1
    &&& post[i].payload == p
    &&& post[i].back_ref == Some(i)
    &&& others_unchanged(pre, post, i)
}

/// Any move a realm can make: one of the operations of the contract, or
/// an operation that moves nothing (a failed upgrade, any read).
pub open spec fn step_rel<P>(pre: Seq<SlotModel<P>>, post: Seq<SlotModel<P>>) -> bool {
    ||| exists|i: int, p: P, br: Option<int>| #[trigger] alloc_step(pre, post, i, p, br)
    ||| exists|i: int| #[trigger] clone_step(pre, post, i)
    ||| exists|i: int| #[trigger] drop_step(pre, post, i)
    ||| exists|i: int| #[trigger] tie_step(pre, post, i)
    ||| exists|i: int, p: P| #[trigger] knot_step(pre, post, i, p)
    ||| same_slots(pre, post)
}

/// One strong/weak pointer family: the realm owning its allocations,
/// together with the four capability operations (allocate, downgrade,
/// create an empty weak pointer, upgrade) and the reference-count moves
/// (clone and drop of a strong handle).
///
/// The restricted write path of the back-reference cell,
/// [`tie_back_ref`](Self::tie_back_ref), also lives here: its `requires`
/// admits only a cell that is still empty, so the write is exactly-once
/// at verification time rather than by an unsafe caller contract.
pub trait SharedPointerTag<P>: Sized {
    /// The family's strong handle type.
    type Strong: SharedStrongPointer;

    /// The family's weak handle type.
    type Weak: SharedWeakPointer;

    /// The realm's mathematical model: one [`SlotModel`] per slot ever
    /// allocated.
    spec fn model(&self) -> Seq<SlotModel<P>>;

    /// The realm's internal well-formedness; established by
    /// [`new_realm`](Self::new_realm) and preserved by every operation.
    spec fn wf(&self) -> bool;

    /// Create an empty realm, with no allocations yet.
    fn new_realm() -> (r: Self)
        ensures
            r.wf(),
            r.model().len() == 0,
    ;

    /// Allocate ownership of `data` in a fresh slot and return the first
    /// strong handle to it.  There is no error path: allocation failure
    /// is a fatal environment condition.
    fn new(&mut self, data: Tied<P, Self::Weak>) -> (s: Self::Strong)
        requires
            old(self).wf(),
            old(self).model().len() < usize::MAX as int,
        ensures
            final(self).wf(),
            s.id() == old(self).model().len(),
            alloc_step(
                old(self).model(),
                final(self).model(),
                s.id(),
                data.value,
                data.myself.target(),
            ),
    ;

    /// Create an empty weak pointer of this family; it can never upgrade.
    fn new_weak(&self) -> (w: Self::Weak)
        ensures
            w.target() is None,
    ;

    /// Produce a non-owning observer of `s`'s slot.  The strong count
    /// does not move: a weak pointer never keeps its target alive.
    fn downgrade(&self, s: &Self::Strong) -> (w: Self::Weak)
        requires
            self.wf(),
            live(self.model(), s.id()),
        ensures
            w.target() == Some(s.id()),
    ;

    /// A new strong handle sharing ownership of `s`'s slot.
    fn clone_strong(&mut self, s: &Self::Strong) -> (s2: Self::Strong)
        requires
            old(self).wf(),
            live(old(self).model(), s.id()),
            old(self).model()[s.id()].strong < u64::MAX as int,
        ensures
            final(self).wf(),
            s2.id() == s.id(),
            clone_step(old(self).model(), final(self).model(), s.id()),
    ;

    /// Release one strong handle.  When it is the last one, the slot's
    /// value is destroyed and the slot is dead from then on.
    fn drop_strong(&mut self, s: Self::Strong)
        requires
            old(self).wf(),
            live(old(self).model(), s.id()),
        ensures
            final(self).wf(),
            drop_step(old(self).model(), final(self).model(), s.id()),
    ;

    /// Attempt to turn a weak pointer back into a strong handle.
    /// Succeeds exactly when the observed slot is still live; failure is
    /// an expected, checked outcome, not an error.
    fn upgrade(&mut self, w: &Self::Weak) -> (r: Option<Self::Strong>)
        requires
            old(self).wf(),
            upgrade_ok(old(self).model(), w.target()) ==> old(self).model()[w.target()->0].strong
                < u64::MAX as int,
        ensures
            final(self).wf(),
            r is Some <==> upgrade_ok(old(self).model(), w.target()),
            match r {
                Some(s) => s.id() == w.target()->0 && clone_step(
                    old(self).model(),
                    final(self).model(),
                    s.id(),
                ),
                None => same_slots(old(self).model(), final(self).model()),
            },
    ;

    /// The restricted write path of the back-reference cell: downgrade
    /// `s` into the cell of its own slot.  The `requires` admits only a
    /// cell that is still empty, so for any one slot this can be called
    /// at most once, and only by code holding the realm exclusively.
    fn tie_back_ref(&mut self, s: &Self::Strong)
        requires
            old(self).wf(),
            live(old(self).model(), s.id()),
            old(self).model()[s.id()].back_ref is None,
        ensures
            final(self).wf(),
            tie_step(old(self).model(), final(self).model(), s.id()),
    ;

    /// Read access to the value owned by `s`'s slot.  This is the
    /// ordinary read path: the cell inside behaves like a plain field of
    /// weak pointer type.
    fn borrow(&self, s: &Self::Strong) -> (v: &Tied<P, Self::Weak>)
        requires
            self.wf(),
            live(self.model(), s.id()),
        ensures
            v.value == self.model()[s.id()].payload,
            v.myself.target() == self.model()[s.id()].back_ref,
    ;
}

} // verus!
