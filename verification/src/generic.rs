//! The single-assignment back-reference cell and the construction protocol.
//!
//! [`TieWeak`] wraps one weak pointer.  It starts out holding the empty
//! weak pointer; the construction protocol writes it exactly once, after
//! which it is read-only for the rest of its owner's lifetime.  The write
//! path is crate-private and guarded by a `requires` that admits only an
//! empty cell, so no second owner can ever race the first write: the
//! hazard is ruled out at verification time instead of by documentation.

use vstd::prelude::*;

use crate::traits::SharedPointerTag;
use crate::traits::SharedStrongPointer;
use crate::traits::SharedWeakPointer;
use crate::traits::knot_step;

verus! {

/// A single-assignment cell holding one weak pointer.
///
/// Before its one write the cell yields an empty weak pointer; after it,
/// the tied weak pointer, for ever.  Cloning a cell copies the weak
/// pointer it currently holds: clones are independent cells that carry no
/// further tie obligation.
#[derive(Clone, Copy)]
pub struct TieWeak<W> {
    weak: W,
}

impl<W: SharedWeakPointer> TieWeak<W> {
    /// The slot the held weak pointer observes; `None` while the cell is
    /// still empty.
    pub closed spec fn target(&self) -> Option<int> {
        self.weak.target()
    }

    /// Create a new, empty cell.  It holds the empty weak pointer until
    /// the construction protocol performs the cell's one write.
    pub fn new() -> (c: Self)
        ensures
            c.target() is None,
    {
        TieWeak { weak: W::new() }
    }

    /// The read path: the weak pointer the cell currently holds.  From
    /// the outside the cell behaves like an ordinary field of weak
    /// pointer type.
    pub fn read(&self) -> (w: W)
        ensures
            w.target() == self.target(),
    {
        self.weak
    }

    /// The capability token of the pointer family this cell is coupled
    /// to.  Taking a double reference keeps the call answerable only for
    /// a directly held cell, never for one reached through a further
    /// layer of shared ownership.
    pub fn tag_ref(_ptr: &&Self) -> (t: W::Tag)
        ensures
            t == W::spec_tag(),
    {
        W::family_tag()
    }

    /// The restricted write path, for the pointer families alone: a cell
    /// already holding `w`.  Families call it only through
    /// `tie_back_ref`, whose `requires` admits just one write per slot.
    pub(crate) fn tied(w: W) -> (c: Self)
        ensures
            c.target() == w.target(),
    {
        TieWeak { weak: w }
    }
}

impl<W: SharedWeakPointer> Default for TieWeak<W> {
    /// Same as [`TieWeak::new`]: a still-empty cell.
    fn default() -> (c: Self)
        ensures
            c.target() is None,
    {
        TieWeak::new()
    }
}

/// The shape of a value that carries a back-reference to itself: an
/// arbitrary payload next to the designated cell, `myself`.
///
/// The cell sits directly in the value — never behind a further shared
/// pointer.  A value whose field held a strong handle instead of a
/// [`TieWeak`] simply has no tie path: the construction protocol only
/// writes the designated field, which is what makes a racing second
/// write inexpressible.
pub struct Tied<P, W> {
    /// The content proper; immutable after construction.
    pub value: P,
    /// The designated back-reference field.
    pub myself: TieWeak<W>,
}

/// The knot-tying construction protocol.
///
/// Takes a fully evaluated value whose designated cell is still empty,
/// allocates the strong pointer around it, downgrades that pointer into
/// the cell, and only then returns it.  No intermediate state is
/// observable: the realm is held exclusively for the whole call, so the
/// write happens strictly before the pointer can reach any other owner.
///
/// For the returned handle `s`, the cell of `s`'s slot points back at
/// that very slot: upgrading what the cell holds yields `s`'s allocation
/// for as long as any strong handle to it lives.
pub fn tie<P, F: SharedPointerTag<P>>(realm: &mut F, data: Tied<P, F::Weak>) -> (s: F::Strong)
    requires
        old(realm).wf(),
        old(realm).model().len() < usize::MAX as int,
        data.myself.target() is None,
    ensures
        final(realm).wf(),
        s.id() == old(realm).model().len(),
        knot_step(old(realm).model(), final(realm).model(), s.id(), data.value),
{
    let s = realm.new(data);
    let ghost mid = realm.model();
    realm.tie_back_ref(&s);
    proof {
        assert forall|j: int|
            0 <= j < old(realm).model().len() && j != s.id() implies realm.model()[j] == old(
            realm,
        ).model()[j] by {
            assert(mid[j] == old(realm).model()[j]);
            assert(realm.model()[j] == mid[j]);
        }
    }
    s
}

} // verus!
