//! The thread-safe pointer family.
//!
//! This family stands for the atomically reference-counted variant: the
//! one whose strong handles may be cloned, dropped and upgraded from
//! several threads once a value has been shared.  Its realm therefore
//! keeps the strong counts apart from the stored values, the way an
//! atomic control block sits apart from the data it guards: one vector
//! of counts, one vector of values, always of equal length.
//!
//! Against the contract of [`SharedPointerTag`] it behaves exactly as
//! the thread-confined family does; that parity is proved in
//! [`crate::laws`].

use vstd::prelude::*;

use crate::generic::Tied;
use crate::generic::TieWeak;
use crate::traits::SharedPointerTag;
use crate::traits::SharedStrongPointer;
use crate::traits::SharedWeakPointer;
use crate::traits::SlotModel;

verus! {

/// A strong handle of the thread-safe family.
pub struct AtomicStrong {
    index: usize,
}

impl SharedStrongPointer for AtomicStrong {
    closed spec fn id(&self) -> int {
        self.index as int
    }

    fn slot_index(&self) -> (i: usize) {
        self.index
    }
}

/// A weak handle of the thread-safe family.
#[derive(Clone, Copy)]
pub struct AtomicWeak {
    target_index: Option<usize>,
}

/// The zero-size capability token of the thread-safe family.
#[derive(Clone, Copy)]
pub struct AtomicTag;

impl SharedWeakPointer for AtomicWeak {
    type Tag = AtomicTag;

    closed spec fn target(&self) -> Option<int> {
        match self.target_index {
            Some(i) => Some(i as int),
            None => None,
        }
    }

    closed spec fn spec_tag() -> AtomicTag {
        AtomicTag
    }

    fn new() -> (w: Self) {
        AtomicWeak { target_index: None }
    }

    fn family_tag() -> (t: AtomicTag) {
        AtomicTag
    }
}

/// The thread-safe realm: strong counts and stored values in two
/// parallel vectors.
pub struct AtomicFamily<P> {
    counts: Vec<u64>,
    values: Vec<Option<Tied<P, AtomicWeak>>>,
}

impl<P> SharedPointerTag<P> for AtomicFamily<P> {
    type Strong = AtomicStrong;

    type Weak = AtomicWeak;

    closed spec fn model(&self) -> Seq<SlotModel<P>> {
        Seq::new(
            self.counts@.len(),
            |i: int|
                SlotModel {
                    strong: self.counts@[i] as int,
                    payload: self.values@[i]->0.value,
                    back_ref: self.values@[i]->0.myself.target(),
                },
        )
    }

    closed spec fn wf(&self) -> bool {
        &&& self.values@.len() == self.counts@.len()
        &&& forall|i: int|
            0 <= i < self.counts@.len() ==> ((#[trigger] self.counts@[i]) > 0
                <==> self.values@[i] is Some)
    }

    fn new_realm() -> (r: Self) {
        AtomicFamily { counts: Vec::new(), values: Vec::new() }
    }

    fn new(&mut self, data: Tied<P, AtomicWeak>) -> (s: AtomicStrong) {
        let i = self.counts.len();
        self.counts.push(1);
        self.values.push(Some(data));
        AtomicStrong { index: i }
    }

    fn new_weak(&self) -> (w: AtomicWeak) {
        AtomicWeak { target_index: None }
    }

    fn downgrade(&self, s: &AtomicStrong) -> (w: AtomicWeak) {
        AtomicWeak { target_index: Some(s.index) }
    }

    fn clone_strong(&mut self, s: &AtomicStrong) -> (s2: AtomicStrong) {
        let c = &mut self.counts[s.index];
        *c = *c + 1;
        AtomicStrong { index: s.index }
    }

    fn drop_strong(&mut self, s: AtomicStrong) {
        let c = &mut self.counts[s.index];
        *c = *c - 1;
        if *c == 0 {
            self.values[s.index] = None;
        }
    }

    fn upgrade(&mut self, w: &AtomicWeak) -> (r: Option<AtomicStrong>) {
        match w.target_index {
            None => None,
            Some(i) => {
                if i < self.counts.len() {
                    let c = &mut self.counts[i];
                    if *c > 0 {
                        *c = *c + 1;
                        Some(AtomicStrong { index: i })
                    } else {
                        None
                    }
                } else {
                    None
                }
            },
        }
    }

    fn tie_back_ref(&mut self, s: &AtomicStrong) {
        let w = AtomicWeak { target_index: Some(s.index) };
        let v = &mut self.values[s.index];
        match v {
            Some(t) => {
                t.myself = TieWeak::tied(w);
            },
            None => {},
        }
    }

    fn borrow(&self, s: &AtomicStrong) -> (v: &Tied<P, AtomicWeak>) {
        match &self.values[s.index] {
            Some(v) => v,
            None => vstd::pervasive::unreached(),
        }
    }
}

} // verus!
