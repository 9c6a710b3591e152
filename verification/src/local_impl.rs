//! The thread-confined pointer family.
//!
//! This family is for values that stay on one thread: its realm keeps
//! each allocation in a single slot record, a plain strong count next to
//! the stored value, with no provision for sharing the realm itself.
//! Dead slots are kept as tombstones — their value destroyed, their
//! count zero — so a slot index, once dead, never comes back to life.

use vstd::prelude::*;

use crate::generic::Tied;
use crate::generic::TieWeak;
use crate::traits::SharedPointerTag;
use crate::traits::SharedStrongPointer;
use crate::traits::SharedWeakPointer;
use crate::traits::SlotModel;

verus! {

/// A strong handle of the thread-confined family.
pub struct LocalStrong {
    index: usize,
}

impl SharedStrongPointer for LocalStrong {
    closed spec fn id(&self) -> int {
        self.index as int
    }

    fn slot_index(&self) -> (i: usize) {
        self.index
    }
}

/// A weak handle of the thread-confined family.
#[derive(Clone, Copy)]
pub struct LocalWeak {
    target_index: Option<usize>,
}

/// The zero-size capability token of the thread-confined family.
#[derive(Clone, Copy)]
pub struct LocalTag;

impl SharedWeakPointer for LocalWeak {
    type Tag = LocalTag;

    closed spec fn target(&self) -> Option<int> {
        match self.target_index {
            Some(i) => Some(i as int),
            None => None,
        }
    }

    closed spec fn spec_tag() -> LocalTag {
        LocalTag
    }

    fn new() -> (w: Self) {
        LocalWeak { target_index: None }
    }

    fn family_tag() -> (t: LocalTag) {
        LocalTag
    }
}

/// One allocation of the thread-confined realm: its strong count and,
/// while it is live, the stored value.
struct LocalSlot<P> {
    strong: u64,
    value: Option<Tied<P, LocalWeak>>,
}

/// The thread-confined realm: every slot record in one vector.
pub struct LocalFamily<P> {
    slots: Vec<LocalSlot<P>>,
}

impl<P> SharedPointerTag<P> for LocalFamily<P> {
    type Strong = LocalStrong;

    type Weak = LocalWeak;

    closed spec fn model(&self) -> Seq<SlotModel<P>> {
        Seq::new(
            self.slots@.len(),
            |i: int|
                SlotModel {
                    strong: self.slots@[i].strong as int,
                    payload: self.slots@[i].value->0.value,
                    back_ref: self.slots@[i].value->0.myself.target(),
                },
        )
    }

    closed spec fn wf(&self) -> bool {
        forall|i: int|
            0 <= i < self.slots@.len() ==> ((#[trigger] self.slots@[i].strong) > 0
                <==> self.slots@[i].value is Some)
    }

    fn new_realm() -> (r: Self) {
        LocalFamily { slots: Vec::new() }
    }

    fn new(&mut self, data: Tied<P, LocalWeak>) -> (s: LocalStrong) {
        let i = self.slots.len();
        self.slots.push(LocalSlot { strong: 1, value: Some(data) });
        LocalStrong { index: i }
    }

    fn new_weak(&self) -> (w: LocalWeak) {
        LocalWeak { target_index: None }
    }

    fn downgrade(&self, s: &LocalStrong) -> (w: LocalWeak) {
        LocalWeak { target_index: Some(s.index) }
    }

    fn clone_strong(&mut self, s: &LocalStrong) -> (s2: LocalStrong) {
        let slot = &mut self.slots[s.index];
        slot.strong = slot.strong + 1;
        LocalStrong { index: s.index }
    }

    fn drop_strong(&mut self, s: LocalStrong) {
        let slot = &mut self.slots[s.index];
        slot.strong = slot.strong - 1;
        if slot.strong == 0 {
            slot.value = None;
        }
    }

    fn upgrade(&mut self, w: &LocalWeak) -> (r: Option<LocalStrong>) {
        match w.target_index {
            None => None,
            Some(i) => {
                if i < self.slots.len() {
                    let slot = &mut self.slots[i];
                    if slot.strong > 0 {
                        slot.strong = slot.strong + 1;
                        Some(LocalStrong { index: i })
                    } else {
                        None
                    }
                } else {
                    None
                }
            },
        }
    }

    fn tie_back_ref(&mut self, s: &LocalStrong) {
        let w = LocalWeak { target_index: Some(s.index) };
        let slot = &mut self.slots[s.index];
        match &mut slot.value {
            Some(v) => {
                v.myself = TieWeak::tied(w);
            },
            None => {},
        }
    }

    fn borrow(&self, s: &LocalStrong) -> (v: &Tied<P, LocalWeak>) {
        match &self.slots[s.index].value {
            Some(v) => v,
            None => vstd::pervasive::unreached(),
        }
    }
}

} // verus!
