//! The interrupt-callback registry: a bounded, statically sized table with
//! one slot per physical timer instance, holding at most one active handler
//! each.
//!
//! Normal-context code populates and clears slots through
//! [`CallbackRegistry::store`] and [`CallbackRegistry::clear`]; interrupt
//! context only ever reads a slot's handler through
//! [`CallbackRegistry::handler`].  The table never grows, so the
//! interrupt-side lookup path cannot trigger an allocation.

use vstd::prelude::*;

verus! {

/// How many callback slots the registry holds: one per physical timer
/// instance of the target.
pub const SLOT_COUNT: usize = 4;

/// The per-instance callback slot table.  `H` is whatever the embedder
/// registers as a handler; the registry only moves such values, it never
/// invokes them.
pub struct CallbackRegistry<H> {
    slots: Vec<Option<H>>,
}

impl<H> View for CallbackRegistry<H> {
    type V = Seq<Option<H>>;

    closed spec fn view(&self) -> Seq<Option<H>> {
        self.slots@
    }
}

impl<H> CallbackRegistry<H> {
    /// The table always holds exactly one slot per physical instance.
    pub open spec fn wf(&self) -> bool {
        self@.len() == SLOT_COUNT
    }

    /// A registry with every slot empty.
    pub fn new() -> (r: CallbackRegistry<H>)
        ensures
            r.wf(),
            forall|i: int| 0 <= i < SLOT_COUNT ==> r@[i] is None,
    {
        let slots: Vec<Option<H>> = vec![None, None, None, None];
        CallbackRegistry { slots }
    }

    /// Whether the given slot holds an active handler.
    pub fn is_subscribed(&self, slot: usize) -> (r: bool)
        requires
            self.wf(),
            slot < SLOT_COUNT,
        ensures
            r <==> self@[slot as int] is Some,
    {
        self.slots[slot].is_some()
    }

    /// Read-only access to a slot's handler, the one access interrupt
    /// context may perform.
    pub fn handler(&self, slot: usize) -> (r: &Option<H>)
        requires
            self.wf(),
            slot < SLOT_COUNT,
        ensures
            *r == self@[slot as int],
    {
        &self.slots[slot]
    }

    /// Stores a handler, replacing (and thereby releasing) whatever the
    /// slot held before.
    pub fn store(&mut self, slot: usize, handler: H)
        requires
            old(self).wf(),
            slot < SLOT_COUNT,
        ensures
            final(self).wf(),
            final(self)@ == old(self)@.update(slot as int, Some(handler)),
    {
        self.slots[slot] = Some(handler);
    }

    /// Empties a slot, releasing whatever it held.  Emptying an already
    /// empty slot leaves the table as it was.
    pub fn clear(&mut self, slot: usize)
        requires
            old(self).wf(),
            slot < SLOT_COUNT,
        ensures
            final(self).wf(),
            final(self)@ == old(self)@.update(slot as int, None::<H>),
            old(self)@[slot as int] is None ==> final(self)@ == old(self)@,
    {
        self.slots[slot] = None;
        proof {
            if old(self)@[slot as int] is None {
                assert(self@ =~= old(self)@);
            }
        }
    }
}

} // verus!
