//! The per-symbol target slot and its resolve-once state machine.

use vstd::prelude::*;

verus! {

/// Abstract state of one symbol's target slot: either no entry point has
/// been published yet, or one has and it is fixed for the rest of the
/// process's life.
pub enum SlotModel {
    Unresolved,
    Resolved { entry: usize },
}

/// One compare-and-publish attempt on a slot: an already-resolved slot is
/// left untouched (the attempt lost the race), an unresolved slot accepts
/// a non-null entry point, and a null lookup result changes nothing.
pub open spec fn publish_step(s: SlotModel, addr: usize) -> SlotModel {
    match s {
        SlotModel::Resolved { entry } => s,
        SlotModel::Unresolved => if addr != 0 {
            SlotModel::Resolved { entry: addr }
        } else {
            SlotModel::Unresolved
        },
    }
}

/// What one publish attempt reported back to its caller.
pub enum PublishOutcome {
    /// The attempt won: its entry point is now the slot's value.
    Installed { entry: usize },
    /// The slot was already resolved; the stored entry point is returned
    /// and the attempted value is discarded.
    Retained { entry: usize },
    /// The lookup result was the null sentinel and the slot was still
    /// unresolved: resolution failed and the caller must take the fatal
    /// path.
    Unresolvable,
}

/// Per-symbol storage for the resolved "next" entry point.
///
/// The embedding shared object keeps exactly one `TargetSlot` per
/// intercepted symbol for the process's whole life and serialises access
/// to it (an atomic word or a one-time-initialisation primitive around
/// these calls), so that every thread sees each `publish` as one
/// indivisible step. The value is a plain address: `0` is the sentinel
/// for "unresolved", matching the dynamic loader's null result for a
/// missing symbol.
pub struct TargetSlot {
    entry: usize,
}

impl View for TargetSlot {
    type V = SlotModel;

    closed spec fn view(&self) -> SlotModel {
        if self.entry == 0 {
            SlotModel::Unresolved
        } else {
            SlotModel::Resolved { entry: self.entry }
        }
    }
}

impl TargetSlot {
    /// A fresh slot, before any resolution attempt.
    pub fn new() -> (s: Self)
        ensures
            s@ == SlotModel::Unresolved,
    {
        TargetSlot { entry: 0 }
    }

    /// The published entry point, or `None` while unresolved.
    pub fn entry(&self) -> (r: Option<usize>)
        ensures
            match r {
                Some(e) => self@ == (SlotModel::Resolved { entry: e }) && e != 0,
                None => self@ == SlotModel::Unresolved,
            },
    {
        if self.entry == 0 {
            None
        } else {
            Some(self.entry)
        }
    }

    /// Compare-and-publish: install `addr` if the slot is still unresolved
    /// and `addr` is a usable (non-null) entry point. A slot that is
    /// already resolved is never overwritten, whatever `addr` is.
    pub fn publish(&mut self, addr: usize) -> (r: PublishOutcome)
        ensures
            final(self)@ == publish_step(old(self)@, addr),
            match r {
                PublishOutcome::Installed { entry } => old(self)@ == SlotModel::Unresolved
                    && addr != 0 && entry == addr,
                PublishOutcome::Retained { entry } => old(self)@ == (SlotModel::Resolved {
                    entry,
                }) && entry != 0,
                PublishOutcome::Unresolvable => old(self)@ == SlotModel::Unresolved && addr == 0,
            },
    {
        if self.entry != 0 {
            PublishOutcome::Retained { entry: self.entry }
        } else if addr != 0 {
            self.entry = addr;
            PublishOutcome::Installed { entry: addr }
        } else {
            PublishOutcome::Unresolvable
        }
    }
}

} // verus!
