//! Admission of deferred work to a root, and the identities by which late results are told from
//! current ones.
//!
//! A root is bound while a route consumes its work. Every configuration that changes the root
//! starts a new generation, and so does the loss of the last route. A worker carries the
//! generation and the epoch that it was started under; what it delivers counts only while both
//! are those of the slot that waits for it.

use vstd::prelude::*;

verus! {

/// A counter's next value; it starts again at zero after the largest one.
pub open spec fn next_count(count: u64) -> u64 {
    if count == u64::MAX {
        0
    } else {
        (count + 1) as u64
    }
}

/// The next value of a counter.
pub fn advance(count: u64) -> (next: u64)
    ensures
        next == next_count(count),
{
    count.wrapping_add(1)
}

/// Whether a root is bound to a route, and its configure generation.
#[derive(Debug, Clone, Copy, PartialEq, Eq, Structural)]
pub struct SubcLifecycleAdmission {
    pub unbound: bool,
    pub generation: u64,
}

impl SubcLifecycleAdmission {
    /// Whether work of a generation is admitted: the root is bound, and the generation is the
    /// one that the work was started under.
    pub open spec fn admits(self, expected: u64) -> bool {
        !self.unbound && self.generation == expected
    }

    /// The state once the last route is gone.
    pub open spec fn without_route(self) -> SubcLifecycleAdmission {
        if self.unbound {
            self
        } else {
            SubcLifecycleAdmission { unbound: true, generation: next_count(self.generation) }
        }
    }

    /// A bound root in its first generation.
    pub fn new() -> (admission: Self)
        ensures
            admission == (SubcLifecycleAdmission { unbound: false, generation: 0 }),
    {
        SubcLifecycleAdmission { unbound: false, generation: 0 }
    }

    /// Notes that a route consumes the root's work.
    pub fn mark_bound(&mut self)
        ensures
            *final(self) == (SubcLifecycleAdmission { unbound: false, ..*old(self) }),
    {
        self.unbound = false;
    }

    /// Notes that the last route is gone: work of the generation so far is no longer admitted.
    pub fn mark_unbound(&mut self)
        ensures
            *final(self) == old(self).without_route(),
    {
        if !self.unbound {
            self.unbound = true;
            self.generation = advance(self.generation);
        }
    }

    /// Whether work of a generation is admitted.
    pub fn is_current(&self, expected: u64) -> (yes: bool)
        ensures
            yes == self.admits(expected),
    {
        !self.unbound && self.generation == expected
    }

    /// Starts a new generation.
    pub fn advance_generation(&mut self) -> (generation: u64)
        ensures
            generation == next_count(old(self).generation),
            *final(self) == (SubcLifecycleAdmission { generation, ..*old(self) }),
    {
        self.generation = advance(self.generation);
        self.generation
    }

    /// Whether a route consumes the root's work.
    pub fn is_bound(&self) -> (yes: bool)
        ensures
            yes == !self.unbound,
    {
        !self.unbound
    }

    /// Whether no route consumes the root's work.
    pub fn is_unbound(&self) -> (yes: bool)
        ensures
            yes == self.unbound,
    {
        !self.is_bound()
    }
}

/// Once the last route is gone nothing is admitted, whatever generation it was started under.
pub proof fn law_unbound_admits_nothing(admission: SubcLifecycleAdmission, generation: u64)
    ensures
        !admission.without_route().admits(generation),
{
}

/// Losing and regaining a route leaves behind the work that was started before, and losing a
/// route twice counts once.
pub proof fn law_rebinding_leaves_older_work_behind(admission: SubcLifecycleAdmission)
    requires
        !admission.unbound,
    ensures
        !(SubcLifecycleAdmission { unbound: false, ..admission.without_route() }).admits(
            admission.generation,
        ),
        admission.without_route().without_route() == admission.without_route(),
{
}

/// Whether a worker's receiver is installed, and the generation and epoch that it belongs to.
#[derive(Debug, Clone, Copy, PartialEq, Eq, Structural)]
pub struct ReceiverSlot {
    pub present: bool,
    pub generation: u64,
    pub epoch: u64,
}

impl ReceiverSlot {
    /// Whether a result that was dequeued under `generation` and `epoch` is the one that the
    /// slot waits for.
    pub open spec fn awaits(
        self,
        admission: SubcLifecycleAdmission,
        generation: u64,
        epoch: u64,
    ) -> bool {
        &&& admission.admits(generation)
        &&& self.present
        &&& self.generation == generation
        &&& self.epoch == epoch
    }

    /// The slot with a new receiver.
    pub open spec fn with_receiver(self, generation: u64) -> ReceiverSlot {
        ReceiverSlot { present: true, generation, epoch: next_count(self.epoch) }
    }

    /// The slot without its receiver, in a new epoch.
    pub open spec fn retired(self) -> ReceiverSlot {
        ReceiverSlot { present: false, epoch: next_count(self.epoch), ..self }
    }

    /// A slot that never held a receiver.
    pub fn empty() -> (slot: Self)
        ensures
            slot == (ReceiverSlot { present: false, generation: 0, epoch: 0 }),
    {
        ReceiverSlot { present: false, generation: 0, epoch: 0 }
    }

    /// Installs a receiver and returns its epoch.
    pub fn install(&mut self, generation: u64) -> (epoch: u64)
        ensures
            *final(self) == old(self).with_receiver(generation),
            epoch == final(self).epoch,
    {
        self.generation = generation;
        self.epoch = advance(self.epoch);
        self.present = true;
        self.epoch
    }

    /// Drops the receiver and starts a new epoch.
    pub fn retire(&mut self)
        ensures
            *final(self) == old(self).retired(),
    {
        self.present = false;
        self.epoch = advance(self.epoch);
    }

    /// Moves an installed receiver to another generation; answers whether there is one.
    pub fn adopt(&mut self, generation: u64) -> (adopted: bool)
        ensures
            adopted == old(self).present,
            *final(self) == (if old(self).present {
                ReceiverSlot { generation, ..*old(self) }
            } else {
                *old(self)
            }),
    {
        if !self.present {
            return false;
        }
        self.generation = generation;
        true
    }

    /// Drops the receiver unless the slot moved on to another epoch: `None` where it did, else
    /// whether there was a receiver.
    pub fn retire_if_epoch(&mut self, expected_epoch: u64) -> (retired: Option<bool>)
        ensures
            retired == (if old(self).epoch == expected_epoch {
                Some(old(self).present)
            } else {
                None
            }),
            *final(self) == (if old(self).epoch == expected_epoch && old(self).present {
                old(self).retired()
            } else {
                *old(self)
            }),
    {
        if self.epoch != expected_epoch {
            return None;
        }
        let present = self.present;
        if present {
            self.retire();
        }
        Some(present)
    }

    /// Whether a result that was dequeued under `generation` and `epoch` still counts.
    pub fn is_current(
        &self,
        admission: &SubcLifecycleAdmission,
        generation: u64,
        epoch: u64,
    ) -> (yes: bool)
        ensures
            yes == self.awaits(*admission, generation, epoch),
    {
        admission.is_current(generation) && self.present && self.generation == generation
            && self.epoch == epoch
    }
}

/// A result that was dequeued before its receiver was replaced or retired no longer counts.
pub proof fn law_replaced_receiver_refuses_older_results(
    slot: ReceiverSlot,
    admission: SubcLifecycleAdmission,
    generation: u64,
    later_generation: u64,
)
    ensures
        !slot.with_receiver(later_generation).awaits(admission, generation, slot.epoch),
        !slot.retired().awaits(admission, generation, slot.epoch),
{
}

/// A result that was dequeued before the route was lost no longer counts.
pub proof fn law_lost_route_refuses_older_results(
    slot: ReceiverSlot,
    admission: SubcLifecycleAdmission,
    generation: u64,
    epoch: u64,
)
    ensures
        !slot.awaits(admission.without_route(), generation, epoch),
{
}

/// The mark of the last worker that ended: it is moved on when the worker's guard is released,
/// and never back.
#[derive(Debug, Clone, Copy, PartialEq, Eq, Structural)]
pub struct ReceiverTerminalGuard {
    pub epoch: u64,
}

impl ReceiverTerminalGuard {
    /// The guard of a worker that was started in an epoch.
    pub fn new(epoch: u64) -> (guard: Self)
        ensures
            guard.epoch == epoch,
    {
        ReceiverTerminalGuard { epoch }
    }

    /// The mark once this worker ended.
    pub fn release(self, terminal_epoch: u64) -> (terminal: u64)
        ensures
            terminal == (if self.epoch > terminal_epoch {
                self.epoch
            } else {
                terminal_epoch
            }),
    {
        if self.epoch > terminal_epoch {
            self.epoch
        } else {
            terminal_epoch
        }
    }
}

/// A counter moves on with every step, by one, and starts again at zero behind the largest value.
pub proof fn law_counters_move_on(count: u64)
    ensures
        next_count(count) != count,
        count < u64::MAX ==> next_count(count) == count + 1,
        next_count(u64::MAX) == 0,
{
}

/// Work is admitted exactly while the root is bound and its generation is in force; losing the
/// route starts a new one.
pub proof fn law_work_is_admitted_in_its_generation(
    admission: SubcLifecycleAdmission,
    expected: u64,
)
    ensures
        admission.admits(expected) <==> !admission.unbound && expected == admission.generation,
        admission.without_route().unbound,
        !admission.unbound ==> admission.without_route().generation != admission.generation,
        admission.unbound ==> admission.without_route() == admission,
{
}

/// A result counts exactly where the slot holds a receiver of the generation in force and of the
/// epoch that it was dequeued under. A new receiver is the one that is awaited, in its own
/// generation; a retired one is not, and its generation stays noted.
pub proof fn law_results_count_for_their_receiver(
    slot: ReceiverSlot,
    admission: SubcLifecycleAdmission,
    generation: u64,
    epoch: u64,
)
    ensures
        slot.awaits(admission, generation, epoch) <==> {
            &&& !admission.unbound
            &&& admission.generation == generation
            &&& slot.present
            &&& slot.generation == generation
            &&& slot.epoch == epoch
        },
        slot.with_receiver(generation).present,
        slot.with_receiver(generation).generation == generation,
        slot.with_receiver(generation).epoch != slot.epoch,
        admission.admits(generation) ==> slot.with_receiver(generation).awaits(
            admission,
            generation,
            slot.with_receiver(generation).epoch,
        ),
        !slot.retired().present,
        slot.retired().epoch != slot.epoch,
        slot.retired().generation == slot.generation,
        !slot.retired().awaits(admission, generation, epoch),
{
}

} // verus!
