//! The queue processor: the scheduling step that drains `queued` through
//! the conversion engine into `output`.
//!
//! The perpetual loop itself — sleeping between iterations and asking for
//! the time — belongs to the surrounding collaborator. This type is the
//! schedulable task it runs: an explicit start/stop switch checked at each
//! iteration boundary, and a step that processes at most one queued entity,
//! so tests can single-step it rather than rely on timing.

use vstd::prelude::*;

use crate::store::{drain_step, DrainOutcome, ImageStore};

verus! {

/// The drain loop's cancellation state.
pub struct QueueProcessor {
    running: bool,
}

impl QueueProcessor {
    /// Whether the processor is running; a stopped processor's steps do
    /// nothing.
    pub closed spec fn is_running(&self) -> bool {
        self.running
    }

    /// A new processor, not yet started.
    pub fn new() -> (r: QueueProcessor)
        ensures
            !r.is_running(),
    {
        QueueProcessor { running: false }
    }

    /// Starts the processor.
    pub fn start(&mut self)
        ensures
            final(self).is_running(),
    {
        self.running = true;
    }

    /// Signals the processor to stop; the next step boundary observes it.
    pub fn stop(&mut self)
        ensures
            !final(self).is_running(),
    {
        self.running = false;
    }

    /// One iteration of the drain loop: while running, drains at most one
    /// entity out of `queued`; once stopped, leaves the store untouched.
    /// `now` is the completion timestamp recorded on a successful
    /// conversion.
    pub fn step(&self, store: &mut ImageStore, now: u64) -> (outcome: DrainOutcome)
        requires
            old(store).wf(),
        ensures
            final(store).wf(),
            self.is_running() ==> drain_step(*old(store), *final(store), outcome, now),
            !self.is_running() ==> *final(store) == *old(store) && outcome == DrainOutcome::Empty,
    {
        if self.running {
            store.drain_one_to_output(now)
        } else {
            DrainOutcome::Empty
        }
    }

    /// Whether the processor is currently running.
    pub fn running(&self) -> (r: bool)
        ensures
            r == self.is_running(),
    {
        self.running
    }
}

} // verus!
