//! Command vocabulary and the single-slot mailbox model.
//!
//! Three independent channels drive the engine: a worker channel carrying
//! high-level intents, a player channel carrying the single low-level intent
//! "play this record now", and a live channel used only to preempt a running
//! session. Each is a capacity-one mailbox, which bounds in-flight commands
//! to one per channel by construction.

use crate::record::Kfile;
use vstd::prelude::*;

verus! {

/// High-level playback intents accepted from the outside.
#[derive(Debug, PartialEq, Eq)]
pub enum WorkerCommand {
    /// Stop playback and clear the queue.
    Stop,
    /// Skip to the next queued record.
    Next,
    /// Play this record immediately, ahead of the queue.
    PlayNow { kfile: Kfile },
    /// Empty the play queue without touching the current session.
    ClearQueue,
    /// Append this record to the tail of the play queue.
    AddQueue { kfile: Kfile },
}

/// The coordinator-to-engine handoff vocabulary.
#[derive(Debug, PartialEq, Eq)]
pub enum PlayerCommand {
    /// Start a session for this record now.
    Play { kfile: Kfile },
}

/// The preemption signal consumed inside the render loop.
#[derive(Debug, PartialEq, Eq, Structural, Clone, Copy)]
pub enum LiveCommand {
    /// Terminate the running session.
    Stop,
}

/// A single-slot mailbox: it holds at most one pending value.
///
/// This is the sequential model of a capacity-one channel. A new value can
/// only be placed when the slot is empty, so at most one command is ever
/// in flight per channel.
pub struct Mailbox<T> {
    value: Option<T>,
}

impl<T> View for Mailbox<T> {
    type V = Option<T>;

    closed spec fn view(&self) -> Option<T> {
        self.value
    }
}

impl<T> Mailbox<T> {
    /// A fresh, empty mailbox.
    pub fn new() -> (r: Mailbox<T>)
        ensures
            r@ is None,
    {
        Mailbox { value: None }
    }

    /// Whether no value is pending.
    pub fn is_empty(&self) -> (r: bool)
        ensures
            r == (self@ is None),
    {
        self.value.is_none()
    }

    /// Place `v` in the slot if it is empty; report whether it was placed.
    ///
    /// A value already pending is kept: a redundant signal is suppressed,
    /// never queued behind the first.
    pub fn try_send(&mut self, v: T) -> (placed: bool)
        ensures
            old(self)@ is None ==> (placed && final(self)@ == Some(v)),
            old(self)@ is Some ==> (!placed && final(self)@ == old(self)@),
    {
        if self.value.is_none() {
            self.value = Some(v);
            true
        } else {
            false
        }
    }

    /// Take the pending value, if any, leaving the slot empty.
    pub fn try_recv(&mut self) -> (r: Option<T>)
        ensures
            final(self)@ is None,
            r == old(self)@,
    {
        self.value.take()
    }
}

} // verus!
