//! The synchronization engine's outer shell: session status, the idle
//! queue-advance path, and the stop-then-start handshake around a new
//! session.

use crate::channel::{LiveCommand, Mailbox, PlayerCommand};
use crate::queue::PlayQueue;
use crate::record::Kfile;
use vstd::prelude::*;

verus! {

/// Whether a playback session is running. Owned exclusively by the engine.
#[derive(Debug, PartialEq, Eq, Structural, Clone, Copy)]
pub enum PlayerStatus {
    /// A session is running.
    Playing,
    /// No session is running.
    Stopped,
}

/// The engine's session-level state.
pub struct Player {
    /// Current session state: at most one session plays at a time.
    pub status: PlayerStatus,
}

impl Player {
    /// A fresh engine, with no session running.
    pub fn new() -> (r: Player)
        ensures
            r.status is Stopped,
    {
        Player { status: PlayerStatus::Stopped }
    }

    /// Issue a local preemption: equivalent to sending `Stop` on the live
    /// channel. After this call exactly one preemption is pending.
    pub fn stop(&self, live: &mut Mailbox<LiveCommand>)
        ensures
            final(live)@ == Some(LiveCommand::Stop),
    {
        live.try_send(LiveCommand::Stop);
        proof {
            assert(live@ == Some(LiveCommand::Stop));
        }
    }

    /// Drain (discard) any stale live-channel value left over from the
    /// session that just ended, so a new session starts with a clean
    /// preemption channel.
    pub fn empty_stale_live(&self, live: &mut Mailbox<LiveCommand>)
        ensures
            final(live)@ is None,
    {
        let _ = live.try_recv();
    }

    /// The idle queue-advance path: when no command is pending, pop the
    /// queue head so the caller starts it. This is what actually advances
    /// the queue after `Stop`/`Next` end a session.
    pub fn check_queue(&self, queue: &mut PlayQueue) -> (r: Option<Kfile>)
        ensures
            old(queue)@.len() == 0 ==> r is None && final(queue)@ == old(queue)@,
            old(queue)@.len() > 0 ==> r == Some(old(queue)@[0]) && final(queue)@ == old(
                queue,
            )@.drop_first(),
    {
        queue.pop_head()
    }

    /// The record a player command asks to start.
    pub fn process_cmd(&self, cmd: PlayerCommand) -> (r: Kfile)
        ensures
            cmd == (PlayerCommand::Play { kfile: r }),
    {
        match cmd {
            PlayerCommand::Play { kfile } => kfile,
        }
    }

    /// The stop-then-start handshake of `play`: if a session is running,
    /// preempt it first; once the old session has exited, drain any stale
    /// preemption, so a leftover signal can never cut the next session
    /// short. The caller brackets this with the settle delays and then
    /// starts the new session.
    pub fn play_handshake(&self, live: &mut Mailbox<LiveCommand>) -> (signaled: bool)
        ensures
            signaled == (self.status is Playing),
            final(live)@ is None,
    {
        let mut signaled = false;
        if let PlayerStatus::Playing = self.status {
            self.stop(live);
            signaled = true;
        }
        self.empty_stale_live(live);
        signaled
    }
}

} // verus!
