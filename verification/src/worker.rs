//! The coordinator: serializes playback intents into queue mutations and
//! preemption/start signals.
//!
//! Two variants exist. The local variant signals a single engine over the
//! live channel and leaves queue advancement to the engine's idle path; the
//! broadcast variant advances the queue itself and fans the preemption out
//! to every live viewer. Both share identical queue-mutation semantics, so
//! one type carries a mode selected at construction time.

use crate::channel::{LiveCommand, Mailbox, PlayerCommand, WorkerCommand};
use crate::queue::PlayQueue;
use crate::record::Kfile;
use vstd::prelude::*;

verus! {

/// How preemption is delivered: point-to-point to one local engine, or
/// fan-out to remote live viewers.
#[derive(Debug, PartialEq, Eq, Structural, Clone, Copy)]
pub enum WorkerMode {
    /// Playback is rendered locally; the engine's idle path advances the queue.
    Local,
    /// Playback is streamed to remote display clients; the coordinator
    /// advances the queue itself.
    Broadcast,
}

/// The queue contents after one command is processed in mode `mode`.
pub open spec fn queue_after(mode: WorkerMode, cmd: WorkerCommand, q: Seq<Kfile>) -> Seq<Kfile> {
    match cmd {
        WorkerCommand::Stop => Seq::empty(),
        WorkerCommand::ClearQueue => Seq::empty(),
        WorkerCommand::AddQueue { kfile } => q.push(kfile),
        WorkerCommand::Next => {
            if q.len() == 0 {
                q
            } else {
                match mode {
                    WorkerMode::Local => q,
                    WorkerMode::Broadcast => q.drop_first(),
                }
            }
        },
        WorkerCommand::PlayNow { kfile } => {
            match mode {
                WorkerMode::Local => q,
                WorkerMode::Broadcast => {
                    if q.len() == 0 {
                        seq![kfile]
                    } else {
                        seq![kfile] + q.drop_first()
                    }
                },
            }
        },
    }
}

/// Whether processing `cmd` on queue `q` signals a preemption.
pub open spec fn signals_preemption(cmd: WorkerCommand, q: Seq<Kfile>) -> bool {
    match cmd {
        WorkerCommand::Stop => true,
        WorkerCommand::Next => q.len() > 0,
        WorkerCommand::PlayNow { .. } => true,
        WorkerCommand::ClearQueue => false,
        WorkerCommand::AddQueue { .. } => false,
    }
}

/// The live channel after one command: a preemption is signaled where owed,
/// and a signal already pending is never doubled.
pub open spec fn live_after(
    cmd: WorkerCommand,
    q: Seq<Kfile>,
    live: Option<LiveCommand>,
) -> Option<LiveCommand> {
    if signals_preemption(cmd, q) {
        Some(LiveCommand::Stop)
    } else {
        live
    }
}

/// The player channel after one command, in the local mode.
pub open spec fn player_after(
    cmd: WorkerCommand,
    player: Option<PlayerCommand>,
) -> Option<PlayerCommand> {
    match cmd {
        WorkerCommand::PlayNow { kfile } => Some(PlayerCommand::Play { kfile }),
        _ => player,
    }
}

/// The coordinator. It owns no shared state: the queue and the channels are
/// handles constructed once at startup and passed into each call.
pub struct Worker {
    /// How this coordinator delivers preemption.
    pub mode: WorkerMode,
}

impl Worker {
    /// A coordinator for the given delivery mode.
    pub fn new(mode: WorkerMode) -> (r: Worker)
        ensures
            r.mode == mode,
    {
        Worker { mode }
    }

    /// `Stop`: clear the play queue, then signal preemption on the live
    /// channel — but only if the live channel is currently empty, so that
    /// no more than one preemption is ever pending.
    pub fn stop(
        &self,
        queue: &mut PlayQueue,
        live: &mut Mailbox<LiveCommand>,
    )
        ensures
            final(queue)@ =~= Seq::<Kfile>::empty(),
            final(live)@ == Some(LiveCommand::Stop),
    {
        queue.clear();
        if live.is_empty() {
            live.try_send(LiveCommand::Stop);
        } else {
            proof {
                assert(live@ == Some(LiveCommand::Stop));
            }
        }
    }

    /// `Next`: a no-op on an empty queue; otherwise signal preemption. In the
    /// local mode the head stays queued — the engine's idle path dequeues and
    /// starts it after the stop. In the broadcast mode there is no idle path,
    /// so the head is removed here.
    pub fn next(
        &self,
        queue: &mut PlayQueue,
        live: &mut Mailbox<LiveCommand>,
    )
        ensures
            final(queue)@ == queue_after(self.mode, WorkerCommand::Next, old(queue)@),
            final(live)@ == live_after(WorkerCommand::Next, old(queue)@, old(live)@),
    {
        if queue.is_empty() {
            return ;
        }
        if let WorkerMode::Broadcast = self.mode {
            queue.pop_head();
        }
        live.try_send(LiveCommand::Stop);
        proof {
            assert(live@ == Some(LiveCommand::Stop));
        }
    }

    /// `PlayNow`: signal preemption, then hand the record to the engine so it
    /// starts immediately, ahead of the queue. The local mode sends it over
    /// the player channel; the broadcast mode replaces the queue head so the
    /// next remote fetch picks it up.
    ///
    /// The player mailbox must be free: a single-slot channel exerts
    /// back-pressure, and the caller consumes a pending `Play` first.
    pub fn play_now(
        &self,
        kfile: Kfile,
        queue: &mut PlayQueue,
        live: &mut Mailbox<LiveCommand>,
        player: &mut Mailbox<PlayerCommand>,
    )
        requires
            self.mode is Local ==> old(player)@ is None,
        ensures
            final(queue)@ == queue_after(self.mode, WorkerCommand::PlayNow { kfile }, old(queue)@),
            final(live)@ == Some(LiveCommand::Stop),
            self.mode is Local ==> final(player)@ == Some(PlayerCommand::Play { kfile }),
            self.mode is Broadcast ==> final(player)@ == old(player)@,
    {
        match self.mode {
            WorkerMode::Local => {
                live.try_send(LiveCommand::Stop);
                player.try_send(PlayerCommand::Play { kfile });
            },
            WorkerMode::Broadcast => {
                if !queue.is_empty() {
                    queue.pop_head();
                }
                queue.push_head(kfile);
                live.try_send(LiveCommand::Stop);
                proof {
                    if old(queue)@.len() == 0 {
                        assert(queue@ =~= seq![kfile]);
                    } else {
                        assert(queue@ =~= seq![kfile] + old(queue)@.drop_first());
                    }
                }
            },
        }
        proof {
            assert(live@ == Some(LiveCommand::Stop));
        }
    }

    /// `ClearQueue`: empty the play queue without affecting the currently
    /// playing session.
    pub fn clear_queue(&self, queue: &mut PlayQueue)
        ensures
            final(queue)@ =~= Seq::<Kfile>::empty(),
    {
        queue.clear();
    }

    /// `AddQueue`: append to the tail of the play queue.
    pub fn add_queue(&self, kfile: Kfile, queue: &mut PlayQueue)
        ensures
            final(queue)@ == old(queue)@.push(kfile),
    {
        queue.add(kfile);
    }

    /// Dispatch one worker command to its handler.
    ///
    /// The whole transition is pinned down: the queue, the live channel and
    /// the player channel each end exactly as the transition functions say.
    pub fn process_cmd(
        &self,
        cmd: WorkerCommand,
        queue: &mut PlayQueue,
        live: &mut Mailbox<LiveCommand>,
        player: &mut Mailbox<PlayerCommand>,
    )
        requires
            (self.mode is Local && cmd matches WorkerCommand::PlayNow { .. }) ==> old(
                player,
            )@ is None,
        ensures
            final(queue)@ == queue_after(self.mode, cmd, old(queue)@),
            final(live)@ == live_after(cmd, old(queue)@, old(live)@),
            self.mode is Local ==> final(player)@ == player_after(cmd, old(player)@),
            self.mode is Broadcast ==> final(player)@ == old(player)@,
    {
        match cmd {
            WorkerCommand::Stop => self.stop(queue, live),
            WorkerCommand::Next => self.next(queue, live),
            WorkerCommand::PlayNow { kfile } => self.play_now(kfile, queue, live, player),
            WorkerCommand::ClearQueue => self.clear_queue(queue),
            WorkerCommand::AddQueue { kfile } => self.add_queue(kfile, queue),
        }
    }
}

} // verus!
