//! System-wide guarantees, stated and proved over the coordinator's and
//! engine's transition functions.

use crate::channel::{LiveCommand, WorkerCommand};
use crate::record::Kfile;
use crate::session::{due_sectors, exhausts};
use crate::timing::{lemma_sector_index_monotonic, raw_sector, sector_index};
use crate::worker::{live_after, queue_after, signals_preemption, WorkerMode};
use vstd::prelude::*;

verus! {

/// The queue contents after a whole sequence of `AddQueue` commands.
pub open spec fn queue_after_adds(mode: WorkerMode, q0: Seq<Kfile>, rs: Seq<Kfile>) -> Seq<Kfile>
    decreases rs.len(),
{
    if rs.len() == 0 {
        q0
    } else {
        queue_after_adds(
            mode,
            queue_after(mode, WorkerCommand::AddQueue { kfile: rs[0] }, q0),
            rs.drop_first(),
        )
    }
}

/// The play queue is FIFO: any sequence of `AddQueue` commands leaves the
/// queue holding exactly those records, in insertion order, behind whatever
/// was queued before.
pub proof fn lemma_fifo_adds(mode: WorkerMode, q0: Seq<Kfile>, rs: Seq<Kfile>)
    ensures
        queue_after_adds(mode, q0, rs) == q0 + rs,
    decreases rs.len(),
{
    if rs.len() == 0 {
        assert(queue_after_adds(mode, q0, rs) =~= q0 + rs);
    } else {
        lemma_fifo_adds(mode, q0.push(rs[0]), rs.drop_first());
        assert(q0.push(rs[0]) + rs.drop_first() =~= q0 + rs);
    }
}

/// One tick of the queue-advance machinery: either the coordinator
/// processes a `Next`, or the engine's idle path runs (popping the head to
/// start it, where one exists).
#[derive(Debug, PartialEq, Eq, Structural, Clone, Copy)]
pub enum AdvanceTick {
    /// The coordinator processes a `Next` command.
    Next,
    /// The engine's idle path checks the queue.
    Idle,
}

/// The queue contents after one advance tick.
pub open spec fn queue_after_advance(mode: WorkerMode, q: Seq<Kfile>, step: AdvanceTick) -> Seq<
    Kfile,
> {
    match step {
        AdvanceTick::Next => queue_after(mode, WorkerCommand::Next, q),
        AdvanceTick::Idle => if q.len() > 0 {
            q.drop_first()
        } else {
            q
        },
    }
}

/// The queue contents after a whole sequence of advance ticks.
pub open spec fn queue_after_advances(
    mode: WorkerMode,
    q: Seq<Kfile>,
    steps: Seq<AdvanceTick>,
) -> Seq<Kfile>
    decreases steps.len(),
{
    if steps.len() == 0 {
        q
    } else {
        queue_after_advances(mode, queue_after_advance(mode, q, steps[0]), steps.drop_first())
    }
}

/// Whether one advance tick starts a session: the idle path starts the head
/// it pops, and `Next` preempts (so the idle path then starts a successor)
/// only on a non-empty queue.
pub open spec fn advance_starts_session(mode: WorkerMode, q: Seq<Kfile>, step: AdvanceTick) -> bool {
    match step {
        AdvanceTick::Next => signals_preemption(WorkerCommand::Next, q),
        AdvanceTick::Idle => q.len() > 0,
    }
}

/// An emptied queue stays empty under any number of advance ticks.
pub proof fn lemma_cleared_stays_empty(mode: WorkerMode, steps: Seq<AdvanceTick>)
    ensures
        queue_after_advances(mode, Seq::empty(), steps) == Seq::<Kfile>::empty(),
    decreases steps.len(),
{
    if steps.len() > 0 {
        assert(queue_after_advance(mode, Seq::empty(), steps[0]) =~= Seq::<Kfile>::empty());
        lemma_cleared_stays_empty(mode, steps.drop_first());
    }
}

/// `ClearQueue` followed by any number of `Next` commands or idle-advance
/// ticks never starts a session: at every observation point the queue is
/// still empty, and on an empty queue neither tick starts anything.
pub proof fn lemma_clear_then_advances_never_start(mode: WorkerMode, steps: Seq<AdvanceTick>)
    ensures
        forall|i: int|
            0 <= i < steps.len() ==> !advance_starts_session(
                mode,
                queue_after_advances(mode, Seq::empty(), steps.take(i)),
                steps[i],
            ),
{
    assert forall|i: int| 0 <= i < steps.len() implies !advance_starts_session(
        mode,
        queue_after_advances(mode, Seq::empty(), steps.take(i)),
        steps[i],
    ) by {
        lemma_cleared_stays_empty(mode, steps.take(i));
    }
}

/// After `Stop`, exactly one preemption is pending on the live channel, and
/// any further `Stop` leaves that single pending value unchanged: a
/// preemption is never duplicated.
pub proof fn lemma_stop_single_preemption(
    q1: Seq<Kfile>,
    q2: Seq<Kfile>,
    live: Option<LiveCommand>,
)
    ensures
        live_after(WorkerCommand::Stop, q1, live) == Some(LiveCommand::Stop),
        live_after(WorkerCommand::Stop, q2, live_after(WorkerCommand::Stop, q1, live))
            == live_after(WorkerCommand::Stop, q1, live),
{
}

/// The engine never reads past the end of its graphics stream: while the
/// elapsed audio time stays within the stream's own `total` sectors (plus
/// the calibration lead), the due-sector count never exceeds what the
/// stream still holds, so the tick cannot hit the exhaustion path. And
/// where time moved forward, the sectors applied plus the sectors left
/// still account for the whole stream.
pub proof fn lemma_session_never_overreads(
    ms: nat,
    offset: nat,
    last: int,
    remaining: nat,
    total: int,
)
    requires
        0 <= last,
        last + remaining == total,
        raw_sector(ms) <= total + offset,
    ensures
        !exhausts(due_sectors(sector_index(ms, offset), last), remaining),
        sector_index(ms, offset) >= last ==> sector_index(ms, offset) + (remaining - due_sectors(
            sector_index(ms, offset),
            last,
        )) == total,
{
}


/// Whether a whole session runs without ever hitting the stream-exhaustion
/// path: at every tick the due sectors fit in what the stream still holds,
/// with the cursor and the stream advancing as the engine's tick does.
pub open spec fn trace_runs_clean(times: Seq<nat>, offset: nat, last: int, remaining: int) -> bool
    decreases times.len(),
{
    if times.len() == 0 {
        true
    } else {
        let calc = sector_index(times[0], offset);
        let due = due_sectors(calc, last);
        &&& !exhausts(due, remaining as nat)
        &&& trace_runs_clean(
            times.drop_first(),
            offset,
            if calc >= 0 {
                calc
            } else {
                last
            },
            remaining - due,
        )
    }
}

/// A session given a graphics stream of exactly as many sectors as its
/// audio source covers never attempts to read past the stream's end: over
/// any monotone sequence of elapsed times that stays within the stream's
/// own sectors (plus the calibration lead), every tick's due sectors fit in
/// what the stream still holds. From a fresh session (`last == 0`,
/// `remaining` the whole stream), the engine therefore reaches `Stopped`
/// through the audio ending, after applying at most the sectors that exist.
pub proof fn lemma_session_trace_never_overreads(
    times: Seq<nat>,
    offset: nat,
    last: int,
    remaining: int,
)
    requires
        0 <= last,
        0 <= remaining,
        forall|i: int| 0 <= i < times.len() ==> raw_sector(#[trigger] times[i]) <= last + remaining
            + offset,
        forall|i: int, j: int| 0 <= i < j < times.len() ==> times[i] <= times[j],
        forall|i: int|
            0 <= i < times.len() ==> (sector_index(#[trigger] times[i], offset) >= last || last
                == 0),
    ensures
        trace_runs_clean(times, offset, last, remaining),
    decreases times.len(),
{
    if times.len() > 0 {
        let calc = sector_index(times[0], offset);
        let due = due_sectors(calc, last);
        assert(raw_sector(times[0]) <= last + remaining + offset);
        assert(calc <= last + remaining);
        assert(due <= remaining);
        let rest = times.drop_first();
        let last2 = if calc >= 0 {
            calc
        } else {
            last
        };
        let remaining2 = remaining - due;
        assert(last2 + remaining2 == last + remaining) by {
            if calc >= 0 {
                assert(calc >= last || last == 0);
            }
        }
        assert forall|i: int| 0 <= i < rest.len() implies raw_sector(#[trigger] rest[i]) <= last2
            + remaining2 + offset by {
            assert(rest[i] == times[i + 1]);
            assert(raw_sector(times[i + 1]) <= last + remaining + offset);
        }
        assert forall|i: int|
            0 <= i < rest.len() implies (sector_index(#[trigger] rest[i], offset) >= last2 || last2
            == 0) by {
            assert(rest[i] == times[i + 1]);
            if calc >= 0 {
                lemma_sector_index_monotonic(times[0], times[i + 1], offset);
            }
        }
        assert forall|i: int, j: int| 0 <= i < j < rest.len() implies rest[i] <= rest[j] by {
            assert(rest[i] == times[i + 1] && rest[j] == times[j + 1]);
        }
        lemma_session_trace_never_overreads(rest, offset, last2, remaining2);
    }
}

} // verus!
