use karaoke_rs::channel::{LiveCommand, Mailbox, PlayerCommand, WorkerCommand};
use karaoke_rs::player::Player;
use karaoke_rs::queue::PlayQueue;
use karaoke_rs::record::Kfile;
use karaoke_rs::worker::{Worker, WorkerMode};

fn record(name: &str) -> Kfile {
    let path = String::from(name);
    let format = String::from("[Artist] - [Title]");
    Kfile::new(&path, &format, Some(String::from("Artist")), Some(String::from(name)))
}

#[test]
fn queue_is_fifo() {
    let worker = Worker::new(WorkerMode::Local);
    let mut queue = PlayQueue::new();
    let names = ["one", "two", "three", "four"];
    for name in names.iter() {
        worker.add_queue(record(name), &mut queue);
    }
    assert_eq!(queue.len(), 4);
    let player = Player::new();
    for name in names.iter() {
        let head = player.check_queue(&mut queue).unwrap();
        assert_eq!(head.song, *name);
    }
    assert!(queue.is_empty());
}

#[test]
fn clear_queue_then_advances_never_start() {
    let worker = Worker::new(WorkerMode::Local);
    let player = Player::new();
    let mut queue = PlayQueue::new();
    let mut live = Mailbox::new();
    let mut player_chan: Mailbox<PlayerCommand> = Mailbox::new();
    worker.add_queue(record("a"), &mut queue);
    worker.add_queue(record("b"), &mut queue);
    worker.process_cmd(WorkerCommand::ClearQueue, &mut queue, &mut live, &mut player_chan);
    assert!(queue.is_empty());
    for _ in 0..5 {
        // A `Next` on the empty queue signals nothing.
        worker.process_cmd(WorkerCommand::Next, &mut queue, &mut live, &mut player_chan);
        assert!(live.is_empty());
        // An idle tick pops nothing, so no session starts.
        assert!(player.check_queue(&mut queue).is_none());
    }
    assert!(player_chan.try_recv().is_none());
}

#[test]
fn stop_signals_a_single_preemption() {
    let worker = Worker::new(WorkerMode::Local);
    let mut queue = PlayQueue::new();
    let mut live = Mailbox::new();
    let mut player_chan: Mailbox<PlayerCommand> = Mailbox::new();
    worker.add_queue(record("a"), &mut queue);
    worker.process_cmd(WorkerCommand::Stop, &mut queue, &mut live, &mut player_chan);
    assert!(queue.is_empty());
    // A second stop does not queue a second preemption.
    worker.process_cmd(WorkerCommand::Stop, &mut queue, &mut live, &mut player_chan);
    assert_eq!(live.try_recv(), Some(LiveCommand::Stop));
    assert!(live.try_recv().is_none());
}

#[test]
fn next_while_playing_pops_on_idle_tick() {
    // A is already playing; the queue holds B.
    let worker = Worker::new(WorkerMode::Local);
    let player = Player::new();
    let mut queue = PlayQueue::new();
    let mut live = Mailbox::new();
    let mut player_chan: Mailbox<PlayerCommand> = Mailbox::new();
    worker.process_cmd(
        WorkerCommand::AddQueue { kfile: record("a") },
        &mut queue,
        &mut live,
        &mut player_chan,
    );
    worker.process_cmd(
        WorkerCommand::AddQueue { kfile: record("b") },
        &mut queue,
        &mut live,
        &mut player_chan,
    );
    let first = player.check_queue(&mut queue).unwrap();
    assert_eq!(first.song, "a");
    // `Next`: the queue keeps B, and a preemption is signaled.
    worker.process_cmd(WorkerCommand::Next, &mut queue, &mut live, &mut player_chan);
    assert_eq!(queue.len(), 1);
    assert_eq!(live.try_recv(), Some(LiveCommand::Stop));
    // The subsequent idle tick pops B to start it, leaving the queue empty.
    let next = player.check_queue(&mut queue).unwrap();
    assert_eq!(next.song, "b");
    assert!(queue.is_empty());
}

#[test]
fn play_now_bypasses_queue() {
    // A is playing and the queue holds B.
    let worker = Worker::new(WorkerMode::Local);
    let player = Player::new();
    let mut queue = PlayQueue::new();
    let mut live = Mailbox::new();
    let mut player_chan: Mailbox<PlayerCommand> = Mailbox::new();
    worker.add_queue(record("b"), &mut queue);
    worker.process_cmd(
        WorkerCommand::PlayNow { kfile: record("c") },
        &mut queue,
        &mut live,
        &mut player_chan,
    );
    // Preemption signaled, C handed over to start immediately, queue keeps B.
    assert_eq!(live.try_recv(), Some(LiveCommand::Stop));
    let cmd = player_chan.try_recv().unwrap();
    let started = player.process_cmd(cmd);
    assert_eq!(started.song, "c");
    assert_eq!(queue.len(), 1);
    assert_eq!(player.check_queue(&mut queue).unwrap().song, "b");
}

#[test]
fn stop_clears_queue_and_preempts() {
    // A is playing and the queue holds B.
    let worker = Worker::new(WorkerMode::Local);
    let player = Player::new();
    let mut queue = PlayQueue::new();
    let mut live = Mailbox::new();
    let mut player_chan: Mailbox<PlayerCommand> = Mailbox::new();
    worker.add_queue(record("b"), &mut queue);
    worker.process_cmd(WorkerCommand::Stop, &mut queue, &mut live, &mut player_chan);
    // Queue emptied and a preemption signaled; nothing further starts.
    assert!(queue.is_empty());
    assert_eq!(live.try_recv(), Some(LiveCommand::Stop));
    assert!(player.check_queue(&mut queue).is_none());
    assert!(player_chan.try_recv().is_none());
}

#[test]
fn broadcast_next_pops_directly() {
    let worker = Worker::new(WorkerMode::Broadcast);
    let mut queue = PlayQueue::new();
    let mut live = Mailbox::new();
    let mut player_chan: Mailbox<PlayerCommand> = Mailbox::new();
    worker.add_queue(record("a"), &mut queue);
    worker.add_queue(record("b"), &mut queue);
    worker.process_cmd(WorkerCommand::Next, &mut queue, &mut live, &mut player_chan);
    assert_eq!(queue.len(), 1);
    assert_eq!(live.try_recv(), Some(LiveCommand::Stop));
    let player = Player::new();
    assert_eq!(player.check_queue(&mut queue).unwrap().song, "b");
}

#[test]
fn broadcast_play_now_replaces_head() {
    let worker = Worker::new(WorkerMode::Broadcast);
    let mut queue = PlayQueue::new();
    let mut live = Mailbox::new();
    let mut player_chan: Mailbox<PlayerCommand> = Mailbox::new();
    worker.add_queue(record("a"), &mut queue);
    worker.add_queue(record("b"), &mut queue);
    worker.process_cmd(
        WorkerCommand::PlayNow { kfile: record("c") },
        &mut queue,
        &mut live,
        &mut player_chan,
    );
    assert_eq!(queue.len(), 2);
    assert_eq!(live.try_recv(), Some(LiveCommand::Stop));
    let player = Player::new();
    assert_eq!(player.check_queue(&mut queue).unwrap().song, "c");
    assert_eq!(player.check_queue(&mut queue).unwrap().song, "b");
}

#[test]
fn mailbox_holds_at_most_one_value() {
    let mut live: Mailbox<LiveCommand> = Mailbox::new();
    assert!(live.is_empty());
    assert!(live.try_send(LiveCommand::Stop));
    assert!(!live.try_send(LiveCommand::Stop));
    assert_eq!(live.try_recv(), Some(LiveCommand::Stop));
    assert!(live.try_recv().is_none());
}

#[test]
fn play_handshake_leaves_live_clean() {
    let mut player = Player::new();
    let mut live = Mailbox::new();
    // Stopped: nothing to preempt, channel drained.
    assert!(!player.play_handshake(&mut live));
    assert!(live.is_empty());
    // Playing: preemption issued for the old session, then drained so the
    // new session cannot be cut short by a stale signal.
    player.status = karaoke_rs::player::PlayerStatus::Playing;
    assert!(player.play_handshake(&mut live));
    assert!(live.is_empty());
}

#[test]
fn head_peeks_without_consuming() {
    let worker = Worker::new(WorkerMode::Local);
    let mut queue = PlayQueue::new();
    assert!(queue.head().is_none());
    worker.add_queue(record("a"), &mut queue);
    worker.add_queue(record("b"), &mut queue);
    assert_eq!(queue.head().unwrap().song, "a");
    assert_eq!(queue.len(), 2);
}
