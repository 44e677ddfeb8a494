use karaoke_rs::color::ColorCycle;
use karaoke_rs::session::{Session, StopReason, FRAME_BYTES};
use karaoke_rs::timing::{calc_sector, SECTORS_PER_SECOND};

#[test]
fn sector_index_formula() {
    // One second of audio is 75 sectors; the offset shifts the index back.
    assert_eq!(calc_sector(1000, 0), SECTORS_PER_SECOND as i64);
    assert_eq!(calc_sector(1000, 20), 55);
    assert_eq!(calc_sector(0, 20), -20);
    assert_eq!(calc_sector(13, 0), 0);
    assert_eq!(calc_sector(14, 0), 1);
    assert_eq!(calc_sector(26, 0), 1);
    assert_eq!(calc_sector(27, 0), 2);
}

#[test]
fn sector_index_is_monotonic() {
    let mut last = i64::MIN;
    for ms in 0..2000u64 {
        let s = calc_sector(ms, 20);
        assert!(s >= last);
        last = s;
    }
}

#[test]
fn session_decodes_due_sectors_and_emits_frames() {
    // Three sectors of graphics data, no calibration offset.
    let cdg = vec![0u8; 96 * 3];
    let mut session = Session::new(cdg, 0, 4096);
    // 40 ms = 3 sectors: all three decoded, one frame out.
    let r = session.tick(40, false, false, false);
    assert!(r.stopped.is_none());
    let (frame, background) = r.frame.unwrap();
    assert_eq!(frame.len(), FRAME_BYTES);
    assert_eq!(background.3, 255);
    assert!(background.0 >= 1);
    assert!(background.1 >= 1);
    assert!(background.2 >= 1);
    // No time passed: nothing new due, no frame.
    let r = session.tick(40, false, false, false);
    assert!(r.frame.is_none());
    assert!(r.stopped.is_none());
}

#[test]
fn session_ends_when_stream_exhausted() {
    // Two sectors of graphics data, but audio runs longer.
    let cdg = vec![0u8; 96 * 2];
    let mut session = Session::new(cdg, 0, 4096);
    let r = session.tick(27, false, false, false);
    assert!(r.stopped.is_none());
    // 60 ms = 4 sectors due, only 2 existed: natural end of song.
    let r = session.tick(60, false, false, false);
    assert_eq!(r.stopped, Some(StopReason::StreamEnd));
    assert!(r.frame.is_none());
}

#[test]
fn session_with_matching_audio_never_overreads() {
    // A stream of exactly N sectors and an audio source of exactly N
    // sectors' worth of duration: the engine stops with the audio, after
    // processing sector N-1, never hitting the exhaustion path.
    let n: u64 = 5;
    let cdg = vec![0u8; 96 * 5];
    let mut session = Session::new(cdg, 0, 4096);
    let mut ms: u64 = 0;
    while ms < 66 {
        // 66 ms is just under N sectors' worth (N * 40 / 3 = 66.67 ms).
        let r = session.tick(ms, false, false, false);
        assert!(r.stopped.is_none());
        ms += 11;
    }
    // The audio finishes at exactly N sectors' worth of elapsed time.
    let r = session.tick(n * 40 / 3, false, false, false);
    assert!(r.stopped.is_none());
    let r = session.tick(n * 40 / 3, false, false, true);
    assert_eq!(r.stopped, Some(StopReason::AudioEnd));
}

#[test]
fn session_honors_preemption() {
    let cdg = vec![0u8; 96 * 10];
    let mut session = Session::new(cdg, 0, 4096);
    let r = session.tick(14, true, false, false);
    assert_eq!(r.stopped, Some(StopReason::Preempted));
}

#[test]
fn session_waits_out_calibration_offset() {
    // With a 20-sector offset, nothing is decoded or rendered until the
    // audio has played 20 sectors' worth of time.
    let cdg = vec![0u8; 96 * 4];
    let mut session = Session::new(cdg, 20, 4096);
    let r = session.tick(260, false, false, false);
    // 260 ms = 19.5 sectors: index still negative.
    assert!(r.frame.is_none());
    assert!(r.stopped.is_none());
    // 280 ms = 21 sectors: one sector past the offset.
    let r = session.tick(280, false, false, false);
    assert!(r.frame.is_some());
}

#[test]
fn color_cycle_stays_in_byte_range() {
    let mut cycle = ColorCycle::new(512);
    for _ in 0..1200 {
        let (r, g, b, a) = cycle.advance();
        assert!(r >= 1);
        assert!(g >= 1);
        assert!(b >= 1);
        assert_eq!(a, 255);
    }
}

#[test]
fn color_cycle_is_periodic() {
    // After one full period the cycle shows its start value again.
    let period: u32 = 4096;
    let mut cycle = ColorCycle::new(period);
    let start = cycle.advance();
    for _ in 0..(period - 1) {
        cycle.advance();
    }
    let wrapped = cycle.advance();
    assert_eq!(start, wrapped);
}

#[test]
fn preemption_observed_after_frame_emission() {
    // Cancellation is checked after decoding and emitting: a preempted tick
    // still produces the frame that was due.
    let cdg = vec![0u8; 96 * 10];
    let mut session = Session::new(cdg, 0, 4096);
    let r = session.tick(40, true, false, false);
    assert!(r.frame.is_some());
    assert_eq!(r.stopped, Some(StopReason::Preempted));
}
