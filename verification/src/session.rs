//! One playback session: the real-time sector-sync loop's per-tick core.
//!
//! Each tick maps the elapsed audio time to a calibrated sector index,
//! decodes every newly due sector into the graphics interpreter, and — once
//! playback has caught up past the calibration offset — copies the current
//! frame out together with a fresh background color. Stream exhaustion is
//! the natural end of the song; a pending live `Stop`, a window quit, or
//! the audio source finishing also end the session.

use crate::color::{blue_shift, channel_at, green_shift, ColorCycle, MAX_COLOR_PERIOD};
use crate::media::{
    apply_command, copy_frame, frame_bytes, image_height, image_width, new_frame_image,
    new_interpreter, new_sector_stream, next_sector, stream_remaining, FrameImage, SectorStream,
    SECTOR_BYTES,
};
use crate::player::PlayerStatus;
use crate::timing::{calc_sector, sector_index, MAX_ELAPSED_MS};
use vstd::prelude::*;

verus! {

/// Width of the graphics-stream raster, in pixels.
pub const CDG_WIDTH: u32 = 300;

/// Height of the graphics-stream raster, in pixels.
pub const CDG_HEIGHT: u32 = 216;

/// Size of one output frame: four bytes per pixel.
pub const FRAME_BYTES: usize = 259200;

/// Why a session ended.
#[derive(Debug, PartialEq, Eq, Structural, Clone, Copy)]
pub enum StopReason {
    /// The graphics stream ran out of sectors: the natural end of the song.
    StreamEnd,
    /// A live `Stop` signal or a window-level quit was observed.
    Preempted,
    /// The audio source finished playing.
    AudioEnd,
}

/// What one tick produced.
pub struct TickResult {
    /// A finished frame and its background color, when one was due.
    pub frame: Option<(Vec<u8>, (u8, u8, u8, u8))>,
    /// Why the session stopped, if it did this tick.
    pub stopped: Option<StopReason>,
}

/// How many sectors one tick must decode: the distance from the last
/// applied sector up to `calc`, once the index has become non-negative.
pub open spec fn due_sectors(calc: int, last: int) -> int {
    if calc >= 0 && calc > last {
        calc - last
    } else {
        0
    }
}

/// Whether decoding `due` more sectors exhausts a stream with `remaining`
/// sectors left.
pub open spec fn exhausts(due: int, remaining: nat) -> bool {
    due > remaining
}

/// One playback session's state: the sector cursor, the graphics
/// interpreter, the frame buffer and the background-color cycle.
pub struct Session {
    stream: SectorStream,
    interp: cdg_renderer::CdgInterpreter,
    image: FrameImage,
    color: ColorCycle,
    status: PlayerStatus,
    last_sector: i64,
    sectors_since: i64,
    offset: u32,
}

impl Session {
    /// Session state.
    pub closed spec fn status(&self) -> PlayerStatus {
        self.status
    }

    /// Last graphics-stream sector index fully applied to the frame.
    pub closed spec fn last_sector(&self) -> int {
        self.last_sector as int
    }

    /// Sectors applied on the most recent tick that updated the cursor.
    pub closed spec fn sectors_since(&self) -> int {
        self.sectors_since as int
    }

    /// Sectors the graphics stream has left to yield.
    pub closed spec fn remaining(&self) -> nat {
        stream_remaining(self.stream)
    }

    /// The calibration offset this session was started with.
    pub closed spec fn offset(&self) -> u32 {
        self.offset
    }

    /// Frames produced so far (background-color ticks).
    pub closed spec fn frames(&self) -> nat {
        self.color.ticks()
    }

    /// The configured background-color period.
    pub closed spec fn color_period(&self) -> u32 {
        self.color.period()
    }

    /// Internal consistency of a session.
    pub closed spec fn wf(&self) -> bool {
        &&& self.color.wf()
        &&& image_width(self.image) == CDG_WIDTH
        &&& image_height(self.image) == CDG_HEIGHT
        &&& 0 <= self.last_sector <= 0x0040_0000_0000_0000i64
    }

    /// Begin a session over an in-memory graphics stream.
    ///
    /// The sector cursor is reset to zero, the color cycle starts at its
    /// start position, and the stream holds one sector per 96 bytes.
    pub fn new(cdg_bytes: Vec<u8>, offset: u32, color_period: u32) -> (r: Session)
        requires
            2 <= color_period <= MAX_COLOR_PERIOD,
        ensures
            r.wf(),
            r.status() is Playing,
            r.last_sector() == 0,
            r.sectors_since() == 0,
            r.remaining() == cdg_bytes@.len() / (SECTOR_BYTES as nat),
            r.offset() == offset,
            r.frames() == 0,
            r.color_period() == color_period,
    {
        let stream = new_sector_stream(cdg_bytes);
        Session {
            stream,
            interp: new_interpreter(),
            image: new_frame_image(CDG_WIDTH, CDG_HEIGHT),
            color: ColorCycle::new(color_period),
            status: PlayerStatus::Playing,
            last_sector: 0,
            sectors_since: 0,
            offset,
        }
    }

    /// One pass of the session loop.
    ///
    /// `elapsed_ms` is the audio position; `preempt` is whether the live
    /// channel held a `Stop`; `quit` is whether a window-level quit was
    /// seen; `audio_done` is whether the audio source has finished. The
    /// tick decodes every due sector (stopping the session if the stream
    /// runs out), emits a frame once decoding has caught up past the
    /// calibration offset, and then honors the cancellation checks.
    #[verifier::loop_isolation(false)]
    pub fn tick(&mut self, elapsed_ms: u64, preempt: bool, quit: bool, audio_done: bool) -> (r:
        TickResult)
        requires
            old(self).wf(),
            old(self).status() is Playing,
            elapsed_ms <= MAX_ELAPSED_MS,
        ensures
            final(self).wf(),
            final(self).offset() == old(self).offset(),
            final(self).color_period() == old(self).color_period(),
            ({
                let calc = sector_index(elapsed_ms as nat, old(self).offset() as nat);
                let due = due_sectors(calc, old(self).last_sector());
                if exhausts(due, old(self).remaining()) {
                    // The stream ran out: the natural end of the song.
                    &&& r.stopped == Some(StopReason::StreamEnd)
                    &&& r.frame is None
                    &&& final(self).status() is Stopped
                    &&& final(self).remaining() == 0
                    &&& final(self).last_sector() == old(self).last_sector()
                    &&& final(self).frames() == old(self).frames()
                } else {
                    // Every due sector was decoded and applied.
                    &&& final(self).remaining() == old(self).remaining() - due
                    &&& final(self).last_sector() == (if calc >= 0 {
                        calc
                    } else {
                        old(self).last_sector()
                    })
                    &&& final(self).sectors_since() == (if calc >= 0 {
                        calc - old(self).last_sector()
                    } else {
                        old(self).sectors_since()
                    })
                    &&& (r.frame is Some <==> final(self).sectors_since() > 0)
                    &&& (r.frame matches Some(f) ==> {
                        let p = old(self).color_period() as int;
                        &&& f.0@.len() == FRAME_BYTES
                        &&& final(self).frames() == old(self).frames() + 1
                        &&& f.1.0 == channel_at(final(self).frames(), p, 0)
                        &&& f.1.1 == channel_at(final(self).frames(), p, green_shift(p))
                        &&& f.1.2 == channel_at(final(self).frames(), p, blue_shift(p))
                        &&& f.1.3 == 255
                    })
                    &&& (r.frame is None ==> final(self).frames() == old(self).frames())
                    &&& r.stopped == (if preempt || quit {
                        Some(StopReason::Preempted)
                    } else if audio_done {
                        Some(StopReason::AudioEnd)
                    } else {
                        None::<StopReason>
                    })
                    &&& (final(self).status() is Stopped <==> r.stopped is Some)
                }
            }),
    {
        let calc = calc_sector(elapsed_ms, self.offset);
        proof {
            vstd::arithmetic::div_mod::lemma_div_nonincreasing(elapsed_ms as int * 3, 40);
        }
        if calc >= 0 {
            let need = calc - self.last_sector;
            self.sectors_since = need;
            let ghost rem0 = self.remaining();
            let mut k: i64 = need;
            while k > 0
                invariant
                    k <= need,
                    k >= 0 || k == need,
                    need - k <= rem0,
                    self.remaining() == rem0 - (need - k),
                    self.status == old(self).status,
                    self.last_sector == old(self).last_sector,
                    self.sectors_since == need,
                    self.offset == old(self).offset,
                    self.color == old(self).color,
                    self.image == old(self).image,
                decreases k,
            {
                match next_sector(&mut self.stream) {
                    Some(mut cmds) => {
                        let ghost pre = *self;
                        while cmds.len() > 0
                            invariant
                                self.stream == pre.stream,
                                self.status == pre.status,
                                self.last_sector == pre.last_sector,
                                self.sectors_since == pre.sectors_since,
                                self.offset == pre.offset,
                                self.color == pre.color,
                                self.image == pre.image,
                            decreases cmds.len(),
                        {
                            let cmd = cmds.remove(0);
                            apply_command(&mut self.interp, cmd);
                        }
                    },
                    None => {
                        self.status = PlayerStatus::Stopped;
                        return TickResult { frame: None, stopped: Some(StopReason::StreamEnd) };
                    },
                }
                k = k - 1;
            }
            self.last_sector = calc;
        }
        let mut frame: Option<(Vec<u8>, (u8, u8, u8, u8))> = None;
        if self.sectors_since > 0 {
            copy_frame(&mut self.image, &self.interp);
            proof {
                assert(image_width(self.image) == CDG_WIDTH);
                assert(image_height(self.image) == CDG_HEIGHT);
            }
            let bytes = frame_bytes(&self.image);
            let background = self.color.advance();
            frame = Some((bytes, background));
        }
        let stopped: Option<StopReason> = if preempt || quit {
            self.status = PlayerStatus::Stopped;
            Some(StopReason::Preempted)
        } else if audio_done {
            self.status = PlayerStatus::Stopped;
            Some(StopReason::AudioEnd)
        } else {
            None
        };
        TickResult { frame, stopped }
    }
}

} // verus!
