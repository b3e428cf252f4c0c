//! The video playback engine's state: a bounded frame look-ahead buffer, the
//! playing/paused flag, the clamped playback position, and the pacing that
//! advances frames against a caller-supplied wall clock. The demuxing and
//! decoding that feed it are outside work; every decoded picture is handed in
//! as a normalized frame with its presentation timestamp, and every decision
//! (when to decode, what to present, how to drive the audio sink) comes out
//! as a value.

use vstd::prelude::*;

use crate::frac::Frac;
use crate::frame::{FrameView, RawImageFrame};

verus! {

/// Fixed capacity of the frame look-ahead buffer.
pub const LOOKAHEAD_CAPACITY: usize = 5;

/// Copies a byte vector element by element.
fn copy_bytes(v: &Vec<u8>) -> (r: Vec<u8>)
    ensures
        r@ == v@,
{
    let mut out: Vec<u8> = Vec::new();
    let mut i: usize = 0;
    while i < v.len()
        invariant
            i <= v@.len(),
            out@ == v@.take(i as int),
        decreases v@.len() - i,
    {
        out.push(v[i]);
        proof {
            assert(v@.take(i + 1) =~= v@.take(i as int).push(v@[i as int]));
        }
        i = i + 1;
    }
    proof {
        assert(v@.take(v@.len() as int) =~= v@);
    }
    out
}

/// Duplicates a frame; the copy carries the same content.
fn copy_frame(f: &RawImageFrame) -> (r: RawImageFrame)
    ensures
        r@ == f@,
{
    RawImageFrame {
        width: f.width,
        height: f.height,
        pixels: copy_bytes(&f.pixels),
        delay: f.delay,
    }
}

/// The bounded look-ahead buffer of decoded, not yet presented frames.
/// Frames leave in the order they entered: the buffer never reorders.
pub struct FramesBuffer {
    pub frames: std::collections::VecDeque<RawImageFrame>,
    pub size: usize,
}

impl View for FramesBuffer {
    type V = Seq<FrameView>;

    open spec fn view(&self) -> Seq<FrameView> {
        self.frames@.map_values(|f: RawImageFrame| f@)
    }
}

impl FramesBuffer {
    pub fn new() -> (r: FramesBuffer)
        ensures
            r@ == Seq::<FrameView>::empty(),
            r.spec_capacity() == LOOKAHEAD_CAPACITY,
    {
        let r = FramesBuffer { frames: std::collections::VecDeque::new(), size: LOOKAHEAD_CAPACITY };
        proof {
            assert(r@ =~= Seq::<FrameView>::empty());
        }
        r
    }

    pub open spec fn spec_capacity(self) -> usize {
        self.size
    }

    pub fn push(&mut self, frame: RawImageFrame)
        ensures
            final(self)@ == old(self)@.push(frame@),
            final(self).spec_capacity() == old(self).spec_capacity(),
    {
        let ghost prev = self.frames@;
        self.frames.push_back(frame);
        proof {
            assert(self@ =~= prev.map_values(|f: RawImageFrame| f@).push(
                self.frames@.last()@,
            ));
        }
    }

    pub fn pop(&mut self) -> (r: Option<RawImageFrame>)
        ensures
            final(self).spec_capacity() == old(self).spec_capacity(),
            old(self)@.len() == 0 ==> r is None && final(self)@ == old(self)@,
            old(self)@.len() > 0 ==> r is Some && r->0@ == old(self)@[0] && final(self)@ == old(
                self,
            )@.drop_first(),
    {
        let ghost prev = self.frames@;
        let r = self.frames.pop_front();
        proof {
            if prev.len() > 0 {
                assert(self@ =~= prev.map_values(|f: RawImageFrame| f@).drop_first());
            } else {
                assert(self@ =~= prev.map_values(|f: RawImageFrame| f@));
            }
        }
        r
    }

    pub fn front(&self) -> (r: Option<&RawImageFrame>)
        ensures
            self@.len() == 0 ==> r is None,
            self@.len() > 0 ==> r is Some && r->0@ == self@[0],
    {
        if self.frames.len() == 0 {
            None
        } else {
            Some(&self.frames[0])
        }
    }

    pub fn clear(&mut self)
        ensures
            final(self)@ == Seq::<FrameView>::empty(),
            final(self).spec_capacity() == old(self).spec_capacity(),
    {
        self.frames.clear();
        proof {
            assert(self@ =~= Seq::<FrameView>::empty());
        }
    }

    pub fn is_empty(&self) -> (r: bool)
        ensures
            r == (self@.len() == 0),
    {
        self.frames.len() == 0
    }

    /// Whether the buffer is below its capacity and should be refilled.
    pub fn should_fill_buffer(&self) -> (r: bool)
        ensures
            r == (self@.len() < self.spec_capacity()),
    {
        self.frames.len() < self.size
    }
}

/// Whether the audio sink should run or rest after a tick.
#[derive(PartialEq, Eq, Structural, Clone, Copy, Debug)]
pub enum AudioCmd {
    Play,
    Pause,
}

/// The observable state of a playback session.
#[verifier::ext_equal]
pub ghost struct VideoState {
    /// Frames decoded ahead, in presentation order.
    pub buffer: Seq<FrameView>,
    /// The frame presented by the last tick, re-presented until the next
    /// advance.
    pub cached: Option<FrameView>,
    /// Current playback position in milliseconds, always within
    /// `[0, duration]`.
    pub current_time: u64,
    /// Total duration in milliseconds.
    pub duration: u64,
    /// Frames per second, as an exact rational.
    pub frame_rate: Frac,
    /// Wall-clock instant (ms) of the last frame advance.
    pub last_advance_ms: u64,
    pub is_playing: bool,
    /// Whether the demuxer reported the end of the stream.
    pub eof: bool,
}

impl VideoState {
    /// Whether one frame period has elapsed at `now_ms`; a clock that moved
    /// backwards counts as no elapsed time, and a zero frame rate never
    /// advances.
    pub open spec fn due(self, now_ms: u64) -> bool {
        let elapsed: int = if now_ms >= self.last_advance_ms {
            now_ms - self.last_advance_ms
        } else {
            0
        };
        elapsed * self.frame_rate.num >= 1000 * self.frame_rate.den
    }

    /// The frame a non-advancing tick presents: the cached frame, else the
    /// buffer's front, else nothing.
    pub open spec fn presented(self) -> Option<FrameView> {
        if self.cached is Some {
            self.cached
        } else if self.buffer.len() > 0 {
            Some(self.buffer[0])
        } else {
            None
        }
    }

    /// The state after one render tick at `now_ms`: paused sessions and ticks
    /// before the frame period re-present without consuming; a due tick while
    /// playing pops the buffer's front for presentation and records the
    /// advance.
    pub open spec fn ticked(self, now_ms: u64) -> VideoState {
        if !self.is_playing {
            VideoState { cached: self.presented(), ..self }
        } else if self.due(now_ms) {
            VideoState {
                last_advance_ms: now_ms,
                buffer: if self.buffer.len() > 0 {
                    self.buffer.drop_first()
                } else {
                    self.buffer
                },
                cached: if self.buffer.len() > 0 {
                    Some(self.buffer[0])
                } else {
                    None
                },
                ..self
            }
        } else {
            VideoState { cached: self.presented(), ..self }
        }
    }

    /// The state after seeking to `target_ms`: the position clamps to
    /// `[0, duration]`, the look-ahead buffer is discarded, and the stream is
    /// no longer considered exhausted.
    pub open spec fn after_seek(self, target_ms: u64) -> VideoState {
        VideoState {
            current_time: if target_ms <= self.duration {
                target_ms
            } else {
                self.duration
            },
            buffer: Seq::empty(),
            eof: false,
            ..self
        }
    }

    /// The state after accepting one decoded frame stamped `pts_ms`: the
    /// frame joins the back of the buffer and the position moves to the
    /// clamped timestamp.
    pub open spec fn accepted(self, f: FrameView, pts_ms: u64) -> VideoState {
        VideoState {
            buffer: self.buffer.push(f),
            current_time: if pts_ms <= self.duration {
                pts_ms
            } else {
                self.duration
            },
            ..self
        }
    }

    /// Whether the session wants one more decoded frame at `now_ms`: while
    /// paused one frame must be available for immediate display; while
    /// playing the look-ahead buffer refills up to its capacity when an
    /// advance is due. An exhausted stream is never asked again.
    pub open spec fn wants_decode(self, now_ms: u64) -> bool {
        if self.eof {
            false
        } else if !self.is_playing {
            self.buffer.len() == 0
        } else {
            self.due(now_ms) && self.buffer.len() < LOOKAHEAD_CAPACITY
        }
    }

    pub open spec fn wf(self) -> bool {
        &&& self.current_time <= self.duration
        &&& self.frame_rate.wf()
    }
}

/// Presentation order: an advancing tick presents exactly the look-ahead
/// buffer's front frame and leaves the rest in order, so frames are presented
/// strictly in the order they were accepted — the buffer never reorders.
pub proof fn lemma_presentation_order(s: VideoState, now_ms: u64)
    requires
        s.is_playing,
        s.due(now_ms),
        s.buffer.len() > 0,
    ensures
        s.ticked(now_ms).cached == Some(s.buffer[0]),
        s.ticked(now_ms).buffer == s.buffer.drop_first(),
{
}

/// Video seek idempotence: seeking twice to the same target lands at the same
/// clamped position, and the same state, as a single seek, for any target.
pub proof fn lemma_seek_idempotent(s: VideoState, target_ms: u64)
    ensures
        s.after_seek(target_ms).after_seek(target_ms) == s.after_seek(target_ms),
        s.wf() ==> s.after_seek(target_ms).current_time == if target_ms <= s.duration {
            target_ms
        } else {
            s.duration
        },
{
    assert(s.after_seek(target_ms).after_seek(target_ms) =~= s.after_seek(target_ms));
}

/// One open playback session: its pacing state, position and look-ahead
/// buffer. The demuxer, decoder, scaler and audio sink that feed it live with
/// the caller, which polls `get_current_frame` once per render tick and obeys
/// the returned audio command.
pub struct VideoEntry {
    pub path: String,
    pub frame_rate: Frac,
    pub last_frame_time_ms: u64,
    pub current_time: u64,
    pub video_duration: u64,
    pub is_playing: bool,
    pub eof_reached: bool,
    pub cached_frame: Option<RawImageFrame>,
    pub frames_buffer: FramesBuffer,
}

impl View for VideoEntry {
    type V = VideoState;

    open spec fn view(&self) -> VideoState {
        VideoState {
            buffer: self.frames_buffer@,
            cached: match self.cached_frame {
                Some(f) => Some(f@),
                None => None,
            },
            current_time: self.current_time,
            duration: self.video_duration,
            frame_rate: self.frame_rate,
            last_advance_ms: self.last_frame_time_ms,
            is_playing: self.is_playing,
            eof: self.eof_reached,
        }
    }
}

impl VideoEntry {
    pub open spec fn wf(self) -> bool {
        &&& self@.wf()
        &&& self.frames_buffer.spec_capacity() == LOOKAHEAD_CAPACITY
    }

    /// Opens a session over an already-probed video: its duration and average
    /// frame rate. Playback starts paused at the beginning; the caller
    /// pre-decodes one frame so a picture is immediately available.
    pub fn new(path: String, duration_ms: u64, frame_rate: Frac) -> (r: VideoEntry)
        requires
            frame_rate.wf(),
        ensures
            r.wf(),
            r@ == (VideoState {
                buffer: Seq::empty(),
                cached: None,
                current_time: 0,
                duration: duration_ms,
                frame_rate,
                last_advance_ms: 0,
                is_playing: false,
                eof: false,
            }),
            r.path@ == path@,
    {
        let r = VideoEntry {
            path,
            frame_rate,
            last_frame_time_ms: 0,
            current_time: 0,
            video_duration: duration_ms,
            is_playing: false,
            eof_reached: false,
            cached_frame: None,
            frames_buffer: FramesBuffer::new(),
        };
        proof {
            assert(r@ =~= (VideoState {
                buffer: Seq::empty(),
                cached: None,
                current_time: 0,
                duration: duration_ms,
                frame_rate,
                last_advance_ms: 0,
                is_playing: false,
                eof: false,
            }));
        }
        r
    }

    /// Whether the caller should decode one more frame before presenting at
    /// `now_ms`.
    pub fn needs_decode(&self, now_ms: u64) -> (r: bool)
        requires
            self.wf(),
        ensures
            r == self@.wants_decode(now_ms),
    {
        if self.eof_reached {
            false
        } else if !self.is_playing {
            self.frames_buffer.is_empty()
        } else {
            self.frame_due(now_ms) && self.frames_buffer.should_fill_buffer()
        }
    }

    fn frame_due(&self, now_ms: u64) -> (r: bool)
        ensures
            r == self@.due(now_ms),
    {
        let elapsed: u64 = if now_ms >= self.last_frame_time_ms {
            now_ms - self.last_frame_time_ms
        } else {
            0
        };
        proof {
            assert((elapsed as u128) * (self.frame_rate.num as u128) <= u128::MAX && 1000u128 * (
            self.frame_rate.den as u128) <= u128::MAX) by (nonlinear_arith)
                requires
                    elapsed <= u64::MAX,
                    self.frame_rate.num <= u64::MAX,
                    self.frame_rate.den <= u64::MAX,
            ;
        }
        (elapsed as u128) * (self.frame_rate.num as u128) >= 1000u128 * (self.frame_rate.den
            as u128)
    }

    /// Accepts one decoded frame with its presentation timestamp (in
    /// milliseconds): the frame joins the look-ahead buffer and the playback
    /// position moves to the clamped timestamp.
    pub fn accept_frame(&mut self, frame: RawImageFrame, pts_ms: u64)
        requires
            old(self).wf(),
        ensures
            final(self).wf(),
            final(self)@ == old(self)@.accepted(frame@, pts_ms),
            final(self).path@ == old(self).path@,
    {
        self.frames_buffer.push(frame);
        self.current_time = if pts_ms <= self.video_duration {
            pts_ms
        } else {
            self.video_duration
        };
    }

    /// Records that the video stream is exhausted; no further decode is
    /// asked for until a seek rewinds the stream.
    pub fn mark_eof(&mut self)
        ensures
            final(self)@ == (VideoState { eof: true, ..old(self)@ }),
            final(self).path@ == old(self).path@,
    {
        self.eof_reached = true;
    }

    /// One render tick at `now_ms`: presents the due frame (or re-presents
    /// the cached one), and says whether the audio sink should play or
    /// pause. Frames are presented strictly in the order they were accepted.
    pub fn get_current_frame(&mut self, now_ms: u64) -> (r: AudioCmd)
        requires
            old(self).wf(),
        ensures
            final(self).wf(),
            final(self)@ == old(self)@.ticked(now_ms),
            final(self).path@ == old(self).path@,
            r == (if final(self).is_playing && final(self)@.buffer.len() > 0 {
                AudioCmd::Play
            } else {
                AudioCmd::Pause
            }),
    {
        if !self.is_playing {
            self.present_cached();
            return AudioCmd::Pause;
        }
        if self.frame_due(now_ms) {
            self.last_frame_time_ms = now_ms;
            let popped = self.frames_buffer.pop();
            self.cached_frame = popped;
        } else {
            self.present_cached();
        }
        if self.frames_buffer.is_empty() {
            AudioCmd::Pause
        } else {
            AudioCmd::Play
        }
    }

    /// Fills the presentation cache from the buffer's front without consuming
    /// it.
    fn present_cached(&mut self)
        ensures
            final(self)@ == (VideoState { cached: old(self)@.presented(), ..old(self)@ }),
            final(self).path@ == old(self).path@,
            final(self).frames_buffer.spec_capacity() == old(self).frames_buffer.spec_capacity(),
    {
        if self.cached_frame.is_none() {
            let copied = match self.frames_buffer.front() {
                Some(f) => Some(copy_frame(f)),
                None => None,
            };
            self.cached_frame = copied;
        }
    }

    /// The frame the session currently presents, if any.
    pub fn current_frame(&self) -> (r: Option<&RawImageFrame>)
        ensures
            r is Some <==> self@.cached is Some,
            r is Some ==> r->0@ == self@.cached->0,
    {
        match &self.cached_frame {
            Some(f) => Some(f),
            None => None,
        }
    }

    pub fn play(&mut self)
        ensures
            final(self)@ == (VideoState { is_playing: true, ..old(self)@ }),
            final(self).path@ == old(self).path@,
    {
        self.is_playing = true;
    }

    pub fn pause(&mut self)
        ensures
            final(self)@ == (VideoState { is_playing: false, ..old(self)@ }),
            final(self).path@ == old(self).path@,
    {
        self.is_playing = false;
    }

    pub fn toggle_playback(&mut self)
        ensures
            final(self)@ == (VideoState { is_playing: !old(self).is_playing, ..old(self)@ }),
            final(self).path@ == old(self).path@,
    {
        if self.is_playing {
            self.pause();
        } else {
            self.play();
        }
    }

    /// Seeks to `time_ms`: clamps the target to `[0, duration]`, discards the
    /// look-ahead buffer, and returns the clamped position, which the caller
    /// converts to the stream's native timestamp unit for the demuxer seek
    /// and hands to the audio sink.
    pub fn seek(&mut self, time_ms: u64) -> (r: u64)
        requires
            old(self).wf(),
        ensures
            final(self).wf(),
            final(self)@ == old(self)@.after_seek(time_ms),
            final(self).path@ == old(self).path@,
            r == final(self).current_time,
    {
        let time = if time_ms <= self.video_duration {
            time_ms
        } else {
            self.video_duration
        };
        self.frames_buffer.clear();
        self.eof_reached = false;
        self.current_time = time;
        time
    }

    /// Seeks relative to the current position; a negative delta larger than
    /// the position clamps to the beginning, never to a wrapped-around
    /// position.
    pub fn seek_relative(&mut self, delta_ms: i64) -> (r: u64)
        requires
            old(self).wf(),
        ensures
            final(self).wf(),
            final(self)@ == old(self)@.after_seek(
                if old(self).current_time + delta_ms < 0 {
                    0
                } else if old(self).current_time + delta_ms > u64::MAX {
                    u64::MAX
                } else {
                    (old(self).current_time + delta_ms) as u64
                },
            ),
            final(self).path@ == old(self).path@,
            r == final(self).current_time,
    {
        let cur = self.current_time as i128;
        let target_wide: i128 = cur + delta_ms as i128;
        let target: u64 = if target_wide < 0 {
            0
        } else if target_wide > u64::MAX as i128 {
            u64::MAX
        } else {
            target_wide as u64
        };
        self.seek(target)
    }
}

/// A presentation snapshot of a session, taken once per widget build: the
/// frame to draw and the times the progress bar shows.
pub struct VideoPlayer {
    pub frame: Option<RawImageFrame>,
    pub current_time: u64,
    pub duration: u64,
}

impl VideoPlayer {
    /// Ticks the session once at `now_ms` and snapshots what it presents,
    /// handing back the audio command alongside.
    pub fn new(video: &mut VideoEntry, now_ms: u64) -> (r: (VideoPlayer, AudioCmd))
        requires
            old(video).wf(),
        ensures
            final(video).wf(),
            final(video)@ == old(video)@.ticked(now_ms),
            r.0.current_time == final(video).current_time,
            r.0.duration == final(video).video_duration,
            r.0.frame is Some <==> final(video)@.cached is Some,
            r.0.frame is Some ==> r.0.frame->0@ == final(video)@.cached->0,
    {
        let cmd = video.get_current_frame(now_ms);
        let frame = match video.current_frame() {
            Some(f) => Some(copy_frame(f)),
            None => None,
        };
        (
            VideoPlayer { frame, current_time: video.current_time, duration: video.video_duration },
            cmd,
        )
    }
}

} // verus!
