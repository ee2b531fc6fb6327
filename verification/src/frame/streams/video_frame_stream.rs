//! The configuration of a stream of frames from a video file: the
//! [VideoFrameStreamBuilder] and the playback range [Clip].

pub mod client;
pub mod resampled_ffmpeg_video;
pub mod worker;

use core::ops::RangeInclusive;
use std::time::Duration;

use vstd::prelude::*;

use crate::fps::consts::FPS_1;
use crate::fps::Fps;
use crate::frame::{Dimensions, RescaleMethod};

verus! {

/// `RangeInclusive::start`: the lower bound of the range, which the
/// documentation leaves unspecified once the range has been iterated to
/// exhaustion (so nothing is claimed then).
pub assume_specification<Idx>[ RangeInclusive::<Idx>::start ](r: &RangeInclusive<Idx>) -> (s: &Idx)
    ensures
        !r@.exhausted ==> *s == r@.start,
;

/// `RangeInclusive::end`: the upper bound of the range, which the
/// documentation leaves unspecified once the range has been iterated to
/// exhaustion (so nothing is claimed then).
pub assume_specification<Idx>[ RangeInclusive::<Idx>::end ](r: &RangeInclusive<Idx>) -> (e: &Idx)
    ensures
        !r@.exhausted ==> *e == r@.end,
;

/// One end of a range of frame indices.
#[derive(Debug, Clone, Copy, PartialEq, Eq, Structural)]
pub enum RangeEnd {
    /// The range includes this index.
    Included(usize),
    /// The range stops just short of this index.
    Excluded(usize),
    /// The range does not stop on this side.
    Unbounded,
}

/// An inclusive range of frame indices to play back.
#[derive(Debug, Clone, Copy, PartialEq, Eq, Structural)]
pub struct Clip {
    /// The first frame index in the clip.
    pub start: usize,
    /// The last frame index in the clip.
    pub end: usize,
}

/// The first index a range starting at `b` includes.
pub open spec fn start_index(b: RangeEnd) -> nat {
    match b {
        RangeEnd::Included(n) => n as nat,
        RangeEnd::Excluded(n) => if n == usize::MAX {
            usize::MAX as nat
        } else {
            (n + 1) as nat
        },
        RangeEnd::Unbounded => 0,
    }
}

/// The last index a range ending at `b` includes.
pub open spec fn end_index(b: RangeEnd) -> nat {
    match b {
        RangeEnd::Included(n) => n as nat,
        RangeEnd::Excluded(n) => if n == 0 {
            0
        } else {
            (n - 1) as nat
        },
        RangeEnd::Unbounded => usize::MAX as nat,
    }
}

/// The clip [Clip::fix] makes of `(start, end)` for a stream of `duration`
/// frames: the start is moved into the stream, and the end is moved up to the
/// start or down into the stream.
pub open spec fn fixed_clip(start: nat, end: nat, duration: nat) -> (nat, nat) {
    let s = if start >= duration {
        (duration - 1) as nat
    } else {
        start
    };
    let e = if s > end {
        s
    } else if end >= duration {
        (duration - 1) as nat
    } else {
        end
    };
    (s, e)
}

impl Clip {
    /// The clip covering `range` (both ends included).
    pub fn new(range: RangeInclusive<usize>) -> (r: Self)
        ensures
            !range@.exhausted ==> r.start == range@.start && r.end == range@.end,
    {
        Self { start: *range.start(), end: *range.end() }
    }

    /// The clip covering the indices from `start` to `end`; excluded ends
    /// are moved inwards by one (saturating), unbounded ones to `0` and
    /// `usize::MAX`.
    pub fn from_range(start: RangeEnd, end: RangeEnd) -> (r: Self)
        ensures
            r.start == start_index(start),
            r.end == end_index(end),
    {
        let start = match start {
            RangeEnd::Included(n) => n,
            RangeEnd::Excluded(n) => n.saturating_add(1),
            RangeEnd::Unbounded => 0,
        };
        let end = match end {
            RangeEnd::Included(n) => n,
            RangeEnd::Excluded(n) => n.saturating_sub(1),
            RangeEnd::Unbounded => usize::MAX,
        };
        Self { start, end }
    }

    /// Whether `playhead` is inside the clip.
    pub fn contains(&self, playhead: usize) -> (r: bool)
        ensures
            r == (self.start <= playhead <= self.end),
    {
        playhead >= self.start && playhead <= self.end
    }

    /// Replace the clip by [Self::fix]ed version of itself.
    pub fn fix_in_place(&mut self, unclipped_duration: usize)
        requires
            unclipped_duration > 0,
        ensures
            (final(self).start as nat, final(self).end as nat) == fixed_clip(
                old(self).start as nat,
                old(self).end as nat,
                unclipped_duration as nat,
            ),
    {
        *self = self.fix(unclipped_duration);
    }

    /// This clip moved inside a stream of `unclipped_duration` (non-zero)
    /// frames: the start is clamped into the stream, and the end is raised to
    /// the start or clamped into the stream.
    pub fn fix(&self, unclipped_duration: usize) -> (r: Self)
        requires
            unclipped_duration > 0,
        ensures
            (r.start as nat, r.end as nat) == fixed_clip(self.start as nat, self.end as nat, unclipped_duration as nat),
            r.start <= r.end < unclipped_duration,
    {
        let mut new_clip = *self;
        if new_clip.start >= unclipped_duration {
            new_clip.start = unclipped_duration - 1;
        }
        if new_clip.start > new_clip.end {
            new_clip.end = new_clip.start;
        } else if new_clip.end >= unclipped_duration {
            new_clip.end = unclipped_duration - 1;
        }
        new_clip
    }

    /// The clip as an inclusive range.
    pub fn to_range(&self) -> (r: RangeInclusive<usize>)
        ensures
            r@.start == self.start,
            r@.end == self.end,
            !r@.exhausted,
    {
        RangeInclusive::new(self.start, self.end)
    }
}

/// A fixed clip lies inside the stream and is not empty, and fixing it
/// again changes nothing.
pub proof fn lemma_fix_idempotent(start: nat, end: nat, duration: nat)
    requires
        duration > 0,
    ensures
        fixed_clip(start, end, duration).0 <= fixed_clip(start, end, duration).1 < duration,
        fixed_clip(fixed_clip(start, end, duration).0, fixed_clip(start, end, duration).1, duration)
            == fixed_clip(start, end, duration),
{
}

/// A clip that already lies inside the stream is left alone by fixing.
pub proof fn lemma_fix_keeps_valid_clip(start: nat, end: nat, duration: nat)
    requires
        start <= end < duration,
    ensures
        fixed_clip(start, end, duration) == (start, end),
{
}

/// What a [VideoFrameStreamBuilder] holds.
pub ghost struct BuilderView {
    pub target_fps: Option<Fps>,
    pub paused: bool,
    pub clip: Clip,
    pub playhead: usize,
    pub will_loop: bool,
    pub playback_speed: Fps,
    pub rescale: Option<(Dimensions, RescaleMethod)>,
    pub fetch_timeout: Option<Duration>,
}

/// A builder for the configuration of a stream of frames from a video file.
#[derive(Debug, Clone, Copy)]
pub struct VideoFrameStreamBuilder {
    target_fps: Option<Fps>,
    paused: bool,
    clip: Clip,
    playhead: usize,
    will_loop: bool,
    playback_speed: Fps,
    rescale: Option<(Dimensions, RescaleMethod)>,
    fetch_timeout: Option<Duration>,
}

impl View for VideoFrameStreamBuilder {
    type V = BuilderView;

    closed spec fn view(&self) -> BuilderView {
        BuilderView {
            target_fps: self.target_fps,
            paused: self.paused,
            clip: self.clip,
            playhead: self.playhead,
            will_loop: self.will_loop,
            playback_speed: self.playback_speed,
            rescale: self.rescale,
            fetch_timeout: self.fetch_timeout,
        }
    }
}

impl VideoFrameStreamBuilder {
    /// Set the target frame rate (the stream will be resampled to this
    /// [Fps]). If unset the stream has the video's native frame rate.
    pub fn fps(self, target_fps: Fps) -> (r: Self)
        ensures
            r@ == (BuilderView { target_fps: Some(target_fps), ..self@ }),
    {
        let mut s = self;
        s.target_fps = Some(target_fps);
        s
    }

    /// Set whether or not the stream starts paused. The default is `false`.
    pub fn paused(self, paused: bool) -> (r: Self)
        ensures
            r@ == (BuilderView { paused, ..self@ }),
    {
        let mut s = self;
        s.paused = paused;
        s
    }

    /// Set the clip's playback range. The default is the entire stream. The
    /// range is clamped to the stream's duration when the stream is built.
    pub fn clip(self, start: RangeEnd, end: RangeEnd) -> (r: Self)
        ensures
            r@ == (BuilderView { clip: (Clip { start: start_index(start) as usize, end: end_index(end) as usize }), ..self@ }),
    {
        let mut s = self;
        s.clip = Clip::from_range(start, end);
        s
    }

    /// Like [Self::clip], with an inclusive range.
    pub fn clip_const(self, playback_range: RangeInclusive<usize>) -> (r: Self)
        ensures
            !playback_range@.exhausted ==> r@ == (BuilderView { clip: (Clip { start: playback_range@.start, end: playback_range@.end }), ..self@ }),
    {
        let mut s = self;
        s.clip = Clip::new(playback_range);
        s
    }

    /// Set the starting position of the playhead. The default is 0; it is
    /// clamped into the clip when the stream is built.
    pub fn playhead(self, playhead: usize) -> (r: Self)
        ensures
            r@ == (BuilderView { playhead, ..self@ }),
    {
        let mut s = self;
        s.playhead = playhead;
        s
    }

    /// Set whether or not the stream should loop. The default is `false`.
    pub fn set_loop(self, will_loop: bool) -> (r: Self)
        ensures
            r@ == (BuilderView { will_loop, ..self@ }),
    {
        let mut s = self;
        s.will_loop = will_loop;
        s
    }

    /// Set the multiplier that changes the playback speed.
    pub fn playback_speed(self, multipler: Fps) -> (r: Self)
        ensures
            r@ == (BuilderView { playback_speed: multipler, ..self@ }),
    {
        let mut s = self;
        s.playback_speed = multipler;
        s
    }

    /// Have the stream return frames rescaled to `dimensions` with
    /// `rescale_method`. If unset, frames have the video's native dimensions.
    pub fn rescale(self, dimensions: Dimensions, rescale_method: RescaleMethod) -> (r: Self)
        ensures
            r@ == (BuilderView { rescale: Some((dimensions, rescale_method)), ..self@ }),
    {
        let mut s = self;
        s.rescale = Some((dimensions, rescale_method));
        s
    }

    /// How long to wait before giving up when fetching a frame.
    pub fn fetch_timeout(self, timeout: Duration) -> (r: Self)
        ensures
            r@ == (BuilderView { fetch_timeout: Some(timeout), ..self@ }),
    {
        let mut s = self;
        s.fetch_timeout = Some(timeout);
        s
    }

    /// The default configuration: native frame rate, playing, the entire
    /// stream (`0..=usize::MAX`), playhead at 0, not looping, normal speed,
    /// native dimensions and no fetch timeout.
    pub fn new() -> (r: Self)
        ensures
            r@.target_fps is None,
            !r@.paused,
            r@.clip == (Clip { start: 0, end: usize::MAX }),
            r@.playhead == 0,
            !r@.will_loop,
            r@.playback_speed.numer() == 1 && r@.playback_speed.denom() == 1,
            r@.rescale is None,
            r@.fetch_timeout is None,
    {
        Self {
            target_fps: None,
            paused: false,
            clip: Clip { start: 0, end: usize::MAX },
            playhead: 0,
            will_loop: false,
            playback_speed: FPS_1(),
            rescale: None,
            fetch_timeout: None,
        }
    }

    /// The configured target frame rate, if any.
    pub fn target_fps(&self) -> (r: Option<Fps>)
        ensures
            r == self@.target_fps,
    {
        self.target_fps
    }

    /// Whether the stream starts paused.
    pub fn is_paused(&self) -> (r: bool)
        ensures
            r == self@.paused,
    {
        self.paused
    }

    /// The configured clip.
    pub fn clip_range(&self) -> (r: Clip)
        ensures
            r == self@.clip,
    {
        self.clip
    }

    /// The configured starting playhead.
    pub fn start_playhead(&self) -> (r: usize)
        ensures
            r == self@.playhead,
    {
        self.playhead
    }

    /// Whether the stream loops.
    pub fn will_loop(&self) -> (r: bool)
        ensures
            r == self@.will_loop,
    {
        self.will_loop
    }

    /// The configured playback speed.
    pub fn speed(&self) -> (r: Fps)
        ensures
            r == self@.playback_speed,
    {
        self.playback_speed
    }

    /// The configured rescaling, if any.
    pub fn rescaling(&self) -> (r: Option<(Dimensions, RescaleMethod)>)
        ensures
            r == self@.rescale,
    {
        self.rescale
    }

    /// The configured fetch timeout, if any.
    pub fn timeout(&self) -> (r: Option<Duration>)
        ensures
            r == self@.fetch_timeout,
    {
        self.fetch_timeout
    }
}

} // verus!
