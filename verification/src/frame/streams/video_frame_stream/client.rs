//! The consumer's side of a video frame stream: the playback settings it
//! mirrors from its worker, and which changes need a request to the worker
//! (a change to what is already set needs none).

use std::time::Duration;

use vstd::prelude::*;

use super::resampled_ffmpeg_video::{clamped, fixed, ResampledFFmpegVideo, ResampledView};
use super::worker::{PlaybackState, WorkerRequest};
use super::{lemma_fix_idempotent, Clip};
use crate::fps::Fps;
use crate::frame::{Dimensions, RescaleMethod};

verus! {

/// The settings a [StreamClient] holds.
pub ghost struct ClientView {
    /// The frame rate frames are produced at.
    pub target_fps: Fps,
    /// Whether playback is paused.
    pub paused: bool,
    /// The dimensions frames are produced in.
    pub dimensions: Dimensions,
    /// How frames are rescaled when they are.
    pub rescale_method: RescaleMethod,
    /// The played range of (resampled) frames.
    pub clip: Clip,
    /// The index of the next frame.
    pub playhead: usize,
    /// Whether playback loops.
    pub will_loop: bool,
    /// The multiplier on the video's own speed.
    pub playback_speed: Fps,
    /// The video's own frame dimensions.
    pub native_dimensions: Dimensions,
    /// The video's own frame rate.
    pub native_fps: Fps,
    /// The number of (resampled) frames of the whole video.
    pub unclipped_duration: usize,
    /// How long to wait for a frame ([None]: forever).
    pub fetch_timeout: Option<Duration>,
}

/// The consumer's copy of a video stream's playback settings.
#[derive(Debug)]
pub struct StreamClient {
    target_fps: Fps,
    paused: bool,
    dimensions: Dimensions,
    rescale_method: RescaleMethod,
    clip: Clip,
    playhead: usize,
    will_loop: bool,
    playback_speed: Fps,
    native_dimensions: Dimensions,
    native_fps: Fps,
    unclipped_duration: usize,
    fetch_timeout: Option<Duration>,
}

impl View for StreamClient {
    type V = ClientView;

    /// The settings held.
    closed spec fn view(&self) -> ClientView {
        ClientView {
            target_fps: self.target_fps,
            paused: self.paused,
            dimensions: self.dimensions,
            rescale_method: self.rescale_method,
            clip: self.clip,
            playhead: self.playhead,
            will_loop: self.will_loop,
            playback_speed: self.playback_speed,
            native_dimensions: self.native_dimensions,
            native_fps: self.native_fps,
            unclipped_duration: self.unclipped_duration,
            fetch_timeout: self.fetch_timeout,
        }
    }
}

impl StreamClient {
    #[verifier::type_invariant]
    spec fn inv(&self) -> bool {
        0 < self.unclipped_duration && self.clip.start <= self.clip.end
    }

    /// The settings of a stream over `video`, whose frames are decoded in
    /// `native_dimensions` and produced in `dest_dimensions` (rescaled with
    /// `rescale_method` if one is set; bilinearly otherwise).
    pub fn new(
        video: &ResampledFFmpegVideo,
        native_dimensions: Dimensions,
        dest_dimensions: Dimensions,
        rescale_method: Option<RescaleMethod>,
        fetch_timeout: Option<Duration>,
    ) -> (r: Self)
        ensures
            r@ == (ClientView {
                target_fps: video@.target_fps,
                paused: video@.paused,
                dimensions: dest_dimensions,
                rescale_method: match rescale_method {
                    Some(m) => m,
                    None => RescaleMethod::Bilinear,
                },
                clip: video@.clip,
                playhead: video@.playhead,
                will_loop: video@.will_loop,
                playback_speed: video@.playback_speed,
                native_dimensions,
                native_fps: video@.src_fps,
                unclipped_duration: video@.duration,
                fetch_timeout,
            }),
    {
        let rescale_method = match rescale_method {
            Some(m) => m,
            None => RescaleMethod::default(),
        };
        StreamClient {
            target_fps: video.target_fps(),
            paused: video.paused(),
            dimensions: dest_dimensions,
            rescale_method,
            clip: video.clip(),
            playhead: video.playhead(),
            will_loop: video.will_loop(),
            playback_speed: video.playback_speed(),
            native_dimensions,
            native_fps: video.src_fps(),
            unclipped_duration: video.resampled_duration(),
            fetch_timeout,
        }
    }

    /// The playback state the client believes in, sent with each request.
    pub fn snapshot(&self) -> (r: PlaybackState)
        ensures
            r == (PlaybackState {
                playhead: self@.playhead,
                paused: self@.paused,
                clip: self@.clip,
                duration: self@.unclipped_duration,
            }),
    {
        PlaybackState {
            playhead: self.playhead,
            paused: self.paused,
            clip: self.clip,
            duration: self.unclipped_duration,
        }
    }

    /// Takes over the playback state the worker reports (with a frame, or in
    /// answer to a request).
    pub fn apply_state(&mut self, state: PlaybackState)
        requires
            state.duration > 0,
            state.clip.start <= state.clip.end,
        ensures
            final(self)@ == (ClientView {
                playhead: state.playhead,
                paused: state.paused,
                clip: state.clip,
                unclipped_duration: state.duration,
                ..old(self)@
            }),
    {
        *self = StreamClient {
            playhead: state.playhead,
            paused: state.paused,
            clip: state.clip,
            unclipped_duration: state.duration,
            ..*self
        };
    }

    /// Sets the frame rate; the request for the worker, if it changes.
    pub fn set_target_fps(&mut self, target_fps: Fps) -> (r: Option<WorkerRequest>)
        ensures
            target_fps == old(self)@.target_fps ==> r is None && final(self)@ == old(self)@,
            target_fps != old(self)@.target_fps ==> r == Some(WorkerRequest::SetTargetFps(target_fps))
                && final(self)@ == (ClientView { target_fps, ..old(self)@ }),
    {
        proof {
            use_type_invariant(&*self);
        }
        if target_fps == self.target_fps {
            return None;
        }
        self.target_fps = target_fps;
        Some(WorkerRequest::SetTargetFps(target_fps))
    }

    /// Pauses or resumes; the request for the worker, if it changes.
    pub fn set_paused(&mut self, paused: bool) -> (r: Option<WorkerRequest>)
        ensures
            paused == old(self)@.paused ==> r is None && final(self)@ == old(self)@,
            paused != old(self)@.paused ==> r == Some(WorkerRequest::SetPaused(paused))
                && final(self)@ == (ClientView { paused, ..old(self)@ }),
    {
        proof {
            use_type_invariant(&*self);
        }
        if paused == self.paused {
            return None;
        }
        self.paused = paused;
        Some(WorkerRequest::SetPaused(paused))
    }

    /// Sets the dimensions frames are produced in and how they are rescaled;
    /// the request for the worker, unless neither changes what is produced:
    /// the dimensions stay and either the method stays too or the dimensions
    /// are the native ones (no rescaling happens).
    pub fn set_dimensions(&mut self, dimensions: Dimensions, rescale_method: RescaleMethod) -> (r:
        Option<WorkerRequest>)
        ensures
            ({
                let unchanged = dimensions == old(self)@.dimensions && (rescale_method == old(self)@.rescale_method || dimensions == old(self)@.native_dimensions);
                &&& unchanged ==> r is None && final(self)@ == old(self)@
                &&& !unchanged ==> r == Some(WorkerRequest::SetDimensions(dimensions, rescale_method))
                    && final(self)@ == (ClientView { dimensions, rescale_method, ..old(self)@ })
            }),
    {
        proof {
            use_type_invariant(&*self);
        }
        if dimensions == self.dimensions && (rescale_method == self.rescale_method || dimensions
            == self.native_dimensions) {
            return None;
        }
        self.dimensions = dimensions;
        self.rescale_method = rescale_method;
        Some(WorkerRequest::SetDimensions(dimensions, rescale_method))
    }

    /// Sets the played range, first moved inside the video (see
    /// [Clip::fix]); the range set, and the request for the worker if it
    /// changes.
    pub fn set_clip(&mut self, clip: Clip) -> (r: (Clip, Option<WorkerRequest>))
        ensures
            r.0 == fixed(clip, old(self)@.unclipped_duration),
            r.0 == old(self)@.clip ==> r.1 is None && final(self)@ == old(self)@,
            r.0 != old(self)@.clip ==> r.1 == Some(WorkerRequest::SetClip(r.0)) && final(self)@ == (
            ClientView { clip: r.0, ..old(self)@ }),
    {
        proof {
            use_type_invariant(&*self);
        }
        let clip = clip.fix(self.unclipped_duration);
        if clip == self.clip {
            return (clip, None);
        }
        self.clip = clip;
        (clip, Some(WorkerRequest::SetClip(clip)))
    }

    /// Moves the playhead, first clamped into the played range; the playhead
    /// set, and the request for the worker if it moves.
    pub fn seek_playhead(&mut self, playhead: usize) -> (r: (usize, Option<WorkerRequest>))
        ensures
            r.0 == clamped(playhead, old(self)@.clip),
            r.0 == old(self)@.playhead ==> r.1 is None && final(self)@ == old(self)@,
            r.0 != old(self)@.playhead ==> r.1 == Some(WorkerRequest::SeekPlayhead(r.0)) && final(self)@ == (ClientView { playhead: r.0, ..old(self)@ }),
    {
        proof {
            use_type_invariant(&*self);
        }
        let playhead = if playhead < self.clip.start {
            self.clip.start
        } else if playhead > self.clip.end {
            self.clip.end
        } else {
            playhead
        };
        if playhead == self.playhead {
            return (playhead, None);
        }
        self.playhead = playhead;
        (playhead, Some(WorkerRequest::SeekPlayhead(playhead)))
    }

    /// Sets whether playback loops; the request for the worker, if it
    /// changes.
    pub fn set_loop(&mut self, will_loop: bool) -> (r: Option<WorkerRequest>)
        ensures
            will_loop == old(self)@.will_loop ==> r is None && final(self)@ == old(self)@,
            will_loop != old(self)@.will_loop ==> r == Some(WorkerRequest::SetLoop(will_loop))
                && final(self)@ == (ClientView { will_loop, ..old(self)@ }),
    {
        proof {
            use_type_invariant(&*self);
        }
        if will_loop == self.will_loop {
            return None;
        }
        self.will_loop = will_loop;
        Some(WorkerRequest::SetLoop(will_loop))
    }

    /// Sets the playback speed; the request for the worker, if it changes.
    pub fn set_playback_speed(&mut self, playback_speed: Fps) -> (r: Option<WorkerRequest>)
        ensures
            playback_speed == old(self)@.playback_speed ==> r is None && final(self)@ == old(self)@,
            playback_speed != old(self)@.playback_speed ==> r == Some(
                WorkerRequest::SetPlaybackSpeed(playback_speed),
            ) && final(self)@ == (ClientView { playback_speed, ..old(self)@ }),
    {
        proof {
            use_type_invariant(&*self);
        }
        if playback_speed == self.playback_speed {
            return None;
        }
        self.playback_speed = playback_speed;
        Some(WorkerRequest::SetPlaybackSpeed(playback_speed))
    }

    /// The rescale method in use: [None] in the native dimensions.
    pub fn rescale_method(&self) -> (r: Option<RescaleMethod>)
        ensures
            r == if self@.dimensions != self@.native_dimensions {
                Some(self@.rescale_method)
            } else {
                None
            },
    {
        if self.dimensions != self.native_dimensions {
            Some(self.rescale_method)
        } else {
            None
        }
    }

    /// The frame rate frames are produced at.
    pub fn target_fps(&self) -> (r: Fps)
        ensures
            r == self@.target_fps,
    {
        self.target_fps
    }

    /// Whether playback is paused.
    pub fn is_paused(&self) -> (r: bool)
        ensures
            r == self@.paused,
    {
        self.paused
    }

    /// The dimensions frames are produced in.
    pub fn dimensions(&self) -> (r: Dimensions)
        ensures
            r == self@.dimensions,
    {
        self.dimensions
    }

    /// The video's own frame dimensions.
    pub fn native_dimensions(&self) -> (r: Dimensions)
        ensures
            r == self@.native_dimensions,
    {
        self.native_dimensions
    }

    /// The video's own frame rate.
    pub fn native_fps(&self) -> (r: Fps)
        ensures
            r == self@.native_fps,
    {
        self.native_fps
    }

    /// The played range.
    pub fn clip(&self) -> (r: Clip)
        ensures
            r == self@.clip,
            r.start <= r.end,
    {
        proof {
            use_type_invariant(self);
        }
        self.clip
    }

    /// The index of the next frame.
    pub fn playhead(&self) -> (r: usize)
        ensures
            r == self@.playhead,
    {
        self.playhead
    }

    /// Whether playback loops.
    pub fn will_loop(&self) -> (r: bool)
        ensures
            r == self@.will_loop,
    {
        self.will_loop
    }

    /// The multiplier on the video's own speed.
    pub fn playback_speed(&self) -> (r: Fps)
        ensures
            r == self@.playback_speed,
    {
        self.playback_speed
    }

    /// The number of (resampled) frames of the whole video; never 0.
    pub fn unclipped_duration(&self) -> (r: usize)
        ensures
            r == self@.unclipped_duration,
            r > 0,
    {
        proof {
            use_type_invariant(self);
        }
        self.unclipped_duration
    }

    /// How long to wait for a frame ([None]: forever).
    pub fn fetch_timeout(&self) -> (r: Option<Duration>)
        ensures
            r == self@.fetch_timeout,
    {
        self.fetch_timeout
    }

    /// Sets how long to wait for a frame ([None]: forever).
    pub fn set_fetch_timeout(&mut self, fetch_timeout: Option<Duration>)
        ensures
            final(self)@ == (ClientView { fetch_timeout, ..old(self)@ }),
    {
        proof {
            use_type_invariant(&*self);
        }
        self.fetch_timeout = fetch_timeout;
    }
}

/// The playhead a client seeks to (clamped into its clip, which is the
/// video's) is where the worker's video lands when it handles the request.
pub proof fn lemma_client_seek_agrees(v: ResampledView, playhead: usize)
    requires
        v.clip.start <= v.clip.end,
    ensures
        v.seeked(clamped(playhead, v.clip)).playhead == clamped(playhead, v.clip),
{
}

/// The clip a client sets (fixed into the video's duration) is the clip the
/// worker's video has once it handled the request.
pub proof fn lemma_client_clip_agrees(v: ResampledView, clip: Clip)
    requires
        v.duration > 0,
    ensures
        v.with_clip(fixed(clip, v.duration)).clip == fixed(clip, v.duration),
{
    lemma_fix_idempotent(clip.start as nat, clip.end as nat, v.duration as nat);
}

} // verus!
