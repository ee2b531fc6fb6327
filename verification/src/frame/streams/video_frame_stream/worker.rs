//! The decisions of the worker that decodes a video stream ahead of its
//! consumer: which requests invalidate the queue of decoded frames, and how
//! much of that queue survives a request.

use std::collections::VecDeque;

use vstd::prelude::*;

use super::resampled_ffmpeg_video::{config_fits, ResampledFFmpegVideo, ResampledView};
use super::Clip;
use crate::fps::Fps;
use crate::frame::{Dimensions, RescaleMethod};

verus! {

/// Where playback stood when a frame was decoded (or what a client
/// believes).
#[derive(Debug, Clone, Copy, PartialEq, Eq)]
pub struct PlaybackState {
    /// The resampled index of the next frame.
    pub playhead: usize,
    /// Whether playback was paused.
    pub paused: bool,
    /// The played range.
    pub clip: Clip,
    /// The number of resampled frames.
    pub duration: usize,
}

/// The [PlaybackState] of a video in state `v`.
pub open spec fn snapshot_of(v: ResampledView) -> PlaybackState {
    PlaybackState { playhead: v.playhead, paused: v.paused, clip: v.clip, duration: v.duration }
}

impl PlaybackState {
    /// Takes a snapshot of the video's playback state.
    pub fn snapshot(video: &ResampledFFmpegVideo) -> (r: Self)
        ensures
            r == snapshot_of(video@),
    {
        PlaybackState {
            playhead: video.playhead(),
            paused: video.paused(),
            clip: video.clip(),
            duration: video.resampled_duration(),
        }
    }
}

/// A request from the stream's client to its worker.
#[derive(Debug, Clone, Copy, PartialEq, Eq)]
pub enum WorkerRequest {
    SetTargetFps(Fps),
    SetPaused(bool),
    /// A frame is handed back for reuse (the frame goes to the decoder's
    /// pool).
    Recycle,
    SetDimensions(Dimensions, RescaleMethod),
    SetClip(Clip),
    SeekPlayhead(usize),
    SetLoop(bool),
    SetPlaybackSpeed(Fps),
}

/// Whether a request invalidates the queue of decoded frames: every request
/// does but handing back a frame, unless the worker has `failed` (it then
/// only repeats its error and the queue is left as it is).
pub fn request_invalidates_queue(req: &WorkerRequest, failed: bool) -> (r: bool)
    ensures
        r == (!failed && !(*req is Recycle)),
{
    if failed {
        return false;
    }
    match req {
        WorkerRequest::Recycle => false,
        _ => true,
    }
}

/// The state after [ResampledFFmpegVideo::set_paused] with `paused`.
pub open spec fn paused_set(v: ResampledView, paused: bool) -> ResampledView {
    if v.last_frame_played && v.playhead == v.clip.end {
        v
    } else {
        ResampledView { paused, ..v }
    }
}

/// The video state after applying `req` to `v`, and whether the queue must
/// be dropped entirely: new dimensions, frame rates and speeds change what
/// every queued frame means.
pub open spec fn after_request(v: ResampledView, req: WorkerRequest) -> (ResampledView, bool) {
    match req {
        WorkerRequest::SetDimensions(_, _) => (v, true),
        WorkerRequest::SetTargetFps(t) => (
            if t == v.target_fps {
                v
            } else {
                v.reconfigured(t, v.playback_speed)
            },
            true,
        ),
        WorkerRequest::SetPlaybackSpeed(s) => (
            if s == v.playback_speed {
                v
            } else {
                v.reconfigured(v.target_fps, s)
            },
            true,
        ),
        WorkerRequest::SetPaused(p) => (paused_set(v, p), false),
        WorkerRequest::SetClip(c) => (v.with_clip(c), false),
        WorkerRequest::SeekPlayhead(p) => (v.seeked(p), false),
        WorkerRequest::SetLoop(l) => (ResampledView { will_loop: l, ..v }, false),
        WorkerRequest::Recycle => (v, false),
    }
}

/// The frames of `queue` that are kept for a video in state `v`, in order,
/// each with the state it is now shown in, and the video's state afterwards:
/// frames before the playhead are dropped, a frame at the playhead is kept
/// and the video steps on, and the first frame past the playhead ends the
/// salvage.
pub open spec fn salvaged<T>(queue: Seq<(T, PlaybackState)>, v: ResampledView) -> (Seq<
    (T, PlaybackState),
>, ResampledView)
    decreases queue.len(),
{
    if queue.len() == 0 {
        (Seq::empty(), v)
    } else if queue[0].1.playhead < v.playhead {
        salvaged(queue.drop_first(), v)
    } else if queue[0].1.playhead == v.playhead {
        let rest = salvaged(queue.drop_first(), v.stepped());
        (seq![(queue[0].0, snapshot_of(v))] + rest.0, rest.1)
    } else {
        (Seq::empty(), v)
    }
}

/// Whether the video can carry out `req` without overflow.
pub open spec fn request_fits(v: ResampledView, req: WorkerRequest) -> bool {
    match req {
        WorkerRequest::SetTargetFps(t) => config_fits(
            v.src_fps,
            v.playback_speed,
            t,
            v.src_duration,
        ),
        WorkerRequest::SetPlaybackSpeed(s) => config_fits(v.src_fps, s, v.target_fps, v.src_duration),
        _ => true,
    }
}

/// Handles a request that invalidated the queue of decoded frames: rewinds
/// the video to where the client is, applies the request, and keeps what it
/// can of the queue (see [salvaged]). New dimensions are applied to the
/// decoder by the caller.
pub fn handle_invalid_queue<T>(
    video: &mut ResampledFFmpegVideo,
    queue: &mut VecDeque<(T, PlaybackState)>,
    req: &WorkerRequest,
    client_state: PlaybackState,
)
    requires
        !(*req is Recycle),
        request_fits(
            paused_set(old(video)@.seeked(client_state.playhead), client_state.paused),
            *req,
        ),
    ensures
        ({
            let rewound = paused_set(old(video)@.seeked(client_state.playhead), client_state.paused);
            let (applied, clear) = after_request(rewound, *req);
            if clear {
                &&& final(video)@ == applied
                &&& final(queue)@ == Seq::<(T, PlaybackState)>::empty()
            } else {
                &&& final(video)@ == salvaged(old(queue)@, applied).1
                &&& final(queue)@ == salvaged(old(queue)@, applied).0
            }
        }),
{
    video.seek_playhead(client_state.playhead);
    video.set_paused(client_state.paused);

    match req {
        WorkerRequest::Recycle => {
            assert(false);
            return;
        },
        WorkerRequest::SetDimensions(_, _) => {
            queue.clear();
            return;
        },
        WorkerRequest::SetTargetFps(target_fps) => {
            video.set_target_fps(*target_fps);
            queue.clear();
            return;
        },
        WorkerRequest::SetPlaybackSpeed(playback_speed) => {
            video.set_playback_speed(*playback_speed);
            queue.clear();
            return;
        },
        WorkerRequest::SetPaused(paused) => {
            video.set_paused(*paused);
        },
        WorkerRequest::SetClip(clip) => {
            video.set_clip(*clip);
        },
        WorkerRequest::SeekPlayhead(playhead) => {
            video.seek_playhead(*playhead);
        },
        WorkerRequest::SetLoop(will_loop) => {
            video.set_will_loop(*will_loop);
        },
    }

    let ghost items = old(queue)@;
    let ghost start = video@;
    let mut old_queue: VecDeque<(T, PlaybackState)> = VecDeque::new();
    std::mem::swap(&mut old_queue, queue);
    loop
        invariant_except_break
            salvaged(items, start).0 == queue@ + salvaged(old_queue@, video@).0,
            salvaged(items, start).1 == salvaged(old_queue@, video@).1,
        ensures
            queue@ == salvaged(items, start).0,
            video@ == salvaged(items, start).1,
        decreases old_queue@.len(),
    {
        let ghost before = old_queue@;
        let ghost v = video@;
        match old_queue.pop_front() {
            None => {
                assert(queue@ + Seq::<(T, PlaybackState)>::empty() =~= queue@);
                break;
            },
            Some(item) => {
                assert(old_queue@ =~= before.drop_first());
                let (frame, state) = item;
                let playhead = video.playhead();
                if state.playhead < playhead {
                } else if state.playhead == playhead {
                    let snapshot = PlaybackState::snapshot(&*video);
                    let ghost q = queue@;
                    queue.push_back((frame, snapshot));
                    video.step();
                    proof {
                        let rest = salvaged(before.drop_first(), v.stepped());
                        assert(salvaged(before, v).0 == seq![(before[0].0, snapshot_of(v))] + rest.0);
                        assert(q + (seq![(before[0].0, snapshot_of(v))] + rest.0) =~= queue@ + rest.0);
                    }
                } else {
                    assert(queue@ + Seq::<(T, PlaybackState)>::empty() =~= queue@);
                    break;
                }
            },
        }
    }
}

} // verus!
