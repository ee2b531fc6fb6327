//! The video stream worker's handling of requests that invalidate its queue.

use std::collections::VecDeque;

use media::fps::consts;
use media::frame::streams::video_frame_stream::resampled_ffmpeg_video::ResampledFFmpegVideo;
use media::frame::streams::video_frame_stream::worker::{
    handle_invalid_queue, request_invalidates_queue, PlaybackState, WorkerRequest,
};
use media::frame::streams::video_frame_stream::{Clip, VideoFrameStreamBuilder};
use media::frame::{Dimensions, RescaleMethod};

/// A video of 20 frames with frames 0..5 decoded ahead.
fn decoded_ahead() -> (ResampledFFmpegVideo, VecDeque<(u32, PlaybackState)>, PlaybackState) {
    let mut video =
        ResampledFFmpegVideo::new(consts::FPS_30(), 20, VideoFrameStreamBuilder::new());
    let client = PlaybackState::snapshot(&video);
    let mut queue = VecDeque::new();
    for i in 0..5u32 {
        let state = PlaybackState::snapshot(&video);
        video.write_next();
        queue.push_back((i, state));
    }
    (video, queue, client)
}

#[test]
fn only_recycling_keeps_the_queue_valid() {
    assert!(!request_invalidates_queue(&WorkerRequest::Recycle, false));
    assert!(request_invalidates_queue(&WorkerRequest::SeekPlayhead(3), false));
    assert!(request_invalidates_queue(&WorkerRequest::SetLoop(true), false));
    // A worker that failed leaves its queue alone.
    assert!(!request_invalidates_queue(&WorkerRequest::SeekPlayhead(3), true));
}

#[test]
fn seeking_ahead_keeps_the_frames_from_there() {
    let (mut video, mut queue, client) = decoded_ahead();
    assert_eq!(video.playhead(), 5);
    handle_invalid_queue(&mut video, &mut queue, &WorkerRequest::SeekPlayhead(2), client);
    let kept: Vec<u32> = queue.iter().map(|(f, _)| *f).collect();
    assert_eq!(kept, vec![2, 3, 4]);
    assert_eq!(queue[0].1.playhead, 2);
    assert_eq!(video.playhead(), 5);
}

#[test]
fn seeking_past_the_queue_drops_it() {
    let (mut video, mut queue, client) = decoded_ahead();
    handle_invalid_queue(&mut video, &mut queue, &WorkerRequest::SeekPlayhead(10), client);
    assert!(queue.is_empty());
    assert_eq!(video.playhead(), 10);
}

#[test]
fn pausing_keeps_the_first_frame_only() {
    let (mut video, mut queue, client) = decoded_ahead();
    handle_invalid_queue(&mut video, &mut queue, &WorkerRequest::SetPaused(true), client);
    // The client is at 0; paused, the playhead does not move on, so only the
    // frame at 0 is kept.
    let kept: Vec<u32> = queue.iter().map(|(f, _)| *f).collect();
    assert_eq!(kept, vec![0]);
    assert!(queue[0].1.paused);
    assert_eq!(video.playhead(), 0);
}

#[test]
fn rate_changes_drop_the_queue() {
    let (mut video, mut queue, client) = decoded_ahead();
    handle_invalid_queue(&mut video, &mut queue, &WorkerRequest::SetTargetFps(consts::FPS_60()), client);
    assert!(queue.is_empty());
    assert_eq!(video.target_fps(), consts::FPS_60());
    assert_eq!(video.resampled_duration(), 40);

    let (mut video, mut queue, client) = decoded_ahead();
    let d = Dimensions::new(4, 4).unwrap();
    handle_invalid_queue(&mut video, &mut queue, &WorkerRequest::SetDimensions(d, RescaleMethod::Bicubic), client);
    assert!(queue.is_empty());
    assert_eq!(video.playhead(), 0);
}

#[test]
fn reclipping_keeps_frames_inside_the_new_clip() {
    let (mut video, mut queue, client) = decoded_ahead();
    handle_invalid_queue(
        &mut video,
        &mut queue,
        &WorkerRequest::SetClip(Clip { start: 1, end: 3 }),
        client,
    );
    // The client at 0 is moved to 1; frames 1..=3 are kept, then the video
    // pauses at the clip's end (it does not loop), so nothing more matches.
    let kept: Vec<u32> = queue.iter().map(|(f, _)| *f).collect();
    assert_eq!(kept, vec![1, 2, 3]);
    assert_eq!(video.clip(), Clip { start: 1, end: 3 });
}
