//! The consumer's side of a video frame stream.

use std::time::Duration;

use media::fps::consts;
use media::frame::streams::video_frame_stream::client::StreamClient;
use media::frame::streams::video_frame_stream::resampled_ffmpeg_video::ResampledFFmpegVideo;
use media::frame::streams::video_frame_stream::worker::{PlaybackState, WorkerRequest};
use media::frame::streams::video_frame_stream::{Clip, VideoFrameStreamBuilder};
use media::frame::{Dimensions, RescaleMethod};

fn dims(width: usize, height: usize) -> Dimensions {
    Dimensions::new(width, height).unwrap()
}

fn client() -> StreamClient {
    let video = ResampledFFmpegVideo::new(
        consts::FPS_30(),
        10,
        VideoFrameStreamBuilder::new().paused(true),
    );
    StreamClient::new(&video, dims(8, 6), dims(8, 6), None, Some(Duration::from_secs(1)))
}

#[test]
fn client_starts_from_the_video() {
    let c = client();
    assert_eq!(c.target_fps(), consts::FPS_30());
    assert_eq!(c.native_fps(), consts::FPS_30());
    assert!(c.is_paused());
    assert_eq!(c.clip(), Clip { start: 0, end: 9 });
    assert_eq!(c.playhead(), 0);
    assert_eq!(c.unclipped_duration(), 10);
    assert_eq!(c.dimensions(), dims(8, 6));
    assert_eq!(c.rescale_method(), None);
    assert_eq!(c.fetch_timeout(), Some(Duration::from_secs(1)));
    assert_eq!(
        c.snapshot(),
        PlaybackState { playhead: 0, paused: true, clip: Clip { start: 0, end: 9 }, duration: 10 }
    );
}

#[test]
fn client_requests_only_changes() {
    let mut c = client();
    assert_eq!(c.set_paused(true), None);
    assert_eq!(c.set_paused(false), Some(WorkerRequest::SetPaused(false)));
    assert!(!c.is_paused());
    assert_eq!(c.set_target_fps(consts::FPS_30()), None);
    assert_eq!(c.set_target_fps(consts::FPS_60()), Some(WorkerRequest::SetTargetFps(consts::FPS_60())));
    assert_eq!(c.set_loop(false), None);
    assert_eq!(c.set_loop(true), Some(WorkerRequest::SetLoop(true)));
    assert_eq!(c.set_playback_speed(consts::FPS_1()), None);
    assert_eq!(
        c.set_playback_speed(consts::FPS_24()),
        Some(WorkerRequest::SetPlaybackSpeed(consts::FPS_24()))
    );
    assert_eq!(c.playback_speed(), consts::FPS_24());
}

#[test]
fn client_dimensions_and_rescaling() {
    let mut c = client();
    // Native dimensions: the method does not matter.
    assert_eq!(c.set_dimensions(dims(8, 6), RescaleMethod::Bicubic), None);
    assert_eq!(
        c.set_dimensions(dims(4, 3), RescaleMethod::Bicubic),
        Some(WorkerRequest::SetDimensions(dims(4, 3), RescaleMethod::Bicubic))
    );
    assert_eq!(c.rescale_method(), Some(RescaleMethod::Bicubic));
    assert_eq!(c.set_dimensions(dims(4, 3), RescaleMethod::Bicubic), None);
    assert_eq!(
        c.set_dimensions(dims(4, 3), RescaleMethod::NearestNeighbor),
        Some(WorkerRequest::SetDimensions(dims(4, 3), RescaleMethod::NearestNeighbor))
    );
    assert_eq!(c.rescale_method(), Some(RescaleMethod::NearestNeighbor));
}

#[test]
fn client_clip_and_seek_are_fixed() {
    let mut c = client();
    let (clip, req) = c.set_clip(Clip { start: 2, end: 50 });
    assert_eq!(clip, Clip { start: 2, end: 9 });
    assert_eq!(req, Some(WorkerRequest::SetClip(clip)));
    assert_eq!(c.set_clip(Clip { start: 2, end: 9 }), (clip, None));
    assert_eq!(c.seek_playhead(0), (2, Some(WorkerRequest::SeekPlayhead(2))));
    assert_eq!(c.seek_playhead(1), (2, None));
    assert_eq!(c.seek_playhead(100), (9, Some(WorkerRequest::SeekPlayhead(9))));
    c.apply_state(PlaybackState {
        playhead: 4,
        paused: false,
        clip: Clip { start: 3, end: 5 },
        duration: 20,
    });
    assert_eq!(c.playhead(), 4);
    assert_eq!(c.clip(), Clip { start: 3, end: 5 });
    assert_eq!(c.unclipped_duration(), 20);
    assert!(!c.is_paused());
    c.set_fetch_timeout(None);
    assert_eq!(c.fetch_timeout(), None);
}
