//! Playback state of a resampled, clipped, possibly looping video.

use media::fps::consts;
use media::fps::Fps;
use media::frame::streams::video_frame_stream::resampled_ffmpeg_video::ResampledFFmpegVideo;
use media::frame::streams::video_frame_stream::{Clip, RangeEnd, VideoFrameStreamBuilder};

#[test]
fn native_rate_plays_every_source_frame() {
    let mut video =
        ResampledFFmpegVideo::new(consts::FPS_30(), 10, VideoFrameStreamBuilder::new());
    assert_eq!(video.resampled_duration(), 10);
    assert_eq!(video.clip(), Clip { start: 0, end: 9 });
    assert_eq!(video.target_fps(), consts::FPS_30());
    for expected in 0..9 {
        assert_eq!(video.write_next(), (expected, false));
    }
    // The last frame pauses the source and then the video itself.
    assert_eq!(video.write_next(), (9, true));
    assert!(video.paused());
    assert_eq!(video.playhead(), 9);
    assert_eq!(video.write_next(), (9, true));
    // It cannot be un-paused while it stays on the last frame.
    assert!(video.set_paused(false));
    assert!(video.paused());
}

#[test]
fn upsampling_repeats_source_frames() {
    let builder = VideoFrameStreamBuilder::new().fps(consts::FPS_60());
    let mut video = ResampledFFmpegVideo::new(consts::FPS_30(), 4, builder);
    assert_eq!(video.resampled_duration(), 8);
    // Each source frame is shown twice; the source pauses on the first.
    assert_eq!(video.write_next(), (0, true));
    assert_eq!(video.write_next(), (0, false));
    assert_eq!(video.write_next(), (1, true));
    assert_eq!(video.playhead(), 3);
}

#[test]
fn looping_returns_to_the_clip_start() {
    let builder = VideoFrameStreamBuilder::new()
        .clip(RangeEnd::Included(2), RangeEnd::Included(4))
        .set_loop(true);
    let mut video = ResampledFFmpegVideo::new(consts::FPS_24(), 10, builder);
    assert_eq!(video.clip(), Clip { start: 2, end: 4 });
    assert_eq!(video.playhead(), 2);
    let shown: Vec<usize> = (0..7).map(|_| video.write_next().0).collect();
    assert_eq!(shown, vec![2, 3, 4, 2, 3, 4, 2]);
    assert!(!video.paused());
}

#[test]
fn seeking_is_clamped_into_the_clip() {
    let builder = VideoFrameStreamBuilder::new()
        .clip(RangeEnd::Included(3), RangeEnd::Excluded(8))
        .playhead(100);
    let mut video = ResampledFFmpegVideo::new(consts::FPS_24(), 20, builder);
    assert_eq!(video.clip(), Clip { start: 3, end: 7 });
    assert_eq!(video.playhead(), 7);
    assert_eq!(video.seek_playhead(0), 3);
    assert_eq!(video.seek_playhead(5), 5);
    // A clip past the end is moved inside the video.
    assert_eq!(video.set_clip(Clip { start: 15, end: 40 }), Clip { start: 15, end: 19 });
    assert_eq!(video.playhead(), 15);
}

#[test]
fn changing_the_rate_keeps_the_moment() {
    let builder = VideoFrameStreamBuilder::new().playhead(10);
    let mut video = ResampledFFmpegVideo::new(consts::FPS_30(), 30, builder);
    assert_eq!(video.playhead(), 10);
    video.set_target_fps(consts::FPS_60());
    assert_eq!(video.target_fps(), consts::FPS_60());
    assert_eq!(video.resampled_duration(), 60);
    assert_eq!(video.playhead(), 20);
    // The clip's last index is translated too (29 at 30 FPS is 58 at 60).
    assert_eq!(video.clip(), Clip { start: 0, end: 58 });
    // Playing twice as fast halves the duration again.
    video.set_playback_speed(Fps::from_int(2).unwrap());
    assert_eq!(video.playback_speed(), Fps::from_int(2).unwrap());
    assert_eq!(video.resampled_duration(), 30);
    assert_eq!(video.playhead(), 10);
    assert_eq!(video.clip(), Clip { start: 0, end: 29 });
    // Resampled frame 10 shows the same moment: source frame 10.
    assert_eq!(video.write_next(), (10, false));
}

#[test]
fn getters_and_loop_flag() {
    let mut video =
        ResampledFFmpegVideo::new(consts::FPS_25(), 5, VideoFrameStreamBuilder::new().paused(true));
    assert!(video.paused());
    assert_eq!(video.src_fps(), consts::FPS_25());
    assert_eq!(video.src_duration(), 5);
    assert_eq!(video.src_duration_non_zero(), 5);
    assert_eq!(video.resampled_duration_non_zero(), 5);
    assert!(!video.will_loop());
    video.set_will_loop(true);
    assert!(video.will_loop());
    // Paused: the playhead stays put.
    assert_eq!(video.write_next(), (0, true));
    assert_eq!(video.playhead(), 0);
    video.step();
    assert_eq!(video.playhead(), 0);
    assert!(!video.set_paused(false));
    video.step();
    assert_eq!(video.playhead(), 1);
}
