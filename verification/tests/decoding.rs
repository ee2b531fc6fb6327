//! The decisions of a video decoder and of the playback position of a video.

use media::ffmpeg_tools::ffmpeg_video::inner::{
    rescale_change_needed, stream_format, DecodeLoop, DecodeStep, Feed, Received,
};
use media::ffmpeg_tools::ffmpeg_video::{
    last_frame_rescale, scaler_needed, scaling_flags, FrameSource, ScalingFlags, SeekMove,
    VideoCursor,
};
use media::ffmpeg_tools::rational::{fps_from_rational, fps_to_rational};
use media::fps::FpsError;
use media::frame::{Dimensions, RescaleMethod};

fn dims(width: usize, height: usize) -> Dimensions {
    Dimensions::new(width, height).unwrap()
}

#[test]
fn rational_frame_rates() {
    let fps = fps_from_rational(60000, 2002).unwrap();
    assert_eq!(fps.as_frac(), (30000, 1001));
    assert_eq!(fps_to_rational(fps), Ok((30000, 1001)));
    assert_eq!(fps_from_rational(0, 1), Err(FpsError::NonPositiveNum));
    assert_eq!(fps_from_rational(-5, -1), Err(FpsError::NonPositiveNum));
    assert_eq!(fps_from_rational(5, 0), Err(FpsError::NonPositiveDen));
    assert_eq!(fps_from_rational(5, -3), Err(FpsError::NonPositiveDen));
    let huge = media::fps::Fps::from_frac(u32::MAX, 1).unwrap();
    assert_eq!(fps_to_rational(huge), Err(FpsError::NonPositiveNum));
    let tiny = media::fps::Fps::from_frac(1, u32::MAX).unwrap();
    assert_eq!(fps_to_rational(tiny), Err(FpsError::NonPositiveDen));
}

#[test]
fn stream_formats() {
    let f = stream_format(true, (50, 2), 640, 480, None).unwrap();
    assert_eq!(f.src_fps.as_frac(), (25, 1));
    assert_eq!(f.src_dimensions, dims(640, 480));
    assert_eq!(f.dest_dimensions, dims(640, 480));
    assert_eq!(f.rescale_method, RescaleMethod::Bilinear);
    let f = stream_format(true, (24, 1), 640, 480, Some((dims(320, 240), RescaleMethod::Bicubic)))
        .unwrap();
    assert_eq!(f.dest_dimensions, dims(320, 240));
    assert_eq!(f.rescale_method, RescaleMethod::Bicubic);
    assert!(stream_format(false, (24, 1), 640, 480, None).is_none());
    assert!(stream_format(true, (0, 1), 640, 480, None).is_none());
    assert!(stream_format(true, (24, 0), 640, 480, None).is_none());
    assert!(stream_format(true, (24, 1), 0, 480, None).is_none());
    assert!(stream_format(true, (24, 1), 640, 0, None).is_none());
}

#[test]
fn rescale_changes() {
    let src = dims(100, 50);
    let small = dims(50, 25);
    // No scaler, same dimensions: nothing to do whatever the method.
    assert!(!rescale_change_needed(src, None, src, RescaleMethod::Bicubic));
    // No scaler, new dimensions.
    assert!(rescale_change_needed(src, None, small, RescaleMethod::Bilinear));
    // Same dimensions and method.
    assert!(!rescale_change_needed(src, Some((small, RescaleMethod::Bilinear)), small, RescaleMethod::Bilinear));
    // Same dimensions, other method, rescaling happens.
    assert!(rescale_change_needed(src, Some((small, RescaleMethod::Bilinear)), small, RescaleMethod::Bicubic));
    // Same (source) dimensions, other method, no rescaling happens.
    assert!(!rescale_change_needed(src, Some((src, RescaleMethod::Bilinear)), src, RescaleMethod::Bicubic));
}

#[test]
fn scaler_choices() {
    let a = dims(4, 4);
    let b = dims(2, 2);
    assert_eq!(scaling_flags(a, a, RescaleMethod::Bicubic), ScalingFlags::Empty);
    assert_eq!(scaling_flags(a, b, RescaleMethod::NearestNeighbor), ScalingFlags::Point);
    assert_eq!(scaling_flags(a, b, RescaleMethod::Bilinear), ScalingFlags::Bilinear);
    assert_eq!(scaling_flags(a, b, RescaleMethod::Bicubic), ScalingFlags::Bicubic);
    assert!(!scaler_needed(true, a, a));
    assert!(scaler_needed(false, a, a));
    assert!(scaler_needed(true, a, b));
    assert_eq!(last_frame_rescale(a, a, Some(RescaleMethod::Bilinear)), None);
    assert_eq!(last_frame_rescale(a, b, Some(RescaleMethod::Bilinear)), Some(RescaleMethod::Bilinear));
    assert_eq!(last_frame_rescale(a, b, None), Some(RescaleMethod::Bicubic));
}

#[test]
fn decode_loop_skips_to_seek_target() {
    let mut l = DecodeLoop::new();
    l.seeked(2);
    assert!(matches!(l.after_receive::<()>(Received::Frame), DecodeStep::Skip));
    assert!(matches!(l.after_receive::<()>(Received::NeedsInput), DecodeStep::NeedPacket));
    assert_eq!(l.after_packet_search(true), Feed::Packet);
    assert!(matches!(l.after_receive::<()>(Received::Frame), DecodeStep::Skip));
    assert!(matches!(l.after_receive::<()>(Received::Frame), DecodeStep::Deliver));
    assert!(matches!(l.after_receive::<()>(Received::Frame), DecodeStep::Deliver));
    assert_eq!(l.frames_until_target(), 0);
}

#[test]
fn decode_loop_drains_then_ends() {
    let mut l = DecodeLoop::new();
    assert!(matches!(l.after_receive::<()>(Received::NeedsInput), DecodeStep::NeedPacket));
    assert_eq!(l.after_packet_search(false), Feed::EndOfInput);
    assert!(l.draining());
    assert!(matches!(l.after_receive::<()>(Received::Frame), DecodeStep::Deliver));
    assert!(matches!(l.after_receive::<()>(Received::NeedsInput), DecodeStep::EndOfStream));
    assert!(matches!(l.after_receive(Received::Failed(7)), DecodeStep::Failed(7)));
    l.seeked(0);
    assert!(!l.draining());
}

#[test]
fn video_cursor_playing_and_paused() {
    let mut c = VideoCursor::new(3, false);
    assert_eq!(c.write_next(), FrameSource::Decode);
    assert_eq!(c.playhead(), 1);
    c.set_paused(true);
    assert_eq!(c.write_next(), FrameSource::DecodeAndKeep);
    assert_eq!(c.write_next(), FrameSource::CopyLastFrame);
    assert_eq!(c.playhead(), 1);
    c.set_paused(false);
    assert_eq!(c.write_next(), FrameSource::TakeLastFrame);
    assert_eq!(c.write_next(), FrameSource::Decode);
    assert_eq!(c.playhead(), 3);
    assert!(!c.has_last_frame());
}

#[test]
fn video_cursor_seeks() {
    let mut c = VideoCursor::new(100, true);
    assert_eq!(c.seek_playhead(0, None, None), SeekMove::Nothing);
    assert_eq!(c.seek_playhead(1, None, None), SeekMove::Walk(1));
    // Unknown keyframe spacing: 32 frames are assumed between keyframes.
    assert_eq!(c.seek_playhead(33, None, None), SeekMove::Walk(32));
    assert_eq!(c.seek_playhead(70, None, Some(0)), SeekMove::Seek);
    assert_eq!(c.seek_playhead(10, Some(5), None), SeekMove::Seek);
    assert_eq!(c.seek_playhead(100, None, None), SeekMove::Nothing);
    assert_eq!(c.playhead(), 100);
    assert_eq!(c.seek_playhead(98, None, None), SeekMove::Seek);
    assert_eq!(c.write_next(), FrameSource::DecodeAndKeep);
    assert_eq!(c.seek_playhead(99, Some(4), Some(2)), SeekMove::Walk(1));
    assert!(!c.has_last_frame());
}
