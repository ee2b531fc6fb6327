//! Logic behind FFmpeg-backed videos that does not need FFmpeg itself: the
//! on-disk seek-info cache format, per-frame stats, the frame-count cache,
//! the decisions of the decoding loop and frame-rate fractions.

pub mod ffmpeg_video;
pub mod rational;
