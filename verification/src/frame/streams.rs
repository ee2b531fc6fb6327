//! Streams of frames: configuration of video streams and a stream that
//! repeats a single frame.

pub mod ffmpeg_tools;
pub mod still_frame;
pub mod video_frame_stream;
