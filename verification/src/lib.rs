//! Frame rates, frame buffers, MIDI packets, the video seek-cache format and
//! the data behind the node editor.

pub mod arith;
pub mod engine;
pub mod ffmpeg_tools;
pub mod fps;
pub mod frame;
pub mod launcher;
pub mod midi;
pub mod noise;
pub mod time;
pub mod ui;
pub mod video_player;

