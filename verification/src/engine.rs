//! Frames handed to the renderer.

use std::sync::Arc;

use vstd::prelude::*;

verus! {

/// An RGBA video frame as the renderer receives it.
#[derive(Clone)]
pub struct RgbaFrame {
    /// The width in pixels.
    pub width: u32,
    /// The height in pixels.
    pub height: u32,
    /// Bytes per row; rows may be padded to a 256-byte alignment.
    pub bpr: u32,
    /// Pixel bytes, `bpr * height` of them.
    pub data: Arc<[u8]>,
    /// The presentation timestamp in nanoseconds, if known.
    pub pts_ns: Option<u64>,
}

} // verus!
