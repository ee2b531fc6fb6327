//! Checks on the frames that FFmpeg decodes before they are used as frame
//! buffers.

use vstd::prelude::*;

use crate::frame::Dimensions;

verus! {

/// Indicates that something went wrong creating a video frame buffer.
#[derive(Debug, Clone, Copy, PartialEq, Eq)]
pub enum VideoStreamError {
    /// The video stream should have an RGBA pixel format.
    NotRGBA,
    /// The video stream shouldn't have dimensions with a 0-length side.
    ZeroLengthSide(u32, u32),
    /// The video stream's frame data has the wrong length.
    WrongBufferLen { expected: usize, actual: usize },
    /// The video stream's frame data isn't aligned to fit 4-byte pixels.
    BadBufferAlignment(usize),
    /// The video stream's frame dimensions cannot change.
    DimensionsChanged { expected: Dimensions, actual: Dimensions },
    /// The video stream has no frame rate.
    NoFrameRate,
    /// Failed to get an input's context.
    NoInputContext,
    /// Failed to find an ideal video stream.
    NoBestVideoStream,
    /// Failed to create a decoder.
    DecoderCreateFailure,
    /// Failed to create a frame scaler.
    ScalerCreateFailure,
    /// Failed to scale (reformat) a frame.
    ScaleFailure,
    /// Failed to decode a frame.
    DecodeFailure,
}

/// The problem with a decoded frame, given whether its format is RGBA, its
/// width and height, the length of its pixel data, and the address of that
/// data modulo the alignment of a pixel (4 bytes), if there is one.
pub open spec fn video_frame_problem(
    is_rgba: bool,
    width: u32,
    height: u32,
    data_len: usize,
    data_misalignment: usize,
) -> Option<VideoStreamError> {
    if !is_rgba {
        Some(VideoStreamError::NotRGBA)
    } else if width * height == 0 {
        Some(VideoStreamError::ZeroLengthSide(width, height))
    } else if data_len != 4 * width * height {
        Some(
            VideoStreamError::WrongBufferLen {
                expected: (4 * width * height) as usize,
                actual: data_len,
            },
        )
    } else if data_misalignment != 0 {
        Some(VideoStreamError::BadBufferAlignment(data_misalignment))
    } else {
        None
    }
}

/// Checks that a decoded frame can be used as a buffer of RGBA pixels: that
/// its format is RGBA, that no side is 0, that its data holds exactly 4 bytes
/// per pixel and that the data is aligned for 4-byte pixels.
pub fn validate_video_frame(
    is_rgba: bool,
    width: u32,
    height: u32,
    data_len: usize,
    data_misalignment: usize,
) -> (r: Result<(), VideoStreamError>)
    requires
        4 * width * height <= usize::MAX,
    ensures
        r is Ok <==> video_frame_problem(is_rgba, width, height, data_len, data_misalignment) is None,
        r matches Err(e) ==> video_frame_problem(is_rgba, width, height, data_len, data_misalignment)
            == Some(e),
{
    if !is_rgba {
        return Err(VideoStreamError::NotRGBA);
    }
    assert(width * height <= 0xffff_ffff * 0xffff_ffff) by (nonlinear_arith)
        requires
            width <= 0xffff_ffff,
            height <= 0xffff_ffff,
    ;
    let area: u64 = width as u64 * height as u64;
    if area == 0 {
        return Err(VideoStreamError::ZeroLengthSide(width, height));
    }
    assert(4 * area == 4 * width * height) by (nonlinear_arith)
        requires
            area == width * height,
    ;
    let expected: usize = (4 * area) as usize;
    if data_len != expected {
        return Err(VideoStreamError::WrongBufferLen { expected, actual: data_len });
    }
    if data_misalignment != 0 {
        return Err(VideoStreamError::BadBufferAlignment(data_misalignment));
    }
    Ok(())
}

} // verus!
