//! Everything that has to do with frames: their [Dimensions], [Pixel]s and
//! the [Frame] buffer itself.

pub mod buffer;
pub mod producer;
pub mod streams;

pub use buffer::prelude::{Dimensions, Pixel, Uid};
pub use buffer::{
    get_pixel_clamped, BasicFrame, DifferentDimensionsError, Frame, FrameBuffer, RescaleMethod,
    TryFromSliceError,
};
