//! Defines [StillFrame], a stream that just outputs the same [Frame]
//! indefinitely.

use vstd::prelude::*;

use crate::frame::{Frame, Uid};

verus! {

/// A stream that just outputs a single frame forever.
pub struct StillFrame(Frame);

impl StillFrame {
    /// The frame the stream repeats.
    pub closed spec fn frame(&self) -> Frame {
        self.0
    }

    /// Create a still frame stream from the provided `frame`.
    pub fn new(frame: Frame) -> (r: Self)
        ensures
            r.frame() == frame,
    {
        Self(frame)
    }

    /// Going back to the start of the stream always succeeds (there is
    /// nothing to rewind).
    pub fn start_over(&mut self) -> (r: Result<(), ()>)
        ensures
            r is Ok,
            final(self).frame() == old(self).frame(),
    {
        Ok(())
    }

    /// Write the next frame of the stream into `frame`, which must have the
    /// stream's dimensions; its pixels become the repeated frame's.
    pub fn write_next_frame(&mut self, frame: Frame) -> (r: Frame)
        requires
            frame.dims() == old(self).frame().dims(),
        ensures
            r.dims() == frame.dims(),
            r.id() == frame.id(),
            r.pixel_seq() == old(self).frame().pixel_seq(),
            final(self).frame() == old(self).frame(),
    {
        let mut frame = frame;
        // The dimensions match, so filling cannot fail.
        let filled = frame.fill_from_frame(&self.0);
        assert(filled is Ok);
        frame
    }

    /// A new frame with the repeated frame's dimensions and pixels,
    /// identified by `uid`.
    pub fn create_next_frame(&mut self, uid: Uid) -> (r: Frame)
        ensures
            r.dims() == old(self).frame().dims(),
            r.pixel_seq() == old(self).frame().pixel_seq(),
            r.id() == uid,
            final(self).frame() == old(self).frame(),
    {
        self.0.clone_with_uid(uid)
    }

    /// The dimensions of the frames the stream produces.
    pub fn dimensions(&self) -> (r: crate::frame::Dimensions)
        ensures
            r == self.frame().dims(),
    {
        self.0.dimensions()
    }
}

} // verus!
