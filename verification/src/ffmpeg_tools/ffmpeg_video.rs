//! The decisions of an FFmpeg video: where its next frame comes from, what a
//! seek has the decoder do, and how frames are rescaled; and the data kept
//! about such videos.

pub mod frame_count_cache;
pub mod inner;
pub mod seek_info;
pub mod seeking;

use vstd::prelude::*;

use crate::frame::{Dimensions, RescaleMethod};
use seeking::should_walk_instead_of_seek;

verus! {

/// How the scaler converts frames: only their pixel format, or also their
/// size with one of the rescaling algorithms.
#[derive(Debug, Clone, Copy, PartialEq, Eq)]
pub enum ScalingFlags {
    /// No rescaling (same dimensions).
    Empty,
    /// Nearest-neighbour rescaling.
    Point,
    /// Bilinear rescaling.
    Bilinear,
    /// Bicubic rescaling.
    Bicubic,
}

/// The scaler flags for converting frames of `src_dimensions` to
/// `dest_dimensions` with `rescale_method`.
pub fn scaling_flags(
    src_dimensions: Dimensions,
    dest_dimensions: Dimensions,
    rescale_method: RescaleMethod,
) -> (r: ScalingFlags)
    ensures
        src_dimensions == dest_dimensions ==> r == ScalingFlags::Empty,
        src_dimensions != dest_dimensions ==> r == match rescale_method {
            RescaleMethod::NearestNeighbor => ScalingFlags::Point,
            RescaleMethod::Bilinear => ScalingFlags::Bilinear,
            RescaleMethod::Bicubic => ScalingFlags::Bicubic,
        },
{
    if src_dimensions == dest_dimensions {
        ScalingFlags::Empty
    } else {
        match rescale_method {
            RescaleMethod::NearestNeighbor => ScalingFlags::Point,
            RescaleMethod::Bilinear => ScalingFlags::Bilinear,
            RescaleMethod::Bicubic => ScalingFlags::Bicubic,
        }
    }
}

/// Whether decoded frames need a scaler at all: not when they already have
/// the target pixel format (`src_is_target_format`) and dimensions.
pub fn scaler_needed(
    src_is_target_format: bool,
    src_dimensions: Dimensions,
    dest_dimensions: Dimensions,
) -> (r: bool)
    ensures
        r == !(src_is_target_format && src_dimensions == dest_dimensions),
{
    !(src_is_target_format && src_dimensions == dest_dimensions)
}

/// How to rescale a kept frame of `last_frame_dimensions` before it is
/// written again, now that frames are produced in `dest_dimensions` (with
/// `rescale_method`, if rescaling is set): [None] when it already fits,
/// otherwise the method set, or bicubic (the best) if none is.
pub fn last_frame_rescale(
    last_frame_dimensions: Dimensions,
    dest_dimensions: Dimensions,
    rescale_method: Option<RescaleMethod>,
) -> (r: Option<RescaleMethod>)
    ensures
        last_frame_dimensions == dest_dimensions ==> r is None,
        last_frame_dimensions != dest_dimensions ==> r == Some(
            match rescale_method {
                Some(m) => m,
                None => RescaleMethod::Bicubic,
            },
        ),
{
    if last_frame_dimensions == dest_dimensions {
        None
    } else {
        match rescale_method {
            Some(m) => Some(m),
            None => Some(RescaleMethod::Bicubic),
        }
    }
}

/// Where the next written frame comes from.
#[derive(Debug, Clone, Copy, PartialEq, Eq)]
pub enum FrameSource {
    /// Hand out the kept frame (it is no longer kept).
    TakeLastFrame,
    /// Decode the next frame.
    Decode,
    /// Write a copy of the kept frame (paused).
    CopyLastFrame,
    /// Decode the next frame and keep a copy of it (paused).
    DecodeAndKeep,
}

/// What a seek has the decoder do.
#[derive(Debug, Clone, Copy, PartialEq, Eq)]
pub enum SeekMove {
    /// Nothing: the playhead is already there, or it moves to the end, after
    /// which no frame is decoded.
    Nothing,
    /// Decode and drop this many frames.
    Walk(usize),
    /// Seek the decoder to the frame.
    Seek,
}

/// The playback position of an FFmpeg video: the index of the next frame to
/// write, the number of frames, whether it is paused (the same frame is
/// written again and again) and whether a decoded frame is kept.
#[derive(Debug)]
pub struct VideoCursor {
    playhead: usize,
    duration: usize,
    paused: bool,
    has_last_frame: bool,
}

impl View for VideoCursor {
    type V = (nat, nat, bool, bool);

    /// The playhead, the duration, whether paused, whether a frame is kept.
    closed spec fn view(&self) -> (nat, nat, bool, bool) {
        (self.playhead as nat, self.duration as nat, self.paused, self.has_last_frame)
    }
}

impl VideoCursor {
    #[verifier::type_invariant]
    spec fn inv(&self) -> bool {
        0 < self.duration && self.playhead <= self.duration
    }

    /// A video of `duration` frames at its start, with no frame kept.
    pub fn new(duration: usize, paused: bool) -> (r: Self)
        requires
            duration > 0,
        ensures
            r@ == (0nat, duration as nat, paused, false),
    {
        VideoCursor { playhead: 0, duration, paused, has_last_frame: false }
    }

    /// The index of the next frame that will be written; never past the
    /// duration.
    pub fn playhead(&self) -> (r: usize)
        ensures
            r == self@.0,
            r <= self@.1,
    {
        proof {
            use_type_invariant(self);
        }
        self.playhead
    }

    /// The number of frames of the video; never 0.
    pub fn duration(&self) -> (r: usize)
        ensures
            r == self@.1,
            r > 0,
    {
        proof {
            use_type_invariant(self);
        }
        self.duration
    }

    /// Whether the video is paused.
    pub fn paused(&self) -> (r: bool)
        ensures
            r == self@.2,
    {
        self.paused
    }

    /// Sets whether the video is paused.
    pub fn set_paused(&mut self, paused: bool)
        ensures
            final(self)@ == (old(self)@.0, old(self)@.1, paused, old(self)@.3),
    {
        proof {
            use_type_invariant(&*self);
        }
        self.paused = paused;
    }

    /// Whether a decoded frame is kept.
    pub fn has_last_frame(&self) -> (r: bool)
        ensures
            r == self@.3,
    {
        self.has_last_frame
    }

    /// Where the next frame comes from, at a playhead before the end. Playing,
    /// the playhead moves on and a kept frame is handed out before any new one
    /// is decoded. Paused, the playhead stays and the same frame is written
    /// again: the kept one, or the next decoded one, which is then kept.
    pub fn write_next(&mut self) -> (r: FrameSource)
        requires
            old(self)@.0 < old(self)@.1,
        ensures
            (final(self)@, r) == next_write(old(self)@),
    {
        if !self.paused {
            self.playhead = self.playhead + 1;
            if self.has_last_frame {
                self.has_last_frame = false;
                FrameSource::TakeLastFrame
            } else {
                FrameSource::Decode
            }
        } else if self.has_last_frame {
            FrameSource::CopyLastFrame
        } else {
            self.has_last_frame = true;
            FrameSource::DecodeAndKeep
        }
    }

    /// Moves the playhead to `new_playhead` (at most the duration; at the
    /// duration no frame may be written). Moving to where it is does nothing;
    /// moving to the end needs no decoding. Otherwise the decoder walks
    /// forward when [should_walk_instead_of_seek] says so (given what is
    /// known of the keyframe spacing) and seeks if not, and the kept frame is
    /// dropped.
    pub fn seek_playhead(
        &mut self,
        new_playhead: usize,
        max_frames_between_keyframes: Option<usize>,
        frames_since_keyframe: Option<usize>,
    ) -> (r: SeekMove)
        requires
            new_playhead <= old(self)@.1,
        ensures
            new_playhead == old(self)@.0 ==> r == SeekMove::Nothing && final(self)@ == old(self)@,
            new_playhead != old(self)@.0 ==> final(self)@ == (
                new_playhead as nat,
                old(self)@.1,
                old(self)@.2,
                false,
            ),
            new_playhead != old(self)@.0 && new_playhead == old(self)@.1 ==> r == SeekMove::Nothing,
            new_playhead != old(self)@.0 && new_playhead < old(self)@.1 ==> r == if old(self)@.0
                <= new_playhead && should_walk(
                old(self)@.0,
                new_playhead as nat,
                max_frames_between_keyframes,
                frames_since_keyframe,
            ) {
                SeekMove::Walk((new_playhead - old(self)@.0) as usize)
            } else {
                SeekMove::Seek
            },
    {
        proof {
            use_type_invariant(&*self);
        }
        if new_playhead == self.playhead {
            return SeekMove::Nothing;
        }
        let r = if new_playhead == self.duration {
            SeekMove::Nothing
        } else if should_walk_instead_of_seek(
            self.playhead,
            new_playhead,
            max_frames_between_keyframes,
            frames_since_keyframe,
        ) {
            SeekMove::Walk(new_playhead - self.playhead)
        } else {
            SeekMove::Seek
        };
        self.playhead = new_playhead;
        self.has_last_frame = false;
        r
    }
}

/// The state after writing a frame from state `s` (playhead, duration,
/// paused, frame kept), and where the frame comes from.
pub open spec fn next_write(s: (nat, nat, bool, bool)) -> ((nat, nat, bool, bool), FrameSource) {
    if !s.2 {
        ((s.0 + 1, s.1, false, false), if s.3 {
            FrameSource::TakeLastFrame
        } else {
            FrameSource::Decode
        })
    } else {
        ((s.0, s.1, true, true), if s.3 {
            FrameSource::CopyLastFrame
        } else {
            FrameSource::DecodeAndKeep
        })
    }
}

/// While paused, the playhead stays and every write after the first repeats
/// the kept frame.
pub proof fn lemma_paused_repeats_frame(s: (nat, nat, bool, bool))
    requires
        s.2,
    ensures
        next_write(s).0.0 == s.0,
        next_write(next_write(s).0).0 == next_write(s).0,
        next_write(next_write(s).0).1 == FrameSource::CopyLastFrame,
{
}

/// While playing, each write moves the playhead one frame on and nothing is
/// kept afterwards.
pub proof fn lemma_playing_advances(s: (nat, nat, bool, bool))
    requires
        !s.2,
    ensures
        next_write(s).0.0 == s.0 + 1,
        !next_write(s).0.3,
        next_write(next_write(s).0).1 == FrameSource::Decode,
{
}

/// What [should_walk_instead_of_seek] decides, for a move forward from
/// `playhead` to `new_playhead`.
pub open spec fn should_walk(
    playhead: nat,
    new_playhead: nat,
    max_frames_between_keyframes: Option<usize>,
    frames_since_keyframe: Option<usize>,
) -> bool {
    let between = match max_frames_between_keyframes {
        Some(n) => n as int,
        None => seeking::DEFAULT_FRAMES_BETWEEN_KEYFRAMES_GUESS as int,
    };
    let since = match frames_since_keyframe {
        Some(n) => n as int,
        None => 0,
    };
    new_playhead - playhead <= 1 || new_playhead - playhead <= if between > since {
        between - since
    } else {
        0
    }
}

} // verus!
