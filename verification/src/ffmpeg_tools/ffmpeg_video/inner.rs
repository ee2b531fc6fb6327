//! The decisions of an FFmpeg video decoder: which stream format it can
//! decode and to what, when its scaler must be replaced, what to do with each
//! answer of the decoder (skip frames after a seek, deliver a frame, feed it
//! more input, or stop), and stats about the frames it decodes.

use vstd::prelude::*;

use crate::ffmpeg_tools::rational::fps_from_rational;
use crate::fps::{reduced_den, reduced_num, Fps};
use crate::frame::{Dimensions, RescaleMethod};

verus! {

/// Whether a decoded frame is a keyframe, and its timestamp.
#[derive(Debug, Clone, Copy)]
pub struct FrameStats {
    is_keyframe: bool,
    timestamp: i64,
}

impl View for FrameStats {
    type V = (bool, i64);

    /// The keyframe flag and the timestamp.
    closed spec fn view(&self) -> (bool, i64) {
        (self.is_keyframe, self.timestamp)
    }
}

impl FrameStats {
    /// Create [FrameStats] from what a decoded frame reports: whether it is a
    /// keyframe and its timestamp. `None` where the frame has no timestamp (a
    /// format this crate does not support).
    pub fn from_frame(is_keyframe: bool, timestamp: Option<i64>) -> (r: Option<Self>)
        ensures
            r is Some <==> timestamp is Some,
            r matches Some(s) ==> s@ == (is_keyframe, timestamp->0),
    {
        match timestamp {
            Some(timestamp) => Some(FrameStats { is_keyframe, timestamp }),
            None => None,
        }
    }

    /// Whether the frame is a keyframe.
    pub fn is_keyframe(&self) -> (r: bool)
        ensures
            r == self@.0,
    {
        self.is_keyframe
    }

    /// The frame's timestamp.
    pub fn timestamp(&self) -> (r: i64)
        ensures
            r == self@.1,
    {
        self.timestamp
    }
}

/// What a decoder can decode a video stream to.
#[derive(Debug, Clone, Copy, PartialEq, Eq)]
pub struct StreamFormat {
    /// The stream's own frame rate.
    pub src_fps: Fps,
    /// The stream's own frame dimensions.
    pub src_dimensions: Dimensions,
    /// The dimensions frames are produced in.
    pub dest_dimensions: Dimensions,
    /// How frames are rescaled to [Self::dest_dimensions].
    pub rescale_method: RescaleMethod,
}

/// The format of a stream whose average frame rate is the fraction
/// `avg_frame_rate` and whose frames are `width` by `height`, produced as
/// `rescale` says (in the stream's own dimensions, rescaled bilinearly, when
/// [None]). [None] when the format is unsupported: the frames are not evenly
/// spaced (`constant_frame_spacing` is `false`: the average rate is not the
/// stream's rate), the rate is not positive, or a side is 0.
pub fn stream_format(
    constant_frame_spacing: bool,
    avg_frame_rate: (i32, i32),
    width: u32,
    height: u32,
    rescale: Option<(Dimensions, RescaleMethod)>,
) -> (r: Option<StreamFormat>)
    ensures
        r is Some <==> constant_frame_spacing && avg_frame_rate.0 > 0 && avg_frame_rate.1 > 0
            && width > 0 && height > 0,
        r matches Some(f) ==> {
            &&& f.src_fps.numer() == reduced_num(avg_frame_rate.0 as nat, avg_frame_rate.1 as nat)
            &&& f.src_fps.denom() == reduced_den(avg_frame_rate.0 as nat, avg_frame_rate.1 as nat)
            &&& f.src_dimensions@ == (width as nat, height as nat)
            &&& match rescale {
                Some((d, m)) => f.dest_dimensions == d && f.rescale_method == m,
                None => f.dest_dimensions == f.src_dimensions && f.rescale_method
                    == RescaleMethod::Bilinear,
            }
        },
{
    if !constant_frame_spacing {
        return None;
    }
    let src_fps = match fps_from_rational(avg_frame_rate.0, avg_frame_rate.1) {
        Ok(fps) => fps,
        Err(_) => return None,
    };
    let src_dimensions = match Dimensions::new(width as usize, height as usize) {
        Some(d) => d,
        None => return None,
    };
    let (dest_dimensions, rescale_method) = match rescale {
        Some(r) => r,
        None => (src_dimensions, RescaleMethod::default()),
    };
    Some(StreamFormat { src_fps, src_dimensions, dest_dimensions, rescale_method })
}

/// Whether a decoder producing frames of `src_dimensions` must replace its
/// scaler (`current`: the dimensions and method of the one it has, if any) to
/// produce `new_dest_dimensions` with `new_rescale_method`. It need not when
/// the dimensions stay and either the method stays or no rescaling happens.
pub fn rescale_change_needed(
    src_dimensions: Dimensions,
    current: Option<(Dimensions, RescaleMethod)>,
    new_dest_dimensions: Dimensions,
    new_rescale_method: RescaleMethod,
) -> (r: bool)
    ensures
        ({
            let old_dest = match current {
                Some((d, _)) => d,
                None => src_dimensions,
            };
            let same_method = current matches Some((_, m)) && m == new_rescale_method;
            r == !(new_dest_dimensions == old_dest && (same_method || src_dimensions == old_dest))
        }),
{
    let (old_dest, same_method) = match current {
        Some((d, m)) => (d, m == new_rescale_method),
        None => (src_dimensions, false),
    };
    let same_dest = new_dest_dimensions == old_dest;
    let rescale_needed = src_dimensions != old_dest;
    !(same_dest && (same_method || !rescale_needed))
}

/// What a decoder answered when asked for its next frame.
#[derive(Debug, Clone, Copy)]
pub enum Received<E> {
    /// A frame was decoded.
    Frame,
    /// The decoder needs more input before it can give a frame.
    NeedsInput,
    /// Decoding failed.
    Failed(E),
}

/// What to do after asking the decoder for a frame.
#[derive(Debug, Clone, Copy)]
pub enum DecodeStep<E> {
    /// The frame comes before the one seeked to: drop it and ask again.
    Skip,
    /// The frame is the next one: read its stats and return it (rescaled if
    /// a scaler is set).
    Deliver,
    /// Find the stream's next packet (see [DecodeLoop::after_packet_search]),
    /// then ask again.
    NeedPacket,
    /// The decoder is drained: the stream is over.
    EndOfStream,
    /// The decoder failed.
    Failed(E),
}

/// What to give the decoder after looking for the stream's next packet.
#[derive(Debug, Clone, Copy, PartialEq, Eq)]
pub enum Feed {
    /// Send it the packet that was found.
    Packet,
    /// There are no packets left: tell it the input is over, so that it gives
    /// out the frames it still holds.
    EndOfInput,
}

/// The state of a decoding loop: how many decoded frames are still to be
/// skipped to reach the frame seeked to, and whether the input is over.
#[derive(Debug)]
pub struct DecodeLoop {
    frames_until_target: usize,
    draining: bool,
}

impl View for DecodeLoop {
    type V = (nat, bool);

    /// The frames still to skip and whether the decoder is being drained.
    closed spec fn view(&self) -> (nat, bool) {
        (self.frames_until_target as nat, self.draining)
    }
}

/// The state after the decoder gave a frame, and whether it is delivered.
pub open spec fn on_frame(s: (nat, bool)) -> ((nat, bool), bool) {
    if s.0 > 0 {
        (((s.0 - 1) as nat, s.1), false)
    } else {
        (s, true)
    }
}

/// How many frames the decoder gives, from state `s`, up to and including
/// the first one delivered.
pub open spec fn frames_to_delivery(s: (nat, bool)) -> nat
    decreases s.0,
{
    if on_frame(s).1 {
        1
    } else {
        1 + frames_to_delivery(on_frame(s).0)
    }
}

impl DecodeLoop {
    /// A loop at the start of a stream: nothing to skip, input not over.
    pub fn new() -> (r: Self)
        ensures
            r@ == (0nat, false),
    {
        DecodeLoop { frames_until_target: 0, draining: false }
    }

    /// The state after a seek to a keyframe `frames_until_target` frames
    /// before the frame wanted.
    pub fn seeked(&mut self, frames_until_target: usize)
        ensures
            final(self)@ == (frames_until_target as nat, false),
    {
        self.frames_until_target = frames_until_target;
        self.draining = false;
    }

    /// The frames still to skip.
    pub fn frames_until_target(&self) -> (r: usize)
        ensures
            r == self@.0,
    {
        self.frames_until_target
    }

    /// Whether the decoder is being drained.
    pub fn draining(&self) -> (r: bool)
        ensures
            r == self@.1,
    {
        self.draining
    }

    /// What to do with the decoder's answer: a frame is skipped while frames
    /// remain to be skipped and delivered otherwise; a decoder that needs
    /// input gets the next packet, unless it is being drained, when the
    /// stream is over; a failure is passed on.
    pub fn after_receive<E>(&mut self, received: Received<E>) -> (r: DecodeStep<E>)
        ensures
            match received {
                Received::Frame => {
                    &&& final(self)@ == on_frame(old(self)@).0
                    &&& if on_frame(old(self)@).1 {
                        r is Deliver
                    } else {
                        r is Skip
                    }
                },
                Received::NeedsInput => {
                    &&& final(self)@ == old(self)@
                    &&& if old(self)@.1 {
                        r is EndOfStream
                    } else {
                        r is NeedPacket
                    }
                },
                Received::Failed(e) => final(self)@ == old(self)@ && r == DecodeStep::Failed(e),
            },
    {
        match received {
            Received::Frame => {
                if self.frames_until_target > 0 {
                    self.frames_until_target = self.frames_until_target - 1;
                    DecodeStep::Skip
                } else {
                    DecodeStep::Deliver
                }
            },
            Received::NeedsInput => {
                if self.draining {
                    DecodeStep::EndOfStream
                } else {
                    DecodeStep::NeedPacket
                }
            },
            Received::Failed(e) => DecodeStep::Failed(e),
        }
    }

    /// What to give the decoder after looking for the next packet of the
    /// stream: the packet if one was `found`; otherwise the end of the input,
    /// and the decoder is drained from then on.
    pub fn after_packet_search(&mut self, found: bool) -> (r: Feed)
        ensures
            found ==> r == Feed::Packet && final(self)@ == old(self)@,
            !found ==> r == Feed::EndOfInput && final(self)@ == (old(self)@.0, true),
    {
        if found {
            Feed::Packet
        } else {
            self.draining = true;
            Feed::EndOfInput
        }
    }
}

/// After a seek to the keyframe at frame `keyframe_idx`, with
/// `frames_until_target` set to `new_playhead - keyframe_idx`, the first frame
/// the loop delivers is the frame at `new_playhead`: every frame before it is
/// skipped.
pub proof fn lemma_seek_delivers_target(keyframe_idx: nat, new_playhead: nat, draining: bool)
    requires
        keyframe_idx <= new_playhead,
    ensures
        keyframe_idx + frames_to_delivery(((new_playhead - keyframe_idx) as nat, draining)) - 1
            == new_playhead,
    decreases new_playhead - keyframe_idx,
{
    if keyframe_idx < new_playhead {
        lemma_seek_delivers_target(keyframe_idx + 1, new_playhead, draining);
        assert(on_frame(((new_playhead - keyframe_idx) as nat, draining)).0 == (
            (new_playhead - (keyframe_idx + 1)) as nat,
            draining,
        ));
    }
}

} // verus!
