//! What to do when a stream of frames ends, the check that such a rule suits
//! the stream it is given for, and the decisions a producer makes while it
//! fetches frames from its stream: when the stream has ended, which frames to
//! keep for later, and what replaces the stream at its end; and, on the side
//! that hands the frames out, when to signal the fetching side, which frames
//! are accepted and which may be recycled.

use std::time::Duration;

use vstd::prelude::*;

use super::buffer::prelude::{Dimensions, Uid};
use super::buffer::Frame;

verus! {

/// What a producer of frames should do when its stream ends.
///
/// - [HoldLastFrame](OnStreamEnd::HoldLastFrame) and [Loop](OnStreamEnd::Loop)
///   are invalid options for streams without a known length.
/// - The [Dimensions] of the [Frame] provided with
///   [HoldFrame](OnStreamEnd::HoldFrame) must match the [Dimensions] of the
///   stream.
#[derive(Debug, PartialEq, Eq)]
pub enum OnStreamEnd {
    /// The last frame that was produced will be repeated forever. If the stream
    /// produces no frames it will produce completely black frames.
    HoldLastFrame,
    /// The first frame that was produced will be repeated forever. If the
    /// stream produces no frames it will produce completely black frames.
    HoldFirstFrame,
    /// Repeat some arbitrary frame forever.
    HoldFrame(Frame),
    /// The stream will produce completely black frames.
    HoldSolidBlack,
    /// The stream will loop from the beginning. If the stream produces no
    /// frames it will produce completely black frames.
    Loop,
    /// Report that the stream ended unexpectedly.
    Error,
    /// The stream is not supposed to end.
    Unreachable,
}

/// The default is [HoldSolidBlack](OnStreamEnd::HoldSolidBlack).
impl Default for OnStreamEnd {
    fn default() -> (r: Self)
        ensures
            r == OnStreamEnd::HoldSolidBlack,
    {
        OnStreamEnd::HoldSolidBlack
    }
}

/// Indicates that something was wrong with an [OnStreamEnd] configuration.
#[derive(Debug, Clone, Copy, PartialEq, Eq, Hash)]
pub enum OnStreamEndError {
    /// `HoldLastFrame` is invalid for streams without a known length.
    HoldLastFrameWithoutKnownLength,
    /// `Loop` is invalid for streams without a known length.
    LoopWithoutKnownLength,
    /// The hold frame must have the same dimensions as the stream.
    InvalidHoldFrameDimensions { expected: Dimensions, actual: Dimensions },
}

/// The problem with using `on_stream_end` for a stream of the given length
/// (if known) and dimensions, if there is one.
pub open spec fn on_stream_end_problem(
    on_stream_end: OnStreamEnd,
    stream_length: Option<usize>,
    stream_dimensions: Dimensions,
) -> Option<OnStreamEndError> {
    match on_stream_end {
        OnStreamEnd::HoldLastFrame => if stream_length is None {
            Some(OnStreamEndError::HoldLastFrameWithoutKnownLength)
        } else {
            None
        },
        OnStreamEnd::Loop => if stream_length is None {
            Some(OnStreamEndError::LoopWithoutKnownLength)
        } else {
            None
        },
        OnStreamEnd::HoldFrame(frame) => if frame.dims() != stream_dimensions {
            Some(
                OnStreamEndError::InvalidHoldFrameDimensions {
                    expected: stream_dimensions,
                    actual: frame.dims(),
                },
            )
        } else {
            None
        },
        _ => None,
    }
}

/// Checks that `on_stream_end` is a valid rule for a stream with the given
/// length (if known) and frame dimensions.
pub fn validate_on_stream_end(
    on_stream_end: &OnStreamEnd,
    stream_length: Option<usize>,
    stream_dimensions: Dimensions,
) -> (r: Result<(), OnStreamEndError>)
    ensures
        r is Ok <==> on_stream_end_problem(*on_stream_end, stream_length, stream_dimensions) is None,
        r matches Err(e) ==> on_stream_end_problem(*on_stream_end, stream_length, stream_dimensions)
            == Some(e),
{
    match on_stream_end {
        OnStreamEnd::HoldLastFrame => {
            if stream_length.is_none() {
                return Err(OnStreamEndError::HoldLastFrameWithoutKnownLength);
            }
        },
        OnStreamEnd::Loop => {
            if stream_length.is_none() {
                return Err(OnStreamEndError::LoopWithoutKnownLength);
            }
        },
        OnStreamEnd::HoldFrame(frame) => {
            let actual = frame.dimensions();
            if actual != stream_dimensions {
                return Err(
                    OnStreamEndError::InvalidHoldFrameDimensions {
                        expected: stream_dimensions,
                        actual,
                    },
                );
            }
        },
        _ => {},
    }
    Ok(())
}

/// An unrecoverable error from a producer of frames, whose stream fails with
/// errors of type `E`.
#[derive(Debug)]
pub enum ProducerError<E> {
    /// The stream ended unexpectedly.
    UnexpectedStreamEnd,
    /// The stream was supposed to end but didn't.
    Timeout { timeout: Duration },
    /// The stream failed unexpectedly.
    StreamError(E),
    /// A frame had other dimensions than the stream's.
    UnexpectedDimensions { expected: Dimensions, actual: Dimensions },
    /// The rule for the end of the stream is invalid.
    InvalidOnStreamEnd(OnStreamEndError),
    /// The producer is permanently stuck in an error state.
    PermanentErrorState,
}

/// What a producer keeps for the end of its stream.
#[derive(Debug)]
pub enum StreamEndState {
    /// The last frame of the stream, once fetched.
    HoldLastFrame(Option<Frame>),
    /// The first frame of the stream, once fetched.
    HoldFirstFrame(Option<Frame>),
    /// The frame to hold (taken when the stream ends).
    HoldFrame(Option<Frame>),
    HoldSolidBlack,
    Loop,
    Error,
    /// The stream cannot end (again).
    Unreachable,
}

/// The state a producer starts in for a rule.
pub open spec fn initial_end_state(on_stream_end: OnStreamEnd) -> StreamEndState {
    match on_stream_end {
        OnStreamEnd::HoldLastFrame => StreamEndState::HoldLastFrame(None),
        OnStreamEnd::HoldFirstFrame => StreamEndState::HoldFirstFrame(None),
        OnStreamEnd::HoldFrame(frame) => StreamEndState::HoldFrame(Some(frame)),
        OnStreamEnd::HoldSolidBlack => StreamEndState::HoldSolidBlack,
        OnStreamEnd::Loop => StreamEndState::Loop,
        OnStreamEnd::Error => StreamEndState::Error,
        OnStreamEnd::Unreachable => StreamEndState::Unreachable,
    }
}

/// Whether a fetcher keeping `state` for the end of its stream asks to keep
/// the frame that brings its count to `count`, in a stream of
/// `stream_length` frames (if known): the last frame of a stream of known
/// length for the last-frame rule, the first frame for the first-frame rule,
/// and no frame for any other rule.
pub open spec fn asks_to_keep(state: StreamEndState, stream_length: Option<usize>, count: nat) -> bool {
    match state {
        StreamEndState::HoldLastFrame(_) => stream_length matches Some(n) && n == count,
        StreamEndState::HoldFirstFrame(f) => f is None,
        _ => false,
    }
}

/// What replaces a stream at its end for a fetcher keeping `state` (none for
/// a stream that cannot end).
pub open spec fn end_action(state: StreamEndState) -> Option<EndAction> {
    match state {
        StreamEndState::HoldLastFrame(f) | StreamEndState::HoldFirstFrame(f) => Some(
            match f {
                Some(frame) => EndAction::HoldFrame(frame),
                None => EndAction::HoldSolidBlack,
            },
        ),
        StreamEndState::HoldFrame(f) => match f {
            Some(frame) => Some(EndAction::HoldFrame(frame)),
            None => None,
        },
        StreamEndState::HoldSolidBlack => Some(EndAction::HoldSolidBlack),
        StreamEndState::Loop => Some(EndAction::StartOver),
        StreamEndState::Error => Some(EndAction::Error),
        StreamEndState::Unreachable => None,
    }
}

/// What replaces a stream that ended.
#[derive(Debug)]
pub enum EndAction {
    /// Repeat this frame forever.
    HoldFrame(Frame),
    /// Repeat a completely black frame of the stream's dimensions forever.
    HoldSolidBlack,
    /// Start the stream over from its beginning.
    StartOver,
    /// Report [ProducerError::UnexpectedStreamEnd].
    Error,
}

/// The next thing a producer does to get a frame.
#[derive(Debug)]
pub enum FetchStep {
    /// Get the next frame from the stream.
    GetFrame,
    /// The stream is over; replace it as said, then get a frame.
    StreamEnded(EndAction),
}

/// The decisions of a producer that fetches frames from a stream: it counts
/// the frames, keeps what its [OnStreamEnd] rule needs, and says what to do
/// when the stream is over.
#[derive(Debug)]
pub struct FrameFetcher {
    frames_fetched: usize,
    stream_end_state: StreamEndState,
}

impl FrameFetcher {
    /// The number of frames fetched from the current stream.
    pub closed spec fn fetched(&self) -> nat {
        self.frames_fetched as nat
    }

    /// What the fetcher keeps for the end of the stream.
    pub closed spec fn end_state(&self) -> StreamEndState {
        self.stream_end_state
    }

    /// A fetcher that has fetched nothing, following `on_stream_end`.
    pub fn new(on_stream_end: OnStreamEnd) -> (r: Self)
        ensures
            r.fetched() == 0,
            r.end_state() == initial_end_state(on_stream_end),
    {
        let stream_end_state = match on_stream_end {
            OnStreamEnd::HoldLastFrame => StreamEndState::HoldLastFrame(None),
            OnStreamEnd::HoldFirstFrame => StreamEndState::HoldFirstFrame(None),
            OnStreamEnd::HoldFrame(frame) => StreamEndState::HoldFrame(Some(frame)),
            OnStreamEnd::HoldSolidBlack => StreamEndState::HoldSolidBlack,
            OnStreamEnd::Loop => StreamEndState::Loop,
            OnStreamEnd::Error => StreamEndState::Error,
            OnStreamEnd::Unreachable => StreamEndState::Unreachable,
        };
        FrameFetcher { frames_fetched: 0, stream_end_state }
    }

    /// Whether the stream, of `stream_length` frames if known, is over.
    pub fn stream_is_over(&self, stream_length: Option<usize>) -> (r: bool)
        ensures
            r == (stream_length matches Some(n) && self.fetched() == n),
    {
        match stream_length {
            Some(n) => self.frames_fetched == n,
            None => false,
        }
    }

    /// What to do next to get a frame from a stream of `stream_length`
    /// frames (if known). At the stream's end the rule decides: a held frame
    /// (or solid black when none was kept) replaces the stream, which can
    /// then not end again, and the count restarts; a looping stream is to
    /// start over (the count restarts once it did, see [Self::started_over]);
    /// otherwise the end is an error, again at every later step.
    pub fn next_step(&mut self, stream_length: Option<usize>) -> (r: FetchStep)
        requires
            (stream_length matches Some(n) && old(self).fetched() == n) ==> {
                &&& !(old(self).end_state() is Unreachable)
                &&& old(self).end_state() matches StreamEndState::HoldFrame(f) ==> f is Some
            },
        ensures
            !(stream_length matches Some(n) && old(self).fetched() == n) ==> {
                &&& r is GetFrame
                &&& final(self).fetched() == old(self).fetched()
                &&& final(self).end_state() == old(self).end_state()
            },
            (stream_length matches Some(n) && old(self).fetched() == n) ==> (end_action(
                old(self).end_state(),
            ) matches Some(a) && r == FetchStep::StreamEnded(a)),
            (stream_length matches Some(n) && old(self).fetched() == n) ==> {
                &&& r is StreamEnded
                &&& match old(self).end_state() {
                    StreamEndState::HoldLastFrame(f) | StreamEndState::HoldFirstFrame(f) => {
                        &&& final(self).fetched() == 0
                        &&& final(self).end_state() is Unreachable
                        &&& match f {
                            Some(frame) => r == FetchStep::StreamEnded(EndAction::HoldFrame(frame)),
                            None => r == FetchStep::StreamEnded(EndAction::HoldSolidBlack),
                        }
                    },
                    StreamEndState::HoldFrame(f) => {
                        &&& final(self).fetched() == 0
                        &&& final(self).end_state() is Unreachable
                        &&& r == FetchStep::StreamEnded(EndAction::HoldFrame(f->0))
                    },
                    StreamEndState::HoldSolidBlack => {
                        &&& final(self).fetched() == 0
                        &&& final(self).end_state() is Unreachable
                        &&& r == FetchStep::StreamEnded(EndAction::HoldSolidBlack)
                    },
                    StreamEndState::Loop => {
                        &&& final(self).fetched() == old(self).fetched()
                        &&& final(self).end_state() is Loop
                        &&& r == FetchStep::StreamEnded(EndAction::StartOver)
                    },
                    StreamEndState::Error => {
                        &&& final(self).end_state() is Error
                        &&& final(self).fetched() == old(self).fetched()
                        &&& r == FetchStep::StreamEnded(EndAction::Error)
                    },
                    StreamEndState::Unreachable => false,
                }
            },
    {
        if !self.stream_is_over(stream_length) {
            return FetchStep::GetFrame;
        }
        let mut state = StreamEndState::Unreachable;
        std::mem::swap(&mut state, &mut self.stream_end_state);
        let fetched = self.frames_fetched;
        self.frames_fetched = 0;
        match state {
            StreamEndState::HoldLastFrame(f) | StreamEndState::HoldFirstFrame(f) => match f {
                Some(frame) => FetchStep::StreamEnded(EndAction::HoldFrame(frame)),
                None => FetchStep::StreamEnded(EndAction::HoldSolidBlack),
            },
            StreamEndState::HoldFrame(f) => match f {
                Some(frame) => FetchStep::StreamEnded(EndAction::HoldFrame(frame)),
                None => {
                    assert(false);
                    FetchStep::StreamEnded(EndAction::HoldSolidBlack)
                },
            },
            StreamEndState::HoldSolidBlack => FetchStep::StreamEnded(EndAction::HoldSolidBlack),
            StreamEndState::Loop => {
                self.stream_end_state = StreamEndState::Loop;
                self.frames_fetched = fetched;
                FetchStep::StreamEnded(EndAction::StartOver)
            },
            StreamEndState::Error => {
                self.stream_end_state = StreamEndState::Error;
                self.frames_fetched = fetched;
                FetchStep::StreamEnded(EndAction::Error)
            },
            StreamEndState::Unreachable => {
                assert(false);
                FetchStep::GetFrame
            },
        }
    }

    /// Restarts the count once the stream started over from its beginning.
    pub fn started_over(&mut self)
        ensures
            final(self).fetched() == 0,
            final(self).end_state() == old(self).end_state(),
    {
        self.frames_fetched = 0;
    }

    /// Records a frame the stream produced with `frame_dimensions`, for a
    /// stream of `stream_dimensions` and `stream_length` frames (if known).
    /// A frame of other dimensions is an error and is not counted. Otherwise
    /// it is counted, and the result says whether the rule wants a copy of
    /// it kept (see [Self::keep_frame]): the last frame of a stream of known
    /// length, or the first frame.
    pub fn frame_fetched<E>(
        &mut self,
        frame_dimensions: Dimensions,
        stream_dimensions: Dimensions,
        stream_length: Option<usize>,
    ) -> (r: Result<bool, ProducerError<E>>)
        requires
            old(self).fetched() < usize::MAX,
        ensures
            frame_dimensions != stream_dimensions ==> {
                &&& r matches Err(ProducerError::UnexpectedDimensions { expected, actual }) && expected
                    == stream_dimensions && actual == frame_dimensions
                &&& final(self).fetched() == old(self).fetched()
            },
            frame_dimensions == stream_dimensions ==> r == Ok::<bool, ProducerError<E>>(
                asks_to_keep(old(self).end_state(), stream_length, old(self).fetched() + 1),
            ),
            frame_dimensions == stream_dimensions ==> {
                &&& final(self).fetched() == old(self).fetched() + 1
                &&& r == Ok::<bool, ProducerError<E>>(
                    match old(self).end_state() {
                        StreamEndState::HoldLastFrame(_) => stream_length matches Some(n) && n
                            == old(self).fetched() + 1,
                        StreamEndState::HoldFirstFrame(f) => f is None,
                        _ => false,
                    },
                )
            },
            final(self).end_state() == old(self).end_state(),
    {
        if frame_dimensions != stream_dimensions {
            return Err(
                ProducerError::UnexpectedDimensions {
                    expected: stream_dimensions,
                    actual: frame_dimensions,
                },
            );
        }
        self.frames_fetched = self.frames_fetched + 1;
        let keep = match &self.stream_end_state {
            StreamEndState::HoldLastFrame(_) => match stream_length {
                Some(n) => self.frames_fetched == n,
                None => false,
            },
            StreamEndState::HoldFirstFrame(f) => f.is_none(),
            _ => false,
        };
        Ok(keep)
    }

    /// Keeps a copy of a fetched frame for the end of the stream (after
    /// [Self::frame_fetched] asked for one).
    pub fn keep_frame(&mut self, frame: Frame)
        ensures
            final(self).fetched() == old(self).fetched(),
            old(self).end_state() is HoldLastFrame ==> final(self).end_state()
                == StreamEndState::HoldLastFrame(Some(frame)),
            old(self).end_state() is HoldFirstFrame ==> final(self).end_state()
                == StreamEndState::HoldFirstFrame(Some(frame)),
            !(old(self).end_state() is HoldLastFrame) && !(old(self).end_state() is HoldFirstFrame)
                ==> final(self).end_state() == old(self).end_state(),
    {
        match &mut self.stream_end_state {
            StreamEndState::HoldLastFrame(slot) => {
                *slot = Some(frame);
            },
            StreamEndState::HoldFirstFrame(slot) => {
                *slot = Some(frame);
            },
            _ => {},
        }
    }
}

/// The state of the side of a producer that hands out the frames fetched for
/// it: the identifier of the last frame handed out, and whether the last wait
/// for a frame timed out.
#[derive(Debug)]
pub struct HandOut {
    last_frame_uid: Option<Uid>,
    last_fetch_timed_out: bool,
}

impl View for HandOut {
    type V = (Option<Uid>, bool);

    /// The last frame handed out and whether the last wait timed out.
    closed spec fn view(&self) -> (Option<Uid>, bool) {
        (self.last_frame_uid, self.last_fetch_timed_out)
    }
}

impl HandOut {
    /// Nothing handed out yet.
    pub fn new() -> (r: Self)
        ensures
            r@ == (None::<Uid>, false),
    {
        HandOut { last_frame_uid: None, last_fetch_timed_out: false }
    }

    /// Whether to tell the fetching side that a frame is being taken: not
    /// after a wait that timed out, which already did.
    pub fn signal_fetch(&self) -> (r: bool)
        ensures
            r == !self@.1,
    {
        !self.last_fetch_timed_out
    }

    /// The wait for a frame timed out after `timeout`.
    pub fn timed_out<E>(&mut self, timeout: Duration) -> (r: ProducerError<E>)
        ensures
            r == (ProducerError::<E>::Timeout { timeout }),
            final(self)@ == (old(self)@.0, true),
    {
        self.last_fetch_timed_out = true;
        ProducerError::Timeout { timeout }
    }

    /// The fetching side reported an error instead of a frame.
    pub fn fetch_failed<E>(&mut self, error: ProducerError<E>) -> (r: ProducerError<E>)
        ensures
            r == error,
            final(self)@ == (old(self)@.0, false),
    {
        self.last_fetch_timed_out = false;
        error
    }

    /// A frame of `frame_dimensions` identified by `frame_uid` arrived for a
    /// stream of `stream_dimensions`. It is handed out if the dimensions
    /// match, and then is the last frame handed out.
    pub fn frame_received<E>(
        &mut self,
        frame_dimensions: Dimensions,
        frame_uid: Uid,
        stream_dimensions: Dimensions,
    ) -> (r: Result<(), ProducerError<E>>)
        ensures
            frame_dimensions == stream_dimensions ==> r is Ok && final(self)@ == (
                Some(frame_uid),
                false,
            ),
            frame_dimensions != stream_dimensions ==> {
                &&& r matches Err(ProducerError::UnexpectedDimensions { expected, actual })
                    && expected == stream_dimensions && actual == frame_dimensions
                &&& final(self)@ == (old(self)@.0, false)
            },
    {
        self.last_fetch_timed_out = false;
        if frame_dimensions != stream_dimensions {
            return Err(
                ProducerError::UnexpectedDimensions {
                    expected: stream_dimensions,
                    actual: frame_dimensions,
                },
            );
        }
        self.last_frame_uid = Some(frame_uid);
        Ok(())
    }

    /// Whether the frame identified by `uid` may be recycled: only the last
    /// frame handed out may.
    pub fn may_recycle(&self, uid: Uid) -> (r: bool)
        ensures
            r == (self@.0 == Some(uid)),
    {
        match self.last_frame_uid {
            Some(last) => last == uid,
            None => false,
        }
    }
}

/// The rule a fetcher is made with decides what it does: it asks to keep
/// only the last frame of a stream of known length under the last-frame
/// rule, only the first frame under the first-frame rule, and no frame under
/// any other rule; at the end of a stream it replaces the stream by solid
/// black under the solid-black rule (and under the hold rules while nothing
/// was kept), by the given frame under the given-frame rule, starts over
/// under the loop rule and reports an error under the error rule.
pub proof fn lemma_rule_decides_fetching(
    rule: OnStreamEnd,
    stream_length: Option<usize>,
    count: nat,
)
    ensures
        asks_to_keep(initial_end_state(rule), stream_length, count) == match rule {
            OnStreamEnd::HoldLastFrame => stream_length == Some(count as usize) && count <= usize::MAX,
            OnStreamEnd::HoldFirstFrame => true,
            _ => false,
        },
        end_action(initial_end_state(rule)) == match rule {
            OnStreamEnd::HoldLastFrame => Some(EndAction::HoldSolidBlack),
            OnStreamEnd::HoldFirstFrame => Some(EndAction::HoldSolidBlack),
            OnStreamEnd::HoldFrame(f) => Some(EndAction::HoldFrame(f)),
            OnStreamEnd::HoldSolidBlack => Some(EndAction::HoldSolidBlack),
            OnStreamEnd::Loop => Some(EndAction::StartOver),
            OnStreamEnd::Error => Some(EndAction::Error),
            OnStreamEnd::Unreachable => None::<EndAction>,
        },
{
}

/// Under the last-frame and first-frame rules, the frame kept is the frame
/// that replaces the stream at its end; under every other rule keeping a
/// frame changes nothing at the end.
pub proof fn lemma_kept_frame_is_held(state: StreamEndState, frame: Frame)
    ensures
        state is HoldLastFrame ==> end_action(StreamEndState::HoldLastFrame(Some(frame)))
            == Some(EndAction::HoldFrame(frame)),
        state is HoldFirstFrame ==> end_action(StreamEndState::HoldFirstFrame(Some(frame)))
            == Some(EndAction::HoldFrame(frame)),
{
}

} // verus!
