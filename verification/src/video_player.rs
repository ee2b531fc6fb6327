//! The playback clock of a video player: whether it plays, where it is, and
//! when enough time has passed to show the next frame. The player tells its
//! caller when to fetch a frame; fetching is the caller's work.

use vstd::prelude::*;

verus! {

/// The largest time a `std::time::Duration` holds, in nanoseconds.
pub const DURATION_MAX_NANOS: u128 = 18_446_744_073_709_551_615_999_999_999;

/// What a [VideoPlayer] holds (all times in nanoseconds).
pub ghost struct PlayerView {
    /// Whether the video plays.
    pub playing: bool,
    /// The time of the shown frame.
    pub current_time: nat,
    /// The time each frame is shown.
    pub frame_duration: nat,
    /// The time that passed since the last frame switch.
    pub time_accumulator: nat,
}

impl PlayerView {
    /// The state after one update by `delta` nanoseconds while playing:
    /// whether a frame is due, and the new state. A due frame moves the time
    /// on by one frame; an accumulator left over more than three frames (a
    /// player that fell behind) is dropped.
    pub open spec fn advanced(self, delta: nat) -> (bool, PlayerView) {
        let acc = self.time_accumulator + delta;
        if !self.playing {
            (false, self)
        } else if acc >= self.frame_duration {
            let rest = (acc - self.frame_duration) as nat;
            (
                true,
                PlayerView {
                    current_time: self.current_time + self.frame_duration,
                    time_accumulator: if rest > 3 * self.frame_duration {
                        0
                    } else {
                        rest
                    },
                    ..self
                },
            )
        } else {
            (false, PlayerView { time_accumulator: acc, ..self })
        }
    }
}

/// The playback clock of a video player.
#[derive(Debug, Clone, Copy)]
pub struct VideoPlayer {
    playing: bool,
    current_time: u128,
    frame_duration: u128,
    time_accumulator: u128,
}

impl View for VideoPlayer {
    type V = PlayerView;

    closed spec fn view(&self) -> PlayerView {
        PlayerView {
            playing: self.playing,
            current_time: self.current_time as nat,
            frame_duration: self.frame_duration as nat,
            time_accumulator: self.time_accumulator as nat,
        }
    }
}

impl VideoPlayer {
    #[verifier::type_invariant]
    spec fn inv(self) -> bool {
        &&& self.frame_duration <= DURATION_MAX_NANOS
        &&& self.current_time <= DURATION_MAX_NANOS
        &&& self.time_accumulator <= 3 * self.frame_duration
    }

    /// A stopped player at time 0 that shows each frame for
    /// `frame_duration` nanoseconds.
    pub fn new(frame_duration: u128) -> (r: Self)
        requires
            frame_duration <= DURATION_MAX_NANOS,
        ensures
            r@ == (PlayerView {
                playing: false,
                current_time: 0,
                frame_duration: frame_duration as nat,
                time_accumulator: 0,
            }),
    {
        VideoPlayer { playing: false, current_time: 0, frame_duration, time_accumulator: 0 }
    }

    /// Whether the video plays.
    pub fn is_playing(&self) -> (r: bool)
        ensures
            r == self@.playing,
    {
        self.playing
    }

    /// The time of the shown frame, in nanoseconds.
    pub fn current_time(&self) -> (r: u128)
        ensures
            r == self@.current_time,
    {
        self.current_time
    }

    /// The time each frame is shown, in nanoseconds.
    pub fn frame_duration(&self) -> (r: u128)
        ensures
            r == self@.frame_duration,
    {
        self.frame_duration
    }

    /// Start playing (from a fresh accumulator) if not playing already.
    pub fn play(&mut self)
        ensures
            old(self)@.playing ==> final(self)@ == old(self)@,
            !old(self)@.playing ==> final(self)@ == (PlayerView {
                playing: true,
                time_accumulator: 0,
                ..old(self)@
            }),
    {
        proof {
            use_type_invariant(&*self);
        }
        if !self.playing {
            *self = VideoPlayer { playing: true, time_accumulator: 0, ..*self };
        }
    }

    /// Stop playing and drop the accumulated time.
    pub fn pause(&mut self)
        ensures
            final(self)@ == (PlayerView { playing: false, time_accumulator: 0, ..old(self)@ }),
    {
        proof {
            use_type_invariant(&*self);
        }
        *self = VideoPlayer { playing: false, time_accumulator: 0, ..*self };
    }

    /// Pause if playing, play if paused.
    pub fn toggle_play_pause(&mut self)
        ensures
            final(self)@ == (PlayerView {
                playing: !old(self)@.playing,
                time_accumulator: 0,
                ..old(self)@
            }),
    {
        if self.playing {
            self.pause();
        } else {
            self.play();
        }
    }

    /// Pause and show the next frame: the caller fetches it.
    pub fn step_forward(&mut self)
        ensures
            final(self)@ == (PlayerView { playing: false, time_accumulator: 0, ..old(self)@ }),
    {
        self.pause();
    }

    /// Pause; the player cannot go back a frame.
    pub fn step_backward(&mut self)
        ensures
            final(self)@ == (PlayerView { playing: false, time_accumulator: 0, ..old(self)@ }),
    {
        self.pause();
    }

    /// Jump to `time` (nanoseconds) and drop the accumulated time; the caller
    /// fetches the frame there.
    pub fn seek(&mut self, time: u128)
        requires
            time <= DURATION_MAX_NANOS,
        ensures
            final(self)@ == (PlayerView {
                current_time: time as nat,
                time_accumulator: 0,
                ..old(self)@
            }),
    {
        proof {
            use_type_invariant(&*self);
        }
        *self = VideoPlayer { current_time: time, time_accumulator: 0, ..*self };
    }

    /// Fetching a frame failed: the video stops playing.
    pub fn fetch_failed(&mut self)
        ensures
            final(self)@ == (PlayerView { playing: false, ..old(self)@ }),
    {
        proof {
            use_type_invariant(&*self);
        }
        *self = VideoPlayer { playing: false, ..*self };
    }

    /// Let `delta` nanoseconds pass. Returns whether the next frame is due
    /// (the caller then fetches it); see [PlayerView::advanced].
    pub fn update_with_delta(&mut self, delta: u128) -> (r: bool)
        requires
            delta <= DURATION_MAX_NANOS,
            old(self)@.playing ==> old(self)@.current_time + old(self)@.frame_duration
                <= DURATION_MAX_NANOS,
        ensures
            (r, final(self)@) == old(self)@.advanced(delta as nat),
    {
        proof {
            use_type_invariant(&*self);
        }
        if !self.playing {
            return false;
        }
        let acc = self.time_accumulator + delta;
        if acc >= self.frame_duration {
            let rest = acc - self.frame_duration;
            let kept = if rest > 3 * self.frame_duration {
                0
            } else {
                rest
            };
            *self = VideoPlayer {
                current_time: self.current_time + self.frame_duration,
                time_accumulator: kept,
                ..*self
            };
            true
        } else {
            *self = VideoPlayer { time_accumulator: acc, ..*self };
            false
        }
    }
}

/// A paused player never has a frame due, and a playing one never keeps more
/// than three frames of accumulated time after an update.
pub proof fn lemma_advance_bounds(v: PlayerView, delta: nat)
    requires
        v.time_accumulator <= 3 * v.frame_duration,
    ensures
        !v.playing ==> !v.advanced(delta).0 && v.advanced(delta).1 == v,
        v.advanced(delta).1.time_accumulator <= 3 * v.frame_duration,
        v.advanced(delta).0 ==> v.advanced(delta).1.current_time == v.current_time + v.frame_duration,
{
}

} // verus!
