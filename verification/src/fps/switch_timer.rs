//! Exports utilities for determining when you should switch frames.

use std::time::{Duration, Instant};

use crate::time::{
    duration_as_nanos, duration_nanos, duration_new, instant_duration_since, instant_now,
};

use vstd::prelude::*;

use super::Fps;

verus! {

/// `x * y`, or `u128::MAX` if that overflows.
pub open spec fn saturating_mul_u128(x: nat, y: nat) -> nat {
    if x * y > u128::MAX {
        u128::MAX as nat
    } else {
        x * y
    }
}

/// The number of whole frame intervals of `target` that fit in
/// `elapsed_nanos` nanoseconds, capped at `usize::MAX`.
pub open spec fn frames_elapsed(target: Fps, elapsed_nanos: nat) -> nat {
    let frames = saturating_mul_u128(elapsed_nanos, target.numer()) / (target.denom()
        * 1_000_000_000);
    if frames > usize::MAX {
        usize::MAX as nat
    } else {
        frames
    }
}

/// The number of nanoseconds after the start at which frame
/// `frame_idx + 1` is due (each product saturating at `u128::MAX`).
pub open spec fn next_switch_nanos(target: Fps, frame_idx: nat) -> nat {
    let next = if frame_idx + 1 > usize::MAX {
        usize::MAX as nat
    } else {
        frame_idx + 1
    };
    saturating_mul_u128(saturating_mul_u128(next, target.denom()), 1_000_000_000)
        / target.numer()
}

/// The nanoseconds left until the next switch when `elapsed_nanos` have
/// passed since the start, or 0 if the switch is already due.
pub open spec fn remaining_nanos(target: Fps, frame_idx: nat, elapsed_nanos: nat) -> nat {
    let next = next_switch_nanos(target, frame_idx);
    if next > elapsed_nanos {
        (next - elapsed_nanos) as nat
    } else {
        0
    }
}

/// The nanoseconds a [Duration] reports for a remaining time of `nanos`:
/// its whole seconds are capped at `u64::MAX`.
pub open spec fn reported_nanos(nanos: nat) -> nat {
    let secs = if nanos / 1_000_000_000 > u64::MAX {
        u64::MAX as nat
    } else {
        nanos / 1_000_000_000
    };
    secs * 1_000_000_000 + nanos % 1_000_000_000
}

/// A clock for tracking when it's time to switch to the next frame (given a
/// target [Fps]). See [Self::is_switch_time].
#[derive(Debug)]
pub struct SwitchTimer {
    target_fps: Fps,
    start_time: Option<Instant>,
    frame_idx: usize,
}

impl SwitchTimer {
    /// The frame rate the timer targets.
    pub closed spec fn target(&self) -> Fps {
        self.target_fps
    }

    /// Whether the clock has started.
    pub closed spec fn started(&self) -> bool {
        self.start_time is Some
    }

    /// The number of switches reported since the clock started.
    pub closed spec fn frame_index(&self) -> nat {
        self.frame_idx as nat
    }

    /// Create a new [SwitchTimer]; its clock has not started.
    pub fn new(target_fps: Fps) -> (r: Self)
        ensures
            r.target() == target_fps,
            !r.started(),
            r.frame_index() == 0,
    {
        Self { target_fps, start_time: None, frame_idx: 0 }
    }

    /// Whether or not it's time to switch to a new frame (given the target
    /// FPS and when the clock started). This function *always* returns `true`
    /// the first time it's called, and starts the clock then. Afterwards it
    /// returns `true` (and counts one switch) whenever more frame intervals
    /// have passed since the start than switches were counted, so `true` may
    /// be returned many times in a row if the caller gets behind. See
    /// [Self::switch_after] for the decision at a given elapsed time.
    pub fn is_switch_time(&mut self) -> (r: bool)
        ensures
            final(self).target() == old(self).target(),
            final(self).started(),
            !old(self).started() ==> r && final(self).frame_index() == old(self).frame_index(),
            old(self).started() ==> exists|elapsed_nanos: nat|
                (r, final(self).frame_index()) == #[trigger] switch_step(
                    old(self).target(),
                    old(self).frame_index(),
                    elapsed_nanos,
                ),
    {
        let now = instant_now();
        match self.start_time {
            None => {
                self.start_time = Some(now);
                true
            },
            Some(start_time) => {
                let elapsed_nanos = duration_as_nanos(instant_duration_since(now, start_time));
                let r = self.switch_after(elapsed_nanos);
                assert((r, self.frame_index()) == switch_step(
                    old(self).target(),
                    old(self).frame_index(),
                    elapsed_nanos as nat,
                ));
                r
            },
        }
    }

    /// The decision [Self::is_switch_time] makes once `elapsed_nanos`
    /// nanoseconds have passed since the clock started: if more frame
    /// intervals have elapsed than switches were counted, one more switch is
    /// counted and `true` is returned.
    pub fn switch_after(&mut self, elapsed_nanos: u128) -> (r: bool)
        ensures
            r == (frames_elapsed(old(self).target(), elapsed_nanos as nat) > old(
                self,
            ).frame_index()),
            final(self).frame_index() == old(self).frame_index() + if r {
                1nat
            } else {
                0nat
            },
            final(self).target() == old(self).target(),
            final(self).started() == old(self).started(),
    {
        let num = self.target_fps.num();
        let den = self.target_fps.den();
        let product = match elapsed_nanos.checked_mul(num as u128) {
            Some(p) => p,
            None => u128::MAX,
        };
        proof {
            vstd::arithmetic::mul::lemma_mul_upper_bound(
                den as int,
                u32::MAX as int,
                1_000_000_000,
                1_000_000_000,
            );
        }
        let frames = product / (den as u128 * 1_000_000_000u128);
        let intervals: usize = if frames > usize::MAX as u128 {
            usize::MAX
        } else {
            frames as usize
        };
        if intervals > self.frame_idx {
            self.frame_idx = self.frame_idx + 1;
            true
        } else {
            false
        }
    }

    /// Returns how long until the next switch should happen: zero if the
    /// timer has not started yet or if the next switch is already due. See
    /// [Self::remaining_after] for the value at a given elapsed time; which
    /// time has elapsed depends on when the clock is read.
    pub fn time_until_next_switch(&self) -> (r: Duration)
        ensures
            !self.started() ==> duration_nanos(r) == 0,
            self.started() ==> exists|elapsed_nanos: nat|
                duration_nanos(r) == reported_nanos(
                    #[trigger] remaining_nanos(self.target(), self.frame_index(), elapsed_nanos),
                ),
    {
        match self.start_time {
            None => duration_new(0, 0),
            Some(start_time) => {
                let now = instant_now();
                let elapsed_nanos = duration_as_nanos(instant_duration_since(now, start_time));
                let (secs, nanos) = self.remaining_after(elapsed_nanos);
                let r = duration_new(secs, nanos);
                assert(duration_nanos(r) == reported_nanos(
                    remaining_nanos(self.target(), self.frame_index(), elapsed_nanos as nat),
                ));
                r
            },
        }
    }

    /// The time [Self::time_until_next_switch] reports once `elapsed_nanos`
    /// nanoseconds have passed since the clock started, as whole seconds
    /// (capped at `u64::MAX`) and the nanoseconds below a second.
    pub fn remaining_after(&self, elapsed_nanos: u128) -> (r: (u64, u32))
        ensures
            r.1 < 1_000_000_000,
            r.1 == remaining_nanos(self.target(), self.frame_index(), elapsed_nanos as nat)
                % 1_000_000_000,
            r.0 == if remaining_nanos(self.target(), self.frame_index(), elapsed_nanos as nat)
                / 1_000_000_000 > u64::MAX {
                u64::MAX as nat
            } else {
                remaining_nanos(self.target(), self.frame_index(), elapsed_nanos as nat)
                    / 1_000_000_000
            },
    {
        let num = self.target_fps.num();
        let den = self.target_fps.den();
        let next: u128 = if self.frame_idx < usize::MAX {
            (self.frame_idx + 1) as u128
        } else {
            usize::MAX as u128
        };
        let scaled = match next.checked_mul(den as u128) {
            Some(p) => p,
            None => u128::MAX,
        };
        let scaled = match scaled.checked_mul(1_000_000_000u128) {
            Some(p) => p,
            None => u128::MAX,
        };
        let next_switch = scaled / (num as u128);
        let remaining = if next_switch > elapsed_nanos {
            next_switch - elapsed_nanos
        } else {
            0
        };
        let whole_secs = remaining / 1_000_000_000u128;
        let secs: u64 = if whole_secs > u64::MAX as u128 {
            u64::MAX
        } else {
            whole_secs as u64
        };
        let nanos = (remaining % 1_000_000_000u128) as u32;
        (secs, nanos)
    }

    /// Resets the clock. The next call to [Self::is_switch_time] will *always*
    /// return `true` (as if the object had just been constructed).
    pub fn reset(&mut self)
        ensures
            final(self).target() == old(self).target(),
            !final(self).started(),
            final(self).frame_index() == 0,
    {
        *self = Self::new(self.target_fps);
    }

    /// The [Fps] this timer is targeting.
    pub fn target_fps(&self) -> (r: Fps)
        ensures
            r == self.target(),
    {
        self.target_fps
    }

    /// Change the target FPS. If `new_target_fps` is *different* from the
    /// current one, the timer is also reset (see [Self::reset]); otherwise
    /// nothing changes.
    pub fn set_target_fps(&mut self, new_target_fps: Fps)
        ensures
            new_target_fps == old(self).target() ==> *final(self) == *old(self),
            new_target_fps != old(self).target() ==> {
                &&& final(self).target() == new_target_fps
                &&& !final(self).started()
                &&& final(self).frame_index() == 0
            },
    {
        if new_target_fps != self.target_fps {
            self.target_fps = new_target_fps;
            self.reset();
        }
    }
}

/// One switch decision once `elapsed_nanos` nanoseconds have passed since
/// the clock started, with `count` switches reported so far: whether to
/// switch, and the count afterwards.
pub open spec fn switch_step(target: Fps, count: nat, elapsed_nanos: nat) -> (bool, nat) {
    if frames_elapsed(target, elapsed_nanos) > count {
        (true, count + 1)
    } else {
        (false, count)
    }
}

/// The switches counted after calls made, in order, at the elapsed times
/// `elapsed` (in nanoseconds since the clock started), from `count`.
pub open spec fn switches_after(target: Fps, count: nat, elapsed: Seq<nat>) -> nat
    decreases elapsed.len(),
{
    if elapsed.len() == 0 {
        count
    } else {
        switch_step(target, switches_after(target, count, elapsed.drop_last()), elapsed.last()).1
    }
}

/// More elapsed time never means fewer whole frame intervals.
pub proof fn lemma_frames_elapsed_monotonic(target: Fps, a: nat, b: nat)
    requires
        target.valid(),
        a <= b,
    ensures
        frames_elapsed(target, a) <= frames_elapsed(target, b),
{
    let n = target.numer();
    let d = target.denom() * 1_000_000_000;
    vstd::arithmetic::mul::lemma_mul_strictly_positive(target.denom() as int, 1_000_000_000);
    vstd::arithmetic::mul::lemma_mul_inequality(a as int, b as int, n as int);
    let sa = saturating_mul_u128(a, n);
    let sb = saturating_mul_u128(b, n);
    assert(sa <= sb);
    vstd::arithmetic::div_mod::lemma_div_is_ordered(sa as int, sb as int, d as int);
}

/// Over any run of calls whose clock readings never go back, the switches
/// reported never outrun the clock: after each call, at most as many
/// switches were reported as whole frame intervals have elapsed.
pub proof fn lemma_switches_never_outrun_clock(target: Fps, elapsed: Seq<nat>)
    requires
        target.valid(),
        elapsed.len() > 0,
        forall|i: int, j: int| 0 <= i <= j < elapsed.len() ==> elapsed[i] <= elapsed[j],
    ensures
        switches_after(target, 0, elapsed) <= frames_elapsed(target, elapsed.last()),
    decreases elapsed.len(),
{
    let prev = elapsed.drop_last();
    let count = switches_after(target, 0, prev);
    if prev.len() > 0 {
        lemma_switches_never_outrun_clock(target, prev);
        assert(prev.last() == elapsed[elapsed.len() - 2]);
        lemma_frames_elapsed_monotonic(target, prev.last(), elapsed.last());
    }
}

} // verus!
