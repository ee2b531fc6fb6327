//! [ResampledFFmpegVideo]: the playback state of a video that is resampled to
//! a target frame rate, played at a custom speed, clipped and possibly
//! looped. The decoding itself happens elsewhere: each step says which source
//! frame to decode and whether the source should stay paused.

use vstd::prelude::*;

use super::{fixed_clip, Clip, VideoFrameStreamBuilder};
use crate::arith::lemma_reduced_is_simplified;
use crate::fps::{reduced_den, reduced_num, Fps, Resampler};

verus! {

/// The ratio (source frames per resampled frame, in lowest terms) of a
/// source video at `src_fps`, played `speed` times as fast and resampled to
/// `target_fps`.
pub open spec fn playback_ratio(src_fps: Fps, speed: Fps, target_fps: Fps) -> (nat, nat) {
    let sn = reduced_num(src_fps.numer() * speed.numer(), src_fps.denom() * speed.denom());
    let sd = reduced_den(src_fps.numer() * speed.numer(), src_fps.denom() * speed.denom());
    (
        reduced_num(sn * target_fps.denom(), sd * target_fps.numer()),
        reduced_den(sn * target_fps.denom(), sd * target_fps.numer()),
    )
}

/// Whether a configuration can be computed without overflow: the sped-up
/// source rate fits in the frame rate type and the resampled duration of a
/// source of `src_duration` frames fits in a `usize`.
pub open spec fn config_fits(src_fps: Fps, speed: Fps, target_fps: Fps, src_duration: usize) -> bool {
    &&& src_fps.numer() * speed.numer() <= u32::MAX
    &&& src_fps.denom() * speed.denom() <= u32::MAX
    &&& src_duration * playback_ratio(src_fps, speed, target_fps).1 <= usize::MAX
}

/// The resampled duration of a source of `src_duration` frames under
/// `ratio`: `src_duration * den / num` frames, but at least 1.
pub open spec fn duration_for(ratio: (nat, nat), src_duration: usize) -> usize {
    let d = (((src_duration as nat) * ratio.1) / ratio.0) as usize;
    if d == 0 {
        1
    } else {
        d
    }
}

/// The source frame shown at resampled index `idx` under `ratio`.
pub open spec fn resample_at(ratio: (nat, nat), idx: nat) -> nat {
    (idx * ratio.0) / ratio.1
}

/// A resampled index under `old` moved to the same moment under `new`.
pub open spec fn translated(idx: usize, old: (nat, nat), new: (nat, nat)) -> usize {
    (((idx as nat) * old.0 * new.1) / (old.1 * new.0)) as usize
}

/// `x` clamped into `clip`.
pub open spec fn clamped(x: usize, clip: Clip) -> usize {
    if x < clip.start {
        clip.start
    } else if x > clip.end {
        clip.end
    } else {
        x
    }
}

/// `clip` moved inside a stream of `duration` frames (see [Clip::fix]).
pub open spec fn fixed(clip: Clip, duration: usize) -> Clip {
    Clip {
        start: fixed_clip(clip.start as nat, clip.end as nat, duration as nat).0 as usize,
        end: fixed_clip(clip.start as nat, clip.end as nat, duration as nat).1 as usize,
    }
}

/// The state of a [ResampledFFmpegVideo].
pub ghost struct ResampledView {
    /// The source video's native frame rate.
    pub src_fps: Fps,
    /// The source video's number of frames.
    pub src_duration: usize,
    /// Source frames per resampled frame, in lowest terms.
    pub ratio: (nat, nat),
    /// The frame rate the video is resampled to.
    pub target_fps: Fps,
    /// The multiplier on the source's playback speed.
    pub playback_speed: Fps,
    /// The resampled index of the next frame.
    pub playhead: usize,
    /// The resampled range that is played.
    pub clip: Clip,
    /// The number of resampled frames.
    pub duration: usize,
    /// Whether playback is paused.
    pub paused: bool,
    /// Whether playback loops back to the start of the clip.
    pub will_loop: bool,
    /// Whether the last step played the clip's last frame.
    pub last_frame_played: bool,
}

impl ResampledView {
    /// The state is consistent: the ratio matches the configuration, the clip
    /// lies inside the resampled video and holds the playhead, and after
    /// playing the clip's last frame the video pauses while it stays there.
    pub open spec fn valid(self) -> bool {
        &&& self.src_duration > 0
        &&& self.ratio == playback_ratio(self.src_fps, self.playback_speed, self.target_fps)
        &&& 0 < self.ratio.0 <= u64::MAX
        &&& 0 < self.ratio.1 <= u64::MAX
        &&& self.src_duration * self.ratio.1 <= usize::MAX
        &&& self.duration == duration_for(self.ratio, self.src_duration)
        &&& self.clip.start <= self.clip.end < self.duration
        &&& self.clip.start <= self.playhead <= self.clip.end
        &&& self.last_frame_played && self.playhead == self.clip.end ==> self.paused
    }

    /// The state after seeking to `playhead`: the playhead is clamped into
    /// the clip, and landing on the clip's last frame right after playing it
    /// pauses playback.
    pub open spec fn seeked(self, playhead: usize) -> ResampledView {
        let p = clamped(playhead, self.clip);
        ResampledView {
            playhead: p,
            paused: self.paused || (self.last_frame_played && p == self.clip.end),
            ..self
        }
    }

    /// The state after setting the clip to `clip` (moved inside the video).
    pub open spec fn with_clip(self, clip: Clip) -> ResampledView {
        let f = fixed(clip, self.duration);
        if f == self.clip {
            self
        } else {
            ResampledView { clip: f, ..self }.seeked(self.playhead)
        }
    }

    /// The state after changing the target frame rate and playback speed:
    /// the duration is recomputed, and the clip and playhead are moved to
    /// the same moments of the video under the new ratio.
    pub open spec fn reconfigured(self, target_fps: Fps, speed: Fps) -> ResampledView {
        let ratio = playback_ratio(self.src_fps, speed, target_fps);
        let duration = duration_for(ratio, self.src_duration);
        let clip = fixed(
            Clip {
                start: translated(self.clip.start, self.ratio, ratio),
                end: translated(self.clip.end, self.ratio, ratio),
            },
            duration,
        );
        let playhead = clamped(translated(self.playhead, self.ratio, ratio), clip);
        ResampledView {
            ratio,
            duration,
            clip,
            target_fps,
            playback_speed: speed,
            ..self
        }.seeked(playhead)
    }

    /// Whether playback is paused while the next frame is produced: it was
    /// paused, or the playhead is on the clip's last frame and the video does
    /// not loop.
    pub open spec fn pauses_now(self) -> bool {
        self.paused || (self.playhead == self.clip.end && !self.will_loop)
    }

    /// The state after producing one frame: unless paused, the playhead
    /// moves on, back to the clip's start after its last frame.
    pub open spec fn stepped(self) -> ResampledView {
        let last = self.playhead == self.clip.end;
        let paused = self.pauses_now();
        if paused {
            ResampledView { paused, last_frame_played: last, ..self }
        } else if last {
            ResampledView { paused, last_frame_played: false, playhead: self.clip.start, ..self }
        } else {
            ResampledView {
                paused,
                last_frame_played: false,
                playhead: (self.playhead + 1) as usize,
                ..self
            }
        }
    }
}

/// A source video's playback extended with frame rate resampling, custom
/// playback speeds, looping and clipping.
#[derive(Debug)]
pub struct ResampledFFmpegVideo {
    src_fps: Fps,
    src_duration: usize,
    fps_resampler: Resampler,
    target_fps: Fps,
    playback_speed: Fps,
    resampled_playhead: usize,
    resampled_clip: Clip,
    resampled_duration: usize,
    resampled_paused: bool,
    will_loop: bool,
    last_frame_played: bool,
}

impl View for ResampledFFmpegVideo {
    type V = ResampledView;

    closed spec fn view(&self) -> ResampledView {
        ResampledView {
            src_fps: self.src_fps,
            src_duration: self.src_duration,
            ratio: self.fps_resampler.ratio(),
            target_fps: self.target_fps,
            playback_speed: self.playback_speed,
            playhead: self.resampled_playhead,
            clip: self.resampled_clip,
            duration: self.resampled_duration,
            paused: self.resampled_paused,
            will_loop: self.will_loop,
            last_frame_played: self.last_frame_played,
        }
    }
}

/// Under a valid state, every resampled index before the duration shows a
/// source frame inside the source video, and the product behind resampling
/// the duration fits in a `u64`.
pub proof fn lemma_resampled_frames_in_source(v: ResampledView, idx: nat)
    requires
        v.valid(),
        idx < v.duration,
    ensures
        resample_at(v.ratio, idx) < v.src_duration,
        v.duration * v.ratio.0 <= u64::MAX,
{
    let n = v.ratio.0;
    let d = v.ratio.1;
    let s = v.src_duration as nat;
    let q = (s * d) / n;
    assert(q <= s * d) by (nonlinear_arith)
        requires
            n > 0,
            q == (s * d) / n,
    ;
    if q == 0 {
        assert(v.duration == 1);
        assert(idx == 0);
        assert(resample_at(v.ratio, idx) == 0) by (nonlinear_arith)
            requires
                idx == 0,
                d > 0,
                resample_at(v.ratio, idx) == (idx * n) / d,
        ;
    } else {
        assert(v.duration == q);
        assert(q * n <= s * d) by (nonlinear_arith)
            requires
                n > 0,
                q == (s * d) / n,
        ;
        assert(idx * n < s * d) by (nonlinear_arith)
            requires
                idx < q,
                q * n <= s * d,
                n > 0,
        ;
        assert((idx * n) / d < s) by (nonlinear_arith)
            requires
                idx * n < s * d,
                d > 0,
        ;
    }
}

/// Every operation keeps a valid state valid: seeking, setting the clip,
/// producing a frame and (for a configuration that fits) changing the target
/// frame rate or playback speed.
pub proof fn lemma_operations_keep_state_valid(
    v: ResampledView,
    playhead: usize,
    clip: Clip,
    target_fps: Fps,
    speed: Fps,
)
    requires
        v.valid(),
    ensures
        v.seeked(playhead).valid(),
        v.with_clip(clip).valid(),
        v.stepped().valid(),
        config_fits(v.src_fps, speed, target_fps, v.src_duration) && playback_ratio(
            v.src_fps,
            speed,
            target_fps,
        ).0 > 0 && playback_ratio(v.src_fps, speed, target_fps).0 <= u64::MAX && playback_ratio(
            v.src_fps,
            speed,
            target_fps,
        ).1 > 0 && playback_ratio(v.src_fps, speed, target_fps).1 <= u64::MAX ==> v.reconfigured(
            target_fps,
            speed,
        ).valid(),
{
    let ratio = playback_ratio(v.src_fps, speed, target_fps);
    if config_fits(v.src_fps, speed, target_fps, v.src_duration) && ratio.0 > 0 && ratio.0
        <= u64::MAX && ratio.1 > 0 && ratio.1 <= u64::MAX {
        assert(((v.src_duration as nat) * ratio.1) / ratio.0 <= (v.src_duration as nat) * ratio.1)
            by (nonlinear_arith)
            requires
                ratio.0 > 0,
        ;
    }
}

/// Without looping, playback never leaves the clip's last frame once it gets
/// there: producing a frame there pauses the video and keeps the playhead.
/// With looping, the frame after the clip's last one is the clip's first.
pub proof fn lemma_clip_end(v: ResampledView)
    requires
        v.valid(),
        v.playhead == v.clip.end,
    ensures
        !v.will_loop ==> v.stepped().paused && v.stepped().playhead == v.clip.end,
        v.will_loop && !v.paused ==> v.stepped().playhead == v.clip.start,
{
}

/// Translating an index no larger than `end` cannot overflow a `u128` when
/// `end * old_num` fits in a `u64` and `new_den` does too.
proof fn lemma_translate_fits(idx: nat, end: nat, old_num: nat, new_den: nat)
    requires
        idx <= end,
        end * old_num <= u64::MAX,
        new_den <= u64::MAX,
    ensures
        idx * old_num * new_den <= u128::MAX,
{
    assert(idx * old_num <= u64::MAX) by (nonlinear_arith)
        requires
            idx <= end,
            end * old_num <= u64::MAX,
    ;
    assert(idx * old_num * new_den <= u64::MAX * u64::MAX) by (nonlinear_arith)
        requires
            idx * old_num <= u64::MAX,
            new_den <= u64::MAX,
    ;
}

impl ResampledFFmpegVideo {
    #[verifier::type_invariant]
    spec fn inv(self) -> bool {
        self.view().valid()
    }

    /// Builds the state reached by reconfiguring a video whose current
    /// resampler, clip and playhead are the given ones.
    fn reconfigure_from(
        src_fps: Fps,
        src_duration: usize,
        old_resampler: Resampler,
        old_clip: Clip,
        old_playhead: usize,
        paused: bool,
        will_loop: bool,
        last_frame_played: bool,
        target_fps: Fps,
        playback_speed: Fps,
    ) -> (r: Self)
        requires
            src_duration > 0,
            config_fits(src_fps, playback_speed, target_fps, src_duration),
            old_resampler.ratio().0 > 0,
            old_resampler.ratio().1 > 0,
            old_clip.start <= old_playhead <= old_clip.end,
            old_clip.end * old_resampler.ratio().0 <= u64::MAX,
        ensures
            r@ == (ResampledView {
                src_fps,
                src_duration,
                ratio: old_resampler.ratio(),
                target_fps,
                playback_speed,
                playhead: old_playhead,
                clip: old_clip,
                duration: 1,
                paused,
                will_loop,
                last_frame_played,
            }).reconfigured(target_fps, playback_speed),
    {
        let sped_up = src_fps.mul(playback_speed);
        let new_resampler = Resampler::new(sped_up, target_fps);
        let ghost ratio = new_resampler.ratio();
        proof {
            old_resampler.lemma_ratio_fits();
            new_resampler.lemma_ratio_fits();
            assert(ratio == playback_ratio(src_fps, playback_speed, target_fps));
            assert(((src_duration as nat) * ratio.1) / ratio.0 <= (src_duration as nat) * ratio.1) by (nonlinear_arith)
                requires
                    ratio.0 > 0,
            ;
        }
        let d = new_resampler.duration(src_duration);
        let new_duration: usize = if d == 0 {
            1
        } else {
            d
        };
        proof {
            lemma_translate_fits(old_clip.start as nat, old_clip.end as nat, old_resampler.ratio().0, ratio.1);
            lemma_translate_fits(old_clip.end as nat, old_clip.end as nat, old_resampler.ratio().0, ratio.1);
            lemma_translate_fits(old_playhead as nat, old_clip.end as nat, old_resampler.ratio().0, ratio.1);
        }
        let new_start = new_resampler.translate_old_dest_idx(old_resampler, old_clip.start);
        let new_end = new_resampler.translate_old_dest_idx(old_resampler, old_clip.end);
        let new_clip = Clip { start: new_start, end: new_end }.fix(new_duration);
        let translated_playhead = new_resampler.translate_old_dest_idx(old_resampler, old_playhead);
        let new_playhead = if translated_playhead < new_clip.start {
            new_clip.start
        } else if translated_playhead > new_clip.end {
            new_clip.end
        } else {
            translated_playhead
        };
        let new_paused = paused || (last_frame_played && new_playhead == new_clip.end);
        ResampledFFmpegVideo {
            src_fps,
            src_duration,
            fps_resampler: new_resampler,
            target_fps,
            playback_speed,
            resampled_playhead: new_playhead,
            resampled_clip: new_clip,
            resampled_duration: new_duration,
            resampled_paused: new_paused,
            will_loop,
            last_frame_played,
        }
    }

    /// Create the playback state of a source video with native frame rate
    /// `src_fps` and `src_duration` (non-zero) frames, configured by
    /// `builder` (whose rescaling and fetch timeout do not matter here).
    pub fn new(src_fps: Fps, src_duration: usize, builder: VideoFrameStreamBuilder) -> (r: Self)
        requires
            src_duration > 0,
            config_fits(
                src_fps,
                builder@.playback_speed,
                match builder@.target_fps {
                    Some(t) => t,
                    None => src_fps,
                },
                src_duration,
            ),
        ensures
            r@ == (ResampledView {
                src_fps,
                src_duration,
                ratio: (1, 1),
                target_fps: src_fps,
                playback_speed: builder@.playback_speed,
                playhead: 0,
                clip: Clip { start: 0, end: usize::MAX },
                duration: 1,
                paused: builder@.paused,
                will_loop: builder@.will_loop,
                last_frame_played: false,
            }).reconfigured(
                match builder@.target_fps {
                    Some(t) => t,
                    None => src_fps,
                },
                builder@.playback_speed,
            ).with_clip(builder@.clip).seeked(builder@.playhead),
            r@.valid(),
    {
        let target_fps = match builder.target_fps() {
            Some(t) => t,
            None => src_fps,
        };
        let no_op = Resampler::no_op();
        proof {
            assert(usize::MAX * 1nat <= u64::MAX);
        }
        let mut ret = Self::reconfigure_from(
            src_fps,
            src_duration,
            no_op,
            Clip { start: 0, end: usize::MAX },
            0,
            builder.is_paused(),
            builder.will_loop(),
            false,
            target_fps,
            builder.speed(),
        );
        ret.set_clip(builder.clip_range());
        ret.seek_playhead(builder.start_playhead());
        proof {
            use_type_invariant(&ret);
        }
        ret
    }

    /// Produce the next frame's playback decision and advance the state.
    /// The returned pair is the source frame to decode (always inside the
    /// source video) and whether the source should be paused afterwards
    /// (when this video is paused, or when the next frame shows the same
    /// source frame). The caller seeks the source there and decodes.
    pub fn write_next(&mut self) -> (r: (usize, bool))
        ensures
            final(self)@ == old(self)@.stepped(),
            r.0 == resample_at(old(self)@.ratio, old(self)@.playhead as nat),
            r.1 == (old(self)@.pauses_now() || r.0 == resample_at(
                old(self)@.ratio,
                (old(self)@.playhead + 1) as nat,
            ) as usize),
            r.0 < old(self)@.src_duration,
    {
        proof {
            use_type_invariant(&*self);
            lemma_resampled_frames_in_source(self@, self.resampled_playhead as nat);
            assert((self.resampled_playhead + 1) * self@.ratio.0 <= self@.duration * self@.ratio.0)
                by (nonlinear_arith)
                requires
                    self.resampled_playhead + 1 <= self@.duration,
            ;
            assert(self.resampled_playhead * self@.ratio.0 <= (self.resampled_playhead + 1) * self@.ratio.0)
                by (nonlinear_arith)
            ;
        }
        let paused_now = self.resampled_paused || (self.resampled_playhead
            == self.resampled_clip.end && !self.will_loop);
        let target_src_playhead = self.fps_resampler.resample(self.resampled_playhead);
        let next_src_playhead = self.fps_resampler.resample(self.resampled_playhead + 1);
        let pause_src = paused_now || target_src_playhead == next_src_playhead;
        self.step();
        (target_src_playhead, pause_src)
    }

    /// Like [Self::write_next] except it only advances the state.
    pub fn step(&mut self)
        ensures
            final(self)@ == old(self)@.stepped(),
    {
        proof {
            use_type_invariant(&*self);
        }
        let last = self.resampled_playhead == self.resampled_clip.end;
        let paused = self.resampled_paused || (last && !self.will_loop);
        if paused {
            self.set_step_state(self.resampled_playhead, true, last);
        } else if last {
            self.set_step_state(self.resampled_clip.start, false, false);
        } else {
            self.set_step_state(self.resampled_playhead + 1, false, false);
        }
    }

    /// Sets the playhead, paused flag and last-frame flag together.
    fn set_step_state(&mut self, playhead: usize, paused: bool, last_frame_played: bool)
        requires
            old(self)@.clip.start <= playhead <= old(self)@.clip.end,
            last_frame_played && playhead == old(self)@.clip.end ==> paused,
        ensures
            final(self)@ == (ResampledView { playhead, paused, last_frame_played, ..old(self)@ }),
    {
        proof {
            use_type_invariant(&*self);
        }
        *self = ResampledFFmpegVideo {
            resampled_playhead: playhead,
            resampled_paused: paused,
            last_frame_played,
            ..*self
        };
    }

    /// Moves the playhead to `new_playhead` clamped into the clip (the
    /// resampled index of the next frame), returning the new playhead.
    /// Landing on the clip's last frame right after playing it pauses
    /// playback.
    pub fn seek_playhead(&mut self, new_playhead: usize) -> (r: usize)
        ensures
            final(self)@ == old(self)@.seeked(new_playhead),
            r == final(self)@.playhead,
    {
        proof {
            use_type_invariant(&*self);
        }
        let clip = self.resampled_clip;
        let p = if new_playhead < clip.start {
            clip.start
        } else if new_playhead > clip.end {
            clip.end
        } else {
            new_playhead
        };
        let paused = self.resampled_paused || (self.last_frame_played && p == clip.end);
        *self = ResampledFFmpegVideo { resampled_playhead: p, resampled_paused: paused, ..*self };
        p
    }

    /// Set the range of this stream that can be played (moved inside the
    /// video first), returning the clip that is used.
    pub fn set_clip(&mut self, clip: Clip) -> (r: Clip)
        ensures
            final(self)@ == old(self)@.with_clip(clip),
            r == fixed(clip, old(self)@.duration),
    {
        proof {
            use_type_invariant(&*self);
        }
        let fixed_clip = clip.fix(self.resampled_duration);
        if fixed_clip == self.resampled_clip {
            return fixed_clip;
        }
        let playhead = self.resampled_playhead;
        let p = if playhead < fixed_clip.start {
            fixed_clip.start
        } else if playhead > fixed_clip.end {
            fixed_clip.end
        } else {
            playhead
        };
        let paused = self.resampled_paused || (self.last_frame_played && p == fixed_clip.end);
        *self = ResampledFFmpegVideo {
            resampled_clip: fixed_clip,
            resampled_playhead: p,
            resampled_paused: paused,
            ..*self
        };
        fixed_clip
    }

    /// Change the target frame rate. Nothing changes if it is the current
    /// one.
    pub fn set_target_fps(&mut self, target_fps: Fps)
        requires
            config_fits(
                old(self)@.src_fps,
                old(self)@.playback_speed,
                target_fps,
                old(self)@.src_duration,
            ),
        ensures
            final(self)@ == if target_fps == old(self)@.target_fps {
                old(self)@
            } else {
                old(self)@.reconfigured(target_fps, old(self)@.playback_speed)
            },
    {
        if target_fps != self.target_fps {
            self.reconfigure(target_fps, self.playback_speed);
        }
    }

    /// Change the multiplier on the source's playback speed. Nothing changes
    /// if it is the current one.
    pub fn set_playback_speed(&mut self, playback_speed: Fps)
        requires
            config_fits(
                old(self)@.src_fps,
                playback_speed,
                old(self)@.target_fps,
                old(self)@.src_duration,
            ),
        ensures
            final(self)@ == if playback_speed == old(self)@.playback_speed {
                old(self)@
            } else {
                old(self)@.reconfigured(old(self)@.target_fps, playback_speed)
            },
    {
        if playback_speed != self.playback_speed {
            self.reconfigure(self.target_fps, playback_speed);
        }
    }

    /// Recomputes the resampler, the duration, the clip and the playhead for
    /// a new target frame rate and playback speed.
    fn reconfigure(&mut self, target_fps: Fps, playback_speed: Fps)
        requires
            config_fits(old(self)@.src_fps, playback_speed, target_fps, old(self)@.src_duration),
        ensures
            final(self)@ == old(self)@.reconfigured(target_fps, playback_speed),
    {
        proof {
            use_type_invariant(&*self);
            lemma_resampled_frames_in_source(self@, self.resampled_clip.end as nat);
            assert(self.resampled_clip.end * self@.ratio.0 <= self@.duration * self@.ratio.0)
                by (nonlinear_arith)
                requires
                    self.resampled_clip.end < self@.duration,
            ;
        }
        let ghost before = self@;
        let next = Self::reconfigure_from(
            self.src_fps,
            self.src_duration,
            self.fps_resampler,
            self.resampled_clip,
            self.resampled_playhead,
            self.resampled_paused,
            self.will_loop,
            self.last_frame_played,
            target_fps,
            playback_speed,
        );
        proof {
            assert(next@ == before.reconfigured(target_fps, playback_speed));
        }
        *self = next;
    }

    /// Tries to set whether the stream is paused, returning the new paused
    /// state: right after playing the clip's last frame, while still there,
    /// the stream stays paused.
    pub fn set_paused(&mut self, paused: bool) -> (r: bool)
        ensures
            old(self)@.last_frame_played && old(self)@.playhead == old(self)@.clip.end ==> {
                &&& r
                &&& final(self)@ == old(self)@
            },
            !(old(self)@.last_frame_played && old(self)@.playhead == old(self)@.clip.end) ==> {
                &&& r == paused
                &&& final(self)@ == (ResampledView { paused, ..old(self)@ })
            },
    {
        proof {
            use_type_invariant(&*self);
        }
        if self.last_frame_played && self.resampled_playhead == self.resampled_clip.end {
            return true;
        }
        *self = ResampledFFmpegVideo { resampled_paused: paused, ..*self };
        paused
    }

    /// The resampled index of the next frame (always inside the clip, so
    /// below [Self::resampled_duration]).
    pub fn playhead(&self) -> (r: usize)
        ensures
            r == self@.playhead,
            r < self@.duration,
    {
        proof {
            use_type_invariant(self);
        }
        self.resampled_playhead
    }

    /// The range of this stream that can be played.
    pub fn clip(&self) -> (r: Clip)
        ensures
            r == self@.clip,
            r.start <= r.end < self@.duration,
    {
        proof {
            use_type_invariant(self);
        }
        self.resampled_clip
    }

    /// The number of frames this video has once resampled (never 0).
    pub fn resampled_duration(&self) -> (r: usize)
        ensures
            r == self@.duration,
            r > 0,
    {
        proof {
            use_type_invariant(self);
        }
        self.resampled_duration
    }

    /// The same as [Self::resampled_duration], known to be non-zero.
    pub fn resampled_duration_non_zero(&self) -> (r: usize)
        ensures
            r == self@.duration,
            r > 0,
    {
        self.resampled_duration()
    }

    /// The number of frames this video had before it was resampled (never
    /// 0).
    pub fn src_duration(&self) -> (r: usize)
        ensures
            r == self@.src_duration,
            r > 0,
    {
        proof {
            use_type_invariant(self);
        }
        self.src_duration
    }

    /// The same as [Self::src_duration], known to be non-zero.
    pub fn src_duration_non_zero(&self) -> (r: usize)
        ensures
            r == self@.src_duration,
            r > 0,
    {
        self.src_duration()
    }

    /// The frame rate the video is resampled to.
    pub fn target_fps(&self) -> (r: Fps)
        ensures
            r == self@.target_fps,
    {
        self.target_fps
    }

    /// The multiplier on the source's playback speed.
    pub fn playback_speed(&self) -> (r: Fps)
        ensures
            r == self@.playback_speed,
    {
        self.playback_speed
    }

    /// Whether the stream is paused.
    pub fn paused(&self) -> (r: bool)
        ensures
            r == self@.paused,
    {
        self.resampled_paused
    }

    /// Whether the stream will loop.
    pub fn will_loop(&self) -> (r: bool)
        ensures
            r == self@.will_loop,
    {
        self.will_loop
    }

    /// Set whether the stream will loop.
    pub fn set_will_loop(&mut self, will_loop: bool)
        ensures
            final(self)@ == (ResampledView { will_loop, ..old(self)@ }),
    {
        proof {
            use_type_invariant(&*self);
        }
        *self = ResampledFFmpegVideo { will_loop, ..*self };
    }

    /// The source video's native frame rate.
    pub fn src_fps(&self) -> (r: Fps)
        ensures
            r == self@.src_fps,
    {
        self.src_fps
    }
}

/// Both parts of the playback ratio of valid frame rates are positive.
pub proof fn lemma_playback_ratio_positive(src_fps: Fps, speed: Fps, target_fps: Fps)
    requires
        src_fps.valid(),
        speed.valid(),
        target_fps.valid(),
    ensures
        playback_ratio(src_fps, speed, target_fps).0 > 0,
        playback_ratio(src_fps, speed, target_fps).1 > 0,
{
    let a = src_fps.numer() * speed.numer();
    let b = src_fps.denom() * speed.denom();
    vstd::arithmetic::mul::lemma_mul_strictly_positive(src_fps.numer() as int, speed.numer() as int);
    vstd::arithmetic::mul::lemma_mul_strictly_positive(src_fps.denom() as int, speed.denom() as int);
    lemma_reduced_is_simplified(a, b);
    let sn = reduced_num(a, b);
    let sd = reduced_den(a, b);
    vstd::arithmetic::mul::lemma_mul_strictly_positive(sn as int, target_fps.denom() as int);
    vstd::arithmetic::mul::lemma_mul_strictly_positive(sd as int, target_fps.numer() as int);
    lemma_reduced_is_simplified(sn * target_fps.denom(), sd * target_fps.numer());
}

/// Changing the target frame rate or the playback speed keeps the clip on
/// the same moments of the video. A resampled index `i` under a ratio `(n,
/// d)` (source frames per resampled frame) shows the moment `i * n / d` of
/// the source. Where the moment of the old clip start lies inside the video
/// at the new ratio, the new clip start is the last new index whose moment
/// is not after it; likewise for the clip end, where its moment lies inside
/// the video and not before the new start.
pub proof fn lemma_reconfigure_keeps_clip_moments(v: ResampledView, target_fps: Fps, speed: Fps)
    requires
        v.valid(),
        v.src_fps.valid(),
        target_fps.valid(),
        speed.valid(),
    ensures
        ({
            let r = v.reconfigured(target_fps, speed);
            let y = v.ratio.1 * r.ratio.0;
            let xs = v.clip.start * v.ratio.0 * r.ratio.1;
            let xe = v.clip.end * v.ratio.0 * r.ratio.1;
            &&& y > 0
            &&& xs < r.duration * y ==> r.clip.start * y <= xs < (r.clip.start + 1) * y
            &&& xe < r.duration * y && r.clip.start * y <= xe ==> r.clip.end * y <= xe < (
            r.clip.end + 1) * y
        }),
{
    let r = v.reconfigured(target_fps, speed);
    let ratio = playback_ratio(v.src_fps, speed, target_fps);
    lemma_playback_ratio_positive(v.src_fps, speed, target_fps);
    let y: int = (v.ratio.1 * ratio.0) as int;
    vstd::arithmetic::mul::lemma_mul_strictly_positive(v.ratio.1 as int, ratio.0 as int);
    let duration = duration_for(ratio, v.src_duration);
    assert(r.ratio == ratio && r.duration == duration);
    let xs: int = v.clip.start * v.ratio.0 * ratio.1;
    let xe: int = v.clip.end * v.ratio.0 * ratio.1;
    vstd::arithmetic::mul::lemma_mul_nonnegative(v.clip.start * v.ratio.0, ratio.1 as int);
    vstd::arithmetic::mul::lemma_mul_nonnegative(v.clip.end * v.ratio.0, ratio.1 as int);
    let ts: int = xs / y;
    let te: int = xe / y;
    vstd::arithmetic::div_mod::lemma_fundamental_div_mod(xs as int, y as int);
    vstd::arithmetic::div_mod::lemma_fundamental_div_mod(xe as int, y as int);
    vstd::arithmetic::div_mod::lemma_mod_bound(xs as int, y as int);
    vstd::arithmetic::div_mod::lemma_mod_bound(xe as int, y as int);
    vstd::arithmetic::mul::lemma_mul_is_commutative(y as int, ts as int);
    vstd::arithmetic::mul::lemma_mul_is_commutative(y as int, te as int);
    let tstart = translated(v.clip.start, v.ratio, ratio);
    let tend = translated(v.clip.end, v.ratio, ratio);
    assert(r.clip == fixed(Clip { start: tstart, end: tend }, duration));
    if xs < duration * y {
        vstd::arithmetic::div_mod::lemma_div_is_ordered(xs as int, (duration * y) as int, y as int);
        vstd::arithmetic::div_mod::lemma_div_by_multiple(duration as int, y as int);
        if ts == duration {
            vstd::arithmetic::div_mod::lemma_div_by_multiple_is_strongly_ordered(
                xs as int,
                (duration * y) as int,
                duration as int,
                y as int,
            );
        }
        assert(ts < duration);
        assert(tstart == ts);
        assert(r.clip.start == ts);
        vstd::arithmetic::mul::lemma_mul_is_distributive_add_other_way(y as int, ts as int, 1);
    }
    if xe < duration * y && r.clip.start * y <= xe {
        vstd::arithmetic::div_mod::lemma_div_is_ordered(xe as int, (duration * y) as int, y as int);
        vstd::arithmetic::div_mod::lemma_div_by_multiple(duration as int, y as int);
        if te == duration {
            vstd::arithmetic::div_mod::lemma_div_by_multiple_is_strongly_ordered(
                xe as int,
                (duration * y) as int,
                duration as int,
                y as int,
            );
        }
        assert(te < duration);
        assert(tend == te);
        assert(r.clip.start <= te) by {
            if r.clip.start > te {
                vstd::arithmetic::mul::lemma_mul_inequality((te + 1) as int, r.clip.start as int, y);
                vstd::arithmetic::mul::lemma_mul_is_distributive_add_other_way(y as int, te as int, 1);
            }
        }
        assert(r.clip.end == te);
        vstd::arithmetic::mul::lemma_mul_is_distributive_add_other_way(y as int, te as int, 1);
    }
}

} // verus!
