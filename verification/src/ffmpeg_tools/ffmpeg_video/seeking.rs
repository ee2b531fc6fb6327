//! Seeking in an FFmpeg video: collecting the keyframes of a video while it
//! is decoded once, finding the keyframe to seek to for a frame, and deciding
//! whether to seek at all or to decode forward instead.

use vstd::prelude::*;

use super::inner::FrameStats;
use super::seek_info::SeekInfo;

verus! {

/// Keyframe entries sorted by both frame index and timestamp, strictly.
pub open spec fn keyframes_sorted(kts: Seq<(usize, i64)>) -> bool {
    forall|i: int, j: int|
        0 <= i < j < kts.len() ==> (#[trigger] kts[i]).0 < (#[trigger] kts[j]).0 && kts[i].1
            < kts[j].1
}

/// Where to seek to reach a frame.
#[derive(Debug, Clone, Copy, PartialEq, Eq)]
pub struct SeekTarget {
    /// The index of the keyframe entry to seek to.
    pub keyframe_idx: usize,
    /// The frame index of that keyframe.
    pub frame_idx: usize,
    /// The timestamp of that keyframe.
    pub timestamp: i64,
    /// The earliest timestamp to accept: halfway from the previous keyframe
    /// (rounded towards this one), or the smallest timestamp for the first.
    pub min_timestamp: i64,
    /// The latest timestamp to accept: halfway to the next keyframe, or the
    /// largest timestamp for the last.
    pub max_timestamp: i64,
    /// The frames to decode after the keyframe to reach the target.
    pub frames_until_target: usize,
}

/// The smallest timestamp to accept when seeking to keyframe `k`.
pub open spec fn min_timestamp_for(kts: Seq<(usize, i64)>, k: int) -> int {
    if k == 0 {
        i64::MIN as int
    } else {
        kts[k - 1].1 + (kts[k].1 - kts[k - 1].1 + 1) / 2
    }
}

/// The largest timestamp to accept when seeking to keyframe `k`.
pub open spec fn max_timestamp_for(kts: Seq<(usize, i64)>, k: int) -> int {
    if k + 1 >= kts.len() {
        i64::MAX as int
    } else {
        kts[k].1 + (kts[k + 1].1 - kts[k].1) / 2
    }
}

/// Where to seek so that the next frame decoded after skipping is
/// `new_playhead`: the last keyframe at or before it, a window of timestamps
/// around that keyframe to absorb small timestamp errors, and the number of
/// frames to skip after it.
pub fn seek_target(seek_info: &SeekInfo, new_playhead: usize) -> (r: SeekTarget)
    requires
        seek_info.is_valid(),
        keyframes_sorted(seek_info.keyframe_timestamps@),
        new_playhead < seek_info.frame_count,
    ensures
        ({
            let kts = seek_info.keyframe_timestamps@;
            let k = r.keyframe_idx as int;
            &&& 0 <= k < kts.len()
            &&& kts[k].0 <= new_playhead
            &&& k + 1 < kts.len() ==> kts[k + 1].0 > new_playhead
            &&& r.frame_idx == kts[k].0
            &&& r.timestamp == kts[k].1
            &&& r.min_timestamp == min_timestamp_for(kts, k)
            &&& r.max_timestamp == max_timestamp_for(kts, k)
            &&& r.frames_until_target == new_playhead - kts[k].0
        }),
{
    let kts = &seek_info.keyframe_timestamps;
    let len = kts.len();
    // Invariant: kts[lo].0 <= new_playhead, and every entry from hi on is
    // after it.
    let mut lo: usize = 0;
    let mut hi: usize = len;
    while lo + 1 < hi
        invariant
            kts@ == seek_info.keyframe_timestamps@,
            len == kts@.len(),
            keyframes_sorted(kts@),
            0 <= lo < hi <= len,
            kts@[lo as int].0 <= new_playhead,
            hi < len ==> kts@[hi as int].0 > new_playhead,
        decreases hi - lo,
    {
        let mid = lo + (hi - lo) / 2;
        if kts[mid].0 <= new_playhead {
            lo = mid;
        } else {
            hi = mid;
        }
    }
    proof {
        if lo + 1 < len {
            assert(hi == lo + 1);
        }
    }
    let (frame_idx, timestamp) = kts[lo];
    let min_timestamp: i64 = if lo == 0 {
        i64::MIN
    } else {
        let last = kts[lo - 1].1;
        assert(last < timestamp);
        let diff: u128 = (timestamp as i128 - last as i128 + 1) as u128;
        let half: u128 = diff / 2;
        assert(half <= timestamp - last);
        (last as i128 + half as i128) as i64
    };
    let max_timestamp: i64 = if lo + 1 >= len {
        i64::MAX
    } else {
        let next = kts[lo + 1].1;
        assert(timestamp < next);
        let diff: u128 = (next as i128 - timestamp as i128) as u128;
        let half: u128 = diff / 2;
        assert(half <= next - timestamp);
        (timestamp as i128 + half as i128) as i64
    };
    SeekTarget {
        keyframe_idx: lo,
        frame_idx,
        timestamp,
        min_timestamp,
        max_timestamp,
        frames_until_target: new_playhead - frame_idx,
    }
}

/// The number of frames between keyframes assumed when it is not known.
pub const DEFAULT_FRAMES_BETWEEN_KEYFRAMES_GUESS: usize = 32;

/// A best guess as to whether decoding forward from `playhead` to
/// `new_playhead` is cheaper than seeking: never backwards, always for a
/// single frame, and otherwise when the target comes before the next
/// keyframe is expected (`max_frames_between_keyframes` after the last one,
/// 32 if unknown; `frames_since_keyframe` is 0 if unknown).
pub fn should_walk_instead_of_seek(
    playhead: usize,
    new_playhead: usize,
    max_frames_between_keyframes: Option<usize>,
    frames_since_keyframe: Option<usize>,
) -> (r: bool)
    ensures
        r == (playhead <= new_playhead && (new_playhead - playhead <= 1 || new_playhead - playhead
            <= ({
            let between = match max_frames_between_keyframes {
                Some(n) => n as int,
                None => DEFAULT_FRAMES_BETWEEN_KEYFRAMES_GUESS as int,
            };
            let since = match frames_since_keyframe {
                Some(n) => n as int,
                None => 0,
            };
            if between > since {
                between - since
            } else {
                0
            }
        }))),
{
    if new_playhead < playhead {
        return false;
    }
    let frames_to_go = new_playhead - playhead;
    if frames_to_go <= 1 {
        return true;
    }
    let frames_between_keyframes = match max_frames_between_keyframes {
        Some(n) => n,
        None => DEFAULT_FRAMES_BETWEEN_KEYFRAMES_GUESS,
    };
    let since = match frames_since_keyframe {
        Some(n) => n,
        None => 0,
    };
    let frames_until_keyframe = frames_between_keyframes.saturating_sub(since);
    frames_to_go <= frames_until_keyframe
}

/// Why the frames of a video cannot be used for seeking.
#[derive(Debug, Clone, Copy, PartialEq, Eq)]
pub enum ScanError {
    /// A frame's timestamp is not after the one before it, or the first frame
    /// is not a keyframe (a format this crate does not support).
    UnsupportedFormat,
}

/// Collects the keyframes of a video while its frames are decoded in order,
/// to build its [SeekInfo].
#[derive(Debug)]
pub struct SeekInfoScan {
    frames: usize,
    last_timestamp: i64,
    keyframe_timestamps: Vec<(usize, i64)>,
}

impl View for SeekInfoScan {
    type V = (nat, i64, Seq<(usize, i64)>);

    /// The frames seen, the last timestamp (the smallest `i64` before the
    /// first frame) and the keyframes found.
    closed spec fn view(&self) -> (nat, i64, Seq<(usize, i64)>) {
        (self.frames as nat, self.last_timestamp, self.keyframe_timestamps@)
    }
}

impl SeekInfoScan {
    #[verifier::type_invariant]
    spec fn inv(&self) -> bool {
        let kts = self.keyframe_timestamps@;
        &&& keyframes_sorted(kts)
        &&& self.frames > 0 ==> kts.len() > 0 && kts[0].0 == 0
        &&& forall|i: int| 0 <= i < kts.len() ==> (#[trigger] kts[i]).0 < self.frames && kts[i].1
            <= self.last_timestamp
    }

    /// A scan that has seen no frames.
    pub fn new() -> (r: Self)
        ensures
            r@ == (0nat, i64::MIN, Seq::<(usize, i64)>::empty()),
    {
        SeekInfoScan { frames: 0, last_timestamp: i64::MIN, keyframe_timestamps: Vec::new() }
    }

    /// Records the next decoded frame. Fails if its timestamp is not after the
    /// last one, or if the first frame is not a keyframe.
    pub fn push_frame(&mut self, stats: FrameStats) -> (r: Result<(), ScanError>)
        requires
            old(self)@.0 < usize::MAX,
        ensures
            r is Err <==> stats@.1 <= old(self)@.1 || (old(self)@.0 == 0 && !stats@.0),
            r is Ok ==> final(self)@ == (
                old(self)@.0 + 1,
                stats@.1,
                if stats@.0 {
                    old(self)@.2.push((old(self)@.0 as usize, stats@.1))
                } else {
                    old(self)@.2
                },
            ),
    {
        proof {
            use_type_invariant(&*self);
        }
        let timestamp = stats.timestamp();
        let is_keyframe = stats.is_keyframe();
        if timestamp <= self.last_timestamp {
            return Err(ScanError::UnsupportedFormat);
        }
        if !is_keyframe && self.frames == 0 {
            return Err(ScanError::UnsupportedFormat);
        }
        let frame_idx = self.frames;
        let mut old_scan = SeekInfoScan::new();
        std::mem::swap(&mut old_scan, self);
        let SeekInfoScan { frames: _, last_timestamp: _, mut keyframe_timestamps } = old_scan;
        if is_keyframe {
            keyframe_timestamps.push((frame_idx, timestamp));
        }
        let ghost kts = keyframe_timestamps@;
        proof {
            assert forall|i: int, j: int| 0 <= i < j < kts.len() implies (#[trigger] kts[i]).0
                < (#[trigger] kts[j]).0 && kts[i].1 < kts[j].1 by {
                if j == kts.len() - 1 && is_keyframe {
                    assert(kts[i] == old(self)@.2[i]);
                } else {
                    assert(kts[i] == old(self)@.2[i] && kts[j] == old(self)@.2[j]);
                }
            }
            assert forall|i: int| 0 <= i < kts.len() implies (#[trigger] kts[i]).0 < frame_idx
                + 1 && kts[i].1 <= timestamp by {
                if !(is_keyframe && i == kts.len() - 1) {
                    assert(kts[i] == old(self)@.2[i]);
                }
            }
            if frame_idx == 0 {
                assert(kts.len() > 0 && kts[0].0 == 0);
            } else {
                assert(kts[0] == old(self)@.2[0]);
            }
        }
        *self = SeekInfoScan {
            frames: frame_idx + 1,
            last_timestamp: timestamp,
            keyframe_timestamps,
        };
        Ok(())
    }

    /// The [SeekInfo] of the frames seen, once the video is over; [None] if
    /// there were none. It is valid and its keyframes are sorted.
    pub fn finish(self) -> (r: Option<SeekInfo>)
        ensures
            r is None <==> self@.0 == 0,
            r matches Some(s) ==> {
                &&& s.frame_count == self@.0
                &&& s.keyframe_timestamps@ == self@.2
                &&& s.is_valid()
                &&& keyframes_sorted(s.keyframe_timestamps@)
            },
    {
        proof {
            use_type_invariant(&self);
        }
        if self.frames == 0 {
            return None;
        }
        Some(SeekInfo { frame_count: self.frames, keyframe_timestamps: self.keyframe_timestamps })
    }
}

} // verus!
