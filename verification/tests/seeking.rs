//! Collecting keyframes and finding where to seek.

use media::ffmpeg_tools::ffmpeg_video::inner::FrameStats;
use media::ffmpeg_tools::ffmpeg_video::seek_info::SeekInfo;
use media::ffmpeg_tools::ffmpeg_video::seeking::{
    seek_target, should_walk_instead_of_seek, ScanError, SeekInfoScan, SeekTarget,
};

fn stats(is_keyframe: bool, timestamp: i64) -> FrameStats {
    FrameStats::from_frame(is_keyframe, Some(timestamp)).unwrap()
}

fn sample() -> SeekInfo {
    SeekInfo { frame_count: 100, keyframe_timestamps: vec![(0, 0), (30, 3000), (60, 6000), (90, 9100)] }
}

#[test]
fn scanning_collects_keyframes() {
    let mut scan = SeekInfoScan::new();
    for i in 0..10i64 {
        assert_eq!(scan.push_frame(stats(i % 4 == 0, i * 10)), Ok(()));
    }
    let info = scan.finish().unwrap();
    assert_eq!(info.frame_count, 10);
    assert_eq!(info.keyframe_timestamps, vec![(0, 0), (4, 40), (8, 80)]);
}

#[test]
fn scanning_rejects_bad_streams() {
    let mut scan = SeekInfoScan::new();
    assert_eq!(scan.push_frame(stats(false, 0)), Err(ScanError::UnsupportedFormat));
    let mut scan = SeekInfoScan::new();
    assert_eq!(scan.push_frame(stats(true, 5)), Ok(()));
    assert_eq!(scan.push_frame(stats(false, 5)), Err(ScanError::UnsupportedFormat));
    assert!(SeekInfoScan::new().finish().is_none());
}

#[test]
fn seek_targets() {
    let info = sample();
    assert_eq!(
        seek_target(&info, 45),
        SeekTarget {
            keyframe_idx: 1,
            frame_idx: 30,
            timestamp: 3000,
            min_timestamp: 1500,
            max_timestamp: 4500,
            frames_until_target: 15,
        }
    );
    let first = seek_target(&info, 0);
    assert_eq!((first.keyframe_idx, first.min_timestamp, first.max_timestamp), (0, i64::MIN, 1500));
    let exact = seek_target(&info, 60);
    assert_eq!((exact.keyframe_idx, exact.frames_until_target), (2, 0));
    // Halfway between 6000 and 9100 is 7550 on the way up.
    assert_eq!(exact.max_timestamp, 7550);
    let last = seek_target(&info, 99);
    assert_eq!((last.keyframe_idx, last.min_timestamp, last.max_timestamp), (3, 7550, i64::MAX));
    assert_eq!(last.frames_until_target, 9);
}

#[test]
fn walking_or_seeking() {
    assert!(!should_walk_instead_of_seek(10, 9, None, None));
    assert!(should_walk_instead_of_seek(10, 11, Some(2), Some(5)));
    assert!(should_walk_instead_of_seek(10, 10, None, None));
    assert!(should_walk_instead_of_seek(10, 42, None, None));
    assert!(!should_walk_instead_of_seek(10, 43, None, None));
    assert!(should_walk_instead_of_seek(0, 20, Some(30), Some(10)));
    assert!(!should_walk_instead_of_seek(0, 21, Some(30), Some(10)));
    assert!(!should_walk_instead_of_seek(0, 5, Some(3), Some(10)));
}
