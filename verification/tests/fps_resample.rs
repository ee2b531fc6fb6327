//! Resampling between frame rates, through both [fps::resample] and
//! [fps::Resampler].

use media::fps::consts;
use media::fps::Fps;
use media::fps::{resample, Resampler};

/// Runs both [resample] and [Resampler::resample] and checks that they agree.
fn resample_both(dest_idx: usize, src: Fps, dest: Fps) -> usize {
    let a = resample(dest_idx, src, dest);
    let b = Resampler::new(src, dest).resample(dest_idx);
    assert_eq!(a, b, "Resample methods not equivalent! ({a} != {b})");
    a
}

#[test]
fn fps_resample_always_starts_at_0() {
    // Even with crazy values dest_idx=0 should always return 0

    // even divide
    let slow = Fps::from_frac(1, 10_000).unwrap();
    let fast = Fps::from_frac(10_000, 1).unwrap();
    assert_eq!(resample_both(0, slow, fast), 0);
    assert_eq!(resample_both(0, fast, slow), 0);

    // uneven divide
    let slow = Fps::from_frac(3, 10_000).unwrap();
    let fast = Fps::from_frac(10_000, 3).unwrap();
    assert_eq!(resample_both(0, slow, fast), 0);
    assert_eq!(resample_both(0, fast, slow), 0);
}

#[test]
fn fps_resample_works_with_easy_fractions() {
    // 60/1 -> 30/1 (60Hz -> 30Hz)
    // Should skip every other frame in src
    let src = consts::FPS_60();
    let dest = consts::FPS_30();
    for dest_idx in 0..1000 {
        let expected_src_idx = dest_idx * 2;
        assert_eq!(resample_both(dest_idx, src, dest), expected_src_idx);
    }

    // 30/1 -> 60/1 (30Hz -> 60Hz)
    // Should duplicate every src frame once
    let src = consts::FPS_30();
    let dest = consts::FPS_60();
    for dest_idx in 0..1000 {
        let expected_src_idx = dest_idx / 2;
        assert_eq!(resample_both(dest_idx, src, dest), expected_src_idx);
    }
}

#[test]
fn fps_resample_works_with_complex_fractions() {
    // 7/3 -> 5/2 (2.333Hz -> 2.5Hz)
    let src = Fps::from_frac(7, 3).unwrap();
    let dest = Fps::from_frac(5, 2).unwrap();
    let sequence = [
        (0, 0), (1, 0), (2, 1), (3, 2), (4, 3), (5, 4), (6, 5), (7, 6), (8, 7), (9, 8),
        (10, 9), (11, 10), (12, 11), (13, 12), (14, 13), (15, 14), (16, 14), (17, 15),
        (18, 16), (19, 17), (20, 18), (21, 19), (22, 20), (23, 21), (24, 22), (25, 23),
        (26, 24), (27, 25), (28, 26), (29, 27),
    ];
    for (dest_idx, expected_src_idx) in sequence {
        assert_eq!(resample_both(dest_idx, src, dest), expected_src_idx);
    }

    // 11/4 -> 3/5 (2.75Hz -> 0.6Hz)
    let src = Fps::from_frac(11, 4).unwrap();
    let dest = Fps::from_frac(3, 5).unwrap();
    let sequence = [
        (0, 0), (1, 4), (2, 9), (3, 13), (4, 18), (5, 22), (6, 27), (7, 32), (8, 36),
        (9, 41), (10, 45), (11, 50), (12, 55), (13, 59), (14, 64), (15, 68), (16, 73),
        (17, 77), (18, 82), (19, 87), (20, 91), (21, 96), (22, 100), (23, 105), (24, 110),
    ];
    for (dest_idx, expected_src_idx) in sequence {
        assert_eq!(resample_both(dest_idx, src, dest), expected_src_idx);
    }

    // 5/7 -> 13/3 (0.714Hz -> 4.333Hz)
    let src = Fps::from_frac(5, 7).unwrap();
    let dest = Fps::from_frac(13, 3).unwrap();
    let sequence = [
        (0, 0), (1, 0), (2, 0), (3, 0), (4, 0), (5, 0), (6, 0), (7, 1), (8, 1), (9, 1),
        (10, 1), (11, 1), (12, 1), (13, 2), (14, 2), (15, 2), (16, 2), (17, 2), (18, 2),
        (19, 3), (20, 3), (21, 3), (22, 3), (23, 3), (24, 3), (25, 4), (26, 4), (27, 4),
        (28, 4), (29, 4), (30, 4), (31, 5), (32, 5), (33, 5), (34, 5), (35, 5), (36, 5),
        (37, 6), (38, 6), (39, 6), (40, 6),
    ];
    for (dest_idx, expected_src_idx) in sequence {
        assert_eq!(resample_both(dest_idx, src, dest), expected_src_idx);
    }
}

#[test]
fn fps_resample_works_with_large_dest_idx() {
    // 7/3 -> 5/2 (2.333Hz -> 2.5Hz)
    let src = Fps::from_frac(7, 3).unwrap();
    let dest = Fps::from_frac(5, 2).unwrap();
    let sequence = [
        (1000000, 933333), (1000001, 933334), (1000002, 933335), (1000003, 933336),
        (1000004, 933337), (1000005, 933338), (1000006, 933338), (1000007, 933339),
        (1000008, 933340), (1000009, 933341),
    ];
    for (dest_idx, expected_src_idx) in sequence {
        assert_eq!(resample_both(dest_idx, src, dest), expected_src_idx);
    }

    // 9/8 -> 8/9 (1.125Hz -> 0.889Hz)
    let src = Fps::from_frac(9, 8).unwrap();
    let dest = Fps::from_frac(8, 9).unwrap();
    let sequence = [
        (1000000, 1265625), (1000001, 1265626), (1000002, 1265627), (1000003, 1265628),
        (1000004, 1265630), (1000005, 1265631), (1000006, 1265632), (1000007, 1265633),
        (1000008, 1265635), (1000009, 1265636),
    ];
    for (dest_idx, expected_src_idx) in sequence {
        assert_eq!(resample_both(dest_idx, src, dest), expected_src_idx);
    }
}
