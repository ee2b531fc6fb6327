//! Frame rates: construction, arithmetic, comparison and the common rates.

use media::fps::consts;
use media::fps::{resample, resample_back, resample_duration, Fps, FpsError, Resampler};

#[test]
fn from_frac_simplifies() {
    let fps = Fps::from_frac(60, 2).unwrap();
    assert_eq!(fps.as_frac(), (30, 1));
    assert_eq!(fps, consts::FPS_30());
    assert_eq!(Fps::from_frac(48000, 2002).unwrap().as_frac(), (24000, 1001));
}

#[test]
fn from_frac_rejects_zero_parts() {
    assert_eq!(Fps::from_frac(0, 1), Err(FpsError::NonPositiveNum));
    assert_eq!(Fps::from_frac(1, 0), Err(FpsError::NonPositiveDen));
    assert_eq!(Fps::from_frac(0, 0), Err(FpsError::NonPositiveNum));
    assert_eq!(Fps::from_int(0), Err(FpsError::NonPositiveNum));
}

#[test]
fn from_int_and_as_int() {
    let fps = Fps::from_int(25).unwrap();
    assert_eq!(fps.as_frac(), (25, 1));
    assert_eq!(fps.as_int(), Ok(25));
    assert_eq!(fps.as_non_zero_int(), Ok(25));
    assert_eq!(Fps::from_non_zero_int(7).num(), 7);
    assert_eq!(
        consts::FPS_29_97().as_int(),
        Err(FpsError::NoIntRepresentation)
    );
}

#[test]
fn getters_report_the_lowest_terms() {
    let fps = Fps::from_frac(10, 4).unwrap();
    assert_eq!(fps.num(), 5);
    assert_eq!(fps.den(), 2);
    assert_eq!(fps.num_non_zero(), 5);
    assert_eq!(fps.den_non_zero(), 2);
    assert_eq!(fps.as_non_zero_frac(), (5, 2));
    assert_eq!(Fps::from_non_zero_frac(9, 6).as_frac(), (3, 2));
    assert_eq!(Fps::from_simplified_frac(3, 2).unwrap().as_frac(), (3, 2));
    assert_eq!(Fps::from_simplified_non_zero_frac(7, 5).as_frac(), (7, 5));
}

#[test]
fn inverse_is_an_involution() {
    let fps = Fps::from_frac(24000, 1001).unwrap();
    assert_eq!(fps.inverse().as_frac(), (1001, 24000));
    assert_eq!(fps.inverse().inverse(), fps);
}

#[test]
fn mul_and_div() {
    let a = Fps::from_frac(3, 2).unwrap();
    let b = Fps::from_frac(4, 9).unwrap();
    assert_eq!(a.mul(b).as_frac(), (2, 3));
    assert_eq!(a.div(b).as_frac(), (27, 8));
}

#[test]
fn add_gives_the_mean_of_the_rates() {
    // The sum's denominator counts both operands' denominators, so the result
    // is the mean of the two rates.
    let a = consts::FPS_30();
    let b = consts::FPS_60();
    assert_eq!(a.add(b).as_frac(), (45, 1));
    let c = Fps::from_frac(1, 2).unwrap();
    let d = Fps::from_frac(1, 3).unwrap();
    assert_eq!(c.add(d).as_frac(), (5, 12));
}

#[test]
fn ordering_follows_the_value() {
    assert!(consts::FPS_29_97() < consts::FPS_30());
    assert!(consts::FPS_60() > consts::FPS_59_94());
    assert!(Fps::from_frac(2, 4).unwrap() <= Fps::from_frac(1, 2).unwrap());
    assert_eq!(
        consts::FPS_24().partial_cmp(&consts::FPS_24()),
        Some(std::cmp::Ordering::Equal)
    );
}

#[test]
fn ntsc_constants() {
    assert_eq!(consts::FPS_23_976(), Fps::from_frac(24000, 1001).unwrap());
    assert_eq!(consts::FPS_29_97(), Fps::from_frac(30000, 1001).unwrap());
    assert_eq!(consts::FPS_59_94(), Fps::from_frac(60000, 1001).unwrap());
}

#[test]
fn common_frame_rates_and_names() {
    let rates = consts::COMMON_FRAME_RATES();
    assert_eq!(rates.len(), 22);
    assert_eq!(rates[0], consts::FPS_1());
    assert_eq!(rates[21], consts::FPS_360());
    assert_eq!(consts::common_frame_rate_name(consts::FPS_24()), Some("24 (film)"));
    assert_eq!(
        consts::common_frame_rate_name(consts::FPS_29_97()),
        Some("29.97 (NTSC)")
    );
    assert_eq!(consts::common_frame_rate_name(consts::FPS_75()), Some("60"));
    assert_eq!(consts::common_frame_rate_name(Fps::from_int(31).unwrap()), None);
}

#[test]
fn error_messages() {
    assert_eq!(
        FpsError::NonPositiveDen.message(),
        "A frame rate cannot be created with a non-positive denominator."
    );
    assert_eq!(
        FpsError::NoIntRepresentation.message(),
        "A frame rate cannot be converted to an integer if it has a denominator over 1."
    );
}

#[test]
fn resample_back_finds_the_first_destination_index() {
    // 30 -> 60: source frame 3 is first shown at destination frame 6.
    assert_eq!(resample_back(3, consts::FPS_30(), consts::FPS_60()), 6);
    // 60 -> 30: source frame 3 is skipped; the first destination frame at or
    // after it is 2 (source 4).
    assert_eq!(resample_back(3, consts::FPS_60(), consts::FPS_30()), 2);
    assert_eq!(resample(2, consts::FPS_60(), consts::FPS_30()), 4);
    // 7/3 -> 5/2 for a large index matches the resample sequence.
    let src = Fps::from_frac(7, 3).unwrap();
    let dest = Fps::from_frac(5, 2).unwrap();
    let back = resample_back(933338, src, dest);
    assert_eq!(back, 1000005);
    assert_eq!(resample(back, src, dest), 933338);
    assert!(resample(back - 1, src, dest) < 933338);
}

#[test]
fn resample_duration_scales_the_length() {
    assert_eq!(resample_duration(100, consts::FPS_30(), consts::FPS_60()), 200);
    assert_eq!(resample_duration(101, consts::FPS_60(), consts::FPS_30()), 50);
    assert_eq!(resample_duration(0, consts::FPS_24(), consts::FPS_60()), 0);
}

#[test]
fn resampler_methods() {
    let r = Resampler::new(consts::FPS_24(), consts::FPS_60());
    assert_eq!(r.resample(5), 2);
    assert_eq!(r.resample_back(2), 5);
    assert_eq!(r.duration(24), 60);
    let noop = Resampler::no_op();
    assert_eq!(noop.resample(17), 17);
    // Index 10 at 24 -> 30 (source 8) becomes index 20 at 24 -> 60.
    let old = Resampler::new(consts::FPS_24(), consts::FPS_30());
    assert_eq!(old.resample(10), 8);
    assert_eq!(r.translate_old_dest_idx(old, 10), 20);
}

#[test]
fn positive_fractions_always_make_frame_rates() {
    assert_eq!(Fps::from_frac(6, 4).unwrap().as_frac(), (3, 2));
    assert_eq!(Fps::from_int(24).unwrap().as_frac(), (24, 1));
    assert_eq!(Fps::from_int(24), Fps::from_frac(48, 2));
    assert_eq!(Fps::from_simplified_frac(3, 2).unwrap().as_frac(), (3, 2));
    assert_eq!(Fps::from_frac(u32::MAX, u32::MAX).unwrap().as_frac(), (1, 1));
}

#[test]
fn resampler_agrees_with_free_functions() {
    for (src, dest) in [
        (consts::FPS_24(), consts::FPS_60()),
        (consts::FPS_29_97(), consts::FPS_25()),
        (consts::FPS_60(), consts::FPS_23_976()),
    ] {
        let r = Resampler::new(src, dest);
        for i in 0..200usize {
            assert_eq!(r.resample_back(i), resample_back(i, src, dest));
            assert!(r.resample(r.resample_back(i)) >= i);
            assert_eq!(r.duration(i), resample_duration(i, src, dest));
            assert_eq!(r.translate_old_dest_idx(r, i), i);
        }
    }
    // From 24 -> 30 to 24 -> 60 every index doubles.
    let old = Resampler::new(consts::FPS_24(), consts::FPS_30());
    let new = Resampler::new(consts::FPS_24(), consts::FPS_60());
    for i in 0..50usize {
        assert_eq!(new.translate_old_dest_idx(old, i), 2 * i);
    }
}
