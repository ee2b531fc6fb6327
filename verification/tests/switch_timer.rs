//! Decisions of the frame switch timer.

use std::time::Duration;

use media::fps::consts;
use media::fps::switch_timer::SwitchTimer;

// --- is_switch_time decisions ---

#[test]
fn first_call_always_returns_true() {
    let mut timer = SwitchTimer::new(consts::FPS_60());

    assert!(timer.is_switch_time());
}

#[test]
fn second_call_without_time_elapsed_returns_false() {
    let mut timer = SwitchTimer::new(consts::FPS_60());

    timer.is_switch_time(); // first = true
    assert!(!timer.is_switch_time()); // no time passed
}

// --- time_until_next_switch decisions ---

#[test]
fn time_until_next_switch_before_start_is_zero() {
    let timer = SwitchTimer::new(consts::FPS_60());

    assert_eq!(timer.time_until_next_switch(), Duration::ZERO);
}

#[test]
fn time_until_next_switch_after_start_non_zero() {
    let mut timer = SwitchTimer::new(consts::FPS_60());

    timer.is_switch_time(); // start clock

    let remaining = timer.time_until_next_switch();

    // should be >= 0, usually > 0
    assert!(remaining >= Duration::ZERO);
}

// --- reset behavior ---

#[test]
fn reset_restores_initial_behavior() {
    let mut timer = SwitchTimer::new(consts::FPS_60());

    timer.is_switch_time();
    timer.is_switch_time();

    timer.reset();

    // after reset, first call should again be true
    assert!(timer.is_switch_time());
}

// --- set_target_fps decisions ---

#[test]
fn set_target_fps_same_value_does_not_reset() {
    let mut timer = SwitchTimer::new(consts::FPS_60());

    timer.is_switch_time(); // start

    timer.set_target_fps(consts::FPS_60());

    // should NOT behave like reset
    assert!(!timer.is_switch_time());
}

#[test]
fn set_target_fps_different_value_resets() {
    let mut timer = SwitchTimer::new(consts::FPS_60());

    timer.is_switch_time(); // start

    timer.set_target_fps(consts::FPS_30());

    // should behave like first call again
    assert!(timer.is_switch_time());
}

// --- target_fps getter ---

#[test]
fn target_fps_returns_current_value() {
    let timer = SwitchTimer::new(consts::FPS_60());

    assert_eq!(timer.target_fps(), consts::FPS_60());
}

// --- the pure decisions behind the clock ---

#[test]
fn switch_after_counts_whole_frames() {
    let mut timer = SwitchTimer::new(consts::FPS_60());

    // The first call starts the clock and always switches.
    assert!(timer.is_switch_time());
    // 10ms into a 60 FPS stream is still frame 0.
    assert!(!timer.switch_after(10_000_000));
    // 17ms is past the first frame boundary (16.67ms).
    assert!(timer.switch_after(17_000_000));
    // Still in frame 1 at 20ms.
    assert!(!timer.switch_after(20_000_000));
    // Jumping ahead several frames switches once.
    assert!(timer.switch_after(100_000_000));
}

#[test]
fn remaining_after_is_time_to_next_frame_boundary() {
    let mut timer = SwitchTimer::new(consts::FPS_30());
    timer.is_switch_time();
    // At 30 FPS frame 1 starts at 33_333_333ns (rounded down); 10ms in,
    // 23_333_333ns remain.
    assert_eq!(timer.remaining_after(10_000_000), (0, 23_333_333));
    // Behind schedule: nothing remains.
    assert_eq!(timer.remaining_after(40_000_000), (0, 0));
}

#[test]
fn switches_never_outrun_the_clock() {
    // At 60 fps a frame interval is 16_666_667 ns (rounded up).
    let mut timer = SwitchTimer::new(consts::FPS_60());
    let readings = [0u128, 1_000, 20_000_000, 20_000_001, 100_000_000, 100_000_000, 100_000_000];
    let mut switches = 0usize;
    for r in readings {
        if timer.switch_after(r) {
            switches += 1;
        }
        let intervals = (r * 60 / 1_000_000_000) as usize;
        assert!(switches <= intervals);
    }
    // 100 ms hold six whole intervals; the late calls catch up one per call.
    assert_eq!(switches, 4);
}
