//! The video player's playback clock.

use media::video_player::VideoPlayer;

const FRAME: u128 = 40_000_000; // 25 FPS

#[test]
fn paused_player_never_advances() {
    let mut player = VideoPlayer::new(FRAME);
    assert!(!player.is_playing());
    assert!(!player.update_with_delta(1_000_000_000));
    assert_eq!(player.current_time(), 0);
}

#[test]
fn frames_come_due_as_time_accumulates() {
    let mut player = VideoPlayer::new(FRAME);
    player.play();
    assert!(player.is_playing());
    assert!(!player.update_with_delta(30_000_000));
    assert!(player.update_with_delta(30_000_000)); // 60ms accumulated
    assert_eq!(player.current_time(), FRAME);
    assert!(!player.update_with_delta(10_000_000)); // 30ms left over
    assert!(player.update_with_delta(10_000_000));
    assert_eq!(player.current_time(), 2 * FRAME);
}

#[test]
fn a_player_far_behind_drops_its_backlog() {
    let mut player = VideoPlayer::new(FRAME);
    player.play();
    // 250ms at once: one frame is shown and the 210ms left (over three
    // frames) are dropped.
    assert!(player.update_with_delta(250_000_000));
    assert_eq!(player.current_time(), FRAME);
    assert!(!player.update_with_delta(0));
    // 150ms: one frame, 110ms kept.
    assert!(player.update_with_delta(150_000_000));
    assert!(player.update_with_delta(0));
    assert!(player.update_with_delta(0));
    assert!(!player.update_with_delta(0));
}

#[test]
fn play_pause_seek_and_step() {
    let mut player = VideoPlayer::new(FRAME);
    player.toggle_play_pause();
    assert!(player.is_playing());
    player.update_with_delta(30_000_000);
    player.toggle_play_pause();
    assert!(!player.is_playing());
    player.play();
    // Pausing dropped the 30ms.
    assert!(!player.update_with_delta(30_000_000));
    player.seek(5 * FRAME);
    assert_eq!(player.current_time(), 5 * FRAME);
    assert!(!player.update_with_delta(30_000_000));
    player.step_forward();
    assert!(!player.is_playing());
    player.play();
    player.fetch_failed();
    assert!(!player.is_playing());
    player.step_backward();
    assert_eq!(player.frame_duration(), FRAME);
}
