use music_player::position::PositionTracker;
use music_player::position::SEEK_STEP_MS;
use music_player::position::SEEK_STEP_SECS;

#[test]
fn seek_step_is_ten_seconds() {
    assert_eq!(SEEK_STEP_SECS, 10);
    assert_eq!(SEEK_STEP_MS, 10_000);
}

#[test]
fn new_tracker_is_at_zero_and_paused() {
    let tracker = PositionTracker::new();
    assert_eq!(tracker.accumulated_ms(), 0);
    assert_eq!(tracker.session_start(), None);
    assert!(!tracker.is_playing());
    assert_eq!(tracker.current_position(0), 0);
    assert_eq!(tracker.current_position(123_456), 0);
}

#[test]
fn position_advances_only_while_playing() {
    let mut tracker = PositionTracker::new();
    tracker.play(1_000);
    assert!(tracker.is_playing());
    assert_eq!(tracker.session_start(), Some(1_000));
    assert_eq!(tracker.current_position(1_000), 0);
    assert_eq!(tracker.current_position(1_250), 250);
    tracker.pause(1_400);
    assert!(!tracker.is_playing());
    assert_eq!(tracker.accumulated_ms(), 400);
    assert_eq!(tracker.current_position(1_400), 400);
    assert_eq!(tracker.current_position(99_000), 400);
}

#[test]
fn play_pause_cycles_sum_the_playing_intervals() {
    let cycles: [(u64, u64); 4] = [(100, 350), (1_000, 1_600), (5_000, 5_001), (7_000, 7_000)];
    let mut tracker = PositionTracker::new();
    let mut played: u64 = 0;
    for (played_at, paused_at) in cycles {
        tracker.play(played_at);
        tracker.pause(paused_at);
        played += paused_at - played_at;
        assert_eq!(tracker.accumulated_ms(), played);
    }
    assert_eq!(played, 851);
    assert_eq!(tracker.current_position(1_000_000), 851);
    assert!(!tracker.is_playing());
}

#[test]
fn cycles_add_to_the_position_held_before() {
    let mut tracker = PositionTracker::new();
    tracker.seek(42_000, 0);
    tracker.play(10);
    tracker.pause(510);
    tracker.play(2_000);
    tracker.pause(2_250);
    assert_eq!(tracker.accumulated_ms(), 42_750);
}

#[test]
fn pause_when_not_playing_keeps_position() {
    let mut tracker = PositionTracker::new();
    tracker.play(0);
    tracker.pause(700);
    tracker.pause(5_000);
    assert_eq!(tracker.accumulated_ms(), 700);
    assert_eq!(tracker.session_start(), None);
}

#[test]
fn play_while_playing_loses_no_time() {
    let mut tracker = PositionTracker::new();
    tracker.seek(1_000, 0);
    tracker.play(0);
    tracker.play(5_000);
    assert_eq!(tracker.session_start(), Some(0));
    assert_eq!(tracker.accumulated_ms(), 1_000);
    assert_eq!(tracker.current_position(6_000), 7_000);
    tracker.pause(7_000);
    assert_eq!(tracker.accumulated_ms(), 8_000);
}

#[test]
fn any_sequence_of_play_and_pause_counts_the_playing_time() {
    let mut tracker = PositionTracker::new();
    tracker.pause(10);
    tracker.play(100);
    tracker.play(150);
    tracker.play(300);
    tracker.pause(400);
    tracker.pause(450);
    tracker.play(1_000);
    tracker.pause(1_250);
    tracker.play(2_000);
    assert_eq!(tracker.accumulated_ms(), 300 + 250);
    assert_eq!(tracker.session_start(), Some(2_000));
    assert_eq!(tracker.current_position(2_030), 300 + 250 + 30);
}

#[test]
fn stop_resets_position_from_any_state() {
    let mut playing = PositionTracker::new();
    playing.seek(30_000, 0);
    playing.play(100);
    assert_eq!(playing.current_position(600), 30_500);
    playing.stop();
    assert_eq!(playing.accumulated_ms(), 0);
    assert!(!playing.is_playing());
    assert_eq!(playing.current_position(600), 0);
    assert_eq!(playing.current_position(u64::MAX), 0);

    let mut paused = PositionTracker::new();
    paused.seek(77, 0);
    paused.stop();
    assert_eq!(paused.current_position(10), 0);

    let mut fresh = PositionTracker::new();
    fresh.stop();
    assert_eq!(fresh, PositionTracker::new());
}

#[test]
fn seek_then_pause_then_play_continues_from_target() {
    let mut tracker = PositionTracker::new();
    tracker.play(0);
    tracker.seek(60_000, 4_000);
    tracker.pause(4_000);
    assert_eq!(tracker.accumulated_ms(), 60_000);
    tracker.play(9_000);
    assert_eq!(tracker.current_position(9_000), 60_000);
    assert_eq!(tracker.current_position(9_750), 60_750);
}

#[test]
fn seek_while_playing_restarts_session_at_target() {
    let mut tracker = PositionTracker::new();
    tracker.play(1_000);
    tracker.seek(20_000, 3_000);
    assert!(tracker.is_playing());
    assert_eq!(tracker.session_start(), Some(3_000));
    assert_eq!(tracker.accumulated_ms(), 20_000);
    assert_eq!(tracker.current_position(3_500), 20_500);
}

#[test]
fn seek_while_paused_stays_paused() {
    let mut tracker = PositionTracker::new();
    tracker.seek(20_000, 3_000);
    assert!(!tracker.is_playing());
    assert_eq!(tracker.current_position(8_000), 20_000);
}

#[test]
fn forward_target_adds_ten_seconds() {
    let mut tracker = PositionTracker::new();
    assert_eq!(tracker.forward_target(0), 10_000);
    tracker.play(500);
    assert_eq!(tracker.forward_target(2_500), 12_000);
}

#[test]
fn backward_target_takes_ten_seconds_off() {
    let mut tracker = PositionTracker::new();
    tracker.seek(25_000, 0);
    assert_eq!(tracker.backward_target(0), 15_000);
    tracker.play(100);
    assert_eq!(tracker.backward_target(1_100), 16_000);
    tracker.seek(10_000, 1_100);
    assert_eq!(tracker.backward_target(1_100), 0);
    tracker.seek(10_001, 1_100);
    assert_eq!(tracker.backward_target(1_100), 1);
}

#[test]
fn backward_at_three_seconds_lands_on_zero() {
    let mut tracker = PositionTracker::new();
    tracker.play(0);
    assert_eq!(tracker.current_position(3_000), 3_000);
    let target = tracker.backward_target(3_000);
    assert_eq!(target, 0);
    tracker.seek(target, 3_000);
    assert_eq!(tracker.current_position(3_000), 0);
    assert!(tracker.is_playing());
}

#[test]
fn forward_then_backward_returns_to_start() {
    for start in [0u64, 1, 3_000, 9_999, 10_000, 123_456] {
        let mut tracker = PositionTracker::new();
        tracker.seek(start, 0);
        tracker.play(50);
        let before = tracker.current_position(50);
        let forward = tracker.forward_target(50);
        tracker.seek(forward, 50);
        let backward = tracker.backward_target(50);
        tracker.seek(backward, 50);
        assert_eq!(tracker.current_position(50), before);
        assert!(tracker.is_playing());
    }
}

#[test]
fn forward_then_backward_while_playing_adds_the_time_between() {
    let mut tracker = PositionTracker::new();
    tracker.seek(20_000, 0);
    tracker.play(10);
    let before: u64 = tracker.current_position(50);
    assert_eq!(before, 20_040);
    let forward: u64 = tracker.forward_target(50);
    tracker.seek(forward, 60);
    let backward: u64 = tracker.backward_target(500);
    tracker.seek(backward, 510);
    assert_eq!(tracker.current_position(510), before + (500 - 60));
    assert!(tracker.is_playing());
}

#[test]
fn forward_then_backward_while_paused_returns_exactly() {
    let mut tracker = PositionTracker::new();
    tracker.seek(20_000, 0);
    let forward: u64 = tracker.forward_target(50);
    tracker.seek(forward, 60);
    let backward: u64 = tracker.backward_target(500);
    tracker.seek(backward, 510);
    assert_eq!(tracker.current_position(9_999), 20_000);
    assert!(!tracker.is_playing());
}

#[test]
fn forward_then_backward_near_the_top_loses_less_than_a_step() {
    let start = u64::MAX - 4_000;
    let mut tracker = PositionTracker::new();
    tracker.seek(start, 0);
    let forward = tracker.forward_target(0);
    assert_eq!(forward, u64::MAX);
    tracker.seek(forward, 0);
    let backward = tracker.backward_target(0);
    assert_eq!(backward, u64::MAX - 10_000);
    assert!(start - backward <= SEEK_STEP_MS);
}

#[test]
fn backward_then_forward_from_below_a_step_lands_on_one_step() {
    let mut tracker = PositionTracker::new();
    tracker.seek(3_000, 0);
    let backward = tracker.backward_target(0);
    tracker.seek(backward, 0);
    let forward = tracker.forward_target(0);
    tracker.seek(forward, 0);
    assert_eq!(tracker.accumulated_ms(), 10_000);
}

#[test]
fn position_saturates_at_u64_max() {
    let mut tracker = PositionTracker::new();
    tracker.seek(u64::MAX - 5, 0);
    tracker.play(0);
    assert_eq!(tracker.current_position(5), u64::MAX);
    assert_eq!(tracker.current_position(6), u64::MAX);
    assert_eq!(tracker.current_position(1_000_000), u64::MAX);
    tracker.pause(1_000_000);
    assert_eq!(tracker.accumulated_ms(), u64::MAX);
}

#[test]
fn clock_reading_before_session_start_counts_as_no_time() {
    let mut tracker = PositionTracker::new();
    tracker.seek(1_000, 0);
    tracker.play(5_000);
    assert_eq!(tracker.current_position(4_000), 1_000);
    tracker.pause(4_000);
    assert_eq!(tracker.accumulated_ms(), 1_000);
}
