use aira_brain::emotion::{EmotionState, EmotionalContext};
use aira_brain::tracker::{blend, gap, EmotionStateMachine, EmotionalStateTracker};

fn sample(fatigue: u32, engagement: u32, stress: u32, positive_affect: u32, timestamp: u64)
    -> EmotionalContext {
    EmotionalContext { fatigue, engagement, stress, positive_affect, timestamp }
}

#[test]
fn machine_starts_neutral() {
    let machine = EmotionStateMachine::new();
    assert_eq!(machine.current_state, EmotionState::Neutral);
    assert_eq!(machine.state_duration, 0);
    assert_eq!(machine.last_transition, 0);
    assert_eq!(machine.min_state_duration, 3);
}

#[test]
fn hysteresis_holds_a_weak_signal_back_until_the_state_has_lasted() {
    let mut machine = EmotionStateMachine::new();
    machine.last_transition = 100;
    let early = sample(750_000, 500_000, 0, 0, 101);
    assert_eq!(machine.update(&early), EmotionState::Neutral);
    assert_eq!(machine.current_state, EmotionState::Neutral);
    assert_eq!(machine.state_duration, 1);
    assert_eq!(machine.last_transition, 100);

    let late = sample(750_000, 500_000, 0, 0, 103);
    assert_eq!(machine.update(&late), EmotionState::Fatigued);
    assert_eq!(machine.current_state, EmotionState::Fatigued);
    assert_eq!(machine.state_duration, 0);
    assert_eq!(machine.last_transition, 103);
}

#[test]
fn hysteresis_lets_a_strong_signal_through_at_once() {
    let mut machine = EmotionStateMachine::new();
    machine.last_transition = 100;
    let strong = sample(950_000, 500_000, 0, 0, 100);
    assert_eq!(machine.update(&strong), EmotionState::Fatigued);
    assert_eq!(machine.last_transition, 100);
    assert_eq!(machine.state_duration, 0);
}

#[test]
fn hysteresis_counts_a_signal_of_exactly_the_strong_level_as_weak() {
    let mut machine = EmotionStateMachine::new();
    machine.last_transition = 100;
    assert_eq!(machine.update(&sample(850_000, 500_000, 0, 0, 102)), EmotionState::Neutral);
    assert_eq!(machine.update(&sample(850_001, 500_000, 0, 0, 102)), EmotionState::Fatigued);
}

#[test]
fn disengagement_is_as_strong_as_engagement_is_missing() {
    let machine = EmotionStateMachine::new();
    let context = sample(0, 100_000, 0, 0, 0);
    assert_eq!(machine.get_signal_strength(&context, EmotionState::Disengaged), 900_000);
    assert_eq!(machine.get_signal_strength(&context, EmotionState::Engaged), 100_000);
    assert_eq!(machine.get_signal_strength(&context, EmotionState::Neutral), 500_000);
    let mut moving = EmotionStateMachine::new();
    moving.last_transition = 50;
    assert_eq!(moving.update(&sample(0, 100_000, 0, 0, 50)), EmotionState::Disengaged);
}

#[test]
fn a_clock_that_runs_backwards_counts_as_no_time() {
    let mut machine = EmotionStateMachine::new();
    machine.last_transition = 500;
    assert_eq!(machine.update(&sample(750_000, 500_000, 0, 0, 10)), EmotionState::Neutral);
    assert_eq!(machine.state_duration, 0);
}

#[test]
fn same_state_never_counts_as_a_transition() {
    let mut machine = EmotionStateMachine::new();
    assert_eq!(machine.update(&sample(500_000, 500_000, 500_000, 500_000, 40)), EmotionState::Neutral);
    assert_eq!(machine.last_transition, 0);
    assert_eq!(machine.state_duration, 40);
}

#[test]
fn tracker_starts_at_one_half() {
    let tracker = EmotionalStateTracker::new(1234);
    assert_eq!(tracker.get_current(), sample(500_000, 500_000, 500_000, 500_000, 1234));
    assert_eq!(tracker.alpha, 300_000);
    assert_eq!(tracker.change_threshold, 50_000);
    assert!(tracker.previous_raw.is_none());
    assert_eq!(tracker.state_machine, EmotionStateMachine::new());
}

#[test]
fn blend_weighs_the_sample_by_alpha() {
    assert_eq!(blend(300_000, 1_000_000, 500_000), 650_000);
    assert_eq!(blend(300_000, 0, 1_000_000), 700_000);
    assert_eq!(blend(300_000, 1, 0), 0);
    assert_eq!(blend(300_000, 2, 0), 1);
    assert_eq!(blend(1_000_000, 123_456, 999), 123_456);
    assert_eq!(blend(0, 123_456, 999), 999);
    assert_eq!(gap(3, 10), 7);
    assert_eq!(gap(10, 3), 7);
}

#[test]
fn moving_average_takes_the_timestamp_of_the_sample() {
    let tracker = EmotionalStateTracker::new(10);
    let smoothed = tracker.apply_ema(sample(1_000_000, 0, 500_000, 600_000, 77));
    assert_eq!(smoothed, sample(650_000, 350_000, 500_000, 530_000, 77));
}

#[test]
fn moving_average_converges_within_fifteen_rounds() {
    let raw = sample(1_000_000, 0, 250_000, 1_000_000, 5);
    let mut tracker = EmotionalStateTracker::new(0);
    tracker.current = sample(0, 1_000_000, 750_000, 10_000, 0);
    for _ in 0..15 {
        tracker.current = tracker.apply_ema(raw);
    }
    let reached = tracker.get_current();
    assert!(gap(reached.fatigue, raw.fatigue) <= 10_000);
    assert!(gap(reached.engagement, raw.engagement) <= 10_000);
    assert!(gap(reached.stress, raw.stress) <= 10_000);
    assert!(gap(reached.positive_affect, raw.positive_affect) <= 10_000);
    assert_eq!(reached.fatigue, 995_253);
}

#[test]
fn change_gating_returns_nothing_for_a_small_change() {
    let mut tracker = EmotionalStateTracker::new(100);
    let before = tracker.get_current();
    let update = tracker.update(sample(600_000, 600_000, 600_000, 600_000, 101));
    assert_eq!(update, None);
    assert_eq!(tracker.get_current(), before);
    assert!(tracker.previous_raw.is_none());
}

#[test]
fn change_gating_commits_a_large_change() {
    let mut tracker = EmotionalStateTracker::new(100);
    let raw = sample(1_000_000, 500_000, 500_000, 500_000, 101);
    let update = tracker.update(raw);
    assert_eq!(update, Some(sample(650_000, 500_000, 500_000, 500_000, 101)));
    assert_eq!(tracker.get_current(), sample(650_000, 500_000, 500_000, 500_000, 101));
    assert_eq!(tracker.previous_raw, Some(raw));
}

#[test]
fn change_gating_needs_more_than_the_threshold() {
    let mut at_threshold = EmotionalStateTracker::new(0);
    assert_eq!(at_threshold.update(sample(666_667, 500_000, 500_000, 500_000, 1)), None);
    let mut above = EmotionalStateTracker::new(0);
    assert_eq!(
        above.update(sample(666_670, 500_000, 500_000, 500_000, 1)),
        Some(sample(550_001, 500_000, 500_000, 500_000, 1))
    );
    let tracker = EmotionalStateTracker::new(0);
    assert!(!tracker.has_significant_change(&sample(550_000, 450_000, 500_000, 500_000, 9)));
    assert!(tracker.has_significant_change(&sample(500_000, 449_999, 500_000, 500_000, 9)));
}

#[test]
fn tracker_feeds_the_machine_with_the_smoothed_context() {
    let mut tracker = EmotionalStateTracker::new(0);
    tracker.update(sample(1_000_000, 500_000, 500_000, 500_000, 10));
    assert_eq!(tracker.state_machine.current_state, EmotionState::Neutral);
    assert_eq!(tracker.state_machine.state_duration, 10);
    tracker.update(sample(1_000_000, 500_000, 500_000, 500_000, 11));
    assert_eq!(tracker.get_current().fatigue, 755_000);
    assert_eq!(tracker.state_machine.current_state, EmotionState::Fatigued);
    assert_eq!(tracker.state_machine.last_transition, 11);
}

#[test]
fn held_back_updates_still_reach_the_machine() {
    let mut tracker = EmotionalStateTracker::new(0);
    assert_eq!(tracker.update(sample(500_000, 500_000, 500_000, 500_000, 42)), None);
    assert_eq!(tracker.state_machine.state_duration, 42);
}

#[test]
fn tracker_is_valid_while_its_weight_is_a_proper_fraction() {
    let mut tracker = EmotionalStateTracker::new(0);
    assert!(tracker.is_valid());
    tracker.alpha = 0;
    assert!(!tracker.is_valid());
    tracker.alpha = 1_000_000;
    assert!(!tracker.is_valid());
    tracker.alpha = 999_999;
    assert!(tracker.is_valid());
    tracker.current.stress = 1_000_001;
    assert!(!tracker.is_valid());
}
