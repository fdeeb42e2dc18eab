use aira_brain::emotion::{
    clamp_unit, percent, short_label_of, square_gap, EmotionState, EmotionalContext, UNIT,
};

fn context(fatigue: u32, engagement: u32, stress: u32, positive_affect: u32) -> EmotionalContext {
    EmotionalContext { fatigue, engagement, stress, positive_affect, timestamp: 1_700_000_000 }
}

#[test]
fn dominant_state_follows_the_priority_order() {
    assert_eq!(context(700_001, 0, 900_000, 900_000).get_dominant_state(), EmotionState::Fatigued);
    assert_eq!(context(700_000, 0, 600_001, 900_000).get_dominant_state(), EmotionState::Stressed);
    assert_eq!(context(0, 900_000, 600_000, 600_001).get_dominant_state(), EmotionState::Happy);
    assert_eq!(context(0, 700_001, 0, 600_000).get_dominant_state(), EmotionState::Engaged);
    assert_eq!(context(0, 299_999, 0, 0).get_dominant_state(), EmotionState::Disengaged);
    assert_eq!(context(0, 300_000, 0, 0).get_dominant_state(), EmotionState::Neutral);
    assert_eq!(context(0, 700_000, 0, 0).get_dominant_state(), EmotionState::Neutral);
    assert_eq!(
        context(500_000, 500_000, 500_000, 500_000).get_dominant_state(),
        EmotionState::Neutral
    );
}

#[test]
fn dominant_emotion_is_named_in_words() {
    assert_eq!(context(800_000, 0, 0, 0).get_dominant_emotion(), "fatigued and low-energy");
    assert_eq!(context(0, 500_000, 700_000, 0).get_dominant_emotion(), "stressed or tense");
    assert_eq!(context(0, 500_000, 0, 700_000).get_dominant_emotion(), "happy and positive");
    assert_eq!(context(0, 800_000, 0, 0).get_dominant_emotion(), "focused and engaged");
    assert_eq!(context(0, 100_000, 0, 0).get_dominant_emotion(), "disengaged or distracted");
    assert_eq!(context(0, 500_000, 0, 0).get_dominant_emotion(), "neutral");
}

#[test]
fn short_labels_are_single_words() {
    assert_eq!(short_label_of(EmotionState::Fatigued), "fatigued");
    assert_eq!(short_label_of(EmotionState::Stressed), "stressed");
    assert_eq!(short_label_of(EmotionState::Happy), "happy");
    assert_eq!(short_label_of(EmotionState::Engaged), "focused");
    assert_eq!(short_label_of(EmotionState::Disengaged), "disengaged");
    assert_eq!(short_label_of(EmotionState::Neutral), "neutral");
}

#[test]
fn recommendations_weigh_low_engagement_before_positive_affect() {
    assert!(context(800_000, 0, 900_000, 0).get_recommendations().starts_with("Be supportive"));
    assert!(context(0, 0, 700_000, 0).get_recommendations().starts_with("Be calming"));
    assert!(context(0, 200_000, 0, 900_000).get_recommendations().starts_with("Be engaging"));
    assert!(context(0, 500_000, 0, 900_000).get_recommendations().starts_with("Match their energy!"));
    assert_eq!(
        context(0, 900_000, 0, 0).get_recommendations(),
        "Maintain a balanced, helpful tone. Adapt based on conversation flow."
    );
}

#[test]
fn confidence_is_one_less_the_variance() {
    assert_eq!(context(800_000, 500_000, 200_000, 300_000).get_confidence(), 947_500);
    assert_eq!(context(500_000, 500_000, 500_000, 500_000).get_confidence(), 1_000_000);
    assert_eq!(context(0, 0, 1_000_000, 1_000_000).get_confidence(), 750_000);
    assert_eq!(context(0, 0, 0, 1_000_000).get_confidence(), 812_500);
}

#[test]
fn percent_rounds_halves_up() {
    assert_eq!(percent(0), 0);
    assert_eq!(percent(4_999), 0);
    assert_eq!(percent(5_000), 1);
    assert_eq!(percent(947_500), 95);
    assert_eq!(percent(994_999), 99);
    assert_eq!(percent(995_000), 100);
    assert_eq!(percent(UNIT), 100);
}

#[test]
fn square_gap_is_symmetric() {
    assert_eq!(square_gap(800_000, 500_000), 90_000_000_000);
    assert_eq!(square_gap(500_000, 800_000), 90_000_000_000);
    assert_eq!(square_gap(0, 1_000_000), 1_000_000_000_000);
    assert_eq!(square_gap(123, 123), 0);
}

#[test]
fn advisory_text_is_exact() {
    let text = context(800_000, 500_000, 200_000, 300_000).to_llm_context();
    assert_eq!(
        text,
        "The user appears fatigued and low-energy (95% confidence).\n\
         Emotional metrics:\n\
         - Fatigue: 80%\n\
         - Engagement: 50%\n\
         - Stress: 20%\n\
         - Positive affect: 30%\n\n\
         Recommended approach: Be supportive and gentle. Suggest taking a break if appropriate. Keep responses concise."
    );
}

#[test]
fn advisory_text_of_a_neutral_context() {
    let text = context(500_000, 500_000, 500_000, 500_000).to_llm_context();
    assert_eq!(
        text,
        "The user appears neutral (100% confidence).\n\
         Emotional metrics:\n\
         - Fatigue: 50%\n\
         - Engagement: 50%\n\
         - Stress: 50%\n\
         - Positive affect: 50%\n\n\
         Recommended approach: Maintain a balanced, helpful tone. Adapt based on conversation flow."
    );
}

#[test]
fn clamping_brings_metrics_into_the_unit_interval() {
    assert_eq!(clamp_unit(0), 0);
    assert_eq!(clamp_unit(UNIT), UNIT);
    assert_eq!(clamp_unit(UNIT + 1), UNIT);
    assert_eq!(clamp_unit(u32::MAX), UNIT);
    let wild = context(2_000_000, 5, 1_000_001, 1_000_000);
    assert!(!wild.is_valid());
    let tame = wild.clamped();
    assert!(tame.is_valid());
    assert_eq!(tame, context(1_000_000, 5, 1_000_000, 1_000_000));
    assert_eq!(tame.clamped(), tame);
}

#[test]
fn metrics_outside_the_unit_interval_are_rendered_as_they_are() {
    let wild = context(u32::MAX, 0, 2_000_000, 1_500_000);
    assert_eq!(wild.get_confidence(), 500_000);
    assert_eq!(percent(u32::MAX), 429_497);
    assert!(wild.to_llm_context().starts_with(
        "The user appears fatigued and low-energy (50% confidence).\nEmotional metrics:\n- Fatigue: 429497%\n- Engagement: 0%\n- Stress: 200%\n- Positive affect: 150%\n\n"
    ));
    assert_eq!(square_gap(u32::MAX, 0), 18_446_744_065_119_617_025);
}
