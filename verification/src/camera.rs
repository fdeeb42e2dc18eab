//! From camera features to the emotional context, and the answers to the
//! camera and emotion queries.

use vstd::prelude::*;
use vstd::string::StringExecFns;
use crate::aira::Aira;
use crate::emotion::{clamp_spec, short_label, short_label_of, EmotionalContext, UNIT};
use crate::models::CameraFeatures;
use crate::tracker::EmotionalStateTracker;

verus! {

/// Blinks per minute, in millionths, above which blinking tells of fatigue;
/// also the span over which that fatigue grows to one whole.
pub const BLINK_BASELINE: u32 = 30_000_000;

/// The yaw, in millionths of a degree, within which the user faces the
/// screen.
pub const YAW_LIMIT: i32 = 20_000_000;

/// The pitch, in millionths of a degree, within which the user faces the
/// screen.
pub const PITCH_LIMIT: i32 = 15_000_000;

/// Engagement above which a face counts as detected.
pub const FACE_DETECTED_LEVEL: u32 = 100_000;

/// The raw context when no face is in view: no engagement, all else
/// neutral.
pub open spec fn no_face_context(now: u64) -> EmotionalContext {
    EmotionalContext {
        fatigue: 500_000,
        engagement: 0,
        stress: 500_000,
        positive_affect: 500_000,
        timestamp: now,
    }
}

/// What the eyes lack to fully open. Negative for an openness above one
/// whole.
pub open spec fn eye_fatigue(f: CameraFeatures) -> int {
    UNIT - f.avg_eye_openness
}

/// Fatigue from blinking: nothing up to the baseline, then growing with the
/// rate, one whole at twice the baseline and beyond.
pub open spec fn blink_fatigue(f: CameraFeatures) -> int {
    if f.blink_rate > BLINK_BASELINE {
        clamp_spec((f.blink_rate - BLINK_BASELINE) / 30, 0, UNIT as int)
    } else {
        0
    }
}

/// Attention from the head's position: eight tenths when the user faces the
/// screen, four tenths when not.
pub open spec fn attention(f: CameraFeatures) -> int {
    if -YAW_LIMIT < f.head_yaw < YAW_LIMIT && -PITCH_LIMIT < f.head_pitch < PITCH_LIMIT {
        800_000
    } else {
        400_000
    }
}

/// Strain of the eyes: half the eye fatigue when the eyes are more than half
/// closed and blinking is calm, else nothing.
pub open spec fn eye_strain(f: CameraFeatures) -> int {
    if eye_fatigue(f) > 500_000 && blink_fatigue(f) < 300_000 {
        eye_fatigue(f) / 2
    } else {
        0
    }
}

/// Fatigue: seven parts eye fatigue, three parts blink fatigue.
pub open spec fn fatigue_of(f: CameraFeatures) -> int {
    clamp_spec((7 * eye_fatigue(f) + 3 * blink_fatigue(f)) / 10, 0, UNIT as int)
}

/// Engagement: four parts face confidence, three parts attention, three
/// parts eye openness.
pub open spec fn engagement_of(f: CameraFeatures) -> int {
    clamp_spec(
        (4 * f.face_confidence + 3 * attention(f) + 3 * f.avg_eye_openness) / 10,
        0,
        UNIT as int,
    )
}

/// Stress: six parts facial tension, which is what the smile lacks to one
/// whole, and four parts eye strain.
pub open spec fn stress_of(f: CameraFeatures) -> int {
    clamp_spec((6 * (UNIT - f.smile_score) + 4 * eye_strain(f)) / 10, 0, UNIT as int)
}

/// Positive affect: the smile, and a tenth more when engagement is above
/// six tenths.
pub open spec fn positive_affect_of(f: CameraFeatures) -> int {
    clamp_spec(
        f.smile_score + if engagement_of(f) > 600_000 {
            100_000int
        } else {
            0int
        },
        0,
        UNIT as int,
    )
}

/// The raw emotional context that camera features stand for at time `now`.
pub open spec fn features_context(f: CameraFeatures, now: u64) -> EmotionalContext {
    if !f.face_present {
        no_face_context(now)
    } else {
        EmotionalContext {
            fatigue: fatigue_of(f) as u32,
            engagement: engagement_of(f) as u32,
            stress: stress_of(f) as u32,
            positive_affect: positive_affect_of(f) as u32,
            timestamp: now,
        }
    }
}

/// Clamps a value into the unit interval.
pub fn clamp_to_unit(x: i64) -> (r: u32)
    ensures
        r as int == clamp_spec(x as int, 0, UNIT as int),
{
    if x < 0 {
        0
    } else if x > 1_000_000 {
        UNIT
    } else {
        x as u32
    }
}

/// Calculates the raw emotional context from camera features.
pub fn calculate_emotional_state(features: &CameraFeatures, now: u64) -> (r: EmotionalContext)
    ensures
        r == features_context(*features, now),
        r.wf(),
{
    if !features.face_present {
        return EmotionalContext {
            fatigue: 500_000,
            engagement: 0,
            stress: 500_000,
            positive_affect: 500_000,
            timestamp: now,
        };
    }
    let eye_tired: i64 = 1_000_000 - features.avg_eye_openness as i64;
    let blink_tired: i64 = if features.blink_rate > BLINK_BASELINE {
        clamp_to_unit(((features.blink_rate - BLINK_BASELINE) / 30) as i64) as i64
    } else {
        0
    };
    let fatigue = clamp_to_unit(floor_tenth(7 * eye_tired + 3 * blink_tired));
    let facing: i64 = if -YAW_LIMIT < features.head_yaw && features.head_yaw < YAW_LIMIT
        && -PITCH_LIMIT < features.head_pitch && features.head_pitch < PITCH_LIMIT {
        800_000
    } else {
        400_000
    };
    let engagement = clamp_to_unit(
        floor_tenth(
            4 * features.face_confidence as i64 + 3 * facing + 3 * features.avg_eye_openness as i64,
        ),
    );
    let strain: i64 = if eye_tired > 500_000 && blink_tired < 300_000 {
        eye_tired / 2
    } else {
        0
    };
    let stress = clamp_to_unit(
        floor_tenth(6 * (1_000_000 - features.smile_score as i64) + 4 * strain),
    );
    let bonus: i64 = if engagement > 600_000 {
        100_000
    } else {
        0
    };
    let positive_affect = clamp_to_unit(features.smile_score as i64 + bonus);
    EmotionalContext { fatigue, engagement, stress, positive_affect, timestamp: now }
}

/// A tenth of `x`, rounded down.
pub fn floor_tenth(x: i64) -> (r: i64)
    ensures
        r as int == x as int / 10,
{
    if x >= 0 {
        x / 10
    } else if x % 10 == 0 {
        x / 10
    } else {
        x / 10 - 1
    }
}

/// The cells to fill in a bar of ten cells that shows a metric: one for
/// each full tenth, a metric above one whole counting as one whole.
pub fn bar_cells(metric: u32) -> (filled: usize)
    ensures
        filled <= 10,
        filled == clamp_spec(metric as int, 0, UNIT as int) / 100_000,
{
    if metric > UNIT {
        10
    } else {
        (metric / 100_000) as usize
    }
}

/// The status of the camera sensor.
#[derive(Clone, Copy, Debug, PartialEq, Eq, Structural)]
pub struct CameraStatusResponse {
    pub enabled: bool,
    pub face_detected: bool,
    pub last_update: Option<u64>,
}

/// The emotional state in detail, for monitoring.
#[derive(Clone, Debug)]
pub struct EmotionDetailsResponse {
    pub dominant_emotion: String,
    pub fatigue: u32,
    pub engagement: u32,
    pub stress: u32,
    pub positive_affect: u32,
    pub timestamp: u64,
    /// Whether the values are smoothed.
    pub smoothed: bool,
}

/// The camera status for the emotional context that a session holds, if it
/// holds one: enabled with a context, a face detected when its engagement
/// is above a tenth, last updated at its timestamp.
pub fn get_camera_status(context: Option<EmotionalContext>) -> (r: CameraStatusResponse)
    ensures
        r.enabled == context is Some,
        r.face_detected == (context is Some && context->0.engagement > FACE_DETECTED_LEVEL),
        r.last_update == match context {
            Some(c) => Some(c.timestamp),
            None => None,
        },
{
    match context {
        Some(c) => CameraStatusResponse {
            enabled: true,
            face_detected: c.engagement > FACE_DETECTED_LEVEL,
            last_update: Some(c.timestamp),
        },
        None => CameraStatusResponse { enabled: false, face_detected: false, last_update: None },
    }
}

/// The details of the emotional context that a session holds: its metrics
/// and the name of its dominant emotion; without a context, zeros under
/// the name `unknown`.
pub fn get_emotion_details(context: Option<EmotionalContext>) -> (r: EmotionDetailsResponse)
    ensures
        r.smoothed,
        match context {
            Some(c) => {
                &&& r.dominant_emotion@ == short_label(c.dominant_state())
                &&& r.fatigue == c.fatigue
                &&& r.engagement == c.engagement
                &&& r.stress == c.stress
                &&& r.positive_affect == c.positive_affect
                &&& r.timestamp == c.timestamp
            },
            None => {
                &&& r.dominant_emotion@ == "unknown"@
                &&& r.fatigue == 0
                &&& r.engagement == 0
                &&& r.stress == 0
                &&& r.positive_affect == 0
                &&& r.timestamp == 0
            },
        },
{
    match context {
        Some(c) => EmotionDetailsResponse {
            dominant_emotion: String::from_str(short_label_of(c.get_dominant_state())),
            fatigue: c.fatigue,
            engagement: c.engagement,
            stress: c.stress,
            positive_affect: c.positive_affect,
            timestamp: c.timestamp,
            smoothed: true,
        },
        None => EmotionDetailsResponse {
            dominant_emotion: String::from_str("unknown"),
            fatigue: 0,
            engagement: 0,
            stress: 0,
            positive_affect: 0,
            timestamp: 0,
            smoothed: true,
        },
    }
}

/// Processes one frame of camera features: smooths the raw context that
/// they stand for and, where the change is significant, hands the smoothed
/// context to the session. Returns the tracker's current context either
/// way.
pub fn process_camera_features(
    tracker: &mut EmotionalStateTracker,
    aira: &mut Aira,
    features: &CameraFeatures,
    now: u64,
) -> (r: EmotionalContext)
    requires
        old(tracker).wf(),
    ensures
        final(tracker).wf(),
        r == final(tracker).current,
        final(tracker).alpha == old(tracker).alpha,
        final(tracker).change_threshold == old(tracker).change_threshold,
        final(tracker).state_machine == old(tracker).state_machine.step(
            old(tracker).smoothed(features_context(*features, now)),
        ),
        final(aira).conversation.turns == old(aira).conversation.turns,
        old(tracker).significant(features_context(*features, now)) ==> {
            &&& r == old(tracker).smoothed(features_context(*features, now))
            &&& final(aira).conversation.emotional_context == Some(r)
        },
        !old(tracker).significant(features_context(*features, now)) ==> {
            &&& r == old(tracker).current
            &&& final(aira).conversation.emotional_context
                == old(aira).conversation.emotional_context
        },
{
    let raw = calculate_emotional_state(features, now);
    match tracker.update(raw) {
        Some(smoothed) => {
            aira.update_emotional_context(smoothed);
            smoothed
        },
        None => tracker.get_current(),
    }
}

} // verus!
