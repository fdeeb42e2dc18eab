//! The emotional context: four metrics in fixed point, the moment they were
//! measured, and the advisory text that a prompt carries about them.

use vstd::prelude::*;
use vstd::string::StringExecFns;
use crate::text::{decimal, push_decimal};

verus! {

/// One whole, in the fixed-point scale of every metric: a metric `m` stands
/// for the real number `m / UNIT`.
pub const UNIT: u32 = 1_000_000;

/// Above this fatigue the user counts as fatigued.
pub const FATIGUE_LEVEL: u32 = 700_000;

/// Above this stress the user counts as stressed.
pub const STRESS_LEVEL: u32 = 600_000;

/// Above this positive affect the user counts as happy.
pub const POSITIVE_LEVEL: u32 = 600_000;

/// Above this engagement the user counts as engaged.
pub const ENGAGED_LEVEL: u32 = 700_000;

/// Below this engagement the user counts as disengaged.
pub const DISENGAGED_LEVEL: u32 = 300_000;

/// The label that a context is classified under.
#[derive(Clone, Copy, Debug, PartialEq, Eq, Structural)]
pub enum EmotionState {
    Neutral,
    Engaged,
    Fatigued,
    Stressed,
    Happy,
    Disengaged,
}

/// The interaction style that a context calls for.
#[derive(Clone, Copy, Debug, PartialEq, Eq, Structural)]
pub enum Approach {
    Supportive,
    Calming,
    Engaging,
    Enthusiastic,
    Balanced,
}

/// Emotional context for adaptive responses. Each metric lies in `0..=UNIT`
/// in a well-formed context.
#[derive(Clone, Copy, Debug, PartialEq, Eq, Structural)]
pub struct EmotionalContext {
    pub fatigue: u32,
    pub engagement: u32,
    pub stress: u32,
    pub positive_affect: u32,
    /// Seconds since the Unix epoch at the last update.
    pub timestamp: u64,
}

/// The nearer of `lo` and `hi` to `x`, or `x` itself when it lies between.
pub open spec fn clamp_spec(x: int, lo: int, hi: int) -> int {
    if x < lo {
        lo
    } else if x > hi {
        hi
    } else {
        x
    }
}

/// The square of the distance between two metrics.
pub open spec fn gap_squared(a: int, b: int) -> int {
    (a - b) * (a - b)
}

/// A metric as a whole percentage, halves rounded up.
pub open spec fn percent_spec(metric: int) -> int {
    (metric * 100 + UNIT / 2) / (UNIT as int)
}

/// The words for a label in the advisory.
pub open spec fn dominant_label(state: EmotionState) -> Seq<char> {
    match state {
        EmotionState::Fatigued => "fatigued and low-energy"@,
        EmotionState::Stressed => "stressed or tense"@,
        EmotionState::Happy => "happy and positive"@,
        EmotionState::Engaged => "focused and engaged"@,
        EmotionState::Disengaged => "disengaged or distracted"@,
        EmotionState::Neutral => "neutral"@,
    }
}

/// The one-word name of a label.
pub open spec fn short_label(state: EmotionState) -> Seq<char> {
    match state {
        EmotionState::Fatigued => "fatigued"@,
        EmotionState::Stressed => "stressed"@,
        EmotionState::Happy => "happy"@,
        EmotionState::Engaged => "focused"@,
        EmotionState::Disengaged => "disengaged"@,
        EmotionState::Neutral => "neutral"@,
    }
}

/// The advice that goes with an interaction style.
pub open spec fn approach_text(approach: Approach) -> Seq<char> {
    match approach {
        Approach::Supportive =>
            "Be supportive and gentle. Suggest taking a break if appropriate. Keep responses concise."@,
        Approach::Calming =>
            "Be calming and reassuring. Break complex topics into manageable pieces. Offer practical help."@,
        Approach::Engaging =>
            "Be engaging and interesting. Use questions to draw them in. Add relevant examples or stories."@,
        Approach::Enthusiastic =>
            "Match their energy! Be warm and enthusiastic. Build on their positive momentum."@,
        Approach::Balanced =>
            "Maintain a balanced, helpful tone. Adapt based on conversation flow."@,
    }
}

/// Clamps a metric into the unit interval.
pub fn clamp_unit(x: u32) -> (r: u32)
    ensures
        r as int == clamp_spec(x as int, 0, UNIT as int),
{
    if x > UNIT {
        UNIT
    } else {
        x
    }
}

/// The one-word name of a label.
pub fn short_label_of(state: EmotionState) -> (r: &'static str)
    ensures
        r@ == short_label(state),
{
    match state {
        EmotionState::Fatigued => "fatigued",
        EmotionState::Stressed => "stressed",
        EmotionState::Happy => "happy",
        EmotionState::Engaged => "focused",
        EmotionState::Disengaged => "disengaged",
        EmotionState::Neutral => "neutral",
    }
}

impl EmotionalContext {
    /// All four metrics lie in the unit interval.
    pub open spec fn wf(&self) -> bool {
        &&& self.fatigue <= UNIT
        &&& self.engagement <= UNIT
        &&& self.stress <= UNIT
        &&& self.positive_affect <= UNIT
    }

    /// The context with each metric clamped into the unit interval.
    pub open spec fn clamped_spec(&self) -> EmotionalContext {
        EmotionalContext {
            fatigue: clamp_spec(self.fatigue as int, 0, UNIT as int) as u32,
            engagement: clamp_spec(self.engagement as int, 0, UNIT as int) as u32,
            stress: clamp_spec(self.stress as int, 0, UNIT as int) as u32,
            positive_affect: clamp_spec(self.positive_affect as int, 0, UNIT as int) as u32,
            timestamp: self.timestamp,
        }
    }

    /// The label of the context: the first threshold that a metric passes,
    /// in the order fatigue, stress, positive affect, engagement.
    pub open spec fn dominant_state(&self) -> EmotionState {
        if self.fatigue > FATIGUE_LEVEL {
            EmotionState::Fatigued
        } else if self.stress > STRESS_LEVEL {
            EmotionState::Stressed
        } else if self.positive_affect > POSITIVE_LEVEL {
            EmotionState::Happy
        } else if self.engagement > ENGAGED_LEVEL {
            EmotionState::Engaged
        } else if self.engagement < DISENGAGED_LEVEL {
            EmotionState::Disengaged
        } else {
            EmotionState::Neutral
        }
    }

    /// The interaction style for the context. Low engagement is weighed
    /// before positive affect here.
    pub open spec fn approach(&self) -> Approach {
        if self.fatigue > FATIGUE_LEVEL {
            Approach::Supportive
        } else if self.stress > STRESS_LEVEL {
            Approach::Calming
        } else if self.engagement < DISENGAGED_LEVEL {
            Approach::Engaging
        } else if self.positive_affect > POSITIVE_LEVEL {
            Approach::Enthusiastic
        } else {
            Approach::Balanced
        }
    }

    /// Sixteen times the variance of the four metrics: the sum of the squared
    /// gaps between each two of them.
    pub open spec fn spread(&self) -> int {
        gap_squared(self.fatigue as int, self.engagement as int)
            + gap_squared(self.fatigue as int, self.stress as int)
            + gap_squared(self.fatigue as int, self.positive_affect as int)
            + gap_squared(self.engagement as int, self.stress as int)
            + gap_squared(self.engagement as int, self.positive_affect as int)
            + gap_squared(self.stress as int, self.positive_affect as int)
    }

    /// One minus the variance of the four metrics, kept between a half and
    /// one: the more the metrics agree, the higher.
    pub open spec fn confidence(&self) -> int {
        clamp_spec(UNIT - self.spread() / (16 * UNIT), (UNIT / 2) as int, UNIT as int)
    }

    /// The advisory that a prompt carries about this context.
    pub open spec fn llm_context(&self) -> Seq<char> {
        "The user appears "@ + dominant_label(self.dominant_state()) + " ("@
            + decimal(percent_spec(self.confidence()) as nat)
            + "% confidence).\nEmotional metrics:\n- Fatigue: "@
            + decimal(percent_spec(self.fatigue as int) as nat) + "%\n- Engagement: "@
            + decimal(percent_spec(self.engagement as int) as nat) + "%\n- Stress: "@
            + decimal(percent_spec(self.stress as int) as nat) + "%\n- Positive affect: "@
            + decimal(percent_spec(self.positive_affect as int) as nat)
            + "%\n\nRecommended approach: "@ + approach_text(self.approach())
    }

    /// Whether all four metrics lie in the unit interval.
    pub fn is_valid(&self) -> (r: bool)
        ensures
            r == self.wf(),
    {
        self.fatigue <= UNIT && self.engagement <= UNIT && self.stress <= UNIT
            && self.positive_affect <= UNIT
    }

    /// The context with each metric clamped into the unit interval.
    pub fn clamped(&self) -> (r: EmotionalContext)
        ensures
            r == self.clamped_spec(),
            r.wf(),
            self.wf() ==> r == *self,
    {
        EmotionalContext {
            fatigue: clamp_unit(self.fatigue),
            engagement: clamp_unit(self.engagement),
            stress: clamp_unit(self.stress),
            positive_affect: clamp_unit(self.positive_affect),
            timestamp: self.timestamp,
        }
    }

    /// Classifies the context.
    pub fn get_dominant_state(&self) -> (r: EmotionState)
        ensures
            r == self.dominant_state(),
    {
        if self.fatigue > FATIGUE_LEVEL {
            EmotionState::Fatigued
        } else if self.stress > STRESS_LEVEL {
            EmotionState::Stressed
        } else if self.positive_affect > POSITIVE_LEVEL {
            EmotionState::Happy
        } else if self.engagement > ENGAGED_LEVEL {
            EmotionState::Engaged
        } else if self.engagement < DISENGAGED_LEVEL {
            EmotionState::Disengaged
        } else {
            EmotionState::Neutral
        }
    }

    /// The dominant emotion in words.
    pub fn get_dominant_emotion(&self) -> (r: &'static str)
        ensures
            r@ == dominant_label(self.dominant_state()),
    {
        match self.get_dominant_state() {
            EmotionState::Fatigued => "fatigued and low-energy",
            EmotionState::Stressed => "stressed or tense",
            EmotionState::Happy => "happy and positive",
            EmotionState::Engaged => "focused and engaged",
            EmotionState::Disengaged => "disengaged or distracted",
            EmotionState::Neutral => "neutral",
        }
    }

    /// How far the detection can be trusted, in the scale of the metrics.
    pub fn get_confidence(&self) -> (r: u32)
        ensures
            r as int == self.confidence(),
            UNIT / 2 <= r <= UNIT,
    {
        let total: u128 = square_gap(self.fatigue, self.engagement) as u128 + square_gap(
            self.fatigue,
            self.stress,
        ) as u128 + square_gap(self.fatigue, self.positive_affect) as u128 + square_gap(
            self.engagement,
            self.stress,
        ) as u128 + square_gap(self.engagement, self.positive_affect) as u128 + square_gap(
            self.stress,
            self.positive_affect,
        ) as u128;
        let variance: u128 = total / 16_000_000;
        if variance > 500_000 {
            500_000
        } else {
            (1_000_000 - variance) as u32
        }
    }

    /// The recommended interaction style in words.
    pub fn get_recommendations(&self) -> (r: &'static str)
        ensures
            r@ == approach_text(self.approach()),
    {
        if self.fatigue > FATIGUE_LEVEL {
            "Be supportive and gentle. Suggest taking a break if appropriate. Keep responses concise."
        } else if self.stress > STRESS_LEVEL {
            "Be calming and reassuring. Break complex topics into manageable pieces. Offer practical help."
        } else if self.engagement < DISENGAGED_LEVEL {
            "Be engaging and interesting. Use questions to draw them in. Add relevant examples or stories."
        } else if self.positive_affect > POSITIVE_LEVEL {
            "Match their energy! Be warm and enthusiastic. Build on their positive momentum."
        } else {
            "Maintain a balanced, helpful tone. Adapt based on conversation flow."
        }
    }

    /// Renders the context as the advisory for the language model.
    pub fn to_llm_context(&self) -> (r: String)
        ensures
            r@ == self.llm_context(),
    {
        let mut out = String::from_str("The user appears ");
        out.append(self.get_dominant_emotion());
        out.append(" (");
        push_decimal(&mut out, percent(self.get_confidence()));
        out.append("% confidence).\nEmotional metrics:\n- Fatigue: ");
        push_decimal(&mut out, percent(self.fatigue));
        out.append("%\n- Engagement: ");
        push_decimal(&mut out, percent(self.engagement));
        out.append("%\n- Stress: ");
        push_decimal(&mut out, percent(self.stress));
        out.append("%\n- Positive affect: ");
        push_decimal(&mut out, percent(self.positive_affect));
        out.append("%\n\nRecommended approach: ");
        out.append(self.get_recommendations());
        out
    }
}

/// The squared distance between two metrics.
pub fn square_gap(a: u32, b: u32) -> (r: u64)
    ensures
        r as int == gap_squared(a as int, b as int),
{
    let d: u64 = if a >= b {
        (a - b) as u64
    } else {
        (b - a) as u64
    };
    assert(d * d <= 0xFFFF_FFFF * 0xFFFF_FFFF) by (nonlinear_arith)
        requires
            d <= 0xFFFF_FFFF,
    ;
    assert((a - b) * (a - b) == d * d) by (nonlinear_arith)
        requires
            d == a - b || d == b - a,
    ;
    d * d
}

/// A metric as a whole percentage, halves rounded up.
pub fn percent(metric: u32) -> (r: u128)
    ensures
        r as int == percent_spec(metric as int),
{
    (metric as u128 * 100 + 500_000) / 1_000_000
}

} // verus!
