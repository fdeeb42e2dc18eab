//! The audio-based emotion classifier's answer: from the scores of its
//! classes to the dominant emotion.

use vstd::prelude::*;

verus! {

/// The emotions that the classifier tells apart.
#[derive(Clone, Copy, Debug, PartialEq, Eq, Structural)]
pub enum Emotion {
    Neutral,
    Happy,
    Sad,
    Angry,
    Fear,
    Disgust,
    Surprise,
}

/// The outcome of an emotion analysis.
#[derive(Clone, Copy, Debug, PartialEq, Eq, Structural)]
pub struct EmotionAnalysis {
    pub dominant_emotion: Emotion,
    /// The score of the dominant emotion, in millionths.
    pub score: i64,
}

/// The emotion of a class of the classifier, by the index of the class.
pub open spec fn emotion_at(index: int) -> Option<Emotion> {
    if index == 0 {
        Some(Emotion::Angry)
    } else if index == 1 {
        Some(Emotion::Disgust)
    } else if index == 2 {
        Some(Emotion::Fear)
    } else if index == 3 {
        Some(Emotion::Happy)
    } else if index == 4 {
        Some(Emotion::Neutral)
    } else if index == 5 {
        Some(Emotion::Sad)
    } else if index == 6 {
        Some(Emotion::Surprise)
    } else {
        None
    }
}

/// Whether `index` is where the highest score stands; where it stands more
/// than once, the last place.
pub open spec fn is_last_highest(scores: Seq<i64>, index: int) -> bool {
    &&& 0 <= index < scores.len()
    &&& forall|j: int| 0 <= j < scores.len() ==> scores[j] <= scores[index]
    &&& forall|j: int| index < j < scores.len() ==> scores[j] < scores[index]
}

impl Emotion {
    /// The emotion of a class of the classifier, by the index of the class.
    pub fn from_index(index: usize) -> (r: Option<Emotion>)
        ensures
            r == emotion_at(index as int),
    {
        match index {
            0 => Some(Emotion::Angry),
            1 => Some(Emotion::Disgust),
            2 => Some(Emotion::Fear),
            3 => Some(Emotion::Happy),
            4 => Some(Emotion::Neutral),
            5 => Some(Emotion::Sad),
            6 => Some(Emotion::Surprise),
            _ => None,
        }
    }
}

/// The place and the value of the highest score, the last such place where
/// there are several; place zero and score zero where there is no score.
pub fn highest_score(scores: &Vec<i64>) -> (r: (usize, i64))
    ensures
        scores@.len() == 0 ==> r == (0usize, 0i64),
        scores@.len() > 0 ==> is_last_highest(scores@, r.0 as int) && r.1 == scores@[r.0 as int],
{
    if scores.len() == 0 {
        return (0, 0);
    }
    let mut best: usize = 0;
    let mut i: usize = 1;
    while i < scores.len()
        invariant
            1 <= i <= scores@.len(),
            is_last_highest(scores@.take(i as int), best as int),
        decreases scores@.len() - i,
    {
        if scores[i] >= scores[best] {
            best = i;
        }
        i += 1;
        assert(forall|j: int| 0 <= j < i - 1 ==> scores@.take(i - 1)[j] == scores@[j]);
    }
    assert(scores@.take(scores@.len() as int) =~= scores@);
    (best, scores[best])
}

/// The analysis that the scores of the classes stand for: the emotion of
/// the class with the highest score, and that score. A class without an
/// emotion of its own counts as neutral.
pub fn analyze_scores(scores: &Vec<i64>) -> (r: EmotionAnalysis)
    ensures
        scores@.len() == 0 ==> r == (EmotionAnalysis {
            dominant_emotion: Emotion::Angry,
            score: 0,
        }),
        scores@.len() > 0 ==> exists|index: int|
            {
                &&& #[trigger] is_last_highest(scores@, index)
                &&& r.score == scores@[index]
                &&& r.dominant_emotion == match emotion_at(index) {
                    Some(emotion) => emotion,
                    None => Emotion::Neutral,
                }
            },
{
    let (index, score) = highest_score(scores);
    let dominant_emotion = match Emotion::from_index(index) {
        Some(emotion) => emotion,
        None => Emotion::Neutral,
    };
    EmotionAnalysis { dominant_emotion, score }
}

} // verus!
