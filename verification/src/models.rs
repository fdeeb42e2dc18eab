//! The plain values that requests bring and responses carry.

use vstd::prelude::*;

verus! {

/// A chat turn request.
#[derive(Clone, Debug)]
pub struct ChatRequest {
    pub message: String,
}

/// A speech synthesis request.
#[derive(Clone, Debug)]
pub struct TtsRequest {
    pub text: String,
}

/// Camera features sent by the client for emotion detection. No image is
/// among them, only numbers, each in millionths: scores and confidences as
/// parts of one whole, the blink rate in blinks per minute, the head angles
/// in degrees.
#[derive(Clone, Copy, Debug, PartialEq, Eq, Structural)]
pub struct CameraFeatures {
    pub face_present: bool,
    pub face_confidence: u32,
    pub avg_eye_openness: u32,
    pub blink_rate: u32,
    pub smile_score: u32,
    pub head_pitch: i32,
    pub head_yaw: i32,
}

/// The answer to a transcription request.
#[derive(Clone, Debug)]
pub struct TranscribeResponse {
    pub text: String,
    /// In millionths of one whole.
    pub confidence: u32,
}

/// The status that the liveness probe reports.
pub fn health() -> (r: &'static str)
    ensures
        r@ == "OK"@,
{
    "OK"
}

} // verus!
