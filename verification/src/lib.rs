//! Session orchestration for a voice assistant: token-budgeted conversation
//! history, emotion smoothing with hysteresis, and the event pipeline of one
//! chat turn. Every function carries a contract that Verus proves.

pub mod aira;
pub mod audio;
pub mod camera;
pub mod classifier;
pub mod conversation;
pub mod emotion;
pub mod models;
pub mod sanitize;
pub mod segment;
pub mod stream;
pub mod stt;
pub mod text;
pub mod tracker;
