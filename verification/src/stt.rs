//! The steps of a transcription request around the speech recognizer:
//! what to do with the payload, how to call the transcoder, and what to
//! answer.

use vstd::prelude::*;
use vstd::string::StringExecFns;
use crate::audio::{
    audio_error_text, decode_wav, decoded, detect_container, wav_reading, AudioContainer,
    AudioError,
};
use crate::models::TranscribeResponse;
use crate::text::{decimal, push_decimal};

verus! {

/// The confidence that every transcription is reported with, in millionths.
pub const TRANSCRIPTION_CONFIDENCE: u32 = 950_000;

/// The sample rate that the recognizer expects, in samples per second.
pub const RECOGNIZER_SAMPLE_RATE: u32 = 16000;

/// Why a transcription request failed.
#[derive(Debug)]
pub enum TranscribeError {
    /// The request held no audio.
    NoAudio,
    /// The audio held no samples.
    NoSamples,
    /// The audio could not be decoded.
    Audio(AudioError),
    /// The request could not be read; why.
    Request(String),
    /// A temporary file could not be written or read; the system's message.
    File(String),
    /// The transcoder could not be started; the system's message.
    TranscoderUnavailable(String),
    /// The transcoder ran and failed; what it printed.
    TranscoderFailed(String),
    /// The recognizer failed; its message.
    Recognizer(String),
}

/// What a transcription error says.
pub open spec fn transcribe_error_text(error: TranscribeError) -> Seq<char> {
    match error {
        TranscribeError::NoAudio => "No audio data received"@,
        TranscribeError::NoSamples => "No audio samples decoded"@,
        TranscribeError::Audio(inner) => audio_error_text(inner),
        TranscribeError::Request(message) => message@,
        TranscribeError::File(message) => message@,
        TranscribeError::TranscoderUnavailable(message) => "FFmpeg not available: "@ + message@,
        TranscribeError::TranscoderFailed(message) => "FFmpeg conversion failed: "@ + message@,
        TranscribeError::Recognizer(message) => message@,
    }
}

/// The argument list for the transcoder: read `input`, resample to 16 kHz,
/// mix down to one channel, write signed 16-bit PCM to `output`, and
/// overwrite what is there.
pub open spec fn transcoder_arguments(input: Seq<char>, output: Seq<char>) -> Seq<Seq<char>> {
    seq![
        "-i"@,
        input,
        "-ar"@,
        "16000"@,
        "-ac"@,
        "1"@,
        "-c:a"@,
        "pcm_s16le"@,
        "-y"@,
        output,
    ]
}

impl TranscribeError {
    /// The error in words.
    pub fn message(&self) -> (r: String)
        ensures
            r@ == transcribe_error_text(*self),
    {
        match self {
            TranscribeError::NoAudio => String::from_str("No audio data received"),
            TranscribeError::NoSamples => String::from_str("No audio samples decoded"),
            TranscribeError::Audio(inner) => inner.message(),
            TranscribeError::Request(message) => message.clone(),
            TranscribeError::File(message) => message.clone(),
            TranscribeError::TranscoderUnavailable(message) => {
                let mut r = String::from_str("FFmpeg not available: ");
                r.append(message.as_str());
                r
            },
            TranscribeError::TranscoderFailed(message) => {
                let mut r = String::from_str("FFmpeg conversion failed: ");
                r.append(message.as_str());
                r
            },
            TranscribeError::Recognizer(message) => message.clone(),
        }
    }
}

/// What the body of a failed transcription request says.
pub fn failure_body(error: &TranscribeError) -> (r: String)
    ensures
        r@ == "Transcription failed: "@ + transcribe_error_text(*error),
{
    let mut r = String::from_str("Transcription failed: ");
    let message = error.message();
    r.append(message.as_str());
    r
}

/// What the run of the transcoder leads to: the error for a transcoder that
/// could not be started or that failed, with the detail as its message;
/// nothing for one that succeeded, whose output is then read.
pub fn transcoder_failure(started: bool, succeeded: bool, detail: &str) -> (r: Option<
    TranscribeError,
>)
    ensures
        started && succeeded <==> r is None,
        !started ==> r->0 is TranscoderUnavailable && r->0->TranscoderUnavailable_0@ == detail@,
        started && !succeeded ==> r->0 is TranscoderFailed && r->0->TranscoderFailed_0@
            == detail@,
{
    if !started {
        Some(TranscribeError::TranscoderUnavailable(String::from_str(detail)))
    } else if !succeeded {
        Some(TranscribeError::TranscoderFailed(String::from_str(detail)))
    } else {
        None
    }
}

/// Decides what to do with the audio of a request: nothing can be done
/// with none; a RIFF container is decoded as it is; anything else goes to
/// the transcoder first.
pub fn plan_decoding(audio: &Vec<u8>) -> (r: Result<AudioContainer, TranscribeError>)
    ensures
        audio@.len() == 0 ==> r is Err && r->Err_0 is NoAudio,
        audio@.len() > 0 ==> r is Ok && (r->Ok_0 == AudioContainer::Wave <==> (audio@.len() >= 4
            && audio@[0] == 0x52 && audio@[1] == 0x49 && audio@[2] == 0x46 && audio@[3] == 0x46)),
{
    if audio.len() == 0 {
        Err(TranscribeError::NoAudio)
    } else {
        Ok(detect_container(audio))
    }
}

/// The samples that the recognizer gets, for what the WAVE reader made of
/// the audio: the samples that it could read, which must be some.
pub fn usable_samples(samples: Vec<i16>) -> (r: Result<Vec<i16>, TranscribeError>)
    ensures
        samples@.len() == 0 ==> r is Err && r->Err_0 is NoSamples,
        samples@.len() > 0 ==> r is Ok && r->Ok_0@ == samples@,
{
    if samples.len() == 0 {
        Err(TranscribeError::NoSamples)
    } else {
        Ok(samples)
    }
}

/// Decodes WAVE audio for the recognizer. A file that the reader refuses
/// and a file without a sample that it can read are errors.
pub fn decode_for_recognizer(wav: &Vec<u8>) -> (r: Result<Vec<i16>, TranscribeError>)
    ensures
        match wav_reading(wav@) {
            Some(items) => if decoded(items).len() == 0 {
                r is Err && r->Err_0 is NoSamples
            } else {
                r is Ok && r->Ok_0@ == decoded(items)
            },
            None => r is Err && r->Err_0 is Audio,
        },
{
    match decode_wav(wav) {
        Ok(samples) => usable_samples(samples),
        Err(error) => Err(TranscribeError::Audio(error)),
    }
}

/// The answer to a request whose audio was recognized as `text`.
pub fn transcribe_response(text: String) -> (r: TranscribeResponse)
    ensures
        r.text == text,
        r.confidence == TRANSCRIPTION_CONFIDENCE,
{
    TranscribeResponse { text, confidence: TRANSCRIPTION_CONFIDENCE }
}

/// The temporary files of one transcoding, named after the time in
/// milliseconds at which it starts: the input first, then the output.
pub fn temp_file_paths(stamp_ms: u128) -> (r: (String, String))
    ensures
        r.0@ == "/tmp/stt_input_"@ + decimal(stamp_ms as nat) + ".webm"@,
        r.1@ == "/tmp/stt_output_"@ + decimal(stamp_ms as nat) + ".wav"@,
{
    let mut input = String::from_str("/tmp/stt_input_");
    push_decimal(&mut input, stamp_ms);
    input.append(".webm");
    let mut output = String::from_str("/tmp/stt_output_");
    push_decimal(&mut output, stamp_ms);
    output.append(".wav");
    (input, output)
}

/// The argument list for the transcoder.
pub fn ffmpeg_arguments(input: &str, output: &str) -> (r: Vec<String>)
    ensures
        r@.len() == 10,
        forall|i: int|
            0 <= i < 10 ==> (#[trigger] r@[i])@ == transcoder_arguments(input@, output@)[i],
{
    let mut r: Vec<String> = Vec::new();
    r.push(String::from_str("-i"));
    r.push(String::from_str(input));
    r.push(String::from_str("-ar"));
    r.push(String::from_str("16000"));
    r.push(String::from_str("-ac"));
    r.push(String::from_str("1"));
    r.push(String::from_str("-c:a"));
    r.push(String::from_str("pcm_s16le"));
    r.push(String::from_str("-y"));
    r.push(String::from_str(output));
    r
}

} // verus!
