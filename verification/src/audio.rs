//! Audio containers: PCM samples to a WAVE file and to base64 text, and
//! WAVE bytes back to samples.

use vstd::prelude::*;
use base64::Engine;
use vstd::string::StringExecFns;

verus! {

/// The sample rate of synthesized speech, in samples per second.
pub const SPEECH_SAMPLE_RATE: u32 = 22050;

/// The highest sample rate that a 16-bit mono header can hold: twice the
/// rate, the bytes per second, must fit in 32 bits.
pub const MAX_SAMPLE_RATE: u32 = 0x7FFF_FFFF;

/// The most samples that one 16-bit mono file can hold: their bytes and the
/// 36 bytes of header that count with them must fit in 32 bits.
pub const MAX_WAV_SAMPLES: usize = 2_147_483_629;

/// The error type of the `hound` crate.
#[verifier::external_type_specification]
#[verifier::external_body]
pub struct ExHoundError(hound::Error);

/// Why audio could not be encoded or decoded.
#[derive(Debug)]
pub enum AudioError {
    /// The sample rate is zero or too high for the header.
    InvalidSampleRate,
    /// There are more samples than one file can hold.
    TooLong,
    /// The WAVE writer failed; its message.
    Encoder(String),
    /// The bytes are no WAVE file that can be read; the reader's message.
    Decoder(String),
}

/// What an audio error says.
pub open spec fn audio_error_text(error: AudioError) -> Seq<char> {
    match error {
        AudioError::InvalidSampleRate => "invalid sample rate"@,
        AudioError::TooLong => "audio too long for one file"@,
        AudioError::Encoder(message) => "WAV encoding error: "@ + message@,
        AudioError::Decoder(message) => message@,
    }
}

impl AudioError {
    /// The error in words.
    pub fn message(&self) -> (r: String)
        ensures
            r@ == audio_error_text(*self),
    {
        match self {
            AudioError::InvalidSampleRate => String::from_str("invalid sample rate"),
            AudioError::TooLong => String::from_str("audio too long for one file"),
            AudioError::Encoder(message) => {
                let mut r = String::from_str("WAV encoding error: ");
                r.append(message.as_str());
                r
            },
            AudioError::Decoder(message) => message.clone(),
        }
    }
}

/// The container that a payload of audio bytes is in.
#[derive(Clone, Copy, Debug, PartialEq, Eq, Structural)]
pub enum AudioContainer {
    /// A RIFF container: decoded as WAVE.
    Wave,
    /// Anything else: to be transcoded before decoding.
    Other,
}

/// The two bytes of `v`, low byte first.
pub open spec fn le16(v: int) -> Seq<u8> {
    seq![(v % 256) as u8, (v / 256 % 256) as u8]
}

/// The four bytes of `v`, low byte first.
pub open spec fn le32(v: int) -> Seq<u8> {
    seq![
        (v % 256) as u8,
        (v / 256 % 256) as u8,
        (v / 65536 % 256) as u8,
        (v / 16777216 % 256) as u8,
    ]
}

/// The two bytes of a sample: its two's complement, low byte first.
pub open spec fn sample_bytes(sample: i16) -> Seq<u8> {
    le16(
        if sample >= 0 {
            sample as int
        } else {
            sample + 65536
        },
    )
}

/// The bytes of the samples, in order.
pub open spec fn pcm_bytes(samples: Seq<i16>) -> Seq<u8>
    decreases samples.len(),
{
    if samples.len() == 0 {
        Seq::<u8>::empty()
    } else {
        pcm_bytes(samples.drop_last()) + sample_bytes(samples.last())
    }
}

/// The 44 bytes before the samples of a 16-bit mono PCM file: the RIFF
/// header with the size of what follows it, the format chunk (PCM, one
/// channel, the rate, two bytes per second of rate, two bytes per frame,
/// sixteen bits), and the header of the data chunk with its size.
pub open spec fn wav_header(sample_rate: int, data_len: int) -> Seq<u8> {
    seq![0x52u8, 0x49, 0x46, 0x46] + le32(36 + data_len) + seq![
        0x57u8,
        0x41,
        0x56,
        0x45,
        0x66,
        0x6D,
        0x74,
        0x20,
    ] + le32(16) + le16(1) + le16(1) + le32(sample_rate) + le32(2 * sample_rate) + le16(2) + le16(
        16,
    ) + seq![0x64u8, 0x61, 0x74, 0x61] + le32(data_len)
}

/// A 16-bit mono PCM WAVE file of the samples at the rate.
pub open spec fn wav_pcm16_mono(sample_rate: int, samples: Seq<i16>) -> Seq<u8> {
    wav_header(sample_rate, 2 * samples.len() as int) + pcm_bytes(samples)
}

/// The character for a six-bit value in the standard base64 alphabet.
pub open spec fn base64_digit(v: int) -> char {
    if v < 26 {
        ((65 + v) as u8) as char
    } else if v < 52 {
        ((97 + v - 26) as u8) as char
    } else if v < 62 {
        ((48 + v - 52) as u8) as char
    } else if v == 62 {
        '+'
    } else {
        '/'
    }
}

/// The standard base64 text of the bytes, padded with `=`: each three
/// bytes give four characters of six bits each, and one or two bytes left
/// over give two or three characters and the padding.
pub open spec fn base64_standard(bytes: Seq<u8>) -> Seq<char>
    decreases bytes.len(),
{
    if bytes.len() == 0 {
        Seq::<char>::empty()
    } else if bytes.len() == 1 {
        let b0 = bytes[0] as int;
        seq![base64_digit(b0 / 4), base64_digit(b0 % 4 * 16), '=', '=']
    } else if bytes.len() == 2 {
        let b0 = bytes[0] as int;
        let b1 = bytes[1] as int;
        seq![
            base64_digit(b0 / 4),
            base64_digit(b0 % 4 * 16 + b1 / 16),
            base64_digit(b1 % 16 * 4),
            '=',
        ]
    } else {
        let b0 = bytes[0] as int;
        let b1 = bytes[1] as int;
        let b2 = bytes[2] as int;
        seq![
            base64_digit(b0 / 4),
            base64_digit(b0 % 4 * 16 + b1 / 16),
            base64_digit(b1 % 16 * 4 + b2 / 64),
            base64_digit(b2 % 64),
        ] + base64_standard(bytes.subrange(3, bytes.len() as int))
    }
}

/// What the WAVE reader makes of the bytes: nothing where it refuses the
/// file; else one entry for each sample that the data chunk announces, in
/// order, the sample as 16 bits where it could be read so, nothing where
/// not.
pub uninterp spec fn wav_reading(bytes: Seq<u8>) -> Option<Seq<Option<i16>>>;

/// The samples that were read, in order, without the entries that hold
/// none.
pub open spec fn decoded(items: Seq<Option<i16>>) -> Seq<i16>
    decreases items.len(),
{
    if items.len() == 0 {
        Seq::<i16>::empty()
    } else if items.last() is Some {
        decoded(items.drop_last()).push(items.last()->0)
    } else {
        decoded(items.drop_last())
    }
}

/// `hound::WavWriter` on a buffer in memory: `new` with a 16-bit mono
/// integer format at the rate, `write_sample` for each sample in order, then
/// `finalize`. The writer accepts 16 bits, writes a 16-bit sample without a
/// test, and with one channel no sample is left unfinished, so on a buffer
/// in memory it reports no error; the buffer then holds the 44 bytes of
/// header and the samples, low byte first. The rate is kept above zero and
/// within `MAX_SAMPLE_RATE`, and the samples within `MAX_WAV_SAMPLES`,
/// because the writer divides by the rate and counts bytes in 32 bits.
#[verifier::external_body]
fn hound_write_pcm16_mono(sample_rate: u32, samples: &Vec<i16>) -> (r: Result<
    Vec<u8>,
    hound::Error,
>)
    requires
        0 < sample_rate <= MAX_SAMPLE_RATE,
        samples@.len() <= MAX_WAV_SAMPLES,
    ensures
        r is Ok,
        r->Ok_0@ == wav_pcm16_mono(sample_rate as int, samples@),
{
    let spec = hound::WavSpec {
        channels: 1,
        sample_rate,
        bits_per_sample: 16,
        sample_format: hound::SampleFormat::Int,
    };
    let mut cursor = std::io::Cursor::new(Vec::new());
    let mut writer = hound::WavWriter::new(&mut cursor, spec)?;
    for sample in samples.iter() {
        writer.write_sample(*sample)?;
    }
    writer.finalize()?;
    Ok(cursor.into_inner())
}

/// `hound::WavReader::new` on the bytes and its `samples::<i16>()`: the
/// outcome is what `wav_reading` names.
#[verifier::external_body]
fn hound_read_i16(bytes: &Vec<u8>) -> (r: Result<Vec<Option<i16>>, hound::Error>)
    ensures
        r is Ok ==> wav_reading(bytes@) == Some(r->Ok_0@),
        r is Err ==> wav_reading(bytes@) is None,
{
    let mut reader = hound::WavReader::new(std::io::Cursor::new(bytes.as_slice()))?;
    Ok(reader.samples::<i16>().map(|sample| sample.ok()).collect())
}

/// The message of a `hound::Error`, as its `Display` gives it.
#[verifier::external_body]
fn hound_error_text(error: &hound::Error) -> (r: String) {
    format!("{}", error)
}

/// `encode` of `base64::engine::general_purpose::STANDARD`: the standard
/// alphabet with padding. The length is kept to what the encoder can size
/// its output for.
#[verifier::external_body]
fn base64_encode(bytes: &Vec<u8>) -> (r: String)
    requires
        bytes@.len() / 3 * 4 + 4 <= usize::MAX,
    ensures
        r@ == base64_standard(bytes@),
{
    base64::engine::general_purpose::STANDARD.encode(bytes)
}

/// Tells a RIFF container from the rest by its first four bytes.
pub fn detect_container(bytes: &Vec<u8>) -> (r: AudioContainer)
    ensures
        r == AudioContainer::Wave <==> (bytes@.len() >= 4 && bytes@[0] == 0x52 && bytes@[1] == 0x49
            && bytes@[2] == 0x46 && bytes@[3] == 0x46),
{
    if bytes.len() >= 4 && bytes[0] == 0x52 && bytes[1] == 0x49 && bytes[2] == 0x46 && bytes[3]
        == 0x46 {
        AudioContainer::Wave
    } else {
        AudioContainer::Other
    }
}

/// The samples that were read, in order, without the entries that hold
/// none.
pub fn keep_decoded(items: &Vec<Option<i16>>) -> (r: Vec<i16>)
    ensures
        r@ == decoded(items@),
{
    let mut r: Vec<i16> = Vec::new();
    let mut i: usize = 0;
    while i < items.len()
        invariant
            i <= items@.len(),
            r@ == decoded(items@.take(i as int)),
        decreases items@.len() - i,
    {
        assert(items@.take(i + 1).drop_last() =~= items@.take(i as int));
        match items[i] {
            Some(sample) => {
                r.push(sample);
            },
            None => {},
        }
        i += 1;
    }
    assert(items@.take(items@.len() as int) =~= items@);
    r
}

/// The samples take two bytes each.
pub proof fn lemma_pcm_bytes_len(samples: Seq<i16>)
    ensures
        pcm_bytes(samples).len() == 2 * samples.len(),
    decreases samples.len(),
{
    if samples.len() > 0 {
        lemma_pcm_bytes_len(samples.drop_last());
    }
}

/// A file is 44 bytes of header and two bytes for each sample.
pub proof fn lemma_wav_len(sample_rate: int, samples: Seq<i16>)
    ensures
        wav_pcm16_mono(sample_rate, samples).len() == 44 + 2 * samples.len(),
{
    lemma_pcm_bytes_len(samples);
}

/// Whether samples can be encoded at a rate and the file turned into
/// base64 text: the file has room for them, and the text is short enough
/// to address.
pub open spec fn fits_base64_wav(samples: Seq<i16>) -> bool {
    samples.len() <= MAX_WAV_SAMPLES && (44 + 2 * samples.len()) / 3 * 4 + 4 <= usize::MAX
}

/// Encodes samples as a 16-bit mono PCM WAVE file.
///
/// A rate of zero or above `MAX_SAMPLE_RATE` and more than
/// `MAX_WAV_SAMPLES` samples are refused. Every other input gives the
/// file.
pub fn create_wav(samples: &Vec<i16>, sample_rate: u32) -> (r: Result<Vec<u8>, AudioError>)
    ensures
        sample_rate == 0 || sample_rate > MAX_SAMPLE_RATE ==> r is Err && r->Err_0
            is InvalidSampleRate,
        0 < sample_rate <= MAX_SAMPLE_RATE && samples@.len() > MAX_WAV_SAMPLES ==> r is Err
            && r->Err_0 is TooLong,
        0 < sample_rate <= MAX_SAMPLE_RATE && samples@.len() <= MAX_WAV_SAMPLES ==> r is Ok
            && r->Ok_0@ == wav_pcm16_mono(sample_rate as int, samples@),
{
    if sample_rate == 0 || sample_rate > MAX_SAMPLE_RATE {
        return Err(AudioError::InvalidSampleRate);
    }
    if samples.len() > MAX_WAV_SAMPLES {
        return Err(AudioError::TooLong);
    }
    match hound_write_pcm16_mono(sample_rate, samples) {
        Ok(bytes) => Ok(bytes),
        Err(error) => Err(AudioError::Encoder(hound_error_text(&error))),
    }
}

/// The base64 text of a file, or `TooLong` where the text would be too long
/// to address.
pub fn wav_to_base64(wav: &Vec<u8>) -> (r: Result<String, AudioError>)
    ensures
        wav@.len() / 3 * 4 + 4 <= usize::MAX ==> r is Ok && r->Ok_0@ == base64_standard(wav@),
        wav@.len() / 3 * 4 + 4 > usize::MAX ==> r is Err && r->Err_0 is TooLong,
{
    if wav.len() / 3 > (usize::MAX - 4) / 4 {
        return Err(AudioError::TooLong);
    }
    Ok(base64_encode(wav))
}

/// Encodes synthesized speech as a WAVE file at `SPEECH_SAMPLE_RATE` and
/// that file as base64 text. Samples that fit give the text; samples that
/// do not are refused as too long.
pub fn samples_to_base64_wav(samples: &Vec<i16>) -> (r: Result<String, AudioError>)
    ensures
        fits_base64_wav(samples@) ==> r is Ok && r->Ok_0@ == base64_standard(
            wav_pcm16_mono(SPEECH_SAMPLE_RATE as int, samples@),
        ),
        !fits_base64_wav(samples@) ==> r is Err && r->Err_0 is TooLong,
{
    proof {
        lemma_wav_len(SPEECH_SAMPLE_RATE as int, samples@);
    }
    match create_wav(samples, SPEECH_SAMPLE_RATE) {
        Ok(wav) => wav_to_base64(&wav),
        Err(error) => Err(error),
    }
}

/// Decodes a WAVE file to its 16-bit samples. Samples that the reader
/// could not read as 16 bits are left out; a file that it refuses is an
/// error.
pub fn decode_wav(bytes: &Vec<u8>) -> (r: Result<Vec<i16>, AudioError>)
    ensures
        match wav_reading(bytes@) {
            Some(items) => r is Ok && r->Ok_0@ == decoded(items),
            None => r is Err && r->Err_0 is Decoder,
        },
{
    match hound_read_i16(bytes) {
        Ok(items) => Ok(keep_decoded(&items)),
        Err(error) => Err(AudioError::Decoder(hound_error_text(&error))),
    }
}

} // verus!
