//! The pipeline of one chat turn: admission, the fragments of a generation
//! turned into text events and synthesis chunks, the closing metrics, and
//! the audio events in the order of their sentences.

use vstd::prelude::*;
use vstd::string::StringExecFns;
use crate::aira::Aira;
use crate::audio::{
    audio_error_text, base64_standard, fits_base64_wav, samples_to_base64_wav, wav_pcm16_mono,
    AudioError, SPEECH_SAMPLE_RATE,
};
use crate::conversation::{
    estimate_tokens_spec, render_block, retained, ConversationTurn, Role,
};
use crate::sanitize::{clean_llm_output, clean_spec};
use crate::segment::{buffer_after, chunks_on, texts_of, SentenceBuffer};
use crate::text::{
    chars_of, contains, contains_text, decimal, digit_char, digit_of, occurs_at, push_decimal,
};

verus! {

/// Seconds that a turn waits for the generation permit.
pub const ADMISSION_TIMEOUT_SECS: u64 = 5;

/// Seconds that a turn waits at its end for the synthesis worker.
pub const SYNTHESIS_JOIN_TIMEOUT_SECS: u64 = 15;

/// Permits in the pool: generations that may run at a time.
pub const GENERATION_PERMITS: usize = 1;

/// Events that the outbound channel holds before a sender has to wait.
pub const EVENT_CHANNEL_CAPACITY: usize = 512;

/// Chunks that wait for synthesis before the generation has to wait.
pub const SYNTHESIS_QUEUE_CAPACITY: usize = 32;

/// The kind of an outbound event.
#[derive(Clone, Copy, Debug, PartialEq, Eq, Structural)]
pub enum EventKind {
    /// Incremental text; sent without a label.
    Text,
    /// The final generation rate.
    Tps,
    /// One chunk of synthesized speech.
    AudioComplete,
    /// An error that ends the turn.
    Error,
    /// A chunk that could not be synthesized.
    TtsError,
    /// A chunk whose audio could not be encoded.
    AudioError,
}

/// An event for the client.
#[derive(Clone, Debug)]
pub struct OutboundEvent {
    pub kind: EventKind,
    pub data: String,
}

/// How the wait for a generation permit ended.
#[derive(Clone, Copy, Debug, PartialEq, Eq, Structural)]
pub enum AdmissionOutcome {
    /// A permit was acquired.
    Admitted,
    /// No permit came free in time.
    TimedOut,
    /// The pool is closed: the server is shutting down.
    Closed,
}

/// How the synthesis of one chunk ended.
#[derive(Clone, Debug)]
pub enum SynthesisOutcome {
    /// The speech, as 16-bit samples.
    Samples(Vec<i16>),
    /// The synthesizer failed; its message.
    Failed(String),
}

/// A chunk of text on its way to speech synthesis.
#[derive(Clone, Debug)]
pub struct SynthesisChunk {
    /// The position of the chunk among the chunks of its turn.
    pub index: u64,
    pub text: String,
}

/// What one fragment of a generation leads to.
#[derive(Debug)]
pub struct FragmentOutput {
    /// Whether the fragment holds a turn marker, so that the generation is
    /// over and the fragment is not part of the reply.
    pub stop: bool,
    /// The text event that goes out at once.
    pub text_event: Option<OutboundEvent>,
    /// The chunks that go to synthesis, in order.
    pub chunks: Vec<SynthesisChunk>,
}

/// How a generation ended.
#[derive(Clone, Copy, Debug, PartialEq, Eq, Structural)]
pub enum GenerationEnd {
    /// The model ended, or a turn marker stopped it.
    Completed,
    /// The model failed.
    Failed,
}

/// What the end of a turn leads to.
#[derive(Debug)]
pub struct TurnEnd {
    /// What was left in the sentence buffer, if anything.
    pub chunk: Option<SynthesisChunk>,
    /// The closing event, which goes out after the chunk was dispatched:
    /// the metrics of a generation that completed, the error of one that
    /// failed.
    pub event: OutboundEvent,
    /// Whether the turn was recorded in the history.
    pub recorded: bool,
}

/// What the end of a generation leads to.
#[derive(Debug)]
pub struct FinishOutput {
    /// What was left in the sentence buffer, if it is worth speaking.
    pub chunk: Option<SynthesisChunk>,
    /// The metrics event, which goes out after the chunk was dispatched.
    pub metrics: OutboundEvent,
}

/// The label under which an event kind is sent; none for text.
pub open spec fn event_label(kind: EventKind) -> Option<Seq<char>> {
    match kind {
        EventKind::Text => None,
        EventKind::Tps => Some("tps"@),
        EventKind::AudioComplete => Some("audio_complete"@),
        EventKind::Error => Some("error"@),
        EventKind::TtsError => Some("tts_error"@),
        EventKind::AudioError => Some("audio_error"@),
    }
}

/// Whether `after` is `before` with one turn recorded behind it: the user's
/// message, then the reply, each with its estimate.
pub open spec fn recorded_turn(
    before: Seq<ConversationTurn>,
    after: Seq<ConversationTurn>,
    message: Seq<char>,
    reply: Seq<char>,
) -> bool {
    &&& after.len() == before.len() + 2
    &&& after.subrange(0, before.len() as int) == before
    &&& after[before.len() as int].role == Role::User
    &&& after[before.len() as int].content@ == message
    &&& after[before.len() as int].token_count == estimate_tokens_spec(message)
    &&& after.last().role == Role::Assistant
    &&& after.last().content@ == reply
    &&& after.last().token_count == estimate_tokens_spec(reply)
}

/// Whether a fragment holds a marker that opens or closes a turn.
pub open spec fn is_stop(fragment: Seq<char>) -> bool {
    contains(fragment, "<|im_end|>"@) || contains(fragment, "<|im_start|>"@)
}

/// `n + k`, or the largest value where that is beyond it.
pub open spec fn advance(n: u64, k: int) -> u64 {
    if n + k <= u64::MAX {
        (n + k) as u64
    } else {
        u64::MAX
    }
}

/// Hundredths of a fragment per second, rounded to the nearest; zero where
/// no time has passed.
pub open spec fn tps_hundredths(fragments: u64, elapsed_ms: u64) -> int {
    if elapsed_ms == 0 {
        0
    } else {
        (fragments * 100_000 + elapsed_ms / 2) / (elapsed_ms as int)
    }
}

/// A rate in hundredths as a decimal with two places.
pub open spec fn hundredths_text(h: int) -> Seq<char> {
    decimal((h / 100) as nat) + "."@ + seq![digit_char(h / 10 % 10), digit_char(h % 10)]
}

/// The label under which an event kind is sent; none for text.
pub fn event_name(kind: EventKind) -> (r: Option<&'static str>)
    ensures
        match event_label(kind) {
            Some(label) => r is Some && r->0@ == label,
            None => r is None,
        },
{
    match kind {
        EventKind::Text => None,
        EventKind::Tps => Some("tps"),
        EventKind::AudioComplete => Some("audio_complete"),
        EventKind::Error => Some("error"),
        EventKind::TtsError => Some("tts_error"),
        EventKind::AudioError => Some("audio_error"),
    }
}

/// The event that turns a request away, where it was not admitted. A
/// request that gets one touches no engine and no state.
pub fn admission_rejection(outcome: AdmissionOutcome) -> (r: Option<OutboundEvent>)
    ensures
        outcome is Admitted <==> r is None,
        outcome is TimedOut ==> r->0.kind == EventKind::Error && r->0.data@
            == "Server is busy, please try again"@,
        outcome is Closed ==> r->0.kind == EventKind::Error && r->0.data@
            == "Server is shutting down"@,
{
    match outcome {
        AdmissionOutcome::Admitted => None,
        AdmissionOutcome::TimedOut => Some(
            OutboundEvent {
                kind: EventKind::Error,
                data: String::from_str("Server is busy, please try again"),
            },
        ),
        AdmissionOutcome::Closed => Some(
            OutboundEvent {
                kind: EventKind::Error,
                data: String::from_str("Server is shutting down"),
            },
        ),
    }
}

/// The event for a generation that failed as a whole.
pub fn generation_failure() -> (r: OutboundEvent)
    ensures
        r.kind == EventKind::Error,
        r.data@ == "Processing failed, please try again"@,
{
    OutboundEvent {
        kind: EventKind::Error,
        data: String::from_str("Processing failed, please try again"),
    }
}

/// Whether a fragment holds a marker that opens or closes a turn.
pub fn is_stop_fragment(fragment: &str) -> (r: bool)
    ensures
        r == is_stop(fragment@),
{
    let text = chars_of(fragment);
    let closing = chars_of("<|im_end|>");
    let opening = chars_of("<|im_start|>");
    contains_text(&text, &closing) || contains_text(&text, &opening)
}

/// The generation rate as a decimal with two places.
pub fn format_tps(fragments: u64, elapsed_ms: u64) -> (r: String)
    ensures
        r@ == hundredths_text(tps_hundredths(fragments, elapsed_ms)),
{
    let h: u128 = if elapsed_ms == 0 {
        0
    } else {
        (fragments as u128 * 100_000 + (elapsed_ms / 2) as u128) / elapsed_ms as u128
    };
    let mut r = String::new();
    push_decimal(&mut r, h / 100);
    r.append(".");
    r.push(digit_of(h / 10 % 10));
    r.push(digit_of(h % 10));
    assert(r@ =~= hundredths_text(h as int));
    r
}

/// The kind of the event that the synthesis of one chunk leads to.
pub open spec fn synthesis_kind(outcome: SynthesisOutcome) -> EventKind {
    match outcome {
        SynthesisOutcome::Failed(_) => EventKind::TtsError,
        SynthesisOutcome::Samples(samples) => if fits_base64_wav(samples@) {
            EventKind::AudioComplete
        } else {
            EventKind::AudioError
        },
    }
}

/// The data of the event that the synthesis of one chunk leads to: the
/// synthesizer's message where it failed; else the speech as base64 of a
/// WAVE file, or the words for speech that is too long for one file.
pub open spec fn synthesis_data(outcome: SynthesisOutcome) -> Seq<char> {
    match outcome {
        SynthesisOutcome::Failed(message) => message@,
        SynthesisOutcome::Samples(samples) => if fits_base64_wav(samples@) {
            base64_standard(wav_pcm16_mono(SPEECH_SAMPLE_RATE as int, samples@))
        } else {
            audio_error_text(AudioError::TooLong)
        },
    }
}

/// The event that the synthesis of one chunk leads to. Whatever it is, the
/// worker goes on with the next chunk.
pub fn synthesis_event(outcome: &SynthesisOutcome) -> (r: OutboundEvent)
    ensures
        r.kind == synthesis_kind(*outcome),
        r.data@ == synthesis_data(*outcome),
{
    match outcome {
        SynthesisOutcome::Samples(samples) => match samples_to_base64_wav(samples) {
            Ok(data) => OutboundEvent { kind: EventKind::AudioComplete, data },
            Err(error) => OutboundEvent { kind: EventKind::AudioError, data: error.message() },
        },
        SynthesisOutcome::Failed(message) => OutboundEvent {
            kind: EventKind::TtsError,
            data: message.clone(),
        },
    }
}

/// The coordinator of one chat turn, from the prompt to the record in the
/// history.
#[derive(Debug)]
pub struct StreamOrchestrator {
    /// The user's message.
    pub message: String,
    /// The text between the last chunk and the next.
    pub buffer: SentenceBuffer,
    /// The reply so far: the sanitized fragments, joined.
    pub reply: String,
    /// Fragments taken so far.
    pub fragments: u64,
    /// The index that the next chunk gets.
    pub next_chunk: u64,
}

impl StreamOrchestrator {
    /// Starts a turn that was admitted: builds the prompt for the message
    /// on the session's history and its emotional context as they are now.
    pub fn begin(aira: &mut Aira, message: &str) -> (r: (StreamOrchestrator, String))
        ensures
            final(aira).conversation.turns@ == retained(
                old(aira).conversation.turns@,
                old(aira).conversation.available_for(estimate_tokens_spec(message@) as int),
            ),
            final(aira).conversation.system_prompt == old(aira).conversation.system_prompt,
            final(aira).conversation.system_prompt_tokens
                == old(aira).conversation.system_prompt_tokens,
            final(aira).conversation.max_context_tokens
                == old(aira).conversation.max_context_tokens,
            final(aira).conversation.emotional_context == old(aira).conversation.emotional_context,
            old(aira).conversation.available_for(estimate_tokens_spec(message@) as int) >= 0
                ==> final(aira).conversation.within_budget(estimate_tokens_spec(message@) as int),
            r.1@ == final(aira).conversation.render(message@),
            r.0.message@ == message@,
            r.0.buffer@.len() == 0,
            r.0.reply@.len() == 0,
            r.0.fragments == 0,
            r.0.next_chunk == 0,
    {
        let prompt = aira.conversation.build_prompt(message);
        let turn = StreamOrchestrator {
            message: String::from_str(message),
            buffer: SentenceBuffer::new(),
            reply: String::new(),
            fragments: 0,
            next_chunk: 0,
        };
        (turn, prompt)
    }

    /// Starts a turn if it was admitted. A request that was not admitted
    /// gets the event that turns it away, and the session stays as it was:
    /// no prompt is built, nothing is pruned, no engine is needed.
    pub fn start(aira: &mut Aira, message: &str, outcome: AdmissionOutcome) -> (r: Result<
        (StreamOrchestrator, String),
        OutboundEvent,
    >)
        ensures
            r is Ok <==> outcome is Admitted,
            r is Err ==> {
                &&& *final(aira) == *old(aira)
                &&& r->Err_0.kind == EventKind::Error
                &&& outcome is TimedOut ==> r->Err_0.data@ == "Server is busy, please try again"@
                &&& outcome is Closed ==> r->Err_0.data@ == "Server is shutting down"@
            },
            r is Ok ==> {
                &&& final(aira).conversation.turns@ == retained(
                    old(aira).conversation.turns@,
                    old(aira).conversation.available_for(estimate_tokens_spec(message@) as int),
                )
                &&& final(aira).conversation.system_prompt == old(aira).conversation.system_prompt
                &&& final(aira).conversation.system_prompt_tokens
                    == old(aira).conversation.system_prompt_tokens
                &&& final(aira).conversation.max_context_tokens
                    == old(aira).conversation.max_context_tokens
                &&& final(aira).conversation.emotional_context
                    == old(aira).conversation.emotional_context
                &&& old(aira).conversation.available_for(estimate_tokens_spec(message@) as int)
                    >= 0 ==> final(aira).conversation.within_budget(
                    estimate_tokens_spec(message@) as int,
                )
                &&& r->Ok_0.1@ == final(aira).conversation.render(message@)
                &&& r->Ok_0.0.message@ == message@
                &&& r->Ok_0.0.buffer@.len() == 0
                &&& r->Ok_0.0.reply@.len() == 0
                &&& r->Ok_0.0.fragments == 0
                &&& r->Ok_0.0.next_chunk == 0
            },
    {
        match admission_rejection(outcome) {
            Some(rejection) => Err(rejection),
            None => Ok(StreamOrchestrator::begin(aira, message)),
        }
    }

    /// Takes one fragment of the generation.
    ///
    /// A fragment that holds a turn marker ends the generation and changes
    /// nothing. Any other fragment is sanitized; the sanitized text goes out
    /// as a text event, joins the reply, and enters the sentence buffer,
    /// which may set chunks free for synthesis. The chunks are numbered on
    /// from the last chunk of the turn.
    pub fn on_fragment(&mut self, fragment: &str) -> (r: FragmentOutput)
        ensures
            r.stop == is_stop(fragment@),
            r.stop ==> {
                &&& r.text_event is None
                &&& r.chunks@.len() == 0
                &&& final(self).buffer@ == old(self).buffer@
                &&& final(self).reply@ == old(self).reply@
                &&& final(self).fragments == old(self).fragments
                &&& final(self).next_chunk == old(self).next_chunk
            },
            !r.stop ==> {
                &&& r.text_event is Some
                &&& r.text_event->0.kind == EventKind::Text
                &&& r.text_event->0.data@ == clean_spec(fragment@)
                &&& r.chunks@.len() == chunks_on(old(self).buffer@, clean_spec(fragment@)).len()
                &&& forall|k: int|
                    0 <= k < r.chunks@.len() ==> {
                        &&& (#[trigger] r.chunks@[k]).text@ == chunks_on(
                            old(self).buffer@,
                            clean_spec(fragment@),
                        )[k]
                        &&& r.chunks@[k].index == advance(old(self).next_chunk, k)
                    }
                &&& final(self).buffer@ == buffer_after(old(self).buffer@, clean_spec(fragment@))
                &&& final(self).reply@ == old(self).reply@ + clean_spec(fragment@)
                &&& final(self).fragments == advance(old(self).fragments, 1)
                &&& final(self).next_chunk == advance(old(self).next_chunk, r.chunks@.len() as int)
            },
            final(self).message == old(self).message,
    {
        if is_stop_fragment(fragment) {
            return FragmentOutput { stop: true, text_event: None, chunks: Vec::new() };
        }
        let cleaned = clean_llm_output(fragment);
        let mut texts = self.buffer.push_fragment(cleaned.as_str());
        self.reply.append(cleaned.as_str());
        self.fragments = self.fragments.saturating_add(1);
        let ghost expected = chunks_on(old(self).buffer@, clean_spec(fragment@));
        let ghost start = self.next_chunk;
        assert(texts_of(texts@).len() == texts@.len());
        assert(forall|k: int|
            0 <= k < texts@.len() ==> (#[trigger] texts@[k])@ == texts_of(texts@)[k]);
        let total = texts.len();
        let mut chunks: Vec<SynthesisChunk> = Vec::new();
        let mut taken: usize = 0;
        while texts.len() > 0
            invariant
                total == expected.len(),
                taken + texts@.len() == total,
                chunks@.len() == taken,
                forall|k: int|
                    0 <= k < texts@.len() ==> (#[trigger] texts@[k])@ == expected[taken + k],
                forall|k: int|
                    0 <= k < chunks@.len() ==> {
                        &&& (#[trigger] chunks@[k]).text@ == expected[k]
                        &&& chunks@[k].index == advance(start, k)
                    },
                self.next_chunk == start,
                self.buffer@ == buffer_after(old(self).buffer@, clean_spec(fragment@)),
                self.reply@ == old(self).reply@ + clean_spec(fragment@),
                self.fragments == advance(old(self).fragments, 1),
                self.message == old(self).message,
            decreases texts@.len(),
        {
            let text = texts.remove(0);
            let index = self.next_chunk.saturating_add(taken as u64);
            chunks.push(SynthesisChunk { index, text });
            taken += 1;
        }
        self.next_chunk = self.next_chunk.saturating_add(total as u64);
        FragmentOutput {
            stop: false,
            text_event: Some(OutboundEvent { kind: EventKind::Text, data: cleaned }),
            chunks,
        }
    }

    /// Ends the generation after `elapsed_ms` milliseconds: what the sentence
    /// buffer still holds becomes the last chunk, unless it holds nothing,
    /// and the metrics event reports the rate.
    pub fn finish(&mut self, elapsed_ms: u64) -> (r: FinishOutput)
        ensures
            old(self).buffer@.len() == 0 ==> r.chunk is None,
            old(self).buffer@.len() > 0 ==> {
                &&& r.chunk is Some
                &&& r.chunk->0.text@ == old(self).buffer@
                &&& r.chunk->0.index == old(self).next_chunk
            },
            r.metrics.kind == EventKind::Tps,
            r.metrics.data@ == hundredths_text(tps_hundredths(old(self).fragments, elapsed_ms)),
            final(self).buffer@.len() == 0,
            final(self).next_chunk == advance(
                old(self).next_chunk,
                if old(self).buffer@.len() == 0 {
                    0int
                } else {
                    1int
                },
            ),
            final(self).reply == old(self).reply,
            final(self).fragments == old(self).fragments,
            final(self).message == old(self).message,
    {
        let chunk = match self.buffer.flush() {
            Some(text) => {
                let index = self.next_chunk;
                self.next_chunk = self.next_chunk.saturating_add(1);
                Some(SynthesisChunk { index, text })
            },
            None => None,
        };
        let metrics = OutboundEvent {
            kind: EventKind::Tps,
            data: format_tps(self.fragments, elapsed_ms),
        };
        FinishOutput { chunk, metrics }
    }

    /// Records the turn in the session's history: the user's message, then
    /// the reply.
    pub fn record(&self, aira: &mut Aira)
        ensures
            recorded_turn(
                old(aira).conversation.turns@,
                final(aira).conversation.turns@,
                self.message@,
                self.reply@,
            ),
            final(aira).conversation.system_prompt == old(aira).conversation.system_prompt,
            final(aira).conversation.system_prompt_tokens
                == old(aira).conversation.system_prompt_tokens,
            final(aira).conversation.max_context_tokens
                == old(aira).conversation.max_context_tokens,
            final(aira).conversation.emotional_context
                == old(aira).conversation.emotional_context,
    {
        aira.conversation.record_turn(Role::User, self.message.as_str());
        let ghost middle = aira.conversation.turns@;
        aira.conversation.record_turn(Role::Assistant, self.reply.as_str());
        let ghost n = old(aira).conversation.turns@.len() as int;
        assert(aira.conversation.turns@[n] == aira.conversation.turns@.subrange(0, n + 1)[n]);
        assert(aira.conversation.turns@.subrange(0, n) =~= middle.subrange(0, n));
    }

    /// Ends the turn after `elapsed_ms` milliseconds of generation.
    ///
    /// Either way what the sentence buffer still holds becomes the last
    /// chunk. A generation that completed closes with the metrics event,
    /// and the turn is recorded in the history. A generation that failed
    /// closes with the error event, and the history stays as it was.
    pub fn conclude(&mut self, aira: &mut Aira, elapsed_ms: u64, end: GenerationEnd) -> (r:
        TurnEnd)
        ensures
            old(self).buffer@.len() == 0 ==> r.chunk is None,
            old(self).buffer@.len() > 0 ==> {
                &&& r.chunk is Some
                &&& r.chunk->0.text@ == old(self).buffer@
                &&& r.chunk->0.index == old(self).next_chunk
            },
            final(self).buffer@.len() == 0,
            final(self).next_chunk == advance(
                old(self).next_chunk,
                if old(self).buffer@.len() == 0 {
                    0int
                } else {
                    1int
                },
            ),
            final(self).reply == old(self).reply,
            final(self).fragments == old(self).fragments,
            final(self).message == old(self).message,
            r.recorded == (end is Completed),
            end is Completed ==> {
                &&& r.event.kind == EventKind::Tps
                &&& r.event.data@ == hundredths_text(
                    tps_hundredths(old(self).fragments, elapsed_ms),
                )
                &&& recorded_turn(
                    old(aira).conversation.turns@,
                    final(aira).conversation.turns@,
                    old(self).message@,
                    old(self).reply@,
                )
                &&& final(aira).conversation.system_prompt
                    == old(aira).conversation.system_prompt
                &&& final(aira).conversation.system_prompt_tokens
                    == old(aira).conversation.system_prompt_tokens
                &&& final(aira).conversation.max_context_tokens
                    == old(aira).conversation.max_context_tokens
                &&& final(aira).conversation.emotional_context
                    == old(aira).conversation.emotional_context
            },
            end is Failed ==> {
                &&& r.event.kind == EventKind::Error
                &&& r.event.data@ == "Processing failed, please try again"@
                &&& *final(aira) == *old(aira)
            },
    {
        let finished = self.finish(elapsed_ms);
        match end {
            GenerationEnd::Completed => {
                self.record(aira);
                TurnEnd { chunk: finished.chunk, event: finished.metrics, recorded: true }
            },
            GenerationEnd::Failed => TurnEnd {
                chunk: finished.chunk,
                event: generation_failure(),
                recorded: false,
            },
        }
    }
}

/// The markers of the prompt are the markers that stop a generation: every
/// closed block of a prompt, whatever its role and content, is a stop
/// fragment, so a model that starts to write a turn of its own is cut off.
pub proof fn lemma_block_is_stop(role: Role, content: Seq<char>)
    ensures
        is_stop(render_block(role, content)),
{
    reveal_strlit("<|im_end|>");
    reveal_strlit("<|im_end|>\n");
    let block = render_block(role, content);
    let at = block.len() - 11;
    assert(block.subrange(at, at + 10) =~= "<|im_end|>"@);
    assert(occurs_at(block, "<|im_end|>"@, at));
}

/// Whether each index is above the one before it.
pub open spec fn increasing(indices: Seq<u64>) -> bool {
    forall|i: int, j: int| 0 <= i < j < indices.len() ==> indices[i] < indices[j]
}

/// The sequencer between the synthesis worker and the outbound channel: it lets
/// the event of a chunk pass only if the chunk comes after every chunk whose
/// event has passed.
pub struct AudioSequencer {
    /// The index of the last chunk whose event has passed.
    pub last: Option<u64>,
    /// The indices of the chunks whose events have passed, in the order in
    /// which they passed.
    pub emitted: Ghost<Seq<u64>>,
}

impl AudioSequencer {
    /// The events that have passed did so in the order of their chunks, and
    /// `last` is the index of the latest.
    pub open spec fn wf(&self) -> bool {
        &&& increasing(self.emitted@)
        &&& match self.last {
            Some(index) => self.emitted@.len() > 0 && self.emitted@.last() == index,
            None => self.emitted@.len() == 0,
        }
    }

    /// Whether the event of the chunk with this index may pass.
    pub open spec fn admits(&self, index: u64) -> bool {
        match self.last {
            Some(last) => index > last,
            None => true,
        }
    }

    /// A sequencer that nothing has passed.
    pub fn new() -> (r: AudioSequencer)
        ensures
            r.wf(),
            r.last is None,
            r.emitted@.len() == 0,
    {
        AudioSequencer { last: None, emitted: Ghost(Seq::empty()) }
    }

    /// Takes the outcome of the synthesis of the chunk with this index and
    /// returns the event for it, or nothing where an event of this chunk or
    /// of a later one has passed already.
    pub fn on_synthesis(&mut self, index: u64, outcome: &SynthesisOutcome) -> (r: Option<
        OutboundEvent,
    >)
        ensures
            old(self).wf() ==> final(self).wf(),
            r is Some <==> old(self).admits(index),
            old(self).admits(index) ==> {
                &&& final(self).last == Some(index)
                &&& final(self).emitted@ == old(self).emitted@.push(index)
                &&& r->0.kind == synthesis_kind(*outcome)
                &&& r->0.data@ == synthesis_data(*outcome)
            },
            !old(self).admits(index) ==> {
                &&& final(self).last == old(self).last
                &&& final(self).emitted@ == old(self).emitted@
            },
    {
        let passes = match self.last {
            Some(last) => index > last,
            None => true,
        };
        if passes {
            self.last = Some(index);
            proof {
                self.emitted@ = self.emitted@.push(index);
            }
            Some(synthesis_event(outcome))
        } else {
            None
        }
    }
}

/// Ordering of audio: of two events that have passed the sequencer, the one that
/// passed first belongs to the earlier chunk.
pub proof fn lemma_audio_in_order(sequencer: AudioSequencer, first: int, second: int)
    requires
        sequencer.wf(),
        0 <= first <= second < sequencer.emitted@.len(),
    ensures
        sequencer.emitted@[first] <= sequencer.emitted@[second],
{
}

/// Chunks are numbered in the order of their dispatch: while the numbers
/// last, a later position gets a higher index.
pub proof fn lemma_chunk_indices_increase(start: u64, earlier: int, later: int)
    requires
        0 <= earlier < later,
        start + later <= u64::MAX,
    ensures
        advance(start, earlier) < advance(start, later),
{
}

} // verus!
