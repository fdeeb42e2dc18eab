use aira_brain::aira::Aira;
use aira_brain::audio::samples_to_base64_wav;
use aira_brain::conversation::Role;
use aira_brain::emotion::EmotionalContext;
use aira_brain::stream::{
    admission_rejection, event_name, format_tps, generation_failure, is_stop_fragment,
    synthesis_event, AdmissionOutcome, AudioSequencer, EventKind, GenerationEnd,
    StreamOrchestrator, SynthesisOutcome, ADMISSION_TIMEOUT_SECS, GENERATION_PERMITS, SYNTHESIS_JOIN_TIMEOUT_SECS,
};

fn chunk_list(output: &aira_brain::stream::FragmentOutput) -> Vec<(u64, String)> {
    output.chunks.iter().map(|c| (c.index, c.text.clone())).collect()
}

#[test]
fn limits_of_a_turn() {
    assert_eq!(ADMISSION_TIMEOUT_SECS, 5);
    assert_eq!(SYNTHESIS_JOIN_TIMEOUT_SECS, 15);
    assert_eq!(GENERATION_PERMITS, 1);
}

#[test]
fn events_are_labelled_by_kind() {
    assert_eq!(event_name(EventKind::Text), None);
    assert_eq!(event_name(EventKind::Tps), Some("tps"));
    assert_eq!(event_name(EventKind::AudioComplete), Some("audio_complete"));
    assert_eq!(event_name(EventKind::Error), Some("error"));
    assert_eq!(event_name(EventKind::TtsError), Some("tts_error"));
    assert_eq!(event_name(EventKind::AudioError), Some("audio_error"));
}

#[test]
fn a_request_that_times_out_is_told_that_the_server_is_busy() {
    assert!(admission_rejection(AdmissionOutcome::Admitted).is_none());
    let busy = admission_rejection(AdmissionOutcome::TimedOut).unwrap();
    assert_eq!(busy.kind, EventKind::Error);
    assert_eq!(busy.data, "Server is busy, please try again");
    let closed = admission_rejection(AdmissionOutcome::Closed).unwrap();
    assert_eq!(closed.kind, EventKind::Error);
    assert_eq!(closed.data, "Server is shutting down");
    let failed = generation_failure();
    assert_eq!(failed.kind, EventKind::Error);
    assert_eq!(failed.data, "Processing failed, please try again");
}

#[test]
fn turn_markers_stop_the_generation() {
    assert!(is_stop_fragment("<|im_end|>"));
    assert!(is_stop_fragment("bye<|im_end|>\n"));
    assert!(is_stop_fragment("x<|im_start|>user"));
    assert!(!is_stop_fragment(""));
    assert!(!is_stop_fragment("<|im_end"));
    assert!(!is_stop_fragment("<|im_end |>"));
    assert!(!is_stop_fragment("im_start"));
    assert!(!is_stop_fragment("<|im_star|>t"));
}

#[test]
fn rate_is_fragments_per_second_with_two_places() {
    assert_eq!(format_tps(4, 2000), "2.00");
    assert_eq!(format_tps(10, 3000), "3.33");
    assert_eq!(format_tps(20, 3000), "6.67");
    assert_eq!(format_tps(1, 7), "142.86");
    assert_eq!(format_tps(0, 1234), "0.00");
    assert_eq!(format_tps(1, 200_000), "0.01");
    assert_eq!(format_tps(1, 200_001), "0.00");
    assert_eq!(format_tps(7, 0), "0.00");
    assert_eq!(format_tps(u64::MAX, 1), "18446744073709551615000.00");
}

#[test]
fn turn_begins_with_the_prompt_of_the_session() {
    let mut aira = Aira::new("You are Aira.", 1536);
    aira.conversation.record_turn(Role::User, "Hi");
    aira.conversation.record_turn(Role::Assistant, "Hello!");
    let (turn, prompt) = StreamOrchestrator::begin(&mut aira, "Tell me more");
    assert_eq!(
        prompt,
        "<|im_start|>system\nYou are Aira.<|im_end|>\n\
         <|im_start|>user\nHi<|im_end|>\n\
         <|im_start|>assistant\nHello!<|im_end|>\n\
         <|im_start|>user\nTell me more<|im_end|>\n\
         <|im_start|>assistant\n"
    );
    assert_eq!(turn.message, "Tell me more");
    assert_eq!(turn.reply, "");
    assert_eq!(turn.fragments, 0);
    assert_eq!(turn.next_chunk, 0);
    assert!(turn.buffer.chars.is_empty());
    assert_eq!(aira.conversation.turns.len(), 2);
}

#[test]
fn turn_uses_the_emotional_context_of_the_moment_it_begins() {
    let context = EmotionalContext {
        fatigue: 900_000,
        engagement: 500_000,
        stress: 100_000,
        positive_affect: 100_000,
        timestamp: 5,
    };
    let mut aira = Aira::new("You are Aira.", 1536);
    aira.update_emotional_context(context);
    let (_turn, prompt) = StreamOrchestrator::begin(&mut aira, "Hi");
    assert!(prompt.starts_with("<|im_start|>system\nYou are Aira.\n\nThe user appears fatigued"));
}

#[test]
fn fragments_become_text_events_and_chunks() {
    let mut aira = Aira::new("s", 1536);
    let (mut turn, _) = StreamOrchestrator::begin(&mut aira, "Hi");
    let fragments = ["Hel", "lo. ", "Wor", "ld"];
    let mut texts = Vec::new();
    let mut dispatched = Vec::new();
    for fragment in fragments.iter() {
        let output = turn.on_fragment(fragment);
        assert!(!output.stop);
        let event = output.text_event.as_ref().unwrap();
        assert_eq!(event.kind, EventKind::Text);
        texts.push(event.data.clone());
        dispatched.push(chunk_list(&output));
    }
    assert_eq!(texts, vec!["Hel", "lo. ", "Wor", "ld"]);
    assert_eq!(dispatched[0], vec![]);
    assert_eq!(dispatched[1], vec![]);
    assert_eq!(dispatched[2], vec![(0, "Hello. ".to_string())]);
    assert_eq!(dispatched[3], vec![]);
    let end = turn.finish(2000);
    let last = end.chunk.unwrap();
    assert_eq!((last.index, last.text.as_str()), (1, "World"));
    assert_eq!(end.metrics.kind, EventKind::Tps);
    assert_eq!(end.metrics.data, "2.00");
    assert_eq!(turn.reply, "Hello. World");
    assert_eq!(turn.fragments, 4);
    assert_eq!(turn.next_chunk, 2);
}

#[test]
fn fragments_are_sanitized_before_they_go_anywhere() {
    let mut aira = Aira::new("s", 1536);
    let (mut turn, _) = StreamOrchestrator::begin(&mut aira, "Hi");
    let output = turn.on_fragment("**Done**.");
    assert_eq!(output.text_event.unwrap().data, "Done.");
    assert_eq!(chunk_list_of(&output.chunks), vec![(0, "Done.".to_string())]);
    assert_eq!(turn.reply, "Done.");
}

fn chunk_list_of(chunks: &Vec<aira_brain::stream::SynthesisChunk>) -> Vec<(u64, String)> {
    chunks.iter().map(|c| (c.index, c.text.clone())).collect()
}

#[test]
fn chunks_of_one_fragment_are_numbered_in_order() {
    let mut aira = Aira::new("s", 1536);
    let (mut turn, _) = StreamOrchestrator::begin(&mut aira, "Hi");
    assert!(turn.on_fragment("One. ").chunks.is_empty());
    let output = turn.on_fragment("Two!");
    assert_eq!(chunk_list(&output), vec![(0, "One. ".to_string()), (1, "Two!".to_string())]);
    let output = turn.on_fragment("Three?");
    assert_eq!(chunk_list(&output), vec![(2, "Three?".to_string())]);
    assert_eq!(turn.next_chunk, 3);
    let end = turn.finish(10);
    assert!(end.chunk.is_none());
    assert_eq!(turn.next_chunk, 3);
}

#[test]
fn a_turn_marker_ends_the_generation_and_changes_nothing() {
    let mut aira = Aira::new("s", 1536);
    let (mut turn, _) = StreamOrchestrator::begin(&mut aira, "Hi");
    turn.on_fragment("Hello");
    let output = turn.on_fragment("<|im_end|>");
    assert!(output.stop);
    assert!(output.text_event.is_none());
    assert!(output.chunks.is_empty());
    assert_eq!(turn.reply, "Hello");
    assert_eq!(turn.fragments, 1);
    let end = turn.finish(1000);
    assert_eq!(end.chunk.unwrap().text, "Hello");
    assert_eq!(end.metrics.data, "1.00");
}

#[test]
fn chunk_numbers_stop_at_the_largest_value() {
    let mut aira = Aira::new("s", 1536);
    let (mut turn, _) = StreamOrchestrator::begin(&mut aira, "Hi");
    turn.next_chunk = u64::MAX - 1;
    turn.fragments = u64::MAX;
    turn.on_fragment("A. ");
    let output = turn.on_fragment("B.");
    assert_eq!(
        chunk_list(&output),
        vec![(u64::MAX - 1, "A. ".to_string()), (u64::MAX, "B.".to_string())]
    );
    assert_eq!(turn.next_chunk, u64::MAX);
    assert_eq!(turn.fragments, u64::MAX);
}

#[test]
fn finished_turn_is_recorded_as_two_turns() {
    let mut aira = Aira::new("s", 1536);
    aira.conversation.record_turn(Role::User, "earlier");
    let (mut turn, _) = StreamOrchestrator::begin(&mut aira, "What is 2*3?");
    turn.on_fragment("It is ");
    turn.on_fragment("**six**.");
    turn.finish(500);
    turn.record(&mut aira);
    let turns = &aira.conversation.turns;
    assert_eq!(turns.len(), 3);
    assert_eq!(turns[0].content, "earlier");
    assert_eq!((turns[1].role, turns[1].content.as_str()), (Role::User, "What is 2*3?"));
    assert_eq!(turns[1].token_count, 12 / 4 + 4);
    assert_eq!((turns[2].role, turns[2].content.as_str()), (Role::Assistant, "It is six."));
    assert_eq!(turns[2].token_count, 10 / 4 + 4);
    assert_eq!(aira.get_conversation_stats(), (3, 5 + 7 + 6));
}

#[test]
fn speech_becomes_an_audio_event() {
    let samples: Vec<i16> = vec![0, 100, -100];
    let event = synthesis_event(&SynthesisOutcome::Samples(samples.clone()));
    assert_eq!(event.kind, EventKind::AudioComplete);
    assert_eq!(event.data, samples_to_base64_wav(&samples).unwrap());
    assert!(event.data.starts_with("UklGR"));
}

#[test]
fn failed_synthesis_becomes_a_tts_error() {
    let event = synthesis_event(&SynthesisOutcome::Failed("voice model missing".to_string()));
    assert_eq!(event.kind, EventKind::TtsError);
    assert_eq!(event.data, "voice model missing");
}

#[test]
fn audio_events_pass_in_the_order_of_their_chunks() {
    let mut sequencer = AudioSequencer::new();
    let speech = SynthesisOutcome::Samples(vec![1, 2, 3]);
    let failure = SynthesisOutcome::Failed("no voice".to_string());
    let mut passed = Vec::new();
    for index in [0u64, 1, 1, 3, 2, 0, 4, u64::MAX, u64::MAX] {
        let outcome = if index % 2 == 0 { &speech } else { &failure };
        if let Some(event) = sequencer.on_synthesis(index, outcome) {
            passed.push((index, event.kind));
        }
    }
    assert_eq!(
        passed,
        vec![
            (0, EventKind::AudioComplete),
            (1, EventKind::TtsError),
            (3, EventKind::TtsError),
            (4, EventKind::AudioComplete),
            (u64::MAX, EventKind::TtsError),
        ]
    );
    assert_eq!(sequencer.last, Some(u64::MAX));
}

#[test]
fn a_failed_chunk_does_not_hold_the_next_one_back() {
    let mut sequencer = AudioSequencer::new();
    assert!(sequencer.last.is_none());
    let first = sequencer.on_synthesis(0, &SynthesisOutcome::Failed("x".to_string())).unwrap();
    assert_eq!(first.kind, EventKind::TtsError);
    let second = sequencer.on_synthesis(1, &SynthesisOutcome::Samples(vec![5])).unwrap();
    assert_eq!(second.kind, EventKind::AudioComplete);
}

#[test]
fn a_request_that_is_not_admitted_leaves_the_session_alone() {
    let mut aira = Aira::new("You are Aira.", 60);
    aira.conversation.record_turn(Role::User, "a long turn that would be pruned by the next prompt");
    for outcome in [AdmissionOutcome::TimedOut, AdmissionOutcome::Closed] {
        match StreamOrchestrator::start(&mut aira, "Hi", outcome) {
            Err(event) => {
                assert_eq!(event.kind, EventKind::Error);
                assert_eq!(event.data, admission_rejection(outcome).unwrap().data);
            }
            Ok(_) => panic!("a turn began without a permit"),
        }
        assert_eq!(aira.conversation.turns.len(), 1);
    }
}

#[test]
fn an_admitted_request_begins_its_turn() {
    let mut aira = Aira::new("You are Aira.", 60);
    aira.conversation.record_turn(Role::User, "a long turn that would be pruned by the next prompt");
    let (turn, prompt) = match StreamOrchestrator::start(&mut aira, "Hi", AdmissionOutcome::Admitted) {
        Ok(begun) => begun,
        Err(_) => panic!("an admitted turn was turned away"),
    };
    assert_eq!(turn.message, "Hi");
    assert_eq!(
        prompt,
        "<|im_start|>system\nYou are Aira.<|im_end|>\n<|im_start|>user\nHi<|im_end|>\n<|im_start|>assistant\n"
    );
    assert!(aira.conversation.turns.is_empty());
}

#[test]
fn every_block_of_a_prompt_would_stop_a_generation() {
    let mut block = String::new();
    aira_brain::conversation::push_block(&mut block, Role::User, "anything at all");
    assert!(is_stop_fragment(&block));
    let mut empty = String::new();
    aira_brain::conversation::push_block(&mut empty, Role::Assistant, "");
    assert!(is_stop_fragment(&empty));
}

#[test]
fn white_space_at_the_end_of_a_reply_is_dispatched_too() {
    let mut aira = Aira::new("s", 1536);
    let (mut turn, _) = StreamOrchestrator::begin(&mut aira, "Hi");
    assert_eq!(chunk_list(&turn.on_fragment("Hi.")), vec![(0, "Hi.".to_string())]);
    assert!(turn.on_fragment(" ").chunks.is_empty());
    let end = turn.finish(100);
    let last = end.chunk.unwrap();
    assert_eq!((last.index, last.text.as_str()), (1, " "));
    assert_eq!(turn.next_chunk, 2);
}

#[test]
fn dispatched_chunks_are_the_sanitized_fragments() {
    let fragments = ["**Well**, ", "yes. ", "* one\n", "* two", "!", " ", "_done_"];
    let mut aira = Aira::new("s", 1536);
    let (mut turn, _) = StreamOrchestrator::begin(&mut aira, "Hi");
    let mut texts = String::new();
    let mut chunks: Vec<(u64, String)> = Vec::new();
    for fragment in fragments.iter() {
        let output = turn.on_fragment(fragment);
        texts.push_str(&output.text_event.as_ref().unwrap().data);
        chunks.extend(chunk_list(&output));
    }
    let end = turn.finish(1);
    if let Some(chunk) = end.chunk {
        chunks.push((chunk.index, chunk.text));
    }
    let spoken: String = chunks.iter().map(|c| c.1.as_str()).collect();
    assert_eq!(spoken, texts);
    assert_eq!(spoken, turn.reply);
    assert!(chunks.iter().all(|c| !c.1.is_empty()));
    let indices: Vec<u64> = chunks.iter().map(|c| c.0).collect();
    assert_eq!(indices, (0..chunks.len() as u64).collect::<Vec<u64>>());
}

#[test]
fn a_completed_generation_closes_with_metrics_and_is_recorded() {
    let mut aira = Aira::new("s", 1536);
    let (mut turn, _) = StreamOrchestrator::begin(&mut aira, "Hi");
    turn.on_fragment("Hello");
    turn.on_fragment(" there");
    let end = turn.conclude(&mut aira, 1000, GenerationEnd::Completed);
    assert_eq!(end.chunk.unwrap().text, "Hello there");
    assert_eq!(end.event.kind, EventKind::Tps);
    assert_eq!(end.event.data, "2.00");
    assert!(end.recorded);
    let turns = &aira.conversation.turns;
    assert_eq!(turns.len(), 2);
    assert_eq!((turns[0].role, turns[0].content.as_str()), (Role::User, "Hi"));
    assert_eq!((turns[1].role, turns[1].content.as_str()), (Role::Assistant, "Hello there"));
}

#[test]
fn a_failed_generation_closes_with_an_error_and_is_not_recorded() {
    let mut aira = Aira::new("s", 1536);
    aira.conversation.record_turn(Role::User, "earlier");
    let (mut turn, _) = StreamOrchestrator::begin(&mut aira, "Hi");
    turn.on_fragment("Hel");
    let end = turn.conclude(&mut aira, 1000, GenerationEnd::Failed);
    assert_eq!(end.chunk.unwrap().text, "Hel");
    assert_eq!(end.event.kind, EventKind::Error);
    assert_eq!(end.event.data, "Processing failed, please try again");
    assert!(!end.recorded);
    assert_eq!(aira.conversation.turns.len(), 1);
    assert_eq!(aira.conversation.turns[0].content, "earlier");
}

#[test]
fn one_failed_chunk_leaves_the_audio_of_the_others_as_it_is() {
    let mut sequencer = AudioSequencer::new();
    let mut events = Vec::new();
    for index in 0..5u64 {
        let outcome = if index == 2 {
            SynthesisOutcome::Failed("no voice".to_string())
        } else {
            SynthesisOutcome::Samples(vec![index as i16, -(index as i16)])
        };
        let event = sequencer.on_synthesis(index, &outcome).unwrap();
        events.push((event.kind, event.data));
    }
    for (index, event) in events.iter().enumerate() {
        if index == 2 {
            assert_eq!(*event, (EventKind::TtsError, "no voice".to_string()));
        } else {
            let samples = vec![index as i16, -(index as i16)];
            assert_eq!(event.0, EventKind::AudioComplete);
            assert_eq!(event.1, samples_to_base64_wav(&samples).unwrap());
        }
    }
}
