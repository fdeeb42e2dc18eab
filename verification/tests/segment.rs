use aira_brain::segment::{
    has_pending_boundary, is_space_char, is_terminator_char, SentenceBuffer,
};

fn text_of(buffer: &SentenceBuffer) -> String {
    buffer.chars.iter().collect()
}

fn chars(text: &str) -> Vec<char> {
    text.chars().collect()
}

#[test]
fn sentence_segmentation() {
    let mut buffer = SentenceBuffer::new();
    assert!(buffer.push_fragment("Hel").is_empty());
    assert!(buffer.push_fragment("lo. ").is_empty());
    assert_eq!(buffer.push_fragment("Wor"), vec!["Hello. ".to_string()]);
    assert!(buffer.push_fragment("ld").is_empty());
    assert_eq!(buffer.flush(), Some("World".to_string()));
    assert_eq!(buffer.flush(), None);
}

#[test]
fn a_terminator_at_the_end_dispatches_at_once() {
    for end in [".", "?", "!"] {
        let mut buffer = SentenceBuffer::new();
        assert!(buffer.push_fragment("Well").is_empty());
        assert_eq!(buffer.push_fragment(end), vec![format!("Well{}", end)]);
        assert_eq!(text_of(&buffer), "");
    }
}

#[test]
fn a_terminator_inside_a_fragment_does_not_dispatch() {
    let mut buffer = SentenceBuffer::new();
    assert!(buffer.push_fragment("3.14 is").is_empty());
    assert!(buffer.push_fragment(" pi").is_empty());
    assert_eq!(text_of(&buffer), "3.14 is pi");
}

#[test]
fn one_fragment_can_set_two_chunks_free() {
    let mut buffer = SentenceBuffer::new();
    assert!(buffer.push_fragment("Hi. ").is_empty());
    assert_eq!(buffer.push_fragment("Ok."), vec!["Hi. ".to_string(), "Ok.".to_string()]);
    assert_eq!(text_of(&buffer), "");
}

#[test]
fn white_space_after_the_sentence_is_of_any_kind() {
    let mut buffer = SentenceBuffer::new();
    assert!(buffer.push_fragment("Done!\n\t \u{a0}").is_empty());
    assert_eq!(buffer.push_fragment("Next"), vec!["Done!\n\t \u{a0}".to_string()]);
    assert_eq!(text_of(&buffer), "Next");
}

#[test]
fn a_long_buffer_is_dispatched_wherever_it_ends() {
    let mut buffer = SentenceBuffer::new();
    assert!(buffer.push_fragment(&"a".repeat(150)).is_empty());
    assert_eq!(buffer.push_fragment("b"), vec![format!("{}b", "a".repeat(150))]);
    assert_eq!(text_of(&buffer), "");
}

#[test]
fn length_is_counted_in_characters() {
    let mut buffer = SentenceBuffer::new();
    assert!(buffer.push_fragment(&"\u{e9}".repeat(150)).is_empty());
    assert_eq!(buffer.push_fragment("\u{e9}").len(), 1);
}

#[test]
fn white_space_is_dispatched_like_any_text() {
    let mut buffer = SentenceBuffer::new();
    assert!(buffer.push_fragment(&" ".repeat(150)).is_empty());
    assert_eq!(buffer.push_fragment(" "), vec![" ".repeat(151)]);
    assert_eq!(buffer.chars.len(), 0);
    buffer.push_fragment(" \n");
    assert_eq!(buffer.flush(), Some(" \n".to_string()));
    assert_eq!(buffer.chars.len(), 0);
}

#[test]
fn white_space_behind_the_last_sentence_is_flushed() {
    let mut buffer = SentenceBuffer::new();
    assert_eq!(buffer.push_fragment("Hi."), vec!["Hi.".to_string()]);
    assert!(buffer.push_fragment(" ").is_empty());
    assert_eq!(buffer.flush(), Some(" ".to_string()));
    assert_eq!(buffer.flush(), None);
}

#[test]
fn every_character_is_dispatched_once_and_no_chunk_is_empty() {
    let streams: Vec<Vec<&str>> = vec![
        vec!["Hel", "lo. ", "Wor", "ld"],
        vec!["Hi.", " ", "", "  ", "Ok?", "\n"],
        vec!["", "", ""],
        vec![" ", ".", " ", "!", "?"],
        vec!["A very long fragment without any end of sentence that goes on and on and on, well past the limit of one hundred and fifty characters, so that it is sent as it stands", " and more. ", "x"],
    ];
    for fragments in streams.iter() {
        let mut buffer = SentenceBuffer::new();
        let mut chunks: Vec<String> = Vec::new();
        for fragment in fragments.iter() {
            chunks.extend(buffer.push_fragment(fragment));
        }
        chunks.extend(buffer.flush());
        assert!(chunks.iter().all(|c| !c.is_empty()));
        assert_eq!(chunks.concat(), fragments.concat());
    }
}

#[test]
fn flushing_returns_what_is_left() {
    let mut buffer = SentenceBuffer::new();
    assert_eq!(buffer.flush(), None);
    buffer.push_fragment("and so");
    assert_eq!(buffer.flush(), Some("and so".to_string()));
    buffer.push_fragment("End. ");
    assert_eq!(buffer.flush(), Some("End. ".to_string()));
    assert_eq!(text_of(&buffer), "");
}

#[test]
fn an_empty_fragment_sets_a_finished_sentence_free() {
    let mut buffer = SentenceBuffer::new();
    buffer.push_fragment("One. ");
    assert_eq!(buffer.push_fragment(""), vec!["One. ".to_string()]);
    assert!(buffer.push_fragment("").is_empty());
}

#[test]
fn white_space_is_unicode_white_space() {
    for c in [' ', '\t', '\n', '\u{b}', '\u{c}', '\r', '\u{85}', '\u{a0}', '\u{1680}', '\u{2000}',
        '\u{200a}', '\u{2028}', '\u{2029}', '\u{202f}', '\u{205f}', '\u{3000}'] {
        assert!(is_space_char(c));
    }
    for c in ['a', '.', '\u{8}', '\u{e}', '\u{200b}', '\u{feff}', '\u{1f}', '\u{2007}'] {
        assert_eq!(is_space_char(c), c.is_whitespace());
    }
    let mut code = 0u32;
    while code < 0x3100 {
        if let Some(c) = char::from_u32(code) {
            assert_eq!(is_space_char(c), c.is_whitespace());
        }
        code += 1;
    }
}

#[test]
fn terminators_are_the_three_marks() {
    assert!(is_terminator_char('.'));
    assert!(is_terminator_char('?'));
    assert!(is_terminator_char('!'));
    assert!(!is_terminator_char(','));
    assert!(!is_terminator_char(';'));
    assert!(!is_terminator_char('\u{3002}'));
}

#[test]
fn a_pending_boundary_looks_past_white_space() {
    assert!(has_pending_boundary(&chars("Yes.")));
    assert!(has_pending_boundary(&chars("Yes?  \n")));
    assert!(!has_pending_boundary(&chars("Yes. no")));
    assert!(!has_pending_boundary(&chars("   ")));
    assert!(!has_pending_boundary(&chars("")));
}
