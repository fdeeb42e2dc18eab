//! Sentence segmentation: cutting a stream of text fragments into chunks
//! that are ready for speech synthesis.

use vstd::prelude::*;
use crate::text::{chars_of, string_of};

verus! {

/// A buffer longer than this many characters is dispatched wherever it ends.
pub const MAX_CHUNK_CHARS: usize = 150;

/// Whether a character is white space, as Unicode's `White_Space` property
/// has it.
pub open spec fn is_space(c: char) -> bool {
    let u = c as u32;
    ||| 0x09 <= u <= 0x0D
    ||| u == 0x20
    ||| u == 0x85
    ||| u == 0xA0
    ||| u == 0x1680
    ||| 0x2000 <= u <= 0x200A
    ||| u == 0x2028
    ||| u == 0x2029
    ||| u == 0x202F
    ||| u == 0x205F
    ||| u == 0x3000
}

/// Whether a character ends a sentence.
pub open spec fn is_terminator(c: char) -> bool {
    c == '.' || c == '?' || c == '!'
}

/// Whether the last character of a text ends a sentence.
pub open spec fn ends_sentence(text: Seq<char>) -> bool {
    text.len() > 0 && is_terminator(text.last())
}

/// The text without the white space at its end.
pub open spec fn trim_end(text: Seq<char>) -> Seq<char>
    decreases text.len(),
{
    if text.len() > 0 && is_space(text.last()) {
        trim_end(text.drop_last())
    } else {
        text
    }
}

/// Whether a buffer holds a finished sentence that the next fragment sets
/// free: it ends a sentence once the white space at its end is left aside.
pub open spec fn boundary_pending(buffer: Seq<char>) -> bool {
    ends_sentence(trim_end(buffer))
}

/// Whether a buffer is dispatched as it stands: it ends a sentence or is
/// longer than the limit.
pub open spec fn ready(buffer: Seq<char>) -> bool {
    ends_sentence(buffer) || buffer.len() > MAX_CHUNK_CHARS
}

/// What the buffer holds before the fragment is appended: nothing, where
/// the fragment sets a finished sentence free.
pub open spec fn carried(buffer: Seq<char>) -> Seq<char> {
    if boundary_pending(buffer) {
        Seq::<char>::empty()
    } else {
        buffer
    }
}

/// The chunks that a fragment sets free, in order: first the buffer, where
/// it holds a finished sentence; then what the buffer has become with the
/// fragment, where that is ready.
pub open spec fn chunks_on(buffer: Seq<char>, fragment: Seq<char>) -> Seq<Seq<char>> {
    let first = if boundary_pending(buffer) {
        seq![buffer]
    } else {
        Seq::<Seq<char>>::empty()
    };
    if ready(carried(buffer) + fragment) {
        first.push(carried(buffer) + fragment)
    } else {
        first
    }
}

/// What the buffer holds after a fragment.
pub open spec fn buffer_after(buffer: Seq<char>, fragment: Seq<char>) -> Seq<char> {
    if ready(carried(buffer) + fragment) {
        Seq::<char>::empty()
    } else {
        carried(buffer) + fragment
    }
}

/// The texts of a sequence of strings.
pub open spec fn texts_of(strings: Seq<String>) -> Seq<Seq<char>> {
    Seq::new(strings.len(), |i: int| strings[i]@)
}

/// The texts of the chunks, joined in order.
pub open spec fn joined(chunks: Seq<Seq<char>>) -> Seq<char>
    decreases chunks.len(),
{
    if chunks.len() == 0 {
        Seq::<char>::empty()
    } else {
        joined(chunks.drop_last()) + chunks.last()
    }
}

/// Segmentation loses nothing and adds nothing: the chunks that a fragment
/// sets free, followed by what stays in the buffer, are the buffer as it was
/// followed by the fragment.
pub proof fn lemma_segmentation_keeps_text(buffer: Seq<char>, fragment: Seq<char>)
    ensures
        joined(chunks_on(buffer, fragment)) + buffer_after(buffer, fragment) == buffer + fragment,
{
    let chunks = chunks_on(buffer, fragment);
    let rest = carried(buffer) + fragment;
    let first = if boundary_pending(buffer) {
        seq![buffer]
    } else {
        Seq::<Seq<char>>::empty()
    };
    assert(joined(Seq::<Seq<char>>::empty()) =~= Seq::<char>::empty());
    if boundary_pending(buffer) {
        assert(first.drop_last() =~= Seq::<Seq<char>>::empty());
        assert(joined(first) =~= buffer);
    }
    if ready(rest) {
        assert(chunks.drop_last() =~= first);
        assert(joined(chunks) =~= joined(first) + rest);
        assert(joined(chunks) + buffer_after(buffer, fragment) =~= buffer + fragment);
    } else {
        assert(joined(chunks) + buffer_after(buffer, fragment) =~= buffer + fragment);
    }
}

/// The chunks that a stream of fragments sets free, in order, when it
/// starts on `buffer`.
pub open spec fn chunks_of_stream(buffer: Seq<char>, fragments: Seq<Seq<char>>) -> Seq<Seq<char>>
    decreases fragments.len(),
{
    if fragments.len() == 0 {
        Seq::<Seq<char>>::empty()
    } else {
        chunks_of_stream(buffer, fragments.drop_last()) + chunks_on(
            buffer_of_stream(buffer, fragments.drop_last()),
            fragments.last(),
        )
    }
}

/// What the buffer holds after a stream of fragments that started on
/// `buffer`.
pub open spec fn buffer_of_stream(buffer: Seq<char>, fragments: Seq<Seq<char>>) -> Seq<char>
    decreases fragments.len(),
{
    if fragments.len() == 0 {
        buffer
    } else {
        buffer_after(buffer_of_stream(buffer, fragments.drop_last()), fragments.last())
    }
}

/// No chunk is empty: a buffer that goes out holds at least one character.
pub proof fn lemma_chunks_not_empty(buffer: Seq<char>, fragment: Seq<char>, k: int)
    requires
        0 <= k < chunks_on(buffer, fragment).len(),
    ensures
        chunks_on(buffer, fragment)[k].len() > 0,
{
    if boundary_pending(buffer) {
        lemma_trim_end_is_shorter(buffer);
    }
}

/// The text without the white space at its end is no longer than the text.
pub proof fn lemma_trim_end_is_shorter(text: Seq<char>)
    ensures
        trim_end(text).len() <= text.len(),
    decreases text.len(),
{
    if text.len() > 0 && is_space(text.last()) {
        lemma_trim_end_is_shorter(text.drop_last());
    }
}

/// Joining chunks after chunks joins their texts.
pub proof fn lemma_joined_concat(front: Seq<Seq<char>>, back: Seq<Seq<char>>)
    ensures
        joined(front + back) == joined(front) + joined(back),
    decreases back.len(),
{
    if back.len() == 0 {
        assert(front + back =~= front);
        assert(joined(front) + joined(back) =~= joined(front));
    } else {
        lemma_joined_concat(front, back.drop_last());
        assert((front + back).drop_last() =~= front + back.drop_last());
        assert((front + back).last() == back.last());
        assert(joined(front) + (joined(back.drop_last()) + back.last()) =~= (joined(front)
            + joined(back.drop_last())) + back.last());
    }
}

/// A whole stream loses nothing and adds nothing: the chunks that the
/// fragments set free, joined, followed by what the buffer holds at the
/// end, which the last flush sends, are the buffer as it was followed by
/// the fragments, joined. Every character is dispatched once, in order.
pub proof fn lemma_stream_keeps_text(buffer: Seq<char>, fragments: Seq<Seq<char>>)
    ensures
        joined(chunks_of_stream(buffer, fragments)) + buffer_of_stream(buffer, fragments)
            == buffer + joined(fragments),
    decreases fragments.len(),
{
    if fragments.len() == 0 {
        assert(joined(chunks_of_stream(buffer, fragments)) + buffer_of_stream(buffer, fragments)
            =~= buffer + joined(fragments));
    } else {
        let before = fragments.drop_last();
        let held = buffer_of_stream(buffer, before);
        lemma_stream_keeps_text(buffer, before);
        lemma_segmentation_keeps_text(held, fragments.last());
        lemma_joined_concat(chunks_of_stream(buffer, before), chunks_on(held, fragments.last()));
        let a = joined(chunks_of_stream(buffer, before));
        let b = joined(chunks_on(held, fragments.last()));
        let c = buffer_after(held, fragments.last());
        assert((a + b) + c =~= a + (b + c));
        assert(a + (held + fragments.last()) =~= (a + held) + fragments.last());
        assert((buffer + joined(before)) + fragments.last() =~= buffer + (joined(before)
            + fragments.last()));
    }
}

/// Whether a character is white space.
pub fn is_space_char(c: char) -> (r: bool)
    ensures
        r == is_space(c),
{
    let u: u32 = c as u32;
    (0x09 <= u && u <= 0x0D) || u == 0x20 || u == 0x85 || u == 0xA0 || u == 0x1680 || (0x2000 <= u
        && u <= 0x200A) || u == 0x2028 || u == 0x2029 || u == 0x202F || u == 0x205F || u
        == 0x3000
}

/// Whether a character ends a sentence.
pub fn is_terminator_char(c: char) -> (r: bool)
    ensures
        r == is_terminator(c),
{
    c == '.' || c == '?' || c == '!'
}

/// Whether a text ends a sentence once the white space at its end is left
/// aside.
pub fn has_pending_boundary(text: &Vec<char>) -> (r: bool)
    ensures
        r == boundary_pending(text@),
{
    let mut end: usize = text.len();
    assert(text@.take(end as int) =~= text@);
    while end > 0 && is_space_char(text[end - 1])
        invariant
            end <= text@.len(),
            trim_end(text@) == trim_end(text@.take(end as int)),
        decreases end,
    {
        assert(text@.take(end as int).drop_last() =~= text@.take(end - 1));
        end -= 1;
    }
    end > 0 && is_terminator_char(text[end - 1])
}

/// The accumulation buffer between the fragments of a generation and the
/// chunks that go to speech synthesis.
#[derive(Debug)]
pub struct SentenceBuffer {
    pub chars: Vec<char>,
}

impl View for SentenceBuffer {
    type V = Seq<char>;

    open spec fn view(&self) -> Seq<char> {
        self.chars@
    }
}

impl SentenceBuffer {
    /// An empty buffer.
    pub fn new() -> (r: SentenceBuffer)
        ensures
            r@.len() == 0,
    {
        SentenceBuffer { chars: Vec::new() }
    }

    /// Takes the next fragment of the generation and returns the chunks that
    /// it sets free, at most two, in order.
    ///
    /// A buffer that ends a sentence, white space after it left aside, goes
    /// out first: the fragment shows that the sentence is over. The fragment
    /// is then appended, and the buffer goes out if it now ends in `.`, `?`
    /// or `!` or is longer than the limit.
    pub fn push_fragment(&mut self, fragment: &str) -> (chunks: Vec<String>)
        ensures
            texts_of(chunks@) == chunks_on(old(self)@, fragment@),
            final(self)@ == buffer_after(old(self)@, fragment@),
    {
        let mut chunks: Vec<String> = Vec::new();
        if has_pending_boundary(&self.chars) {
            chunks.push(string_of(&self.chars));
            self.chars.clear();
        }
        assert(self@ =~= carried(old(self)@));
        let ghost base = self@;
        let added = chars_of(fragment);
        let mut i: usize = 0;
        while i < added.len()
            invariant
                i <= added@.len(),
                self@ == base + added@.take(i as int),
            decreases added@.len() - i,
        {
            self.chars.push(added[i]);
            assert(base + added@.take(i + 1) =~= (base + added@.take(i as int)).push(
                added@[i as int],
            ));
            i += 1;
        }
        assert(added@.take(added@.len() as int) =~= added@);
        let n = self.chars.len();
        let boundary = n > 0 && is_terminator_char(self.chars[n - 1]);
        if boundary || n > MAX_CHUNK_CHARS {
            chunks.push(string_of(&self.chars));
            self.chars.clear();
        }
        assert(texts_of(chunks@) =~= chunks_on(old(self)@, fragment@));
        assert(self@ =~= buffer_after(old(self)@, fragment@));
        chunks
    }

    /// Ends the stream: returns what is left in the buffer as the last
    /// chunk, unless nothing is left, and empties the buffer.
    pub fn flush(&mut self) -> (chunk: Option<String>)
        ensures
            final(self)@.len() == 0,
            old(self)@.len() == 0 ==> chunk is None,
            old(self)@.len() > 0 ==> chunk is Some && chunk->0@ == old(self)@,
    {
        let chunk = if self.chars.len() == 0 {
            None
        } else {
            Some(string_of(&self.chars))
        };
        self.chars.clear();
        chunk
    }
}

} // verus!
