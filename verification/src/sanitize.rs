//! Removal of formatting markup from generated text.

use vstd::prelude::*;
use crate::text::chars_of;

verus! {

/// The bullet that a list marker is turned into.
pub const BULLET: char = '\u{2022}';

/// Whether a character is formatting markup: an asterisk or an underscore.
pub open spec fn is_markup(c: char) -> bool {
    c == '*' || c == '_'
}

/// Whether a character is content that cleaning never touches: neither
/// markup nor a bullet. Every letter and digit is.
pub open spec fn is_content(c: char) -> bool {
    !is_markup(c) && c != BULLET
}

/// Whether an asterisk that follows `out` opens a list item: `out` is empty
/// or ends in a line break or a space.
pub open spec fn at_item_start(out: Seq<char>) -> bool {
    out.len() == 0 || out.last() == '\n' || out.last() == ' '
}

/// Whether `text` holds the character `c` at index `i`.
pub open spec fn has_at(text: Seq<char>, i: int, c: char) -> bool {
    0 <= i < text.len() && text[i] == c
}

/// What cleaning makes of `text` from index `i` on, when `out` is what it
/// has made of the text before `i`.
///
/// A doubled asterisk or underscore goes. A single asterisk at the start of
/// an item becomes a bullet, and a space behind it stays; any other single
/// asterisk goes, and so does every single underscore. All else stays.
pub open spec fn clean_from(text: Seq<char>, i: int, out: Seq<char>) -> Seq<char>
    decreases text.len() - i,
{
    if i < 0 || i >= text.len() {
        out
    } else if text[i] == '*' {
        if has_at(text, i + 1, '*') {
            clean_from(text, i + 2, out)
        } else if at_item_start(out) {
            if has_at(text, i + 1, ' ') {
                clean_from(text, i + 2, out.push(BULLET).push(' '))
            } else {
                clean_from(text, i + 1, out.push(BULLET))
            }
        } else {
            clean_from(text, i + 1, out)
        }
    } else if text[i] == '_' {
        if has_at(text, i + 1, '_') {
            clean_from(text, i + 2, out)
        } else {
            clean_from(text, i + 1, out)
        }
    } else {
        clean_from(text, i + 1, out.push(text[i]))
    }
}

/// The text without its formatting markup.
pub open spec fn clean_spec(text: Seq<char>) -> Seq<char> {
    clean_from(text, 0, Seq::<char>::empty())
}

/// Whether no character of `text` is markup.
pub open spec fn markup_free(text: Seq<char>) -> bool {
    forall|j: int| 0 <= j < text.len() ==> !is_markup(#[trigger] text[j])
}

/// Removes the formatting markup from generated text.
pub fn clean_llm_output(text: &str) -> (result: String)
    ensures
        result@ == clean_spec(text@),
{
    let chars = chars_of(text);
    let n = chars.len();
    let mut result = String::new();
    let mut at_start = true;
    let mut i: usize = 0;
    while i < n
        invariant
            n == chars@.len(),
            chars@ == text@,
            i <= n,
            at_start == at_item_start(result@),
            clean_from(text@, i as int, result@) == clean_spec(text@),
        decreases n - i,
    {
        let c = chars[i];
        let doubled = i + 1 < n && chars[i + 1] == c;
        if c == '*' {
            if doubled {
                i += 2;
            } else if at_start {
                result.push(BULLET);
                if i + 1 < n && chars[i + 1] == ' ' {
                    result.push(' ');
                    at_start = true;
                    i += 2;
                } else {
                    at_start = false;
                    i += 1;
                }
            } else {
                i += 1;
            }
        } else if c == '_' {
            if doubled {
                i += 2;
            } else {
                i += 1;
            }
        } else {
            result.push(c);
            at_start = c == '\n' || c == ' ';
            i += 1;
        }
    }
    result
}

/// Cleaning adds no markup: if `out` is free of it, so is the result.
pub proof fn lemma_clean_from_markup_free(text: Seq<char>, i: int, out: Seq<char>)
    requires
        markup_free(out),
    ensures
        markup_free(clean_from(text, i, out)),
    decreases text.len() - i,
{
    if 0 <= i < text.len() {
        if text[i] == '*' {
            if has_at(text, i + 1, '*') {
                lemma_clean_from_markup_free(text, i + 2, out);
            } else if at_item_start(out) {
                if has_at(text, i + 1, ' ') {
                    lemma_clean_from_markup_free(text, i + 2, out.push(BULLET).push(' '));
                } else {
                    lemma_clean_from_markup_free(text, i + 1, out.push(BULLET));
                }
            } else {
                lemma_clean_from_markup_free(text, i + 1, out);
            }
        } else if text[i] == '_' {
            if has_at(text, i + 1, '_') {
                lemma_clean_from_markup_free(text, i + 2, out);
            } else {
                lemma_clean_from_markup_free(text, i + 1, out);
            }
        } else {
            lemma_clean_from_markup_free(text, i + 1, out.push(text[i]));
        }
    }
}

/// Cleaning keeps text without markup as it is: from index `i` on, the rest
/// of the text is appended to `out` unchanged.
pub proof fn lemma_clean_from_plain(text: Seq<char>, i: int, out: Seq<char>)
    requires
        markup_free(text),
        0 <= i <= text.len(),
    ensures
        clean_from(text, i, out) == out + text.subrange(i, text.len() as int),
    decreases text.len() - i,
{
    if i < text.len() {
        lemma_clean_from_plain(text, i + 1, out.push(text[i]));
        assert(out.push(text[i]) + text.subrange(i + 1, text.len() as int) =~= out
            + text.subrange(i, text.len() as int));
    } else {
        assert(out + text.subrange(i, text.len() as int) =~= out);
    }
}

/// Cleaned text holds no markup.
pub proof fn lemma_clean_markup_free(text: Seq<char>)
    ensures
        markup_free(clean_spec(text)),
{
    lemma_clean_from_markup_free(text, 0, Seq::<char>::empty());
}

/// Cleaning is idempotent: cleaned text is cleaned to itself.
pub proof fn lemma_clean_idempotent(text: Seq<char>)
    ensures
        clean_spec(clean_spec(text)) == clean_spec(text),
{
    let once = clean_spec(text);
    lemma_clean_markup_free(text);
    lemma_clean_from_plain(once, 0, Seq::<char>::empty());
    assert(Seq::<char>::empty() + once.subrange(0, once.len() as int) =~= once);
}

/// The content of `text` from index `i` on, in order.
pub open spec fn content_from(text: Seq<char>, i: int) -> Seq<char>
    decreases text.len() - i,
{
    if i < 0 || i >= text.len() {
        Seq::<char>::empty()
    } else if is_content(text[i]) {
        seq![text[i]] + content_from(text, i + 1)
    } else {
        content_from(text, i + 1)
    }
}

/// The content of `text`: its characters that are neither markup nor
/// bullets, in order.
pub open spec fn content_of(text: Seq<char>) -> Seq<char> {
    content_from(text, 0)
}

/// The content of a text with one more character at its end.
pub proof fn lemma_content_push(text: Seq<char>, c: char, i: int)
    requires
        0 <= i <= text.len(),
    ensures
        content_from(text.push(c), i) == if is_content(c) {
            content_from(text, i).push(c)
        } else {
            content_from(text, i)
        },
    decreases text.len() - i,
{
    let longer = text.push(c);
    if i < text.len() {
        lemma_content_push(text, c, i + 1);
        assert(longer[i] == text[i]);
        if is_content(text[i]) {
            assert(seq![text[i]] + content_from(text, i + 1).push(c) =~= (seq![text[i]]
                + content_from(text, i + 1)).push(c));
        }
    } else {
        assert(longer[i] == c);
        assert(content_from(longer, i + 1) =~= Seq::<char>::empty());
        assert(content_from(text, i) =~= Seq::<char>::empty());
        if is_content(c) {
            assert(seq![c] + Seq::<char>::empty() =~= Seq::<char>::empty().push(c));
        }
    }
}

/// Cleaning keeps the content: what it makes of the text from `i` on has
/// the content of `out` and then that of the rest of the text.
pub proof fn lemma_clean_from_content(text: Seq<char>, i: int, out: Seq<char>)
    requires
        0 <= i <= text.len(),
    ensures
        content_of(clean_from(text, i, out)) == content_of(out) + content_from(text, i),
    decreases text.len() - i,
{
    if i < text.len() {
        assert(content_from(text, i) == if is_content(text[i]) {
            seq![text[i]] + content_from(text, i + 1)
        } else {
            content_from(text, i + 1)
        });
        if i + 1 < text.len() {
            assert(content_from(text, i + 1) == if is_content(text[i + 1]) {
                seq![text[i + 1]] + content_from(text, i + 2)
            } else {
                content_from(text, i + 2)
            });
        }
        if text[i] == '*' {
            if has_at(text, i + 1, '*') {
                lemma_clean_from_content(text, i + 2, out);
            } else if at_item_start(out) {
                lemma_content_push(out, BULLET, 0);
                if has_at(text, i + 1, ' ') {
                    lemma_content_push(out.push(BULLET), ' ', 0);
                    lemma_clean_from_content(text, i + 2, out.push(BULLET).push(' '));
                    assert(content_of(out).push(' ') + content_from(text, i + 2) =~= content_of(
                        out,
                    ) + (seq![' '] + content_from(text, i + 2)));
                } else {
                    lemma_clean_from_content(text, i + 1, out.push(BULLET));
                }
            } else {
                lemma_clean_from_content(text, i + 1, out);
            }
        } else if text[i] == '_' {
            if has_at(text, i + 1, '_') {
                lemma_clean_from_content(text, i + 2, out);
            } else {
                lemma_clean_from_content(text, i + 1, out);
            }
        } else {
            lemma_content_push(out, text[i], 0);
            lemma_clean_from_content(text, i + 1, out.push(text[i]));
            if is_content(text[i]) {
                assert(content_of(out).push(text[i]) + content_from(text, i + 1) =~= content_of(
                    out,
                ) + (seq![text[i]] + content_from(text, i + 1)));
            }
        }
    } else {
        assert(content_of(out) + content_from(text, i) =~= content_of(out));
    }
}

/// Cleaning does not alter content: the characters that are neither markup
/// nor bullets, letters and digits among them, are the same before and
/// after, in the same order.
pub proof fn lemma_clean_keeps_content(text: Seq<char>)
    ensures
        content_of(clean_spec(text)) == content_of(text),
{
    lemma_clean_from_content(text, 0, Seq::<char>::empty());
    assert(content_of(Seq::<char>::empty()) + content_of(text) =~= content_of(text));
}

} // verus!
