//! Unicode whitespace, and what trimming leaves of a text.

use vstd::prelude::*;

verus! {

/// Whether `c` has the Unicode property `White_Space`.
///
/// The property covers the ASCII controls from tab to carriage return, the
/// space, next line, the no-break spaces, the Ogham space mark, the
/// typographic spaces of the General Punctuation block, the line and
/// paragraph separators and the ideographic space.
pub open spec fn white_space(c: char) -> bool {
    ||| '\u{0009}' <= c <= '\u{000D}'
    ||| c == '\u{0020}'
    ||| c == '\u{0085}'
    ||| c == '\u{00A0}'
    ||| c == '\u{1680}'
    ||| '\u{2000}' <= c <= '\u{200A}'
    ||| c == '\u{2028}'
    ||| c == '\u{2029}'
    ||| c == '\u{202F}'
    ||| c == '\u{205F}'
    ||| c == '\u{3000}'
}

/// `text` without its leading whitespace.
pub open spec fn trim_start(text: Seq<char>) -> Seq<char>
    decreases text.len(),
{
    if text.len() > 0 && white_space(text.first()) {
        trim_start(text.drop_first())
    } else {
        text
    }
}

/// `text` without its trailing whitespace.
pub open spec fn trim_end(text: Seq<char>) -> Seq<char>
    decreases text.len(),
{
    if text.len() > 0 && white_space(text.last()) {
        trim_end(text.drop_last())
    } else {
        text
    }
}

/// `text` without its leading and trailing whitespace. Whitespace between
/// other characters stays.
pub open spec fn trim(text: Seq<char>) -> Seq<char> {
    trim_end(trim_start(text))
}

/// Whether every character of `text` is whitespace. The empty text is blank.
pub open spec fn blank(text: Seq<char>) -> bool {
    forall|i: int| 0 <= i < text.len() ==> white_space(#[trigger] text[i])
}

/// Decides [`white_space`].
pub fn is_whitespace(c: char) -> (b: bool)
    ensures
        b == white_space(c),
{
    ('\u{0009}' <= c && c <= '\u{000D}') || c == '\u{0020}' || c == '\u{0085}' || c == '\u{00A0}'
        || c == '\u{1680}' || ('\u{2000}' <= c && c <= '\u{200A}') || c == '\u{2028}' || c
        == '\u{2029}' || c == '\u{202F}' || c == '\u{205F}' || c == '\u{3000}'
}

/// What trimming the start removes is whitespace, and what it keeps is the
/// rest of the text, which does not begin with whitespace.
proof fn lemma_trim_start_keeps_suffix(text: Seq<char>)
    ensures
        trim_start(text).len() <= text.len(),
        trim_start(text) == text.subrange(
            text.len() - trim_start(text).len(),
            text.len() as int,
        ),
        forall|i: int|
            0 <= i < text.len() - trim_start(text).len() ==> white_space(#[trigger] text[i]),
        trim_start(text).len() > 0 ==> !white_space(trim_start(text).first()),
    decreases text.len(),
{
    if text.len() > 0 && white_space(text.first()) {
        let rest = text.drop_first();
        lemma_trim_start_keeps_suffix(rest);
        assert forall|i: int| 0 <= i < text.len() - trim_start(rest).len() implies white_space(
            #[trigger] text[i],
        ) by {
            if i > 0 {
                assert(text[i] == rest[i - 1]);
            }
        }
    }
}

/// What trimming the end removes is whitespace, and what it keeps is the
/// beginning of the text, which does not end with whitespace.
proof fn lemma_trim_end_keeps_prefix(text: Seq<char>)
    ensures
        trim_end(text).len() <= text.len(),
        trim_end(text) == text.subrange(0, trim_end(text).len() as int),
        forall|i: int|
            trim_end(text).len() <= i < text.len() ==> white_space(#[trigger] text[i]),
        trim_end(text).len() > 0 ==> !white_space(trim_end(text).last()),
    decreases text.len(),
{
    if text.len() > 0 && white_space(text.last()) {
        let rest = text.drop_last();
        lemma_trim_end_keeps_prefix(rest);
        assert forall|i: int| trim_end(rest).len() <= i < text.len() implies white_space(
            #[trigger] text[i],
        ) by {
            if i < rest.len() {
                assert(text[i] == rest[i]);
            }
        }
    }
}

/// Trimming leaves nothing exactly of the blank texts.
pub proof fn lemma_trim_is_empty_iff_blank(text: Seq<char>)
    ensures
        trim(text).len() == 0 <==> blank(text),
{
    lemma_trim_start_keeps_suffix(text);
    lemma_trim_end_keeps_prefix(trim_start(text));
}

/// Whether trimming `text` leaves nothing, which is to say whether `text` is
/// empty or holds only whitespace.
pub fn is_blank(text: &str) -> (b: bool)
    ensures
        b == (trim(text@).len() == 0),
        b == blank(text@),
{
    proof {
        lemma_trim_is_empty_iff_blank(text@);
    }
    for c in chars: text.chars()
        invariant
            chars.seq() == text@,
            trim(text@).len() == 0 <==> blank(text@),
            forall|i: int| 0 <= i < chars.index() ==> white_space(#[trigger] text@[i]),
    {
        if !is_whitespace(c) {
            return false;
        }
    }
    true
}

} // verus!
