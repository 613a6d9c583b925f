//! Text as sequences of characters: comparing it, and trimming it at both
//! ends.

use vstd::prelude::*;
use vstd::utf8::{encode_utf8, encode_utf8_decode_utf8};

verus! {

/// Whether the character has the Unicode property `White_Space`, which is
/// what `char::is_whitespace` tests: the controls from tab to carriage return,
/// the space, next line, the no-break spaces, the spaces of fixed width, and
/// the line and paragraph separators.
pub open spec fn is_whitespace(c: char) -> bool {
    ||| '\u{9}' <= c <= '\u{d}'
    ||| c == ' '
    ||| c == '\u{85}'
    ||| c == '\u{a0}'
    ||| c == '\u{1680}'
    ||| '\u{2000}' <= c <= '\u{200a}'
    ||| c == '\u{2028}'
    ||| c == '\u{2029}'
    ||| c == '\u{202f}'
    ||| c == '\u{205f}'
    ||| c == '\u{3000}'
}

/// `text` without the whitespace it starts with.
pub open spec fn trim_start(text: Seq<char>) -> Seq<char>
    decreases text.len(),
{
    if text.len() > 0 && is_whitespace(text.first()) {
        trim_start(text.drop_first())
    } else {
        text
    }
}

/// `text` without the whitespace it ends with.
pub open spec fn trim_end(text: Seq<char>) -> Seq<char>
    decreases text.len(),
{
    if text.len() > 0 && is_whitespace(text.last()) {
        trim_end(text.drop_last())
    } else {
        text
    }
}

/// `text` without the whitespace at either end.
pub open spec fn trim(text: Seq<char>) -> Seq<char> {
    trim_end(trim_start(text))
}

/// `text` without the run of `c` it ends with.
pub open spec fn trim_end_matches(text: Seq<char>, c: char) -> Seq<char>
    decreases text.len(),
{
    if text.len() > 0 && text.last() == c {
        trim_end_matches(text.drop_last(), c)
    } else {
        text
    }
}

/// `text` without the longest run of `c` and whitespace, in any order, that
/// it ends with.
pub open spec fn strip_end(text: Seq<char>, c: char) -> Seq<char>
    decreases text.len(),
{
    if text.len() > 0 && (text.last() == c || is_whitespace(text.last())) {
        strip_end(text.drop_last(), c)
    } else {
        text
    }
}

/// `text` without the whitespace it starts with and without the longest run
/// of `c` and whitespace that it ends with.
pub open spec fn strip(text: Seq<char>, c: char) -> Seq<char> {
    strip_end(trim_start(text), c)
}

/// Whether `head` is what `text` starts with.
pub open spec fn is_prefix(head: Seq<char>, text: Seq<char>) -> bool {
    head.len() <= text.len() && head == text.subrange(0, head.len() as int)
}

/// Whether two texts hold the same characters.
pub fn text_eq(a: &str, b: &str) -> (same: bool)
    ensures
        same == (a@ == b@),
{
    let x = a.as_bytes();
    let y = b.as_bytes();
    proof {
        // Two texts with the same encoding decode to the same characters.
        encode_utf8_decode_utf8(a@);
        encode_utf8_decode_utf8(b@);
    }
    if x.len() != y.len() {
        return false;
    }
    let mut i: usize = 0;
    while i < x.len()
        invariant
            x@ == encode_utf8(a@),
            y@ == encode_utf8(b@),
            x.len() == y.len(),
            i <= x.len(),
            forall|k: int| 0 <= k < i ==> x@[k] == y@[k],
        decreases x.len() - i,
    {
        if x[i] != y[i] {
            return false;
        }
        i += 1;
    }
    assert(x@ =~= y@);
    true
}

/// Calls `str::trim`, which hands back `text` without the characters of the
/// Unicode property `White_Space` at its start and at its end.
#[verifier::external_body]
pub(crate) fn trim_whitespace(text: &str) -> (trimmed: &str)
    ensures
        trimmed@ == trim(text@),
{
    text.trim()
}

/// Calls `str::trim_end_matches` with one character as the pattern, which
/// hands back `text` without the run of that character at its end.
#[verifier::external_body]
pub(crate) fn trim_trailing(text: &str, c: char) -> (trimmed: &str)
    ensures
        trimmed@ == trim_end_matches(text@, c),
{
    text.trim_end_matches(c)
}

/// What [`trim_start`] leaves does not start with whitespace.
pub proof fn lemma_trim_start_is_clean(text: Seq<char>)
    ensures
        trim_start(text).len() > 0 ==> !is_whitespace(trim_start(text).first()),
    decreases text.len(),
{
    if text.len() > 0 && is_whitespace(text.first()) {
        lemma_trim_start_is_clean(text.drop_first());
    }
}

/// What [`trim_end`] leaves is what the text starts with, and does not end
/// in whitespace.
proof fn lemma_trim_end_is_prefix(text: Seq<char>)
    ensures
        is_prefix(trim_end(text), text),
        trim_end(text).len() > 0 ==> !is_whitespace(trim_end(text).last()),
    decreases text.len(),
{
    if text.len() > 0 && is_whitespace(text.last()) {
        lemma_trim_end_is_prefix(text.drop_last());
        let rest = trim_end(text.drop_last());
        assert(rest =~= text.subrange(0, rest.len() as int));
    } else {
        assert(text =~= text.subrange(0, text.len() as int));
    }
}

/// What [`trim_end_matches`] leaves is what the text starts with. A text
/// that ends in the character gets shorter.
proof fn lemma_trim_end_matches_is_prefix(text: Seq<char>, c: char)
    ensures
        is_prefix(trim_end_matches(text, c), text),
        text.len() > 0 && text.last() == c ==> trim_end_matches(text, c).len() < text.len(),
    decreases text.len(),
{
    if text.len() > 0 && text.last() == c {
        lemma_trim_end_matches_is_prefix(text.drop_last(), c);
        let rest = trim_end_matches(text.drop_last(), c);
        assert(rest =~= text.subrange(0, rest.len() as int));
    } else {
        assert(text =~= text.subrange(0, text.len() as int));
    }
}

/// Whitespace at the end, or the run of `c` there, may go first: what
/// [`strip_end`] leaves is the same.
proof fn lemma_strip_end_absorbs(text: Seq<char>, c: char)
    ensures
        strip_end(trim_end(text), c) == strip_end(text, c),
        strip_end(trim_end_matches(text, c), c) == strip_end(text, c),
    decreases text.len(),
{
    if text.len() > 0 {
        lemma_strip_end_absorbs(text.drop_last(), c);
    }
}

/// What [`strip_end`] leaves ends neither in `c` nor in whitespace.
pub proof fn lemma_strip_end_is_clean(text: Seq<char>, c: char)
    ensures
        strip_end(text, c).len() > 0 ==> strip_end(text, c).last() != c && !is_whitespace(
            strip_end(text, c).last(),
        ),
    decreases text.len(),
{
    if text.len() > 0 && (text.last() == c || is_whitespace(text.last())) {
        lemma_strip_end_is_clean(text.drop_last(), c);
    }
}

/// Takes the whitespace off the start of `text`, and off its end the longest
/// run of `c` and whitespace. Whitespace and the run of `c` go in turn until
/// neither is left at the end.
pub fn strip_around(text: &str, c: char) -> (stripped: &str)
    ensures
        stripped@ == strip(text@, c),
        stripped@.len() > 0 ==> stripped@.last() != c && !is_whitespace(stripped@.last()),
{
    let mut current = trim_whitespace(text);
    proof {
        let start = trim_start(text@);
        lemma_trim_start_is_clean(text@);
        lemma_trim_end_is_prefix(start);
        lemma_strip_end_absorbs(start, c);
        if current@.len() > 0 {
            assert(current@.first() == start.first());
        }
    }
    loop
        invariant
            current@.len() > 0 ==> !is_whitespace(current@.first()) && !is_whitespace(current@.last()),
            strip_end(current@, c) == strip(text@, c),
        decreases current@.len(),
    {
        let shorter = trim_trailing(current, c);
        let next = trim_whitespace(shorter);
        proof {
            lemma_trim_end_matches_is_prefix(current@, c);
            if shorter@.len() > 0 {
                assert(shorter@.first() == current@.first());
            }
            assert(trim_start(shorter@) == shorter@);
            lemma_trim_end_is_prefix(shorter@);
            if next@.len() > 0 {
                assert(next@.first() == shorter@.first());
            }
            lemma_strip_end_absorbs(current@, c);
            lemma_strip_end_absorbs(shorter@, c);
            assert(next@ =~= current@.subrange(0, next@.len() as int));
        }
        if text_eq(next, current) {
            proof {
                assert(strip_end(current@, c) == current@);
            }
            return current;
        }
        current = next;
    }
}

} // verus!
