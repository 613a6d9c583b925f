//! The text that the lint proposes in place of the condition.

use crate::text::{is_whitespace, strip, strip_around};
use vstd::prelude::*;

verus! {

/// The host's answer to the question what the source says at a span.
#[derive(Debug, PartialEq, Eq)]
pub enum Snippet {
    /// The text of the span, character for character.
    Exact(String),
    /// The host could not hand out the text, as happens where the span
    /// crosses the border of a macro expansion. An empty placeholder stands
    /// in for it.
    Fallback,
}

impl View for Snippet {
    type V = Option<Seq<char>>;

    open spec fn view(&self) -> Option<Seq<char>> {
        match self {
            Snippet::Exact(text) => Some(text@),
            Snippet::Fallback => None,
        }
    }
}

/// How far a proposed fix can be trusted.
#[derive(Clone, Copy, Debug, PartialEq, Eq, Structural)]
pub enum Applicability {
    /// The fix can be applied without a person looking at it.
    MachineApplicable,
    /// The fix holds a placeholder where source text is missing, and a
    /// person has to fill it in.
    HasPlaceholders,
}

/// A proposed fix.
#[derive(Debug, PartialEq, Eq)]
pub struct Suggestion {
    /// The sentence that introduces the fix.
    pub label: String,
    /// The text to put in place of the condition.
    pub replacement: String,
    pub applicability: Applicability,
}

/// A [`Suggestion`] with its texts as sequences of characters.
pub struct SuggestionView {
    pub label: Seq<char>,
    pub replacement: Seq<char>,
    pub applicability: Applicability,
}

impl View for Suggestion {
    type V = SuggestionView;

    open spec fn view(&self) -> SuggestionView {
        SuggestionView {
            label: self.label@,
            replacement: self.replacement@,
            applicability: self.applicability,
        }
    }
}

/// The text that stands for a snippet: its own, or nothing where the host
/// fell back.
pub open spec fn text_of(snippet: Option<Seq<char>>) -> Seq<char> {
    match snippet {
        Some(text) => text,
        None => Seq::empty(),
    }
}

/// The receiver as it is written: the text in front of `ok` without the
/// whitespace it starts with and without the dots and the whitespace, in any
/// order, that it ends with.
pub open spec fn receiver_text(prefix: Seq<char>) -> Seq<char> {
    strip(prefix, '.')
}

/// The condition rewritten: `if let Ok(<pattern>) = <receiver>`.
pub open spec fn rewritten(pattern: Seq<char>, receiver: Seq<char>) -> Seq<char> {
    "if let Ok("@ + pattern + ") = "@ + receiver
}

/// The text to put in place of the condition: `if let Ok(<inner>) = <receiver>`,
/// with the inner pattern exactly as the source has it and the receiver read
/// off the text in front of `ok`.
pub open spec fn replacement_text(inner: Seq<char>, prefix: Seq<char>) -> Seq<char> {
    rewritten(inner, receiver_text(prefix))
}

/// The sentence that introduces the fix.
pub open spec fn label_text(inner: Seq<char>) -> Seq<char> {
    "Consider matching on `Ok("@ + inner + ")` and removing the call to `ok` instead"@
}

/// A fix is safe to apply by machine only if the host handed out the exact
/// text of both snippets.
pub open spec fn applicability_of(inner: Option<Seq<char>>, prefix: Option<Seq<char>>) -> Applicability {
    if inner is Some && prefix is Some {
        Applicability::MachineApplicable
    } else {
        Applicability::HasPlaceholders
    }
}

/// The fix for a match, given the source text of the inner pattern and of
/// the scrutinee in front of `ok`.
pub open spec fn suggestion_for(inner: Option<Seq<char>>, prefix: Option<Seq<char>>) -> SuggestionView {
    SuggestionView {
        label: label_text(text_of(inner)),
        replacement: replacement_text(text_of(inner), text_of(prefix)),
        applicability: applicability_of(inner, prefix),
    }
}

impl Snippet {
    /// The text that stands for the snippet.
    pub fn text(&self) -> (text: &str)
        ensures
            text@ == text_of(self@),
    {
        match self {
            Snippet::Exact(text) => text.as_str(),
            Snippet::Fallback => {
                proof {
                    reveal_strlit("");
                }
                assert(""@ =~= Seq::<char>::empty());
                ""
            },
        }
    }

    /// Whether the host handed out the exact text.
    pub fn is_exact(&self) -> (exact: bool)
        ensures
            exact == (self@ is Some),
    {
        match self {
            Snippet::Exact(_) => true,
            Snippet::Fallback => false,
        }
    }
}

/// Reads the receiver off the text in front of `ok`. What comes back ends
/// neither in a dot nor in whitespace.
pub fn receiver_in(prefix: &str) -> (receiver: &str)
    ensures
        receiver@ == receiver_text(prefix@),
        receiver@.len() > 0 ==> receiver@.last() != '.' && !is_whitespace(receiver@.last()),
{
    strip_around(prefix, '.')
}

/// Writes the condition anew around a pattern and a receiver, both taken as
/// they are.
pub fn rewrite(pattern: &str, receiver: &str) -> (text: String)
    ensures
        text@ == rewritten(pattern@, receiver@),
{
    let mut text = String::from_str("if let Ok(");
    text.append(pattern);
    text.append(") = ");
    text.append(receiver);
    text
}

/// Writes the sentence that introduces the fix.
pub fn label(pattern: &str) -> (text: String)
    ensures
        text@ == label_text(pattern@),
{
    let mut text = String::from_str("Consider matching on `Ok(");
    text.append(pattern);
    text.append(")` and removing the call to `ok` instead");
    text
}

/// Builds the fix for a match from the source text of the inner pattern and
/// of the scrutinee in front of `ok`. It takes the match as given and checks
/// nothing of it again.
pub fn build_suggestion(inner: &Snippet, prefix: &Snippet) -> (suggestion: Suggestion)
    ensures
        suggestion@ == suggestion_for(inner@, prefix@),
{
    let pattern = inner.text();
    let applicability = if inner.is_exact() && prefix.is_exact() {
        Applicability::MachineApplicable
    } else {
        Applicability::HasPlaceholders
    };
    Suggestion {
        label: label(pattern),
        replacement: rewrite(pattern, receiver_in(prefix.text())),
        applicability,
    }
}

} // verus!
