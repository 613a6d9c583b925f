//! Byte ranges of the source text.

use vstd::prelude::*;

verus! {

/// A range of the source text, from the byte offset `lo` up to, and
/// excluding, the byte offset `hi`.
#[derive(Clone, Copy, Debug, PartialEq, Eq, Structural)]
pub struct Span {
    pub lo: u32,
    pub hi: u32,
    /// Whether the range was produced by a macro expansion and not written
    /// at this place. The lint carries this along for the host, which does
    /// not hand out the text of such a range as exact.
    pub from_expansion: bool,
}

impl Span {
    /// A span is well formed when it does not end before it starts.
    pub open spec fn wf(self) -> bool {
        self.lo <= self.hi
    }

    /// The span between two offsets, whichever of them comes first.
    pub open spec fn between(a: u32, b: u32, from_expansion: bool) -> Span {
        if a <= b {
            Span { lo: a, hi: b, from_expansion }
        } else {
            Span { lo: b, hi: a, from_expansion }
        }
    }

    /// The part of `self` that comes before `end` starts. It counts as
    /// written in the source if `end` is; if not, it counts as `self` does.
    pub open spec fn spec_until(self, end: Span) -> Span {
        Span::between(self.lo, end.lo, end.from_expansion && self.from_expansion)
    }

    /// `self` with its end moved to `hi`.
    pub open spec fn spec_with_hi(self, hi: u32) -> Span {
        Span::between(self.lo, hi, self.from_expansion)
    }

    /// Makes the span between two offsets of text that is written in the
    /// source. Offsets given in the wrong order are swapped, so the result
    /// is always well formed.
    pub fn new(a: u32, b: u32) -> (span: Span)
        ensures
            span == Span::between(a, b, false),
            span.wf(),
    {
        Span::make(a, b, false)
    }

    /// Makes the span between two offsets of text that a macro expansion
    /// produced.
    pub fn in_expansion(a: u32, b: u32) -> (span: Span)
        ensures
            span == Span::between(a, b, true),
            span.wf(),
    {
        Span::make(a, b, true)
    }

    fn make(a: u32, b: u32, from_expansion: bool) -> (span: Span)
        ensures
            span == Span::between(a, b, from_expansion),
            span.wf(),
    {
        if a <= b {
            Span { lo: a, hi: b, from_expansion }
        } else {
            Span { lo: b, hi: a, from_expansion }
        }
    }

    /// The span from the start of `self` to the start of `end`.
    #[verifier::when_used_as_spec(spec_until)]
    pub fn until(self, end: Span) -> (span: Span)
        ensures
            span == self.spec_until(end),
            span.wf(),
    {
        Span::make(self.lo, end.lo, end.from_expansion && self.from_expansion)
    }

    /// The span from the start of `self` to the offset `hi`.
    #[verifier::when_used_as_spec(spec_with_hi)]
    pub fn with_hi(self, hi: u32) -> (span: Span)
        ensures
            span == self.spec_with_hi(hi),
            span.wf(),
    {
        Span::make(self.lo, hi, self.from_expansion)
    }
}

} // verus!
