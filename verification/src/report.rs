//! The diagnostic that a match gives.

use crate::span::Span;
use crate::suggestion::{build_suggestion, suggestion_for, Snippet, Suggestion, SuggestionView};
use crate::syntax::{Expr, ExprKind};
use vstd::prelude::*;

verus! {

/// A finding, ready for the host to emit.
#[derive(Debug, PartialEq, Eq)]
pub struct Diagnostic {
    /// The part of the source to point at.
    pub span: Span,
    pub message: String,
    pub suggestion: Suggestion,
}

/// A [`Diagnostic`] with its texts as sequences of characters.
pub struct DiagnosticView {
    pub span: Span,
    pub message: Seq<char>,
    pub suggestion: SuggestionView,
}

impl View for Diagnostic {
    type V = DiagnosticView;

    open spec fn view(&self) -> DiagnosticView {
        DiagnosticView { span: self.span, message: self.message@, suggestion: self.suggestion@ }
    }
}

/// The message of every finding of this lint.
pub open spec fn message_text() -> Seq<char> {
    "Matching on `Some` with `ok()` is redundant"@
}

/// The condition of a conditional match: the node from its start to the end
/// of its scrutinee, without the arms. Any other node as a whole.
pub open spec fn condition_of(expr: &Expr) -> Span {
    match expr.kind {
        ExprKind::ConditionalMatch(m) => expr.span.with_hi(m.scrutinee.span.hi),
        _ => expr.span,
    }
}

/// The finding for a node of the redundant shape, given the source text of
/// the inner pattern and of the scrutinee in front of `ok`. It points at the
/// condition alone, so that the arms are not underlined with it.
pub open spec fn diagnostic_for(
    expr: &Expr,
    inner: Option<Seq<char>>,
    prefix: Option<Seq<char>>,
) -> DiagnosticView {
    DiagnosticView {
        span: condition_of(expr),
        message: message_text(),
        suggestion: suggestion_for(inner, prefix),
    }
}

/// The span to point at in a finding on `expr`.
pub fn condition_span(expr: &Expr) -> (span: Span)
    ensures
        span == condition_of(expr),
{
    match &expr.kind {
        ExprKind::ConditionalMatch(m) => expr.span.with_hi(m.scrutinee.span.hi),
        _ => expr.span,
    }
}

/// Builds the finding for a node in which a match was found, from the source
/// text at the `inner` and the `prefix` span of the match. Span, message,
/// fix and applicability go to the host as they stand here.
pub fn report(expr: &Expr, inner: &Snippet, prefix: &Snippet) -> (diagnostic: Diagnostic)
    ensures
        diagnostic@ == diagnostic_for(expr, inner@, prefix@),
{
    Diagnostic {
        span: condition_span(expr),
        message: String::from_str("Matching on `Some` with `ok()` is redundant"),
        suggestion: build_suggestion(inner, prefix),
    }
}

} // verus!
