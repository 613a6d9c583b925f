//! What holds of the lint on every node and every source text.

use crate::matcher::{redundant_ok, redundant_shape};
use crate::report::condition_of;
use crate::span::Span;
use crate::suggestion::{receiver_text, replacement_text};
use crate::text::{is_whitespace, lemma_strip_end_is_clean, lemma_trim_start_is_clean, strip_end, trim_start};
use crate::syntax::{Expr, ExprKind, MatchOrigin, PatternKind, QualifiedName};
use vstd::prelude::*;
use vstd::utf8::{encode_utf8, is_ascii_chars, is_ascii_chars_encode_utf8};

verus! {

/// A conditional match that was not written as `if let` is never matched:
/// not a `match` with its arms written out, not a `while let`, nor any other
/// desugaring.
pub proof fn lemma_only_if_let_is_matched(expr: Expr)
    requires
        expr.kind is ConditionalMatch,
        expr.kind->ConditionalMatch_0.origin != MatchOrigin::IfLet,
    ensures
        redundant_ok(&expr) is None,
{
}

/// A conditional match on a method call whose receiver is not a `Result` is
/// never matched, whatever the method is called. With nothing matched,
/// nothing is emitted.
pub proof fn lemma_receiver_must_be_result(expr: Expr)
    requires
        expr.kind is ConditionalMatch,
        expr.kind->ConditionalMatch_0.scrutinee.kind is MethodCall,
        !expr.kind->ConditionalMatch_0.scrutinee.kind->MethodCall_0.receiver_type.is_result(),
    ensures
        redundant_ok(&expr) is None,
{
}

/// The type of the receiver only ever takes a match away: what the lint
/// finds is what syntax alone finds, or nothing. And syntax alone does not
/// look at the type: two conditional matches on method calls that differ in
/// nothing but the type of the receiver have the same shape.
pub proof fn lemma_shape_needs_no_type(left: Expr, right: Expr)
    requires
        left.kind is ConditionalMatch,
        right.kind is ConditionalMatch,
        left.kind->ConditionalMatch_0.origin == right.kind->ConditionalMatch_0.origin,
        left.kind->ConditionalMatch_0.arms == right.kind->ConditionalMatch_0.arms,
        left.kind->ConditionalMatch_0.scrutinee.span == right.kind->ConditionalMatch_0.scrutinee.span,
        left.kind->ConditionalMatch_0.scrutinee.kind is MethodCall,
        right.kind->ConditionalMatch_0.scrutinee.kind is MethodCall,
        left.kind->ConditionalMatch_0.scrutinee.kind->MethodCall_0.method
            == right.kind->ConditionalMatch_0.scrutinee.kind->MethodCall_0.method,
        left.kind->ConditionalMatch_0.scrutinee.kind->MethodCall_0.args
            == right.kind->ConditionalMatch_0.scrutinee.kind->MethodCall_0.args,
        left.kind->ConditionalMatch_0.scrutinee.kind->MethodCall_0.call_span
            == right.kind->ConditionalMatch_0.scrutinee.kind->MethodCall_0.call_span,
    ensures
        redundant_shape(&left) == redundant_shape(&right),
        redundant_ok(&left) is Some ==> redundant_ok(&left) == redundant_shape(&left),
        redundant_shape(&left) is None ==> redundant_ok(&left) is None,
{
}

/// Of a conditional match the lint reads the origin, the scrutinee and the
/// pattern of the first arm. Two nodes that agree in these give the same
/// answer, whatever their bodies and their other arms are.
pub proof fn lemma_only_first_pattern_is_examined(left: Expr, right: Expr)
    requires
        left.kind is ConditionalMatch,
        right.kind is ConditionalMatch,
        left.kind->ConditionalMatch_0.origin == right.kind->ConditionalMatch_0.origin,
        left.kind->ConditionalMatch_0.scrutinee == right.kind->ConditionalMatch_0.scrutinee,
        left.kind->ConditionalMatch_0.arms.len() > 0,
        right.kind->ConditionalMatch_0.arms.len() > 0,
        left.kind->ConditionalMatch_0.arms[0].pattern == right.kind->ConditionalMatch_0.arms[0].pattern,
    ensures
        redundant_ok(&left) == redundant_ok(&right),
{
}

/// Whether `after` is a reading of the source once the proposed text has
/// taken the place of the condition of `before`: a conditional match of the
/// same origin and with as many arms, whose first arm has `Ok` where it had
/// `Some`, in front of as many sub-patterns. Spans are not compared, as the
/// rewrite moves the text.
pub open spec fn is_rewrite_of(after: &Expr, before: &Expr) -> bool {
    &&& before.kind matches ExprKind::ConditionalMatch(m)
    &&& m.arms.len() > 0
    &&& m.arms[0].pattern.kind matches PatternKind::TupleStruct { subpatterns: before_subpatterns, .. }
    &&& after.kind matches ExprKind::ConditionalMatch(n)
    &&& n.origin == m.origin
    &&& n.arms.len() == m.arms.len()
    &&& n.arms[0].pattern.kind matches PatternKind::TupleStruct {
        name: QualifiedName::Resolved(printed),
        subpatterns: after_subpatterns,
    }
    &&& printed@ == "Ok"@
    &&& after_subpatterns.len() == before_subpatterns.len()
}

/// The lint does not fire twice: once the proposed text stands in the
/// source, the node that it is read as is not matched again.
pub proof fn lemma_rewrite_is_not_matched(before: Expr, after: Expr)
    requires
        redundant_ok(&before) is Some,
        is_rewrite_of(&after, &before),
    ensures
        redundant_ok(&after) is None,
{
    reveal_strlit("Ok");
    reveal_strlit("Some");
    assert("Ok"@.len() != "Some"@.len());
}

/// A finding points at the node from its start to the end of its scrutinee,
/// and so leaves the arms out, wherever the scrutinee does not end before
/// the node starts, as it never does in a tree that the host has parsed.
pub proof fn lemma_condition_ends_with_scrutinee(expr: Expr)
    requires
        expr.kind is ConditionalMatch,
        expr.span.lo <= expr.kind->ConditionalMatch_0.scrutinee.span.hi,
    ensures
        condition_of(&expr) == (Span {
            lo: expr.span.lo,
            hi: expr.kind->ConditionalMatch_0.scrutinee.span.hi,
            from_expansion: expr.span.from_expansion,
        }),
{
}

/// The receiver in the proposed text ends neither in a dot nor in
/// whitespace, and does not start with whitespace: nothing of what stood
/// between the receiver and `ok` is left behind it.
pub proof fn lemma_receiver_is_clean(prefix: Seq<char>)
    ensures
        receiver_text(prefix).len() > 0 ==> {
            &&& receiver_text(prefix).last() != '.'
            &&& !is_whitespace(receiver_text(prefix).last())
            &&& !is_whitespace(receiver_text(prefix).first())
        },
{
    lemma_strip_end_is_clean(trim_start(prefix), '.');
    lemma_strip_keeps_start(trim_start(prefix));
    lemma_trim_start_is_clean(prefix);
}

/// What is left of a text that loses dots and whitespace at its end starts
/// as the text does.
proof fn lemma_strip_keeps_start(text: Seq<char>)
    ensures
        strip_end(text, '.').len() > 0 ==> strip_end(text, '.').first() == text.first(),
    decreases text.len(),
{
    if text.len() > 0 && (text.last() == '.' || is_whitespace(text.last())) {
        lemma_strip_keeps_start(text.drop_last());
    }
}

/// The encoding of two texts, one behind the other, is the encoding of the
/// first followed by that of the second.
proof fn lemma_encode_concat(left: Seq<char>, right: Seq<char>)
    ensures
        encode_utf8(left + right) == encode_utf8(left) + encode_utf8(right),
    decreases left.len(),
{
    if left.len() == 0 {
        assert(left + right =~= right);
        assert(encode_utf8(left) + encode_utf8(right) =~= encode_utf8(right));
    } else {
        assert((left + right).drop_first() =~= left.drop_first() + right);
        lemma_encode_concat(left.drop_first(), right);
        assert(encode_utf8(left + right) =~= encode_utf8(left) + encode_utf8(right));
    }
}

/// The inner pattern stands in the proposed text as the source has it, right
/// behind `if let Ok(`: character for character, and so byte for byte in the
/// encoded text.
pub proof fn lemma_inner_is_verbatim(inner: Seq<char>, prefix: Seq<char>)
    ensures
        replacement_text(inner, prefix).subrange(10, 10 + inner.len() as int) == inner,
        encode_utf8(replacement_text(inner, prefix)).subrange(10, 10 + encode_utf8(inner).len() as int)
            == encode_utf8(inner),
{
    let head = "if let Ok("@;
    let text = replacement_text(inner, prefix);
    let tail = text.subrange(10 + inner.len() as int, text.len() as int);
    reveal_strlit("if let Ok(");
    assert(text =~= head + inner + tail);
    assert(text.subrange(10, 10 + inner.len() as int) =~= inner);

    assert(is_ascii_chars(head));
    is_ascii_chars_encode_utf8(head);
    lemma_encode_concat(head + inner, tail);
    lemma_encode_concat(head, inner);
    assert(encode_utf8(text).subrange(10, 10 + encode_utf8(inner).len() as int) =~= encode_utf8(inner));
}

} // verus!
