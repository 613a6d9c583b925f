//! The shape of the redundant idiom, and the search for it in one node.

use crate::span::Span;
use crate::syntax::{ConditionalMatch, Expr, ExprKind, MatchOrigin, MethodCall, Pattern, PatternKind, QualifiedName};
use crate::text::text_eq;
use crate::types::{is_result_type, TypeDescriptor};
use vstd::prelude::*;

verus! {

/// Where the parts of a match stand in the source.
#[derive(Clone, Copy, Debug, PartialEq, Eq, Structural)]
pub struct MatchRecord {
    /// The scrutinee from its start up to the name `ok`: the receiver and the
    /// dot behind it.
    pub prefix: Span,
    /// The name `ok` in the call.
    pub ok_call: Span,
    /// The one pattern inside `Some(..)`.
    pub inner: Span,
}

/// Whether the pattern is a name applied to exactly one sub-pattern, and the
/// name is printed as `Some`. The name is compared as text: a variant of
/// another type that is also printed as `Some` passes as well.
pub open spec fn binds_some(pattern: &Pattern) -> bool {
    match pattern.kind {
        PatternKind::TupleStruct { name: QualifiedName::Resolved(printed), subpatterns } => {
            printed@ == "Some"@ && subpatterns.len() == 1
        },
        _ => false,
    }
}

/// Whether the call is `ok()`: the method is named `ok` and takes nothing
/// but its receiver.
pub open spec fn is_ok_call(call: &MethodCall) -> bool {
    call.method@ == "ok"@ && call.args.len() == 0
}

/// Whether a conditional match whose scrutinee is the call `call` has the
/// shape of the idiom, as far as syntax tells: it is an `if let`, its first
/// arm binds `Some(..)`, and the call is `ok()`. The type of the receiver
/// plays no part in this.
pub open spec fn has_shape(m: &ConditionalMatch, call: &MethodCall) -> bool {
    &&& m.origin == MatchOrigin::IfLet
    &&& m.arms.len() > 0
    &&& binds_some(&m.arms[0].pattern)
    &&& is_ok_call(call)
}

/// Whether a conditional match whose scrutinee is the call `call` is the
/// redundant idiom: it has the shape, and the receiver of the call is a
/// `Result`.
pub open spec fn is_redundant(m: &ConditionalMatch, call: &MethodCall) -> bool {
    has_shape(m, call) && call.receiver_type.is_result()
}

/// The spans of a match, read off a conditional match of the redundant
/// shape and the call that is its scrutinee.
pub open spec fn record_of(m: &ConditionalMatch, call: &MethodCall) -> MatchRecord {
    MatchRecord {
        prefix: m.scrutinee.span.until(call.call_span),
        ok_call: call.call_span,
        inner: m.arms[0].pattern.kind->subpatterns[0].span,
    }
}

/// What syntax alone finds in `expr`: the record of the match where `expr`
/// is a conditional match on a method call and has the shape of the idiom,
/// and nothing for every other node.
pub open spec fn redundant_shape(expr: &Expr) -> Option<MatchRecord> {
    match expr.kind {
        ExprKind::ConditionalMatch(m) => match m.scrutinee.kind {
            ExprKind::MethodCall(call) => if has_shape(&m, &call) {
                Some(record_of(&m, &call))
            } else {
                None
            },
            _ => None,
        },
        _ => None,
    }
}

/// What the lint finds in `expr`: what syntax finds, where the receiver of
/// the call is a `Result`, and nothing for every other node.
pub open spec fn redundant_ok(expr: &Expr) -> Option<MatchRecord> {
    match expr.kind {
        ExprKind::ConditionalMatch(m) => match m.scrutinee.kind {
            ExprKind::MethodCall(call) => if is_redundant(&m, &call) {
                Some(record_of(&m, &call))
            } else {
                None
            },
            _ => None,
        },
        _ => None,
    }
}

/// Whether the pattern is `Some(..)` around exactly one sub-pattern; the
/// place of that sub-pattern if it is.
fn inner_of_some(pattern: &Pattern) -> (inner: Option<Span>)
    ensures
        inner is Some == binds_some(pattern),
        binds_some(pattern) ==> inner == Some(pattern.kind->subpatterns[0].span),
{
    match &pattern.kind {
        PatternKind::TupleStruct { name: QualifiedName::Resolved(printed), subpatterns } => {
            if text_eq(printed.as_str(), "Some") && subpatterns.len() == 1 {
                Some(subpatterns[0].span)
            } else {
                None
            }
        },
        _ => None,
    }
}

/// Looks for the shape of the idiom in one node, without a look at any
/// type. The tests run in order and the first that fails ends the search:
/// the node is an `if let`; its scrutinee is a method call; its first arm
/// binds `Some(..)` around one sub-pattern; the call is `ok()`. A host for
/// which types are costly may leave the receiver's type unresolved until
/// this finds something.
pub fn find_shape(expr: &Expr) -> (found: Option<MatchRecord>)
    ensures
        found == redundant_shape(expr),
{
    let m = match &expr.kind {
        ExprKind::ConditionalMatch(m) => m,
        _ => return None,
    };
    match m.origin {
        MatchOrigin::IfLet => {},
        _ => return None,
    }
    let call = match &m.scrutinee.kind {
        ExprKind::MethodCall(call) => call,
        _ => return None,
    };
    if m.arms.len() == 0 {
        return None;
    }
    let inner = match inner_of_some(&m.arms[0].pattern) {
        Some(inner) => inner,
        None => return None,
    };
    if !text_eq(call.method.as_str(), "ok") || call.args.len() != 0 {
        return None;
    }
    Some(MatchRecord { prefix: m.scrutinee.span.until(call.call_span), ok_call: call.call_span, inner })
}

/// The type that the host inferred for the receiver of the call that is the
/// scrutinee of `expr`, if `expr` is a conditional match on a method call.
fn receiver_type(expr: &Expr) -> (ty: Option<&TypeDescriptor>)
    ensures
        match expr.kind {
            ExprKind::ConditionalMatch(m) => match m.scrutinee.kind {
                ExprKind::MethodCall(call) => ty == Some(&call.receiver_type),
                _ => ty is None,
            },
            _ => ty is None,
        },
{
    match &expr.kind {
        ExprKind::ConditionalMatch(m) => match &m.scrutinee.kind {
            ExprKind::MethodCall(call) => Some(&call.receiver_type),
            _ => None,
        },
        _ => None,
    }
}

/// Looks for the redundant idiom in one node: for its shape first, and only
/// where the shape is there for the type of the receiver, which has to be a
/// `Result`. A node that fails any test is passed over in silence.
pub fn find_match(expr: &Expr) -> (found: Option<MatchRecord>)
    ensures
        found == redundant_ok(expr),
{
    let record = match find_shape(expr) {
        Some(record) => record,
        None => return None,
    };
    match receiver_type(expr) {
        Some(ty) => if is_result_type(ty) {
            Some(record)
        } else {
            None
        },
        None => None,
    }
}

} // verus!
