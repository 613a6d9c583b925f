//! The syntax tree as the lint sees it: the host's nodes, reduced to what
//! the check reads of them.

use crate::span::Span;
use crate::types::TypeDescriptor;
use vstd::prelude::*;

verus! {

/// The surface syntax that a conditional match was written in. The host
/// lowers all of these to one kind of node and keeps the origin beside it.
#[derive(Clone, Copy, Debug, PartialEq, Eq, Structural)]
pub enum MatchOrigin {
    /// A `match` with its arms written out.
    Explicit,
    /// An `if` on a condition.
    If,
    /// An `if let`.
    IfLet,
    /// A `while` on a condition.
    While,
    /// A `while let`.
    WhileLet,
    /// A `for` loop.
    ForLoop,
    /// The `?` operator.
    Try,
    /// An `.await`.
    Await,
}

/// The name in front of a tuple-struct pattern.
#[derive(Debug, PartialEq, Eq)]
pub enum QualifiedName {
    /// A path that the host has resolved, as the host prints it: `Some`,
    /// `Option::Some`, `std::option::Option::Some`.
    Resolved(String),
    /// A name that is looked up on a type, such as `<T>::Variant`. It has no
    /// printed form.
    TypeRelative,
}

/// A pattern with its place in the source.
#[derive(Debug, PartialEq, Eq)]
pub struct Pattern {
    pub kind: PatternKind,
    pub span: Span,
}

/// The kinds of pattern that the lint tells apart.
#[derive(Debug, PartialEq, Eq)]
pub enum PatternKind {
    /// A name applied to sub-patterns in order: `Some(x)`, `Pair(a, b)`.
    TupleStruct { name: QualifiedName, subpatterns: Vec<Pattern> },
    /// Any other pattern.
    Other,
}

/// One arm of a conditional match. The lint never looks into a body.
#[derive(Debug, PartialEq, Eq)]
pub struct Arm {
    pub pattern: Pattern,
    pub body: Expr,
}

/// A match of a scrutinee against arms in order.
#[derive(Debug, PartialEq, Eq)]
pub struct ConditionalMatch {
    pub scrutinee: Box<Expr>,
    pub arms: Vec<Arm>,
    pub origin: MatchOrigin,
}

/// A method call `receiver.method(args)`.
#[derive(Debug, PartialEq, Eq)]
pub struct MethodCall {
    pub receiver: Box<Expr>,
    /// The type that the host inferred for the receiver. Only a node that
    /// has the shape of the idiom is ever asked for it.
    pub receiver_type: TypeDescriptor,
    pub method: String,
    /// The arguments in the brackets; the receiver is not among them.
    pub args: Vec<Expr>,
    /// Where the method's name stands, with its generic arguments if it has
    /// any.
    pub call_span: Span,
}

/// An expression with its place in the source.
#[derive(Debug, PartialEq, Eq)]
pub struct Expr {
    pub kind: ExprKind,
    pub span: Span,
}

/// The kinds of expression that the lint tells apart.
#[derive(Debug, PartialEq, Eq)]
pub enum ExprKind {
    ConditionalMatch(ConditionalMatch),
    MethodCall(MethodCall),
    /// Any other expression.
    Other,
}

} // verus!
