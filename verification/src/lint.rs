//! The lint pass: what it is registered as, and the one entry point that the
//! host calls for each expression.

use crate::matcher::{find_match, redundant_ok};
use crate::report::{diagnostic_for, report, Diagnostic};
use crate::span::Span;
use crate::suggestion::Snippet;
use crate::syntax::Expr;
use vstd::prelude::*;

verus! {

/// The groups that the host sorts its lints into.
#[derive(Clone, Copy, Debug, PartialEq, Eq, Structural)]
pub enum Category {
    Correctness,
    Style,
    Complexity,
    Perf,
    Pedantic,
    Restriction,
    Nursery,
    Cargo,
}

/// What the host registers a lint under, once, when it starts.
#[derive(Debug, PartialEq, Eq)]
pub struct LintInfo {
    pub name: String,
    pub category: Category,
    pub description: String,
}

/// A [`LintInfo`] with its texts as sequences of characters.
pub struct LintInfoView {
    pub name: Seq<char>,
    pub category: Category,
    pub description: Seq<char>,
}

impl View for LintInfo {
    type V = LintInfoView;

    open spec fn view(&self) -> LintInfoView {
        LintInfoView { name: self.name@, category: self.category, description: self.description@ }
    }
}

/// The registration of this lint.
pub open spec fn registration() -> LintInfoView {
    LintInfoView {
        name: "if_let_some_result"@,
        category: Category::Style,
        description: "usage of `ok()` in `if let Some(pat)` statements is unnecessary, match on `Ok(pat)` instead"@,
    }
}

/// The lint pass. It keeps nothing between two nodes.
#[derive(Clone, Copy, Debug, PartialEq, Eq, Structural)]
pub struct OkIfLet;

impl OkIfLet {
    /// What the host registers the lint under.
    pub fn lint_info() -> (info: LintInfo)
        ensures
            info@ == registration(),
    {
        LintInfo {
            name: String::from_str("if_let_some_result"),
            category: Category::Style,
            description: String::from_str(
                "usage of `ok()` in `if let Some(pat)` statements is unnecessary, match on `Ok(pat)` instead",
            ),
        }
    }

    /// Looks at one node. Where the node is not the redundant idiom, nothing
    /// is asked of the host and nothing comes back. Where it is, the host is
    /// asked for the source text of the inner pattern and of the scrutinee
    /// in front of `ok`, in this order and once each, and the one finding
    /// built from its answers comes back. The type of the receiver is read
    /// last, and only off a node that has the shape of the idiom.
    pub fn check_expr<F: Fn(Span) -> Snippet>(&self, expr: &Expr, snippet_of: F) -> (finding: Option<
        Diagnostic,
    >)
        requires
            redundant_ok(expr) matches Some(record) ==> call_requires(snippet_of, (record.inner,))
                && call_requires(snippet_of, (record.prefix,)),
        ensures
            redundant_ok(expr) is None ==> finding is None,
            redundant_ok(expr) matches Some(record) ==> finding is Some && exists|
                inner: Snippet,
                prefix: Snippet,
            |
                {
                    &&& call_ensures(snippet_of, (record.inner,), inner)
                    &&& call_ensures(snippet_of, (record.prefix,), prefix)
                    &&& finding->0@ == diagnostic_for(expr, inner@, prefix@)
                },
    {
        match find_match(expr) {
            None => None,
            Some(record) => {
                let inner = snippet_of(record.inner);
                let prefix = snippet_of(record.prefix);
                Some(report(expr, &inner, &prefix))
            },
        }
    }
}

} // verus!
