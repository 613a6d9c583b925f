use if_let_some_result::lint::OkIfLet;
use if_let_some_result::matcher::{find_match, find_shape, MatchRecord};
use if_let_some_result::report::Diagnostic;
use if_let_some_result::span::Span;
use if_let_some_result::suggestion::{Applicability, Snippet};
use if_let_some_result::syntax::{
    Arm, ConditionalMatch, Expr, ExprKind, MatchOrigin, MethodCall, Pattern, PatternKind, QualifiedName,
};
use if_let_some_result::types::TypeDescriptor;
use std::cell::RefCell;

fn span_at(lo: usize, len: usize) -> Span {
    Span::new(lo as u32, (lo + len) as u32)
}

fn span_of(source: &str, part: &str) -> Span {
    span_at(source.find(part).unwrap(), part.len())
}

fn adt(path: &[&str]) -> TypeDescriptor {
    TypeDescriptor::Adt { def_path: path.iter().map(|segment| segment.to_string()).collect() }
}

fn other(span: Span) -> Expr {
    Expr { kind: ExprKind::Other, span }
}

/// The node for `scrutinee`, which ends in a call of `method` without arguments.
fn call(source: &str, scrutinee: &str, method: &str, receiver_type: TypeDescriptor) -> Expr {
    let start = source.find(scrutinee).unwrap();
    let name = start + scrutinee.rfind(method).unwrap();
    let receiver = scrutinee[..scrutinee.rfind('.').unwrap()].trim_end();
    Expr {
        kind: ExprKind::MethodCall(MethodCall {
            receiver: Box::new(other(span_at(start, receiver.len()))),
            receiver_type,
            method: method.to_string(),
            args: vec![],
            call_span: span_at(name, method.len()),
        }),
        span: span_at(start, scrutinee.len()),
    }
}

/// The pattern `name(inner)`.
fn tuple_struct(source: &str, name: &str, inner: &str) -> Pattern {
    let whole = format!("{}({})", name, inner);
    let start = source.find(&whole).unwrap();
    Pattern {
        kind: PatternKind::TupleStruct {
            name: QualifiedName::Resolved(name.to_string()),
            subpatterns: vec![Pattern { kind: PatternKind::Other, span: span_at(start + name.len() + 1, inner.len()) }],
        },
        span: span_at(start, whole.len()),
    }
}

fn conditional(source: &str, origin: MatchOrigin, scrutinee: Expr, patterns: Vec<Pattern>) -> Expr {
    let end = source.len();
    let arms = patterns.into_iter().map(|pattern| Arm { pattern, body: other(span_at(end, 0)) }).collect();
    Expr {
        kind: ExprKind::ConditionalMatch(ConditionalMatch { scrutinee: Box::new(scrutinee), arms, origin }),
        span: span_at(0, end),
    }
}

fn wildcard(source: &str) -> Pattern {
    Pattern { kind: PatternKind::Other, span: span_at(source.len(), 0) }
}

/// Runs the lint on `expr`, with `source` as the text that the spans point into.
fn lint(source: &str, expr: &Expr) -> Option<Diagnostic> {
    OkIfLet.check_expr(expr, |span: Span| Snippet::Exact(source[span.lo as usize..span.hi as usize].to_string()))
}

#[test]
fn parse_ok_in_if_let_is_rewritten() {
    let source = "if let Some(value) = input.parse().ok() { vec.push(value) }";
    let expr = conditional(
        source,
        MatchOrigin::IfLet,
        call(source, "input.parse().ok()", "ok", adt(&["core", "result", "Result"])),
        vec![tuple_struct(source, "Some", "value"), wildcard(source)],
    );
    let finding = lint(source, &expr).unwrap();
    assert_eq!(finding.suggestion.replacement, "if let Ok(value) = input.parse()");
    assert_eq!(finding.suggestion.applicability, Applicability::MachineApplicable);
    assert_eq!(
        finding.suggestion.label,
        "Consider matching on `Ok(value)` and removing the call to `ok` instead"
    );
    assert_eq!(finding.message, "Matching on `Some` with `ok()` is redundant");
}

#[test]
fn finding_points_at_the_condition_only() {
    let source = "if let Some(value) = input.parse().ok() { vec.push(value) }";
    let expr = conditional(
        source,
        MatchOrigin::IfLet,
        call(source, "input.parse().ok()", "ok", adt(&["core", "result", "Result"])),
        vec![tuple_struct(source, "Some", "value"), wildcard(source)],
    );
    let finding = lint(source, &expr).unwrap();
    assert_eq!(finding.span, span_of(source, "if let Some(value) = input.parse().ok()"));
    assert_eq!(finding.span, Span::new(0, 39));
}

#[test]
fn match_record_names_the_three_spans() {
    let source = "if let Some(value) = input.parse().ok() { vec.push(value) }";
    let expr = conditional(
        source,
        MatchOrigin::IfLet,
        call(source, "input.parse().ok()", "ok", adt(&["core", "result", "Result"])),
        vec![tuple_struct(source, "Some", "value"), wildcard(source)],
    );
    let record = find_match(&expr).unwrap();
    assert_eq!(
        record,
        MatchRecord {
            prefix: span_of(source, "input.parse()."),
            ok_call: Span::new(35, 37),
            inner: span_of(source, "value"),
        }
    );
}

#[test]
fn ok_on_an_option_is_left_alone() {
    let source = "if let Some(x) = map.get(&k).ok() { use_it(x) }";
    let expr = conditional(
        source,
        MatchOrigin::IfLet,
        call(source, "map.get(&k).ok()", "ok", adt(&["core", "option", "Option"])),
        vec![tuple_struct(source, "Some", "x"), wildcard(source)],
    );
    assert_eq!(lint(source, &expr), None);
    assert_eq!(find_match(&expr), None);
}

#[test]
fn explicit_match_is_left_alone() {
    let source = "match input.parse().ok() { Some(v) => use_it(v), None => give_up() }";
    let expr = conditional(
        source,
        MatchOrigin::Explicit,
        call(source, "input.parse().ok()", "ok", adt(&["core", "result", "Result"])),
        vec![tuple_struct(source, "Some", "v"), wildcard(source)],
    );
    assert_eq!(lint(source, &expr), None);
    assert_eq!(find_match(&expr), None);
}

#[test]
fn tuple_pattern_is_kept_as_written() {
    let source = "if let Some((a, b)) = pair_result().ok() { add(a, b) }";
    let expr = conditional(
        source,
        MatchOrigin::IfLet,
        call(source, "pair_result().ok()", "ok", adt(&["core", "result", "Result"])),
        vec![tuple_struct(source, "Some", "(a, b)"), wildcard(source)],
    );
    let finding = lint(source, &expr).unwrap();
    assert_eq!(finding.suggestion.replacement, "if let Ok((a, b)) = pair_result()");
    assert_eq!(finding.suggestion.applicability, Applicability::MachineApplicable);
}

#[test]
fn idiomatic_if_let_ok_is_left_alone() {
    let source = "if let Ok(v) = input.parse() { use_it(v) }";
    let expr = conditional(
        source,
        MatchOrigin::IfLet,
        call(source, "input.parse()", "parse", TypeDescriptor::Other),
        vec![tuple_struct(source, "Ok", "v"), wildcard(source)],
    );
    assert_eq!(lint(source, &expr), None);
    assert_eq!(find_match(&expr), None);
}

#[test]
fn rewritten_source_is_not_matched_again() {
    let source = "if let Some(value) = input.parse().ok() { vec.push(value) }";
    let expr = conditional(
        source,
        MatchOrigin::IfLet,
        call(source, "input.parse().ok()", "ok", adt(&["core", "result", "Result"])),
        vec![tuple_struct(source, "Some", "value"), wildcard(source)],
    );
    let finding = lint(source, &expr).unwrap();

    let rewritten = format!("{} {{ vec.push(value) }}", finding.suggestion.replacement);
    assert_eq!(rewritten, "if let Ok(value) = input.parse() { vec.push(value) }");
    let again = conditional(
        &rewritten,
        MatchOrigin::IfLet,
        call(&rewritten, "input.parse()", "parse", TypeDescriptor::Other),
        vec![tuple_struct(&rewritten, "Ok", "value"), wildcard(&rewritten)],
    );
    assert_eq!(lint(&rewritten, &again), None);
}

#[test]
fn rewritten_source_is_not_matched_again_even_on_a_chain_of_ok_calls() {
    // What is left of `r.ok().ok()` still ends in `ok()` on a `Result`; the
    // pattern `Ok(..)` alone keeps the lint from firing again.
    let rewritten = "if let Ok(v) = r.ok() { use_it(v) }";
    let again = conditional(
        rewritten,
        MatchOrigin::IfLet,
        call(rewritten, "r.ok()", "ok", adt(&["core", "result", "Result"])),
        vec![tuple_struct(rewritten, "Ok", "v"), wildcard(rewritten)],
    );
    assert_eq!(lint(rewritten, &again), None);
}

#[test]
fn method_chain_over_several_lines_loses_the_line_break_in_front_of_ok() {
    let source = "if let Some(n) = line\n        .trim()\n        .parse::<u32>()\n        .ok()\n    {}";
    let scrutinee = "line\n        .trim()\n        .parse::<u32>()\n        .ok()";
    let expr = conditional(
        source,
        MatchOrigin::IfLet,
        call(source, scrutinee, "ok", adt(&["core", "result", "Result"])),
        vec![tuple_struct(source, "Some", "n"), wildcard(source)],
    );
    let finding = lint(source, &expr).unwrap();
    assert_eq!(finding.suggestion.replacement, "if let Ok(n) = line\n        .trim()\n        .parse::<u32>()");
    assert_eq!(finding.span, span_of(source, &format!("if let Some(n) = {}", scrutinee)));
}

#[test]
fn space_in_front_of_the_dot_is_trimmed_with_it() {
    let source = "if let Some(y) = x.parse() .ok() { }";
    let expr = conditional(
        source,
        MatchOrigin::IfLet,
        call(source, "x.parse() .ok()", "ok", adt(&["core", "result", "Result"])),
        vec![tuple_struct(source, "Some", "y"), wildcard(source)],
    );
    let finding = lint(source, &expr).unwrap();
    assert_eq!(finding.suggestion.replacement, "if let Ok(y) = x.parse()");
    assert_eq!(finding.suggestion.applicability, Applicability::MachineApplicable);
}

#[test]
fn host_sees_which_span_comes_out_of_a_macro() {
    // The inner pattern was produced by a macro, the rest is written out.
    let source = "if let Some(value) = input.parse().ok() { vec.push(value) }";
    let mut pattern = tuple_struct(source, "Some", "value");
    let inner = Span::in_expansion(12, 17);
    if let PatternKind::TupleStruct { subpatterns, .. } = &mut pattern.kind {
        subpatterns[0].span = inner;
    }
    let expr = conditional(
        source,
        MatchOrigin::IfLet,
        call(source, "input.parse().ok()", "ok", adt(&["core", "result", "Result"])),
        vec![pattern, wildcard(source)],
    );
    let asked: RefCell<Vec<Span>> = RefCell::new(Vec::new());
    let finding = OkIfLet
        .check_expr(&expr, |span: Span| {
            asked.borrow_mut().push(span);
            if span.from_expansion {
                Snippet::Fallback
            } else {
                Snippet::Exact(source[span.lo as usize..span.hi as usize].to_string())
            }
        })
        .unwrap();
    assert_eq!(asked.into_inner(), vec![inner, Span::new(21, 35)]);
    assert_eq!(finding.suggestion.replacement, "if let Ok() = input.parse()");
    assert_eq!(finding.suggestion.applicability, Applicability::HasPlaceholders);
    assert!(!finding.span.from_expansion);
}

#[test]
fn shape_is_found_before_the_type_is_known() {
    let source = "if let Some(value) = input.parse().ok() { vec.push(value) }";
    let unresolved = conditional(
        source,
        MatchOrigin::IfLet,
        call(source, "input.parse().ok()", "ok", TypeDescriptor::Unresolved),
        vec![tuple_struct(source, "Some", "value"), wildcard(source)],
    );
    let resolved = conditional(
        source,
        MatchOrigin::IfLet,
        call(source, "input.parse().ok()", "ok", adt(&["core", "result", "Result"])),
        vec![tuple_struct(source, "Some", "value"), wildcard(source)],
    );
    let shape = find_shape(&unresolved);
    assert!(shape.is_some());
    assert_eq!(find_match(&unresolved), None);
    assert_eq!(lint(source, &unresolved), None);
    assert_eq!(find_shape(&resolved), shape);
    assert_eq!(find_match(&resolved), shape);
}

#[test]
fn host_is_asked_for_the_inner_pattern_first_and_the_prefix_second() {
    let source = "if let Some(value) = input.parse().ok() { vec.push(value) }";
    let expr = conditional(
        source,
        MatchOrigin::IfLet,
        call(source, "input.parse().ok()", "ok", adt(&["core", "result", "Result"])),
        vec![tuple_struct(source, "Some", "value"), wildcard(source)],
    );
    let asked: RefCell<Vec<Span>> = RefCell::new(Vec::new());
    let finding = OkIfLet.check_expr(&expr, |span: Span| {
        asked.borrow_mut().push(span);
        Snippet::Exact(source[span.lo as usize..span.hi as usize].to_string())
    });
    assert!(finding.is_some());
    assert_eq!(asked.into_inner(), vec![span_of(source, "value"), span_of(source, "input.parse().")]);
}

#[test]
fn host_is_not_asked_where_nothing_matches() {
    let source = "while let Some(value) = input.parse().ok() { vec.push(value) }";
    let expr = conditional(
        source,
        MatchOrigin::WhileLet,
        call(source, "input.parse().ok()", "ok", adt(&["core", "result", "Result"])),
        vec![tuple_struct(source, "Some", "value"), wildcard(source)],
    );
    let asked: RefCell<Vec<Span>> = RefCell::new(Vec::new());
    let finding = OkIfLet.check_expr(&expr, |span: Span| {
        asked.borrow_mut().push(span);
        Snippet::Fallback
    });
    assert_eq!(finding, None);
    assert_eq!(asked.into_inner(), vec![]);
}

#[test]
fn fallback_for_the_inner_pattern_leaves_a_placeholder() {
    let source = "if let Some(value) = input.parse().ok() { vec.push(value) }";
    let expr = conditional(
        source,
        MatchOrigin::IfLet,
        call(source, "input.parse().ok()", "ok", adt(&["core", "result", "Result"])),
        vec![tuple_struct(source, "Some", "value"), wildcard(source)],
    );
    let inner = span_of(source, "value");
    let finding = OkIfLet
        .check_expr(&expr, |span: Span| {
            if span == inner {
                Snippet::Fallback
            } else {
                Snippet::Exact(source[span.lo as usize..span.hi as usize].to_string())
            }
        })
        .unwrap();
    assert_eq!(finding.suggestion.replacement, "if let Ok() = input.parse()");
    assert_eq!(finding.suggestion.applicability, Applicability::HasPlaceholders);
}

#[test]
fn fallback_for_both_snippets_still_gives_a_finding() {
    let source = "if let Some(value) = input.parse().ok() { vec.push(value) }";
    let expr = conditional(
        source,
        MatchOrigin::IfLet,
        call(source, "input.parse().ok()", "ok", adt(&["core", "result", "Result"])),
        vec![tuple_struct(source, "Some", "value"), wildcard(source)],
    );
    let finding = OkIfLet.check_expr(&expr, |_span: Span| Snippet::Fallback).unwrap();
    assert_eq!(finding.suggestion.replacement, "if let Ok() = ");
    assert_eq!(finding.suggestion.label, "Consider matching on `Ok()` and removing the call to `ok` instead");
    assert_eq!(finding.suggestion.applicability, Applicability::HasPlaceholders);
    assert_eq!(finding.span, Span::new(0, 39));
}

#[test]
fn checking_twice_gives_the_same_finding() {
    let source = "if let Some(value) = input.parse().ok() { vec.push(value) }";
    let expr = conditional(
        source,
        MatchOrigin::IfLet,
        call(source, "input.parse().ok()", "ok", adt(&["core", "result", "Result"])),
        vec![tuple_struct(source, "Some", "value"), wildcard(source)],
    );
    assert_eq!(lint(source, &expr), lint(source, &expr));
}
