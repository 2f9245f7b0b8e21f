use while_pop_unwrap::ast::{Block, CallIdentity, Expr, ExprKind, Pat, Span, Stmt, StmtKind, UnOp};
use while_pop_unwrap::check::check;
use while_pop_unwrap::classify::PopStmt;
use while_pop_unwrap::matcher::{extract_pop_unwrap, is_vec_pop_unwrap, match_method_call};
use while_pop_unwrap::spanless_eq::eq_expr;

fn sp(lo: u64, hi: u64) -> Span {
    Span { lo, hi }
}

fn var(name: &str, lo: u64, hi: u64) -> Expr {
    Expr {
        kind: ExprKind::Path { segments: vec![name.to_string()] },
        span: sp(lo, hi),
    }
}

fn method_call(
    method: &str,
    resolved: Option<CallIdentity>,
    receiver: Expr,
    args: Vec<Expr>,
    lo: u64,
    hi: u64,
) -> Expr {
    Expr {
        kind: ExprKind::MethodCall {
            method: method.to_string(),
            resolved,
            receiver: Box::new(receiver),
            args,
        },
        span: sp(lo, hi),
    }
}

/// The guard `!recv.is_empty()`, resolved to the is-empty query.
fn not_is_empty(recv: Expr, lo: u64, hi: u64) -> Expr {
    let call = method_call("is_empty", Some(CallIdentity::VecIsEmpty), recv, vec![], lo + 1, hi);
    Expr {
        kind: ExprKind::Unary { op: UnOp::Not, operand: Box::new(call) },
        span: sp(lo, hi),
    }
}

/// `recv.pop().unwrap()` (or `.expect(..)`), fully resolved.
fn pop_then(unwrap_id: CallIdentity, unwrap_args: Vec<Expr>, recv: Expr, lo: u64, hi: u64) -> Expr {
    let pop = method_call("pop", Some(CallIdentity::VecPop), recv, vec![], lo, hi - 9);
    let name = if unwrap_id == CallIdentity::OptionExpect { "expect" } else { "unwrap" };
    method_call(name, Some(unwrap_id), pop, unwrap_args, lo, hi)
}

fn local_stmt(pat_name: &str, init: Expr, lo: u64, hi: u64) -> Stmt {
    Stmt {
        kind: StmtKind::Local {
            pat: Pat { text: pat_name.to_string(), span: sp(lo + 4, lo + 4 + pat_name.len() as u64) },
            init: Some(init),
        },
        span: sp(lo, hi),
    }
}

fn block_body(stmts: Vec<Stmt>, lo: u64, hi: u64) -> Expr {
    Expr {
        kind: ExprKind::Block(Block { stmts, span: sp(lo, hi) }),
        span: sp(lo, hi),
    }
}

#[test]
fn mismatched_receivers_yield_no_finding() {
    // while !a.is_empty() { let x = b.pop().unwrap(); }
    let cond = not_is_empty(var("a", 7, 8), 6, 20);
    let stmt = local_stmt("x", pop_then(CallIdentity::OptionUnwrap, vec![], var("b", 30, 31), 30, 48), 22, 49);
    let body = block_body(vec![stmt], 21, 51);
    assert!(check(&cond, &body, sp(0, 20)).is_none());
}

#[test]
fn local_binding_form_is_found() {
    // while !v.is_empty() { let x = v.pop().unwrap(); use(x); }
    let cond = not_is_empty(var("v", 7, 8), 6, 20);
    let pop_stmt = local_stmt("x", pop_then(CallIdentity::OptionUnwrap, vec![], var("v", 30, 31), 30, 48), 22, 49);
    let use_stmt = Stmt {
        kind: StmtKind::Semi(Expr {
            kind: ExprKind::Call {
                callee: Box::new(var("use", 50, 53)),
                args: vec![var("x", 54, 55)],
            },
            span: sp(50, 56),
        }),
        span: sp(50, 57),
    };
    let body = block_body(vec![pop_stmt, use_stmt], 21, 59);
    let finding = check(&cond, &body, sp(0, 20)).expect("the local-binding form must be found");
    assert_eq!(finding.pop_span, sp(22, 49));
    assert_eq!(finding.loop_span, sp(0, 20));
    assert_eq!(finding.receiver_span, sp(7, 8));
    match &finding.kind {
        PopStmt::Local(pat) => assert_eq!(pat.text, "x"),
        PopStmt::Anonymous => panic!("expected the local-binding kind"),
    }
}

#[test]
fn inline_argument_form_is_found() {
    // while !v.is_empty() { process(other_arg, v.pop().unwrap()); }
    let cond = not_is_empty(var("v", 7, 8), 6, 20);
    let offending = pop_then(CallIdentity::OptionUnwrap, vec![], var("v", 42, 43), 42, 60);
    let call_stmt = Stmt {
        kind: StmtKind::Semi(Expr {
            kind: ExprKind::Call {
                callee: Box::new(var("process", 22, 29)),
                args: vec![var("other_arg", 30, 39), offending],
            },
            span: sp(22, 61),
        }),
        span: sp(22, 62),
    };
    let body = block_body(vec![call_stmt], 21, 64);
    let finding = check(&cond, &body, sp(0, 20)).expect("the inline-argument form must be found");
    assert_eq!(finding.pop_span, sp(42, 60));
    assert!(matches!(finding.kind, PopStmt::Anonymous));
    assert_eq!(finding.receiver_span, sp(7, 8));
}

#[test]
fn second_statement_is_not_inspected() {
    // while !v.is_empty() { log(); let x = v.pop().unwrap(); }
    let cond = not_is_empty(var("v", 7, 8), 6, 20);
    let unrelated = Stmt {
        kind: StmtKind::Semi(Expr {
            kind: ExprKind::Call { callee: Box::new(var("log", 22, 25)), args: vec![] },
            span: sp(22, 27),
        }),
        span: sp(22, 28),
    };
    let pop_stmt = local_stmt("x", pop_then(CallIdentity::OptionUnwrap, vec![], var("v", 37, 38), 37, 55), 29, 56);
    let body = block_body(vec![unrelated, pop_stmt], 21, 58);
    assert!(check(&cond, &body, sp(0, 20)).is_none());
}

#[test]
fn expect_variant_is_found_in_local_form() {
    // while !v.is_empty() { let x = v.pop().expect("message"); }
    let cond = not_is_empty(var("v", 7, 8), 6, 20);
    let message_arg = Expr { kind: ExprKind::Lit { value: 0 }, span: sp(45, 54) };
    let stmt = local_stmt("x", pop_then(CallIdentity::OptionExpect, vec![message_arg], var("v", 30, 31), 30, 55), 22, 56);
    let body = block_body(vec![stmt], 21, 58);
    let finding = check(&cond, &body, sp(0, 20)).expect("the unwrap-with-message form must be found");
    match &finding.kind {
        PopStmt::Local(pat) => assert_eq!(pat.text, "x"),
        PopStmt::Anonymous => panic!("expected the local-binding kind"),
    }
}

#[test]
fn expect_variant_is_found_in_inline_form() {
    // while !v.is_empty() { process(v.pop().expect("message")); }
    let cond = not_is_empty(var("v", 7, 8), 6, 20);
    let message_arg = Expr { kind: ExprKind::Lit { value: 0 }, span: sp(45, 54) };
    let offending = pop_then(CallIdentity::OptionExpect, vec![message_arg], var("v", 30, 31), 30, 55);
    let call_stmt = Stmt {
        kind: StmtKind::Semi(Expr {
            kind: ExprKind::Call { callee: Box::new(var("process", 22, 29)), args: vec![offending] },
            span: sp(22, 56),
        }),
        span: sp(22, 57),
    };
    let body = block_body(vec![call_stmt], 21, 59);
    let finding = check(&cond, &body, sp(0, 20)).expect("the unwrap-with-message form must be found");
    assert!(matches!(finding.kind, PopStmt::Anonymous));
    assert_eq!(finding.pop_span, sp(30, 55));
}

#[test]
fn bare_pop_yields_no_finding() {
    // while !v.is_empty() { let x = v.pop(); }
    let cond = not_is_empty(var("v", 7, 8), 6, 20);
    let bare_pop = method_call("pop", Some(CallIdentity::VecPop), var("v", 30, 31), vec![], 30, 39);
    let stmt = local_stmt("x", bare_pop, 22, 40);
    let body = block_body(vec![stmt], 21, 42);
    assert!(check(&cond, &body, sp(0, 20)).is_none());
}

#[test]
fn unresolved_calls_fail_closed() {
    // The same positive scenario, but with resolution unavailable on the
    // emptiness check, then on the unwrap, then on the pop.
    let cond_unresolved = {
        let call = method_call("is_empty", None, var("v", 7, 8), vec![], 7, 19);
        Expr { kind: ExprKind::Unary { op: UnOp::Not, operand: Box::new(call) }, span: sp(6, 19) }
    };
    let stmt = local_stmt("x", pop_then(CallIdentity::OptionUnwrap, vec![], var("v", 30, 31), 30, 48), 22, 49);
    let body = block_body(vec![stmt], 21, 51);
    assert!(check(&cond_unresolved, &body, sp(0, 20)).is_none());

    let cond = not_is_empty(var("v", 7, 8), 6, 20);
    let pop = method_call("pop", Some(CallIdentity::VecPop), var("v", 30, 31), vec![], 30, 39);
    let unwrap_unresolved = method_call("unwrap", None, pop, vec![], 30, 48);
    let body2 = block_body(vec![local_stmt("x", unwrap_unresolved, 22, 49)], 21, 51);
    assert!(check(&cond, &body2, sp(0, 20)).is_none());

    let pop_unresolved = method_call("pop", None, var("v", 30, 31), vec![], 30, 39);
    let unwrap = method_call("unwrap", Some(CallIdentity::OptionUnwrap), pop_unresolved, vec![], 30, 48);
    let body3 = block_body(vec![local_stmt("x", unwrap, 22, 49)], 21, 51);
    assert!(check(&cond, &body3, sp(0, 20)).is_none());
}

#[test]
fn empty_body_yields_no_finding() {
    let cond = not_is_empty(var("v", 7, 8), 6, 20);
    let body = block_body(vec![], 21, 23);
    assert!(check(&cond, &body, sp(0, 20)).is_none());
    // A body that is no block at all is not matched either.
    assert!(check(&cond, &var("v", 21, 22), sp(0, 20)).is_none());
}

#[test]
fn equality_ignores_spans() {
    let a = var("v", 7, 8);
    let b = var("v", 30, 31);
    assert!(eq_expr(&a, &b));
    let c = var("w", 7, 8);
    assert!(!eq_expr(&a, &c));
}

#[test]
fn equality_is_reflexive_and_symmetric() {
    let exprs = vec![
        var("v", 1, 2),
        Expr { kind: ExprKind::Lit { value: 7 }, span: sp(3, 4) },
        Expr {
            kind: ExprKind::Field { base: Box::new(var("s", 5, 6)), name: "buf".to_string() },
            span: sp(5, 10),
        },
        pop_then(CallIdentity::OptionUnwrap, vec![], var("v", 11, 12), 11, 30),
    ];
    for e in &exprs {
        assert!(eq_expr(e, e));
    }
    for x in &exprs {
        for y in &exprs {
            assert_eq!(eq_expr(x, y), eq_expr(y, x));
        }
    }
}

#[test]
fn equality_follows_field_chains() {
    let a = Expr {
        kind: ExprKind::Field { base: Box::new(var("s", 0, 1)), name: "buf".to_string() },
        span: sp(0, 5),
    };
    let same = Expr {
        kind: ExprKind::Field { base: Box::new(var("s", 20, 21)), name: "buf".to_string() },
        span: sp(20, 25),
    };
    let other_field = Expr {
        kind: ExprKind::Field { base: Box::new(var("s", 0, 1)), name: "aux".to_string() },
        span: sp(0, 5),
    };
    let other_base = Expr {
        kind: ExprKind::Field { base: Box::new(var("t", 0, 1)), name: "buf".to_string() },
        span: sp(0, 5),
    };
    assert!(eq_expr(&a, &same));
    assert!(!eq_expr(&a, &other_field));
    assert!(!eq_expr(&a, &other_base));
}

#[test]
fn matcher_goes_by_resolved_identity_not_name() {
    // A call spelled "pop" that resolves to something else does not match,
    // and a call spelled otherwise that resolves to the pop does.
    let misnamed = method_call("pop", Some(CallIdentity::Other), var("v", 0, 1), vec![], 0, 6);
    assert!(!match_method_call(&misnamed, CallIdentity::VecPop));
    let aliased = method_call("take_last", Some(CallIdentity::VecPop), var("v", 0, 1), vec![], 0, 12);
    assert!(match_method_call(&aliased, CallIdentity::VecPop));
}

#[test]
fn extract_pop_unwrap_returns_the_drained_array() {
    let e = pop_then(CallIdentity::OptionUnwrap, vec![], var("v", 4, 5), 4, 22);
    let recv = extract_pop_unwrap(&e).expect("a pop-then-unwrap must extract");
    assert_eq!(*recv, var("v", 4, 5));
    let bare = method_call("pop", Some(CallIdentity::VecPop), var("v", 0, 1), vec![], 0, 7);
    assert!(extract_pop_unwrap(&bare).is_none());
}

#[test]
fn receiver_comparison_guards_the_match() {
    let e = pop_then(CallIdentity::OptionUnwrap, vec![], var("b", 4, 5), 4, 22);
    assert!(is_vec_pop_unwrap(&e, &var("b", 40, 41)));
    assert!(!is_vec_pop_unwrap(&e, &var("a", 40, 41)));
}

#[test]
fn inline_argument_inside_method_call_is_found() {
    // while !v.is_empty() { sink.push(v.pop().unwrap()); }
    let cond = not_is_empty(var("v", 7, 8), 6, 20);
    let offending = pop_then(CallIdentity::OptionUnwrap, vec![], var("v", 32, 33), 32, 50);
    let call_stmt = Stmt {
        kind: StmtKind::Semi(method_call(
            "push",
            Some(CallIdentity::Other),
            var("sink", 22, 26),
            vec![offending],
            22,
            51,
        )),
        span: sp(22, 52),
    };
    let body = block_body(vec![call_stmt], 21, 54);
    let finding = check(&cond, &body, sp(0, 20)).expect("an offending method-call argument must be found");
    assert_eq!(finding.pop_span, sp(32, 50));
    assert!(matches!(finding.kind, PopStmt::Anonymous));
}

#[test]
fn trailing_expression_statement_is_inspected_too() {
    // while !v.is_empty() { process(v.pop().unwrap()) } — no semicolon.
    let cond = not_is_empty(var("v", 7, 8), 6, 20);
    let offending = pop_then(CallIdentity::OptionUnwrap, vec![], var("v", 30, 31), 30, 48);
    let call_stmt = Stmt {
        kind: StmtKind::Expr(Expr {
            kind: ExprKind::Call { callee: Box::new(var("process", 22, 29)), args: vec![offending] },
            span: sp(22, 49),
        }),
        span: sp(22, 49),
    };
    let body = block_body(vec![call_stmt], 21, 51);
    let finding = check(&cond, &body, sp(0, 20)).expect("a trailing expression statement must be inspected");
    assert_eq!(finding.pop_span, sp(30, 48));
}

#[test]
fn first_offending_argument_wins() {
    // process(w.pop().unwrap(), v.pop().unwrap(), v.pop().unwrap());
    let cond = not_is_empty(var("v", 7, 8), 6, 20);
    let other = pop_then(CallIdentity::OptionUnwrap, vec![], var("w", 30, 31), 30, 46);
    let first = pop_then(CallIdentity::OptionUnwrap, vec![], var("v", 48, 49), 48, 64);
    let second = pop_then(CallIdentity::OptionUnwrap, vec![], var("v", 66, 67), 66, 82);
    let call_stmt = Stmt {
        kind: StmtKind::Semi(Expr {
            kind: ExprKind::Call {
                callee: Box::new(var("process", 22, 29)),
                args: vec![other, first, second],
            },
            span: sp(22, 83),
        }),
        span: sp(22, 84),
    };
    let body = block_body(vec![call_stmt], 21, 86);
    let finding = check(&cond, &body, sp(0, 20)).expect("an offending argument must be found");
    assert_eq!(finding.pop_span, sp(48, 64));
}
