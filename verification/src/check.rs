//! The top-level check, one loop at a time.
//!
//! The loop's guard must be the logical negation of a call resolving to the
//! is-empty query; its receiver is the candidate array. The body must be a
//! block with at least one statement, and only that first statement is
//! classified. Every failing step yields "no finding", never an error.

use vstd::prelude::*;

use crate::ast::{CallIdentity, Expr, ExprKind, Span, UnOp};
use crate::classify::{
    classify_first_statement, lemma_classify_iff_matching_pop_unwrap, spec_classify,
    stmt_has_matching_pop_unwrap, Finding, FindingView,
};

verus! {

/// The receiver of the emptiness check when the loop guard has the shape
/// `!recv.is_empty()` by resolved identity; none otherwise.
pub open spec fn empty_check_receiver(full_cond: Expr) -> Option<Expr> {
    match full_cond.kind {
        ExprKind::Unary { op: UnOp::Not, operand } => match (*operand).kind {
            ExprKind::MethodCall { resolved, receiver, .. } => if resolved == Some(
                CallIdentity::VecIsEmpty,
            ) {
                Some(*receiver)
            } else {
                None
            },
            _ => None,
        },
        _ => None,
    }
}

/// The finding for a whole loop: the guard recognized as a negated
/// emptiness check, and the body's first statement classified against the
/// guard's receiver.
pub open spec fn spec_check(full_cond: Expr, body: Expr, loop_span: Span) -> Option<FindingView> {
    match empty_check_receiver(full_cond) {
        Some(recv) => match body.kind {
            ExprKind::Block(b) => if b.stmts@.len() > 0 {
                spec_classify(b.stmts@[0], recv, loop_span)
            } else {
                None
            },
            _ => None,
        },
        None => None,
    }
}

/// Checks one loop: `full_cond` is the loop's guard, `body` its body and
/// `loop_span` the span of the whole loop header to be replaced by the
/// suggested rewrite.
pub fn check(full_cond: &Expr, body: &Expr, loop_span: Span) -> (r: Option<Finding>)
    ensures
        r.deep_view() == spec_check(*full_cond, *body, loop_span),
{
    match &full_cond.kind {
        ExprKind::Unary { op: UnOp::Not, operand } => match &(**operand).kind {
            ExprKind::MethodCall {
                resolved: Some(CallIdentity::VecIsEmpty),
                receiver,
                ..
            } => match &body.kind {
                ExprKind::Block(b) => {
                    if b.stmts.len() > 0 {
                        classify_first_statement(&b.stmts[0], &**receiver, loop_span)
                    } else {
                        None
                    }
                },
                _ => None,
            },
            _ => None,
        },
        _ => None,
    }
}

/// A loop produces a finding exactly when its guard is a negated emptiness
/// check and the first statement of its block body pops-and-unwraps the
/// very array that guard checks. In particular a loop draining one array
/// while checking another never produces a finding.
pub proof fn lemma_check_iff_guarded_array_is_drained(
    full_cond: Expr,
    body: Expr,
    loop_span: Span,
)
    ensures
        spec_check(full_cond, body, loop_span) is Some <==> ({
            &&& empty_check_receiver(full_cond) is Some
            &&& body.kind matches ExprKind::Block(b) && b.stmts@.len() > 0
                && stmt_has_matching_pop_unwrap(
                b.stmts@[0],
                empty_check_receiver(full_cond)->Some_0,
            )
        }),
{
    match empty_check_receiver(full_cond) {
        Some(recv) => match body.kind {
            ExprKind::Block(b) => {
                if b.stmts@.len() > 0 {
                    lemma_classify_iff_matching_pop_unwrap(b.stmts@[0], recv, loop_span);
                }
            },
            _ => {},
        },
        None => {},
    }
}

/// Only the first statement of the loop body is ever inspected: two loops
/// with the same guard whose bodies agree on their first statement classify
/// identically, whatever follows that statement.
pub proof fn lemma_only_first_statement(
    full_cond: Expr,
    body1: Expr,
    body2: Expr,
    loop_span: Span,
)
    requires
        body1.kind matches ExprKind::Block(b1) && body2.kind matches ExprKind::Block(b2)
            && b1.stmts@.len() > 0 && b2.stmts@.len() > 0 && b1.stmts@[0] == b2.stmts@[0],
    ensures
        spec_check(full_cond, body1, loop_span) == spec_check(full_cond, body2, loop_span),
{
}

} // verus!
