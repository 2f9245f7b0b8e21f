//! Recognizing the "pop then unwrap" and "is-empty" call shapes.
//!
//! A call matches only through the canonical identity the host's resolver
//! assigned to it, never through its surface spelling. A call whose identity
//! is missing (type information was unavailable) matches nothing: the
//! detector fails closed.

use vstd::prelude::*;

use crate::ast::{CallIdentity, Expr, ExprKind, Span};
use crate::spanless_eq::{eq_expr, spec_eq_expr};

verus! {

/// `e` is a method call that the host's resolver bound to `id`.
pub open spec fn is_call_resolving_to(e: Expr, id: CallIdentity) -> bool {
    match e.kind {
        ExprKind::MethodCall { resolved, .. } => resolved == Some(id),
        _ => false,
    }
}

/// `e` is a forceful unwrap, or an unwrap-with-message, of the result of a
/// pop on a dynamically-sized array: `recv.pop().unwrap()` or
/// `recv.pop().expect(..)` up to surface spelling.
///
/// A bare pop without the unwrap is *not* matched: its optional result is
/// already handled safely.
pub open spec fn is_pop_unwrap(e: Expr) -> bool {
    &&& (is_call_resolving_to(e, CallIdentity::OptionUnwrap) || is_call_resolving_to(
        e,
        CallIdentity::OptionExpect,
    ))
    &&& match e.kind {
        ExprKind::MethodCall { receiver, .. } => is_call_resolving_to(
            *receiver,
            CallIdentity::VecPop,
        ),
        _ => false,
    }
}

/// The receiver of the pop call inside a pop-then-unwrap expression: the
/// array being drained.
pub open spec fn pop_receiver(e: Expr) -> Expr
    recommends
        is_pop_unwrap(e),
{
    match e.kind {
        ExprKind::MethodCall { receiver, .. } => match (*receiver).kind {
            ExprKind::MethodCall { receiver: pop_recv, .. } => *pop_recv,
            _ => e,
        },
        _ => e,
    }
}

/// `e` is a pop-then-unwrap whose popped array is structurally equal to
/// `is_empty_recv`, the receiver of the emptiness check in the loop
/// condition. This is the guard against a false positive where two
/// different arrays are involved.
pub open spec fn spec_is_vec_pop_unwrap(e: Expr, is_empty_recv: Expr) -> bool {
    is_pop_unwrap(e) && spec_eq_expr(pop_receiver(e), is_empty_recv)
}

/// Decides whether `expr` is a method call bound to `id`, failing closed
/// when the call is unresolved.
pub fn match_method_call(expr: &Expr, id: CallIdentity) -> (r: bool)
    ensures
        r == is_call_resolving_to(*expr, id),
{
    match &expr.kind {
        ExprKind::MethodCall { resolved: Some(res), .. } => *res == id,
        _ => false,
    }
}

/// Extracts the drained array from a pop-then-unwrap expression: returns the
/// pop's receiver iff `expr` is `recv.pop().unwrap()` or
/// `recv.pop().expect(..)` by resolved identity.
pub fn extract_pop_unwrap<'a>(expr: &'a Expr) -> (r: Option<&'a Expr>)
    ensures
        r is Some <==> is_pop_unwrap(*expr),
        r matches Some(recv) ==> *recv == pop_receiver(*expr),
{
    match &expr.kind {
        ExprKind::MethodCall { resolved: Some(res), receiver, .. } => {
            let is_unwrap = match res {
                CallIdentity::OptionUnwrap => true,
                CallIdentity::OptionExpect => true,
                _ => false,
            };
            if is_unwrap {
                match &(**receiver).kind {
                    ExprKind::MethodCall {
                        resolved: Some(CallIdentity::VecPop),
                        receiver: pop_recv,
                        ..
                    } => Some(&**pop_recv),
                    _ => None,
                }
            } else {
                None
            }
        },
        _ => None,
    }
}

/// Decides whether `expr` pops-and-unwraps the very array whose emptiness
/// the loop condition checks.
pub fn is_vec_pop_unwrap(expr: &Expr, is_empty_recv: &Expr) -> (r: bool)
    ensures
        r == spec_is_vec_pop_unwrap(*expr, *is_empty_recv),
{
    match extract_pop_unwrap(expr) {
        Some(pop_recv) => eq_expr(pop_recv, is_empty_recv),
        None => false,
    }
}

/// A forceful unwrap and an unwrap-with-message are recognized equivalently:
/// swapping one resolved identity for the other in the unwrapping call never
/// changes whether the pop-then-unwrap shape matches.
pub proof fn lemma_expect_like_unwrap(
    method_u: String,
    method_x: String,
    inner: Box<Expr>,
    args_u: Vec<Expr>,
    args_x: Vec<Expr>,
    span_u: Span,
    span_x: Span,
    is_empty_recv: Expr,
)
    ensures
        ({
            let u = Expr {
                kind: ExprKind::MethodCall {
                    method: method_u,
                    resolved: Some(CallIdentity::OptionUnwrap),
                    receiver: inner,
                    args: args_u,
                },
                span: span_u,
            };
            let x = Expr {
                kind: ExprKind::MethodCall {
                    method: method_x,
                    resolved: Some(CallIdentity::OptionExpect),
                    receiver: inner,
                    args: args_x,
                },
                span: span_x,
            };
            spec_is_vec_pop_unwrap(u, is_empty_recv) == spec_is_vec_pop_unwrap(
                x,
                is_empty_recv,
            )
        }),
{
}

} // verus!
