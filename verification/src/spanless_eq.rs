//! Structural equality of expressions, ignoring spans.
//!
//! Two expressions are semantically interchangeable for the detector exactly
//! when their shapes — the nodes with all source positions erased — are
//! equal. This is what confirms that the emptiness check in the loop
//! condition and the pop call in the loop body drain the *same* array.

use vstd::prelude::*;

use crate::ast::{Expr, ExprKind, Stmt, StmtKind, shape_of_exprs, shape_of_stmts,
    lemma_shape_of_exprs, lemma_shape_of_stmts};

verus! {

/// Two expressions are semantically interchangeable iff their shapes are
/// equal: same node kinds, same literal values, same names, same resolved
/// call identities, recursively — whatever their spans.
pub open spec fn spec_eq_expr(a: Expr, b: Expr) -> bool {
    a.shape() == b.shape()
}

/// Structural equality is reflexive: every expression equals itself.
pub proof fn lemma_eq_expr_reflexive(e: Expr)
    ensures
        spec_eq_expr(e, e),
{
}

/// Structural equality is symmetric.
pub proof fn lemma_eq_expr_symmetric(a: Expr, b: Expr)
    ensures
        spec_eq_expr(a, b) == spec_eq_expr(b, a),
{
}

/// Decides structural equality of two expressions.
pub fn eq_expr(a: &Expr, b: &Expr) -> (r: bool)
    ensures
        r == spec_eq_expr(*a, *b),
    decreases *a,
{
    match (&a.kind, &b.kind) {
        (ExprKind::Path { segments: sa }, ExprKind::Path { segments: sb }) => eq_segments(sa, sb),
        (ExprKind::Lit { value: va }, ExprKind::Lit { value: vb }) => *va == *vb,
        (
            ExprKind::Field { base: ba, name: na },
            ExprKind::Field { base: bb, name: nb },
        ) => {
            if *na == *nb {
                eq_expr(&**ba, &**bb)
            } else {
                false
            }
        },
        (
            ExprKind::Unary { op: oa, operand: ea },
            ExprKind::Unary { op: ob, operand: eb },
        ) => {
            if *oa == *ob {
                eq_expr(&**ea, &**eb)
            } else {
                false
            }
        },
        (
            ExprKind::MethodCall { method: ma, resolved: ra, receiver: rva, args: aa },
            ExprKind::MethodCall { method: mb, resolved: rb, receiver: rvb, args: ab },
        ) => {
            let resolved_eq = match (ra, rb) {
                (Some(ia), Some(ib)) => *ia == *ib,
                (None, None) => true,
                _ => false,
            };
            if resolved_eq && *ma == *mb {
                if eq_expr(&**rva, &**rvb) {
                    eq_exprs(aa, ab)
                } else {
                    false
                }
            } else {
                false
            }
        },
        (
            ExprKind::Call { callee: ca, args: aa },
            ExprKind::Call { callee: cb, args: ab },
        ) => {
            if eq_expr(&**ca, &**cb) {
                eq_exprs(aa, ab)
            } else {
                false
            }
        },
        (ExprKind::Block(ba), ExprKind::Block(bb)) => eq_stmts(&ba.stmts, &bb.stmts),
        _ => false,
    }
}

/// Decides structural equality of two statements.
pub fn eq_stmt(a: &Stmt, b: &Stmt) -> (r: bool)
    ensures
        r == (a.shape() == b.shape()),
    decreases *a,
{
    match (&a.kind, &b.kind) {
        (
            StmtKind::Local { pat: pa, init: ia },
            StmtKind::Local { pat: pb, init: ib },
        ) => {
            if pa.text == pb.text {
                match (ia, ib) {
                    (Some(ea), Some(eb)) => eq_expr(ea, eb),
                    (None, None) => true,
                    _ => false,
                }
            } else {
                false
            }
        },
        (StmtKind::Expr(ea), StmtKind::Expr(eb)) => eq_expr(ea, eb),
        (StmtKind::Semi(ea), StmtKind::Semi(eb)) => eq_expr(ea, eb),
        _ => false,
    }
}

/// Decides elementwise structural equality of two argument lists.
fn eq_exprs(a: &Vec<Expr>, b: &Vec<Expr>) -> (r: bool)
    ensures
        r == (shape_of_exprs(a@) == shape_of_exprs(b@)),
    decreases a@,
{
    proof {
        lemma_shape_of_exprs(a@);
        lemma_shape_of_exprs(b@);
    }
    if a.len() != b.len() {
        return false;
    }
    let mut i: usize = 0;
    while i < a.len()
        invariant
            a@.len() == b@.len(),
            i <= a@.len(),
            forall|j: int| 0 <= j < i ==> a@[j].shape() == b@[j].shape(),
        decreases a@.len() - i,
    {
        if !eq_expr(&a[i], &b[i]) {
            proof {
                lemma_shape_of_exprs(a@);
                lemma_shape_of_exprs(b@);
                assert(shape_of_exprs(a@)[i as int] == a@[i as int].shape());
                assert(shape_of_exprs(b@)[i as int] == b@[i as int].shape());
            }
            return false;
        }
        i += 1;
    }
    proof {
        lemma_shape_of_exprs(a@);
        lemma_shape_of_exprs(b@);
        assert(shape_of_exprs(a@) =~= shape_of_exprs(b@));
    }
    true
}

/// Decides elementwise structural equality of two statement lists.
fn eq_stmts(a: &Vec<Stmt>, b: &Vec<Stmt>) -> (r: bool)
    ensures
        r == (shape_of_stmts(a@) == shape_of_stmts(b@)),
    decreases a@,
{
    proof {
        lemma_shape_of_stmts(a@);
        lemma_shape_of_stmts(b@);
    }
    if a.len() != b.len() {
        return false;
    }
    let mut i: usize = 0;
    while i < a.len()
        invariant
            a@.len() == b@.len(),
            i <= a@.len(),
            forall|j: int| 0 <= j < i ==> a@[j].shape() == b@[j].shape(),
        decreases a@.len() - i,
    {
        if !eq_stmt(&a[i], &b[i]) {
            proof {
                lemma_shape_of_stmts(a@);
                lemma_shape_of_stmts(b@);
                assert(shape_of_stmts(a@)[i as int] == a@[i as int].shape());
                assert(shape_of_stmts(b@)[i as int] == b@[i as int].shape());
            }
            return false;
        }
        i += 1;
    }
    proof {
        lemma_shape_of_stmts(a@);
        lemma_shape_of_stmts(b@);
        assert(shape_of_stmts(a@) =~= shape_of_stmts(b@));
    }
    true
}

/// Decides elementwise equality of two path segment lists.
fn eq_segments(a: &Vec<String>, b: &Vec<String>) -> (r: bool)
    ensures
        r == (a.deep_view() == b.deep_view()),
{
    proof {
        assert(a.deep_view().len() == a@.len());
        assert(b.deep_view().len() == b@.len());
    }
    if a.len() != b.len() {
        return false;
    }
    let mut i: usize = 0;
    while i < a.len()
        invariant
            a@.len() == b@.len(),
            i <= a@.len(),
            forall|j: int| 0 <= j < i ==> a@[j]@ == b@[j]@,
        decreases a@.len() - i,
    {
        if !(a[i] == b[i]) {
            proof {
                assert(a.deep_view()[i as int] == a@[i as int]@);
                assert(b.deep_view()[i as int] == b@[i as int]@);
            }
            return false;
        }
        i += 1;
    }
    proof {
        assert(a.deep_view() =~= b.deep_view());
    }
    true
}

} // verus!
