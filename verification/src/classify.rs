//! Classifying the first statement of the loop body.
//!
//! Only the first statement is ever inspected: that bounds the check to the
//! common, clearly intentional idiom and avoids false positives from
//! incidental pop/unwrap calls deeper in the loop body.

use vstd::prelude::*;

use crate::ast::{Expr, ExprKind, Pat, Span, Stmt, StmtKind};
use crate::matcher::{is_vec_pop_unwrap, spec_is_vec_pop_unwrap};

verus! {

/// The kind of statement that the pop call appeared in.
///
/// It decides what pattern the suggested rewrite binds.
#[derive(PartialEq, Debug)]
pub enum PopStmt {
    /// The popped value was assigned to a local variable. The pattern of
    /// that local is reused in the rewrite and the whole local statement is
    /// deleted.
    Local(Pat),
    /// The popped value appeared as an argument inside another call. The
    /// rewrite binds a placeholder identifier and replaces the argument by
    /// that same identifier.
    Anonymous,
}

/// One detected occurrence of the antipattern: enough to render a
/// diagnostic and a suggested fix.
///
/// It is only constructed when the receiver of the emptiness check in the
/// loop condition and the receiver of the pop call are structurally equal.
#[derive(PartialEq, Debug)]
pub struct Finding {
    /// The span of the offending pop/unwrap statement or argument.
    pub pop_span: Span,
    /// Which statement kind the pop appeared in.
    pub kind: PopStmt,
    /// The span of the whole loop header.
    pub loop_span: Span,
    /// The span of the receiver of the emptiness check.
    pub receiver_span: Span,
}

/// The mathematical content of a [`PopStmt`]: the pattern as text.
pub enum PopStmtView {
    Local { pat_text: Seq<char>, pat_span: Span },
    Anonymous,
}

/// The mathematical content of a [`Finding`].
pub struct FindingView {
    pub pop_span: Span,
    pub kind: PopStmtView,
    pub loop_span: Span,
    pub receiver_span: Span,
}

impl View for PopStmt {
    type V = PopStmtView;

    open spec fn view(&self) -> PopStmtView {
        match self {
            PopStmt::Local(p) => PopStmtView::Local { pat_text: p.text@, pat_span: p.span },
            PopStmt::Anonymous => PopStmtView::Anonymous,
        }
    }
}

impl DeepView for PopStmt {
    type V = PopStmtView;

    open spec fn deep_view(&self) -> PopStmtView {
        self.view()
    }
}

impl View for Finding {
    type V = FindingView;

    open spec fn view(&self) -> FindingView {
        FindingView {
            pop_span: self.pop_span,
            kind: self.kind@,
            loop_span: self.loop_span,
            receiver_span: self.receiver_span,
        }
    }
}

impl DeepView for Finding {
    type V = FindingView;

    open spec fn deep_view(&self) -> FindingView {
        self.view()
    }
}

/// The finding for a local-binding statement `let pat = init;` whose
/// initializer pops-and-unwraps the checked array; none otherwise.
pub open spec fn spec_check_local(stmt: Stmt, is_empty_recv: Expr, loop_span: Span) -> Option<
    FindingView,
> {
    match stmt.kind {
        StmtKind::Local { pat, init } => match init {
            Some(init) => if spec_is_vec_pop_unwrap(init, is_empty_recv) {
                Some(
                    FindingView {
                        pop_span: stmt.span,
                        kind: PopStmtView::Local { pat_text: pat.text@, pat_span: pat.span },
                        loop_span,
                        receiver_span: is_empty_recv.span,
                    },
                )
            } else {
                None
            },
            None => None,
        },
        _ => None,
    }
}

/// The argument list of a bare call statement; none for any other
/// statement.
pub open spec fn stmt_call_args(stmt: Stmt) -> Option<Seq<Expr>> {
    match stmt.kind {
        StmtKind::Expr(e) | StmtKind::Semi(e) => match e.kind {
            ExprKind::MethodCall { args, .. } => Some(args@),
            ExprKind::Call { args, .. } => Some(args@),
            _ => None,
        },
        _ => None,
    }
}

/// The index of the first argument at or after `i` that pops-and-unwraps
/// the checked array; none when no argument from `i` on does.
pub open spec fn first_offending_arg(args: Seq<Expr>, is_empty_recv: Expr, i: int) -> Option<int>
    decreases args.len() - i,
{
    if i < 0 || i >= args.len() {
        None
    } else if spec_is_vec_pop_unwrap(args[i], is_empty_recv) {
        Some(i)
    } else {
        first_offending_arg(args, is_empty_recv, i + 1)
    }
}

/// The finding for a bare call statement one of whose arguments
/// pops-and-unwraps the checked array; the first such argument wins.
pub open spec fn spec_check_call_arguments(
    stmt: Stmt,
    is_empty_recv: Expr,
    loop_span: Span,
) -> Option<FindingView> {
    match stmt_call_args(stmt) {
        Some(args) => match first_offending_arg(args, is_empty_recv, 0) {
            Some(i) => Some(
                FindingView {
                    pop_span: args[i].span,
                    kind: PopStmtView::Anonymous,
                    loop_span,
                    receiver_span: is_empty_recv.span,
                },
            ),
            None => None,
        },
        None => None,
    }
}

/// The classification of the loop body's first statement: a local-binding
/// pop-unwrap, an inline pop-unwrap argument, or nothing.
pub open spec fn spec_classify(stmt: Stmt, is_empty_recv: Expr, loop_span: Span) -> Option<
    FindingView,
> {
    match stmt.kind {
        StmtKind::Local { .. } => spec_check_local(stmt, is_empty_recv, loop_span),
        _ => spec_check_call_arguments(stmt, is_empty_recv, loop_span),
    }
}

/// Reports the antipattern when `stmt` is a local binding whose initializer
/// pops-and-unwraps the array checked by the loop condition.
pub fn check_local(stmt: &Stmt, is_empty_recv: &Expr, loop_span: Span) -> (r: Option<Finding>)
    ensures
        r.deep_view() == spec_check_local(*stmt, *is_empty_recv, loop_span),
{
    match &stmt.kind {
        StmtKind::Local { pat, init: Some(init) } => {
            if is_vec_pop_unwrap(init, is_empty_recv) {
                Some(
                    Finding {
                        pop_span: stmt.span,
                        kind: PopStmt::Local(Pat { text: pat.text.clone(), span: pat.span }),
                        loop_span,
                        receiver_span: is_empty_recv.span,
                    },
                )
            } else {
                None
            }
        },
        _ => None,
    }
}

/// Reports the antipattern when `stmt` is a bare call statement one of
/// whose arguments pops-and-unwraps the array checked by the loop
/// condition. The first offending argument is reported.
pub fn check_call_arguments(stmt: &Stmt, is_empty_recv: &Expr, loop_span: Span) -> (r: Option<
    Finding,
>)
    ensures
        r.deep_view() == spec_check_call_arguments(*stmt, *is_empty_recv, loop_span),
{
    match &stmt.kind {
        StmtKind::Expr(expr) | StmtKind::Semi(expr) => {
            match &expr.kind {
                ExprKind::MethodCall { args, .. } | ExprKind::Call { args, .. } => {
                    let mut i: usize = 0;
                    while i < args.len()
                        invariant
                            i <= args@.len(),
                            stmt_call_args(*stmt) == Some(args@),
                            first_offending_arg(args@, *is_empty_recv, 0)
                                == first_offending_arg(args@, *is_empty_recv, i as int),
                        decreases args@.len() - i,
                    {
                        if is_vec_pop_unwrap(&args[i], is_empty_recv) {
                            proof {
                                assert(first_offending_arg(args@, *is_empty_recv, i as int)
                                    == Some(i as int));
                            }
                            return Some(
                                Finding {
                                    pop_span: args[i].span,
                                    kind: PopStmt::Anonymous,
                                    loop_span,
                                    receiver_span: is_empty_recv.span,
                                },
                            );
                        }
                        i += 1;
                    }
                    None
                },
                _ => None,
            }
        },
        _ => None,
    }
}

/// The body's first statement holds a pop-then-unwrap of the checked array,
/// in either of the two recognized positions: as the initializer of a local
/// binding, or as an argument of a bare call statement.
pub open spec fn stmt_has_matching_pop_unwrap(stmt: Stmt, is_empty_recv: Expr) -> bool {
    match stmt.kind {
        StmtKind::Local { init, .. } => match init {
            Some(init) => spec_is_vec_pop_unwrap(init, is_empty_recv),
            None => false,
        },
        _ => match stmt_call_args(stmt) {
            Some(args) => exists|j: int|
                0 <= j < args.len() && spec_is_vec_pop_unwrap(args[j], is_empty_recv),
            None => false,
        },
    }
}

/// The first-match search is sound and complete: it finds an index iff one
/// matches at all, the index it finds matches, and nothing before it does.
pub proof fn lemma_first_offending_arg(args: Seq<Expr>, is_empty_recv: Expr, i: int)
    requires
        0 <= i <= args.len(),
    ensures
        first_offending_arg(args, is_empty_recv, i) is Some <==> exists|j: int|
            i <= j < args.len() && spec_is_vec_pop_unwrap(args[j], is_empty_recv),
        first_offending_arg(args, is_empty_recv, i) matches Some(j) ==> i <= j < args.len()
            && spec_is_vec_pop_unwrap(args[j], is_empty_recv) && (forall|k: int|
            i <= k < j ==> !spec_is_vec_pop_unwrap(args[k], is_empty_recv)),
    decreases args.len() - i,
{
    if i < args.len() && !spec_is_vec_pop_unwrap(args[i], is_empty_recv) {
        lemma_first_offending_arg(args, is_empty_recv, i + 1);
    }
}

/// No false positive on mismatched receivers, and no missed detection in
/// the first statement: classification yields a finding exactly when the
/// first statement pops-and-unwraps the very array the guard checks.
pub proof fn lemma_classify_iff_matching_pop_unwrap(
    stmt: Stmt,
    is_empty_recv: Expr,
    loop_span: Span,
)
    ensures
        spec_classify(stmt, is_empty_recv, loop_span) is Some <==> stmt_has_matching_pop_unwrap(
            stmt,
            is_empty_recv,
        ),
{
    match stmt_call_args(stmt) {
        Some(args) => lemma_first_offending_arg(args, is_empty_recv, 0),
        None => {},
    }
}

/// Classifies the first statement of the loop body against the receiver of
/// the emptiness check, as one of: local-binding pop-unwrap, inline
/// pop-unwrap argument, or no finding.
pub fn classify_first_statement(stmt: &Stmt, empty_check_receiver: &Expr, loop_span: Span) -> (r:
    Option<Finding>)
    ensures
        r.deep_view() == spec_classify(*stmt, *empty_check_receiver, loop_span),
{
    match check_local(stmt, empty_check_receiver, loop_span) {
        Some(finding) => Some(finding),
        None => check_call_arguments(stmt, empty_check_receiver, loop_span),
    }
}

} // verus!
