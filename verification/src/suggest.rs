//! Composing the suggested rewrite for a finding.
//!
//! The rewrite is a pair of edits applied together: the loop header becomes
//! `while let Some(<binding>) = <receiver>.pop()`, and the offending pop
//! statement or argument is deleted or replaced by the placeholder binding.
//! Applying one edit without the other yields invalid code, so the pair is
//! one atomic multi-location suggestion; a validator confirms the edited
//! spans are disjoint before the pair is handed to the renderer.

use vstd::prelude::*;
use vstd::string::StringExecFns;

use crate::ast::Span;
use crate::classify::{Finding, PopStmt, PopStmtView};

verus! {

/// One source edit: replace the text at `span` by `text`.
#[derive(PartialEq, Debug)]
pub struct Edit {
    pub span: Span,
    pub text: String,
}

/// The name the rewritten loop header binds: the local's own pattern when
/// the popped value was assigned to a local, the placeholder identifier
/// otherwise.
pub open spec fn spec_binding_text(kind: PopStmtView) -> Seq<char> {
    match kind {
        PopStmtView::Local { pat_text, .. } => pat_text,
        PopStmtView::Anonymous => "element"@,
    }
}

/// The replacement for the offending pop span: empty (the whole local
/// statement is deleted) or the placeholder identifier (the argument is
/// replaced in place).
pub open spec fn spec_pop_replacement(kind: PopStmtView) -> Seq<char> {
    match kind {
        PopStmtView::Local { .. } => Seq::empty(),
        PopStmtView::Anonymous => "element"@,
    }
}

/// The replacement for the loop header.
pub open spec fn spec_loop_replacement(kind: PopStmtView, receiver_snippet: Seq<char>) -> Seq<
    char,
> {
    "while let Some("@ + spec_binding_text(kind) + ") = "@ + receiver_snippet + ".pop()"@
}

/// Two spans cover disjoint source regions.
pub open spec fn spans_disjoint(a: Span, b: Span) -> bool {
    a.hi <= b.lo || b.hi <= a.lo
}

/// Builds the two-edit rewrite for a finding. `receiver_snippet` is the
/// source text of the receiver expression, read off the host's source map
/// at the finding's receiver span.
pub fn build_suggestion(finding: &Finding, receiver_snippet: &str) -> (edits: Vec<Edit>)
    ensures
        edits@.len() == 2,
        edits@[0].span == finding.loop_span,
        edits@[0].text@ == spec_loop_replacement(finding@.kind, receiver_snippet@),
        edits@[1].span == finding.pop_span,
        edits@[1].text@ == spec_pop_replacement(finding@.kind),
{
    let binding: String;
    let pop_replacement: String;
    match &finding.kind {
        PopStmt::Local(p) => {
            binding = p.text.clone();
            pop_replacement = String::new();
        },
        PopStmt::Anonymous => {
            binding = "element".to_owned();
            pop_replacement = "element".to_owned();
        },
    }
    let mut loop_replacement: String = "while let Some(".to_owned();
    loop_replacement.append(binding.as_str());
    loop_replacement.append(") = ");
    loop_replacement.append(receiver_snippet);
    loop_replacement.append(".pop()");
    proof {
        assert(loop_replacement@ =~= spec_loop_replacement(finding@.kind, receiver_snippet@));
        assert(pop_replacement@ =~= spec_pop_replacement(finding@.kind));
    }
    let mut edits: Vec<Edit> = Vec::new();
    edits.push(Edit { span: finding.loop_span, text: loop_replacement });
    edits.push(Edit { span: finding.pop_span, text: pop_replacement });
    edits
}

/// Decides whether the edits touch pairwise disjoint spans, as the edits of
/// one atomic multi-location suggestion must.
pub fn edits_non_overlapping(edits: &Vec<Edit>) -> (r: bool)
    ensures
        r == (forall|p: int, q: int|
            0 <= p < q < edits@.len() ==> spans_disjoint(edits@[p].span, edits@[q].span)),
{
    let mut i: usize = 0;
    while i < edits.len()
        invariant
            i <= edits@.len(),
            forall|p: int, q: int|
                0 <= p < q < edits@.len() && p < i ==> spans_disjoint(
                    edits@[p].span,
                    edits@[q].span,
                ),
        decreases edits@.len() - i,
    {
        let mut j: usize = i + 1;
        while j < edits.len()
            invariant
                i < j <= edits@.len() || (j == i + 1 && j >= edits@.len()),
                i < edits@.len(),
                forall|q: int| i < q < j ==> spans_disjoint(edits@[i as int].span, edits@[q].span),
            decreases edits@.len() - j,
        {
            let a = edits[i].span;
            let b = edits[j].span;
            if !(a.hi <= b.lo || b.hi <= a.lo) {
                proof {
                    assert(!spans_disjoint(edits@[i as int].span, edits@[j as int].span));
                }
                return false;
            }
            j += 1;
        }
        i += 1;
    }
    true
}

/// The diagnostic message that accompanies a finding.
pub fn lint_message() -> (m: &'static str)
    ensures
        m@ == "you seem to be trying to pop elements from a `Vec` in a loop"@,
{
    "you seem to be trying to pop elements from a `Vec` in a loop"
}

/// The label shown with the suggested rewrite.
pub fn suggestion_label() -> (m: &'static str)
    ensures
        m@ == "consider using a `while..let` loop"@,
{
    "consider using a `while..let` loop"
}

} // verus!
