//! Detects the idiom of draining a vector by looping on "not empty" and
//! popping-and-unwrapping the last element, and proposes the equivalent
//! `while let` rewrite.
//!
//! The host analysis pass hands the detector one loop at a time: the loop's
//! condition expression, its body, and the span of the loop header. Every
//! call expression in the tree carries the canonical identity that the host's
//! symbol resolver assigned to it (or none, when type information was
//! unavailable). The detector is a pure decision function: it either produces
//! a [`classify::Finding`] or nothing, and a separate builder turns a finding
//! into a pair of source edits.

pub mod ast;
pub mod spanless_eq;
pub mod matcher;
pub mod classify;
pub mod check;
pub mod suggest;
