//! Allocation-pointer (AP) change analysis for a lowered function IR.
//!
//! For every compiled function the analysis produces a compact classification
//! of its aggregate effect on the allocation pointer: statically `Known`,
//! `Unknown`, or `NotImplemented`.  The analysis is demand-driven and
//! memoized; recursive queries that re-enter themselves through the call
//! graph are detected with an in-flight stack and resolved to a defined
//! fallback instead of recursing forever.

pub mod ap_change;
pub mod db;
pub mod ids;
pub mod ir;
pub mod kind;
