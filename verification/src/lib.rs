//! A verified model of remote-reflection descriptor splicing.
//!
//! A locally declared *shadow* type, laid out exactly like a *foreign* type
//! owned by someone else, can lend the foreign type its reflection behaviour:
//! the dynamic-dispatch descriptor of the shadow is copied, and the few
//! entries that speak of identity — which type the value claims to be, which
//! downcasts succeed, and how the value converts into further dynamic views —
//! are replaced so that they describe the foreign type instead. Every other
//! entry keeps executing the shadow's own logic on the untouched data.
//!
//! This crate states and proves that transformation over a plain-data model
//! of the descriptor tables: which entries a spliced table holds, how a
//! spliced value answers identity queries, downcasts and field access, and
//! that the per-shadow-type descriptor cache is memoized.

pub mod cache;
pub mod descriptor;
pub mod splice;
pub mod value;
