//! A catalog of test requirements, a small set-algebra DSL that selects
//! requirements from it, a cross-product expander over named permutation
//! variables, a builder that materializes concrete test cases, and a
//! reconciliation matcher that classifies locally derived issues against a
//! snapshot of a remote issue tracker.

pub mod builder;
pub mod catalog;
pub mod expand;
pub mod filter;
pub mod reconcile;
pub mod selection;
pub mod types;
