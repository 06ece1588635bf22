//! A small read-oriented record store front: medications and dosage entries,
//! fetched through one shared filtered-fetch mechanism that decodes rows,
//! drops the ones that fail validation, and truncates to a requested count.

use vstd::prelude::*;

pub mod config;
pub mod decimal;
pub mod diag;
pub mod entry;
pub mod fetch;
pub mod ident;
pub mod laws;
pub mod med;
pub mod plan;
pub mod timestamp;

verus! {

/// Number of records a fetch returns at most when the caller names no count.
pub const DEFAULT_LIMIT: usize = 100;

} // verus!

