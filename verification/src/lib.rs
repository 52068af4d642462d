//! Core data-access layer for incrementally rendered, editable tabular views.
//!
//! The library provides: pure range clamping over a row sequence
//! ([`data_storage::get_vec_range_clamped`]), a storage contract for
//! range-bounded reads and identity-keyed writes together with a reference
//! in-memory backend using fail-fast locking ([`data_storage::MemoryStorage`]),
//! a sort state machine for column headers ([`sort`]), and a text round-trip
//! protocol for cell edits ([`cell_text`] and [`edit`]).

pub mod cell_text;
pub mod data_storage;
pub mod edit;
pub mod sort;
pub mod strftime;
