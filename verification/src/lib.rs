//! Best-effort typed link traversal over a content-addressed store.
//!
//! Given the outcome of a bulk link fetch against an external link index,
//! the loader decodes each fetched entry into a caller-chosen typed value
//! and returns only the entries that both exist and decode successfully,
//! each paired with the content address of the entry it came from. A
//! failure of the bulk fetch itself is surfaced as a systemic error;
//! failures of individual items are dropped silently.

pub mod convert;
pub mod entry;
pub mod filter;
pub mod loader;
