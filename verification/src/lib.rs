//! Records-management core: unique identifier allocation and record
//! registration for patients and doctors, with diagnosis-report attachment
//! and lookups by identifier or name.
//!
//! The `RecordStore` models the durable document store: it owns the per-kind
//! monotonic counters and the record collections, and enforces identifier
//! uniqueness itself. The registration coordinator allocates an identifier,
//! builds the entity document and inserts it, favouring identifier gaps over
//! identifier reuse when a step fails.

pub mod errors;
pub mod laws;
pub mod login;
pub mod models;
pub mod response;
pub mod normalize;
pub mod registry;
pub mod store;
