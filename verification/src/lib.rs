//! A verified "open, then verify through the handle" primitive.
//!
//! On platforms whose native open call resolves paths as strings and follows
//! symlinks transparently, a sandboxing layer must open first and only then
//! decide, from the open handle's own metadata, whether the object it got is
//! acceptable. This crate holds the decision logic of that primitive: option
//! translation, error classification, and the open/verify/truncate state
//! machine. The native calls themselves (open, metadata query, truncate) are
//! performed by an unverified driver that feeds their outcomes back in as
//! events.

pub mod engine;
pub mod errors;
pub mod native;
pub mod options;
pub mod translate;
