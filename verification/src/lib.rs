//! Demonstrations of the error-handling idioms: unrecoverable termination,
//! recoverable results, a layered error taxonomy with explicit mapping, and
//! optional values that squash errors.
//!
//! The file system itself is outside this library: callers perform the opens
//! and reads and hand the outcomes in as plain values, and the library makes
//! every decision from those outcomes.
pub mod failure;
pub mod lines;
pub mod steps;
pub mod validate;
