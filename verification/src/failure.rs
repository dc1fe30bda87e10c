//! The closed error taxonomy of the layered validator.
use vstd::prelude::*;

verus! {

/// Exactly one variant describes each failing evaluation; each carries its
/// diagnostic payload. The underlying cause of a failed read is discarded
/// on purpose when it is mapped to `ContentNotFound`.
#[derive(Debug)]
pub enum Failure {
    /// The underlying read failed.
    ContentNotFound,
    /// The content has fewer lines than the expected three; carries the count.
    ToFewLines(usize),
    /// The content has more lines than the expected three; carries the count.
    ToManyLines(usize),
    /// A line contains the forbidden text; carries the zero-based index of
    /// the first such line and that line's text.
    InvalidLine(usize, String),
}

} // verus!
