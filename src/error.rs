use vstd::prelude::*;

verus! {

/// The failures that the coordination layer reports to its callers.
#[derive(Debug)]
pub enum ApiError {
    /// The queried resource is absent.
    NotFound(String),
    /// A graph node could not be decoded into the expected entity.
    Conversion(String),
    /// A graph, cache or feed round trip failed.
    Store(String),
    /// The caller's request cannot be turned into a statement.
    Validation(String),
    /// An invariant of the calling code was broken (no return column chosen, no row).
    Internal(String),
}

} // verus!
