//! The single error type the dispatch core reports to callers.
//!
//! Handlers raise a `VadeError` to signal a hard failure; the dispatcher
//! either wraps that detail (collect-all aggregation) or replaces it with a
//! fresh generic message (all other policies), so callers always see one
//! error shape.

use vstd::prelude::*;

verus! {

/// An error raised by a handler operation or by the dispatcher itself when an
/// aggregation policy's success condition is unmet.
#[derive(Debug)]
pub struct VadeError {
    /// Human-readable description of the failure.
    pub message: String,
}

impl VadeError {
    /// Builds an error carrying the given message.
    pub fn new(message: &str) -> (e: VadeError)
        ensures
            e.message@ == message@,
    {
        VadeError { message: message.to_owned() }
    }

    /// Returns a copy of the error's message.
    pub fn message(&self) -> (m: String)
        ensures
            m@ == self.message@,
    {
        self.message.clone()
    }
}

/// Result alias used by handlers and by every dispatch entry point.
pub type VadeResult<T> = Result<T, VadeError>;

} // verus!
