//! What printing a document came to.
use vstd::prelude::*;

verus! {

/// What a print request came to.
#[derive(Clone, Copy, Debug, PartialEq, Eq, Structural)]
pub enum PrintOutcome {
    /// The print panel opened.
    Started,
    /// The user cancelled.
    Cancelled,
}

} // verus!
