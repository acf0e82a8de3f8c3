//! The error kinds a planning run can surface. None is retried
//! within the library; retrying is the caller's decision, by
//! re-invoking the whole planning operation.
use vstd::prelude::*;

use crate::cache::FetchError;

verus! {

/// Why a planning run produced no placement rectangle.
#[derive(Clone, Copy, PartialEq, Eq, Structural, Debug)]
pub enum PlanError {
    /// A collaborator query failed and could not be recovered from by
    /// excluding the offending output.
    Fetch(FetchError),
    /// No display's frame overlaps the window's frame.
    NoContainingDisplay,
    /// No display lies in the requested direction from the current
    /// one.
    NoDisplayInDirection,
    /// The destination collaborator cannot perform the requested
    /// move, e.g. the window manager does not support placement
    /// requests.
    UnsupportedBySink,
}

} // verus!
