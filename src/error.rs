//! The ways in which discovering or repositioning a window can fail.
use vstd::prelude::*;

verus! {

#[derive(Debug, Clone, Copy, PartialEq, Eq, Structural)]
pub enum WindowError {
    /// The handle is null or does not refer to a live window.
    InvalidHandle,
    /// A geometry or monitor query failed, or returned an unusable rectangle.
    LookupFailure,
    /// The window was excluded by one of the filters; not a fault.
    FilteredOut,
    /// The enumeration of windows itself failed.
    EnumerationFailure,
    /// The reposition command could not be issued or was rejected.
    RepositionFailure,
}

} // verus!
