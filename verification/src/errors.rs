//! The conditions on which a fallible shape edit is rejected.

use vstd::prelude::*;

verus! {

/// Why a shape edit was rejected. Every failure is reported to the caller;
/// none aborts the process.
#[derive(Debug, Clone, Copy, PartialEq, Eq, Structural)]
pub enum ShapeError {
    /// The edit targets the last fill or stroke, but the list is empty.
    PreconditionMissing,
    /// The targeted fill or stroke exists but is not a gradient, and a
    /// gradient-only edit was requested.
    WrongVariant,
    /// A geometry buffer could not be parsed into valid segment records.
    MalformedInput,
}

} // verus!
