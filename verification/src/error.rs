//! Error reporting data: a description of what failed and where in the
//! source the failure was raised. Displaying and process exit belong to the
//! platform adapter; the library only carries the data.

use vstd::prelude::*;

verus! {

/// A fatal windowing error: what happened, and where it was raised.
#[derive(Debug, Clone)]
pub struct WindowError {
    pub details: String,
    pub origin: CallLocation,
}

/// A source location: which file, line and column raised an error.
#[derive(Debug, Clone)]
pub struct CallLocation {
    pub file: String,
    pub line: u32,
    pub column: u32,
}

impl CallLocation {
    /// Package a source position.
    pub fn new(file: String, line: u32, column: u32) -> (loc: CallLocation)
        ensures
            loc.file@ == file@,
            loc.line == line,
            loc.column == column,
    {
        CallLocation { file, line, column }
    }
}

impl WindowError {
    /// Package an error description with the location that raised it.
    pub fn new(details: String, origin: CallLocation) -> (e: WindowError)
        ensures
            e.details@ == details@,
            e.origin.file@ == origin.file@,
            e.origin.line == origin.line,
            e.origin.column == origin.column,
    {
        WindowError { details, origin }
    }
}

} // verus!
