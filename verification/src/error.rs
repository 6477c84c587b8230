//! The failures that an operation on a display reports.

use vstd::prelude::*;

verus! {

/// Why an operation on a display was refused. A refused operation leaves the
/// display as it was.
#[derive(Clone, Copy, Debug, PartialEq, Eq, Structural)]
pub enum Error {
    /// The device has no memory, or no handle, left for what was asked.
    OutOfMemory,
    /// The frame engine is not in the state that the operation starts from:
    /// it is inside a frame or a resize, or the display was closed or lost.
    NotReady,
}

impl Error {
    /// The diagnostic for this failure, as text.
    pub open spec fn text(self) -> Seq<char> {
        match self {
            Error::OutOfMemory => "Out of device memory"@,
            Error::NotReady => "The display is not ready"@,
        }
    }

    /// The diagnostic for this failure.
    pub fn message(&self) -> (text: String)
        ensures
            text@ == self.text(),
    {
        match self {
            Error::OutOfMemory => "Out of device memory".to_owned(),
            Error::NotReady => "The display is not ready".to_owned(),
        }
    }
}

} // verus!
