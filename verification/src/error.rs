//! Errors of the editor.

use shrs_utils::Error;
use vstd::prelude::*;

verus! {

/// Why an editing step failed.
#[derive(Clone, Copy, Debug, PartialEq, Eq, Structural)]
pub enum LineError {
    /// A relative location fell outside the buffer.
    InvalidRelativeLocation(isize),
    /// An absolute location fell outside the buffer.
    InvalidAbsoluteLocation(usize),
    /// A deletion reached past the end of the buffer.
    DeletingTooMuch,
    /// The buffer would hold more characters than a signed index can count.
    BufferFull,
}

/// The editor's error for an error of the text buffer.
pub open spec fn spec_buffer_error(e: Error) -> LineError {
    match e {
        Error::InvalidRelativeLocation(d) => LineError::InvalidRelativeLocation(d),
        Error::InvalidAbsoluteLocation(i) => LineError::InvalidAbsoluteLocation(i),
        Error::DeletingTooMuch => LineError::DeletingTooMuch,
    }
}

impl LineError {
    /// Maps an error of the text buffer to the editor's own.
    pub fn from_buffer(e: Error) -> (r: LineError)
        ensures
            r == spec_buffer_error(e),
    {
        match e {
            Error::InvalidRelativeLocation(d) => LineError::InvalidRelativeLocation(d),
            Error::InvalidAbsoluteLocation(i) => LineError::InvalidAbsoluteLocation(i),
            Error::DeletingTooMuch => LineError::DeletingTooMuch,
        }
    }
}

} // verus!
