//! The ways in which a listing fails.

use vstd::prelude::*;

verus! {

/// Why a listing could not be made. Every failure ends the run; what was
/// handed out before it stays valid.
#[derive(Clone, Copy, Debug, PartialEq, Eq, Structural)]
pub enum ScanError {
    /// An entry could not be read in full: its creation age is asked for
    /// and the entry has none.
    TraversalIo,
    /// The output could not be laid out for the sink.
    SinkIo,
    /// The regular expression of the path filter is malformed.
    BadPattern,
}

impl ScanError {
    /// A one-line description of the failure.
    pub fn message(&self) -> (text: &'static str)
        ensures
            text@ == match *self {
                ScanError::TraversalIo => "creation time is not available for an entry"@,
                ScanError::SinkIo => "the output could not be written"@,
                ScanError::BadPattern => "the regular expression is not valid"@,
            },
    {
        match self {
            ScanError::TraversalIo => "creation time is not available for an entry",
            ScanError::SinkIo => "the output could not be written",
            ScanError::BadPattern => "the regular expression is not valid",
        }
    }
}

} // verus!
