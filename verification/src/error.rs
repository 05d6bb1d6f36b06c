//! The failures a capture session can report.

use vstd::prelude::*;

verus! {

/// Every way in which discovering content, building a filter or running a
/// session can fail.
#[derive(Debug, Clone, PartialEq, Eq)]
pub enum Error {
    /// The content directory could not be queried: screen recording was not
    /// permitted, or the subsystem is not available.
    DirectoryUnavailable,
    /// A display index does not name a display of the snapshot.
    IndexOutOfRange,
    /// No stream could be allocated, for instance because the configuration
    /// is invalid.
    StreamCreationFailed,
    /// The start request was rejected; nothing was started.
    StartFailed(String),
    /// The stream failed after it had become active.
    StreamFatal(String),
}

impl Error {
    /// Whether this is `StartFailed` carrying exactly the text `reason`.
    pub open spec fn is_start_failed(self, reason: Seq<char>) -> bool {
        self matches Error::StartFailed(text) && text@ == reason
    }

    /// Tells "started, then died" apart from "nothing started": true exactly
    /// for `StreamFatal`, the one failure that strikes a running session.
    pub fn struck_running_session(&self) -> (struck: bool)
        ensures
            struck == (*self is StreamFatal),
    {
        match self {
            Error::StreamFatal(_) => true,
            _ => false,
        }
    }
}

} // verus!
