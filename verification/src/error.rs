//! The library's error type.
//!
//! Each variant is a distinct failure condition surfaced to the caller;
//! none is ever silently coerced into another. Transport failures of the
//! remote provider are not modelled here: the unverified driver
//! propagates them directly.

use vstd::prelude::*;

use crate::turn::RunStatus;

verus! {

/// A failure condition of the agent core.
#[derive(Debug, PartialEq, Eq)]
pub enum Error {
    /// A persisted conversation references a thread that no longer
    /// resolves remotely; carries the raw thread identifier.
    CannotFindThreadIdForConv(String),
    /// Bundle cleanup was asked to delete a path outside the agent's own
    /// data directory; carries the offending path. Never ignored.
    ShouldNotDeleteLocalFile(String),
    /// A run ended in a terminal status other than completed; carries the
    /// raw status.
    RunError(RunStatus),
    /// The thread has no messages at all after a completed run.
    NoMessageFoundInMessages,
    /// The newest message carries no content items.
    NoMessageInMessageObjectContent,
    /// The newest message's content is an image; only text replies are
    /// supported.
    MessageImageNotSupported,
}

} // verus!
