//! What can go wrong between a command and its reply.

use vstd::prelude::*;

verus! {

/// The failures that a caller of the engine has to be ready for.
#[derive(Debug, Clone, Copy, PartialEq, Eq, Structural)]
pub enum RootError {
    /// A notification is shorter than the record it should hold.
    MalformedResponse,
    /// No reply came within the time allowed.
    Timeout,
    /// The link is down, or the robot lacks the characteristic to talk through.
    TransportUnavailable,
}

} // verus!
