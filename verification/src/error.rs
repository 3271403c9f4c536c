//! The failures a session can surface.

use vstd::prelude::*;

verus! {

/// Why session construction was abandoned, or why a transfer on an established
/// session failed.
#[derive(Clone, Copy, Debug, PartialEq, Eq, Structural)]
pub enum SessionError {
    /// The operating system could not allocate a pipe.
    ResourceExhausted,
    /// The pseudo-console device was not created.
    DeviceCreationFailed,
    /// The attribute list could not be sized, initialised or filled.
    AttributeListInitFailed,
    /// Process creation failed; carries the last error code of the operating
    /// system.
    ProcessSpawnFailed(u32),
    /// A read or write met a closed or broken pipe.
    IoFailure,
}

/// The fatal outcome of a failed process creation: construction stops with
/// this error, which carries the last error code that the operating system
/// reported.
pub fn panic_shell_spawn(os_error: u32) -> (error: SessionError)
    ensures
        error == SessionError::ProcessSpawnFailed(os_error),
{
    SessionError::ProcessSpawnFailed(os_error)
}

} // verus!
