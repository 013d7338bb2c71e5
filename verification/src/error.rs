//! Errors, and how a status code of the native service is read.

use vstd::prelude::*;

verus! {

/// Why an operation on a vsync handle failed.
#[derive(Debug, Clone, Copy, PartialEq, Eq, Structural)]
pub enum NativeVsyncError {
    /// An argument broke a rule that is checked before the native service is
    /// asked: the connection name is too long for a 32-bit length.
    InvalidArgs,
    /// The native service could not create a connection. Kept for callers
    /// that test a fresh handle for null themselves; nothing in this crate
    /// returns it.
    CreateFailed,
    /// The native service answered with this nonzero status code.
    RawErr(i32),
}

/// The meaning of a status code: zero is success, anything else is the error
/// code of the native service, handed on as it came.
pub open spec fn status_result(status: i32) -> Result<(), NativeVsyncError> {
    if status == 0 {
        Ok(())
    } else {
        Err(NativeVsyncError::RawErr(status))
    }
}

/// Reads the status code that a native call returned.
pub fn check_status(status: i32) -> (r: Result<(), NativeVsyncError>)
    ensures
        r == status_result(status),
{
    if status == 0 {
        Ok(())
    } else {
        Err(NativeVsyncError::RawErr(status))
    }
}

} // verus!
