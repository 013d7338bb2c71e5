//! The length check on a connection name.
//!
//! The native service takes the name as a pointer and a 32-bit length. A
//! name that is longer than such a length can say is refused here, before
//! the service is asked.

use vstd::prelude::*;

use crate::error::NativeVsyncError;

verus! {

/// The length argument of the native create call for a name of `len` bytes,
/// or `InvalidArgs` where no 32-bit length can say `len`.
pub open spec fn name_len_result(len: usize) -> Result<u32, NativeVsyncError> {
    if len <= u32::MAX {
        Ok(len as u32)
    } else {
        Err(NativeVsyncError::InvalidArgs)
    }
}

/// Turns the length of a name in bytes into the length argument of the
/// native create call.
pub fn checked_name_len(len: usize) -> (r: Result<u32, NativeVsyncError>)
    ensures
        r == name_len_result(len),
{
    if len <= u32::MAX as usize {
        Ok(len as u32)
    } else {
        Err(NativeVsyncError::InvalidArgs)
    }
}

/// The length argument of the native create call for `name`: its length in
/// bytes. Without an `Ok` from here the driver has no length to pass, and
/// so makes no call.
pub fn name_len(name: &str) -> (r: Result<u32, NativeVsyncError>)
    ensures
        r == name_len_result(name.len()),
{
    checked_name_len(name.len())
}

} // verus!
