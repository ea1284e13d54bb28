//! Turning a device call's return code into a result.

use crate::types::IoError;
use nix::errno::Errno;
use vstd::prelude::*;

verus! {

/// The class of the operating system's error number `code`, as
/// `classify_errno` finds it.
pub uninterp spec fn errno_kind(code: i32) -> IoError;

/// Classifies an error number. The body looks `code` up with
/// `nix::errno::Errno::from_i32` and maps the variant found: `ENOMEM` to
/// `ResourceExhausted`, `EINVAL` to `InvalidArgument`, `ENODEV` to
/// `NoDevice`, `EOPNOTSUPP` to `NotSupported`, every other one to `Other`.
/// None of this is verified. The contract claims only that the result
/// depends on `code` alone: it is `errno_kind(code)`.
#[verifier::external_body]
fn classify_errno(code: i32) -> (e: IoError)
    ensures
        e == errno_kind(code),
{
    match Errno::from_i32(code) {
        Errno::ENOMEM => IoError::ResourceExhausted,
        Errno::EINVAL => IoError::InvalidArgument,
        Errno::ENODEV => IoError::NoDevice,
        Errno::EOPNOTSUPP => IoError::NotSupported,
        _ => IoError::Other,
    }
}

/// What a return code of the device layer means: zero or more is
/// acceptance, a negative code is the negated error number of a rejection.
/// The one negative code without a positive counterpart is an unclassified
/// rejection.
pub open spec fn submit_result_of(rc: i32) -> Result<(), IoError> {
    if rc >= 0 {
        Ok(())
    } else if rc == i32::MIN {
        Err(IoError::Other)
    } else {
        Err(errno_kind((-rc) as i32))
    }
}

/// Interprets the return code of a submission to the device layer.
pub fn submit_result(rc: i32) -> (r: Result<(), IoError>)
    ensures
        r == submit_result_of(rc),
{
    if rc >= 0 {
        Ok(())
    } else if rc == i32::MIN {
        Err(IoError::Other)
    } else {
        Err(classify_errno(-rc))
    }
}

} // verus!
