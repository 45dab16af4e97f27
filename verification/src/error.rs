//! Why a handle could not be constructed.
use vstd::prelude::*;

verus! {

/// The reason for which constructing a handle is refused.
#[derive(Clone, Copy, Debug, PartialEq, Eq, Structural)]
pub enum SessionError {
    /// The session holds no mount token: it was never mounted, or the token
    /// was taken from it before.
    NoActiveMount,
}

/// Reads `libc::ENODEV`, the code by which the operating system reports that
/// there is no such device. Its value is the target's own; `libc` gives it a
/// value other than zero on every target it knows, and no more is claimed.
#[verifier::external_body]
fn no_device_code() -> (code: i32)
    ensures
        code != 0,
{
    libc::ENODEV
}

impl SessionError {
    /// The code of the operating system that stands for this error: for a
    /// session without an active mount, that of a device that is not there.
    /// Zero, which stands for success, is never returned.
    pub fn raw_os_error(&self) -> (code: i32)
        ensures
            code != 0,
    {
        match self {
            SessionError::NoActiveMount => no_device_code(),
        }
    }
}

} // verus!
