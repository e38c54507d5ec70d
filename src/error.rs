//! Errors of the capture session.
use vstd::prelude::*;

verus! {

/// The kernel's "invalid argument" error number, with which a driver answers a query
/// that does not apply (an index past the end of a list, an unknown control).
pub const EINVAL: i32 = 22;

/// The kernel's "input/output error" number, for a driver answer that makes no sense (a
/// range whose minimum passes its maximum, a frame longer than its buffer).
pub const EIO: i32 = 5;

#[derive(Debug, Clone, Copy, PartialEq, Eq, Structural)]
pub enum Error {
    /// I/O error when using the camera, with the operating system's error number.
    Io(i32),
    /// Unsupported frame interval.
    BadInterval,
    /// Unsupported resolution (width and/or height).
    BadResolution,
    /// Unsupported format of pixels.
    BadFormat,
    /// Unsupported field.
    BadField,
}

impl Error {
    /// A short description of the error.
    pub fn description(&self) -> (r: &'static str)
        ensures
            self is Io ==> r@ == "I/O error"@,
            self is BadInterval ==> r@ == "bad interval"@,
            self is BadResolution ==> r@ == "bad resolution"@,
            self is BadFormat ==> r@ == "bad format"@,
            self is BadField ==> r@ == "bad field"@,
    {
        match self {
            Error::Io(_) => "I/O error",
            Error::BadInterval => "bad interval",
            Error::BadResolution => "bad resolution",
            Error::BadFormat => "bad format",
            Error::BadField => "bad field",
        }
    }
}

pub type Result<T> = core::result::Result<T, Error>;

/// What a query's outcome means for a walk over an indexed list: `Ok(true)` when the
/// driver answered, `Ok(false)` when the index does not apply, the error number otherwise.
pub fn xioctl_valid(outcome: core::result::Result<(), i32>) -> (r: core::result::Result<bool, i32>)
    ensures
        outcome is Ok ==> r == Ok::<bool, i32>(true),
        outcome == Err::<(), i32>(EINVAL) ==> r == Ok::<bool, i32>(false),
        outcome is Err && outcome->Err_0 != EINVAL ==> r == Err::<bool, i32>(outcome->Err_0),
{
    match outcome {
        Ok(()) => Ok(true),
        Err(e) => if e == EINVAL {
            Ok(false)
        } else {
            Err(e)
        },
    }
}

} // verus!
