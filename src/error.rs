use vstd::prelude::*;

verus! {

/// Code carried by an error when a native text buffer is not well-formed UTF-8.
pub const TEXT_DECODE_FAILURE: i32 = -1;

/// Code carried by an error when a caller-supplied value has no native form
/// (a string with an embedded terminator, an integer too wide for the driver).
pub const INPUT_ENCODING_FAILURE: i32 = 0;

/// A failure reported by the driver, or detected while encoding values for it
/// or decoding its replies.
///
/// It keeps the raw native status code for diagnostics.
#[derive(Clone, Copy, Debug, PartialEq, Eq, Structural)]
pub struct Error {
    error: i32,
}

impl View for Error {
    type V = i32;

    /// The status code carried by the error.
    closed spec fn view(&self) -> i32 {
        self.error
    }
}

impl Error {
    pub fn new(error: i32) -> (r: Error)
        ensures
            r@ == error,
    {
        Error { error }
    }

    /// The status code carried by the error.
    pub fn code(&self) -> (r: i32)
        ensures
            r == self@,
    {
        self.error
    }
}

/// Whether `r` is what the native status `status` means: success for
/// zero, otherwise an error carrying the status.
pub open spec fn status_result(status: i32, r: Result<(), Error>) -> bool {
    if status == 0 {
        r is Ok
    } else {
        r matches Err(e) && e@ == status
    }
}

/// Interprets a native status code: zero is success, anything else is an
/// error that carries the code.
pub fn to_success(status: i32) -> (r: Result<(), Error>)
    ensures
        status_result(status, r),
{
    if status == 0 {
        Ok(())
    } else {
        Err(Error::new(status))
    }
}

} // verus!
