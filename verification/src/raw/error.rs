//! The portable error, and the reading of a system call's return value.
use vstd::prelude::*;

verus! {

/// Why an operation failed.
#[derive(Clone, Copy, Debug, PartialEq, Eq, Structural)]
pub enum Error {
    /// The OS reported a failure. Holds the OS's error code for it.
    Os(i32),
    /// A native address whose family tag is neither IPv4 nor IPv6.
    InvalidAddrType,
    /// A native address whose reported length is shorter than the structure
    /// that its family tag names.
    ShortAddr,
}

impl Error {
    /// The OS's error code, where the OS reported the failure.
    pub open spec fn spec_raw_os_error(&self) -> Option<i32> {
        match *self {
            Error::Os(code) => Some(code),
            _ => None,
        }
    }

    /// The OS's error code, where the OS reported the failure.
    #[verifier::when_used_as_spec(spec_raw_os_error)]
    pub fn raw_os_error(&self) -> (code: Option<i32>)
        ensures
            code == self.spec_raw_os_error(),
    {
        match *self {
            Error::Os(code) => Some(code),
            _ => None,
        }
    }

    /// Whether the failure lies in what was handed in, not in the OS.
    pub open spec fn spec_is_invalid_input(&self) -> bool {
        !(*self is Os)
    }

    /// Whether the failure lies in what was handed in, not in the OS.
    #[verifier::when_used_as_spec(spec_is_invalid_input)]
    pub fn is_invalid_input(&self) -> (r: bool)
        ensures
            r == self.spec_is_invalid_input(),
    {
        match *self {
            Error::Os(_) => false,
            _ => true,
        }
    }
}

/// What a return value means where zero is the only success.
pub open spec fn status(ret: i32, os_error: i32) -> Result<(), Error> {
    if ret == 0 {
        Ok(())
    } else {
        Err(Error::Os(os_error))
    }
}

/// What a return value means where zero is the only failure.
pub open spec fn nonzero(ret: i32, os_error: i32) -> Result<(), Error> {
    if ret == 0 {
        Err(Error::Os(os_error))
    } else {
        Ok(())
    }
}

/// What a return value means where a negative number is the failure signal
/// and anything else is the answer.
pub open spec fn value(ret: i32, os_error: i32) -> Result<i32, Error> {
    if ret < 0 {
        Err(Error::Os(os_error))
    } else {
        Ok(ret)
    }
}

/// What a return value means where a negative number is the failure signal
/// and anything else is a number of bytes.
pub open spec fn count(ret: isize, os_error: i32) -> Result<usize, Error> {
    if ret < 0 {
        Err(Error::Os(os_error))
    } else {
        Ok(ret as usize)
    }
}

/// What the return value of a send means: as [`count`], but with one error
/// code, `shutdown`, read as a send of no bytes. The peer had shut the
/// connection down, which is no failure of the send. No other call is read
/// this way.
pub open spec fn count_or_shutdown(ret: isize, os_error: i32, shutdown: i32) -> Result<
    usize,
    Error,
> {
    if ret < 0 && os_error == shutdown {
        Ok(0usize)
    } else {
        count(ret, os_error)
    }
}

/// Reads a return value of which zero is the only success.
///
/// `os_error` is the OS's last error code, read right after the call; it is
/// looked at only where `ret` signals failure.
pub fn cvt_status(ret: i32, os_error: i32) -> (r: Result<(), Error>)
    ensures
        r == status(ret, os_error),
{
    if ret == 0 {
        Ok(())
    } else {
        Err(Error::Os(os_error))
    }
}

/// Reads a return value of which zero is the only failure.
pub fn cvt_nonzero(ret: i32, os_error: i32) -> (r: Result<(), Error>)
    ensures
        r == nonzero(ret, os_error),
{
    if ret == 0 {
        Err(Error::Os(os_error))
    } else {
        Ok(())
    }
}

/// Reads a return value that is negative on failure.
pub fn cvt_value(ret: i32, os_error: i32) -> (r: Result<i32, Error>)
    ensures
        r == value(ret, os_error),
{
    if ret < 0 {
        Err(Error::Os(os_error))
    } else {
        Ok(ret)
    }
}

/// Reads a number of bytes transferred, negative on failure.
pub fn cvt_count(ret: isize, os_error: i32) -> (r: Result<usize, Error>)
    ensures
        r == count(ret, os_error),
{
    if ret < 0 {
        Err(Error::Os(os_error))
    } else {
        Ok(ret as usize)
    }
}

/// Reads the number of bytes that a send sent, where the error code
/// `shutdown` stands for a send of no bytes.
pub fn cvt_count_or_shutdown(ret: isize, os_error: i32, shutdown: i32) -> (r: Result<
    usize,
    Error,
>)
    ensures
        r == count_or_shutdown(ret, os_error, shutdown),
{
    if ret < 0 && os_error == shutdown {
        Ok(0)
    } else {
        cvt_count(ret, os_error)
    }
}

} // verus!
