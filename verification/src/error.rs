//! Errors of the operating system, as the bridge sees them.

use vstd::prelude::*;

verus! {

/// The number of `EINTR` on Linux: a blocking call was interrupted by a
/// signal.
pub const EINTR: i32 = 4;

/// The number of `EEXIST` on Linux: what was to be made is already there.
pub const EEXIST: i32 = 17;

/// An error reported by the operating system, held as its raw number.
#[derive(Clone, Copy, Debug, PartialEq, Eq, Structural)]
pub struct Error {
    pub code: i32,
}

/// Why a wait for a notification ended without one.
#[derive(Clone, Copy, Debug, PartialEq, Eq, Structural)]
pub enum WaitError {
    /// The read end reported end of stream: the write end was closed.
    UnexpectedEof,
    /// The read failed with an error other than an interruption.
    System(Error),
}

/// The raw number of `rustix::io::Errno::INTR`, read with
/// `rustix::io::Errno::raw_os_error`.
///
/// Trusted, not proved: on Linux rustix defines the constant from the
/// error table of the kernel, in which `EINTR` is 4.
#[verifier::external_body]
fn errno_intr() -> (code: i32)
    ensures
        code == EINTR,
{
    rustix::io::Errno::INTR.raw_os_error()
}

/// The raw number of `rustix::io::Errno::EXIST`, read with
/// `rustix::io::Errno::raw_os_error`.
///
/// Trusted, not proved: on Linux rustix defines the constant from the
/// error table of the kernel, in which `EEXIST` is 17.
#[verifier::external_body]
fn errno_exist() -> (code: i32)
    ensures
        code == EEXIST,
{
    rustix::io::Errno::EXIST.raw_os_error()
}

impl Error {
    /// The error that interrupts a blocking call.
    pub open spec fn intr_spec() -> Error {
        Error { code: EINTR }
    }

    /// The error that reports a conflict with what is already installed.
    pub open spec fn exist_spec() -> Error {
        Error { code: EEXIST }
    }

    /// Whether this error is the interruption of a blocking call.
    pub open spec fn is_interrupted_spec(&self) -> bool {
        self.code == EINTR
    }

    /// The interruption error, with the number that rustix gives it.
    #[verifier::when_used_as_spec(intr_spec)]
    pub fn intr() -> (e: Error)
        ensures
            e == Error::intr_spec(),
    {
        Error { code: errno_intr() }
    }

    /// The "already exists" error, with the number that rustix gives it.
    #[verifier::when_used_as_spec(exist_spec)]
    pub fn exist() -> (e: Error)
        ensures
            e == Error::exist_spec(),
    {
        Error { code: errno_exist() }
    }

    /// An error from its raw number.
    pub fn from_raw_os_error(code: i32) -> (e: Error)
        ensures
            e.code == code,
    {
        Error { code }
    }

    /// The raw number of this error.
    pub fn raw_os_error(&self) -> (code: i32)
        ensures
            code == self.code,
    {
        self.code
    }

    /// Whether this error is the interruption of a blocking call.
    #[verifier::when_used_as_spec(is_interrupted_spec)]
    pub fn is_interrupted(&self) -> (b: bool)
        ensures
            b == self.is_interrupted_spec(),
    {
        self.code == errno_intr()
    }
}

} // verus!
