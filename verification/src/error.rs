//! The two-way classification of operating-system failures.
use vstd::prelude::*;

verus! {

/// The error numbers that the classification depends on.
///
/// Their values belong to the target platform, so every contract that needs
/// one of them is stated over a value of this type.
#[derive(Debug, Clone, Copy, PartialEq, Eq)]
pub struct ErrorCodes {
    /// "Device or resource busy".
    pub busy: i32,
    /// "Operation would block".
    pub would_block: i32,
    /// "Bad file descriptor".
    pub bad_descriptor: i32,
}

/// The target's value of `libc::EBUSY`. It differs between targets, so nothing
/// is claimed of it.
#[verifier::external_body]
fn libc_busy() -> i32 {
    libc::EBUSY
}

/// The target's value of `libc::EWOULDBLOCK`. It differs between targets, so
/// nothing is claimed of it.
#[verifier::external_body]
fn libc_would_block() -> i32 {
    libc::EWOULDBLOCK
}

/// The target's value of `libc::EBADF`. It differs between targets, so nothing
/// is claimed of it.
#[verifier::external_body]
fn libc_bad_descriptor() -> i32 {
    libc::EBADF
}

impl ErrorCodes {
    /// The error numbers of the platform the library was built for.
    ///
    /// They are whatever the platform says they are: nothing is known of
    /// their values before they are read.
    pub fn platform() -> ErrorCodes {
        ErrorCodes {
            busy: libc_busy(),
            would_block: libc_would_block(),
            bad_descriptor: libc_bad_descriptor(),
        }
    }

    /// Whether `err_no` reports that a deadline passed with nothing done.
    pub open spec fn is_timeout(self, err_no: i32) -> bool {
        err_no == self.busy || err_no == self.would_block
    }
}

/// Why a transport operation failed.
#[derive(Debug, Clone, Copy, PartialEq, Eq)]
pub enum IoError {
    /// The deadline passed before the operating system could do anything.
    Timeout,
    /// Any other failure, with the operating system's error number.
    Other(i32),
}

impl IoError {
    /// The error that stands for `err_no` under `codes`.
    pub open spec fn classify(codes: ErrorCodes, err_no: i32) -> IoError {
        if codes.is_timeout(err_no) {
            IoError::Timeout
        } else {
            IoError::Other(err_no)
        }
    }

    /// Classifies `err_no` under the given error numbers.
    pub fn from_code(codes: &ErrorCodes, err_no: i32) -> (e: IoError)
        ensures
            e == IoError::classify(*codes, err_no),
    {
        if err_no == codes.busy || err_no == codes.would_block {
            IoError::Timeout
        } else {
            IoError::Other(err_no)
        }
    }

    /// Whether the error is a passed deadline, after which the caller tries again.
    pub fn is_timeout(&self) -> (b: bool)
        ensures
            b == (*self is Timeout),
    {
        match self {
            IoError::Timeout => true,
            IoError::Other(_) => false,
        }
    }
}

impl From<i32> for IoError {
    /// Classifies `err_no` under the platform's error numbers: a timeout, or
    /// `Other` with the number itself.
    fn from(err_no: i32) -> (e: IoError)
        ensures
            e is Timeout || e == IoError::Other(err_no),
    {
        let codes = ErrorCodes::platform();
        IoError::from_code(&codes, err_no)
    }
}

/// Which numbers mean a timeout is the platform's choice, so no spec function
/// gives the result of `from`: its own `ensures` says what holds on every platform.
impl vstd::std_specs::convert::FromSpecImpl<i32> for IoError {
    open spec fn obeys_from_spec() -> bool {
        false
    }

    open spec fn from_spec(err_no: i32) -> IoError {
        arbitrary()
    }
}

} // verus!
