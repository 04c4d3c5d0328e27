//! The error type of the crate.

use vstd::prelude::*;
use crate::consts::{ECONNREFUSED, EINVAL, EOPNOTSUPP};

verus! {

/// Why an operation failed.
#[derive(Clone, Copy, Debug, PartialEq, Eq)]
pub enum SctpError {
    /// The kernel refused a call; the value is its error code, unchanged.
    Os(i32),
    /// The operation is not allowed on this kind of socket. Made here, not
    /// by the kernel.
    NotSupported,
    /// An address record carries a family other than IPv4 or IPv6.
    UnsupportedAddressFamily,
    /// A structure handed back by the kernel ends before its last field.
    Truncated,
    /// The association was not established: its status could not be read
    /// after the connection attempt.
    ConnectionRefused,
}

impl SctpError {
    /// The error code an operating system would use for this error.
    pub open spec fn spec_raw_os_error(self) -> i32 {
        match self {
            SctpError::Os(code) => code,
            SctpError::NotSupported => EOPNOTSUPP,
            SctpError::UnsupportedAddressFamily => EINVAL,
            SctpError::Truncated => EINVAL,
            SctpError::ConnectionRefused => ECONNREFUSED,
        }
    }

    /// The error code an operating system would use for this error.
    pub fn raw_os_error(&self) -> (code: i32)
        ensures
            code == self.spec_raw_os_error(),
    {
        match self {
            SctpError::Os(code) => *code,
            SctpError::NotSupported => EOPNOTSUPP,
            SctpError::UnsupportedAddressFamily => EINVAL,
            SctpError::Truncated => EINVAL,
            SctpError::ConnectionRefused => ECONNREFUSED,
        }
    }
}

} // verus!
