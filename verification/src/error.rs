//! The ways in which an operation on a device, a surface or a buffer can fail.

use vstd::prelude::*;

verus! {

/// A native allocation or transfer failed; carries the platform's error code.
#[derive(Debug, Clone, Copy, PartialEq, Eq, Structural)]
pub struct IoError {
    code: i32,
}

impl IoError {
    /// The platform error code this error stands for.
    pub closed spec fn code(self) -> i32 {
        self.code
    }

    /// Wraps a platform error code.
    pub fn from_raw_os_error(code: i32) -> (e: IoError)
        ensures
            e.code() == code,
    {
        IoError { code }
    }

    /// The platform error code.
    pub fn raw_os_error(&self) -> (code: i32)
        ensures
            code == self.code(),
    {
        self.code
    }
}

/// The device that owns the object is gone.
#[derive(Debug, Clone, Copy, PartialEq, Eq, Structural)]
pub struct DeviceDestroyedError;

impl DeviceDestroyedError {
    /// A human-readable description.
    pub fn message(&self) -> (s: &'static str)
        ensures
            s@ == "The underlying gbm device was already destroyed"@,
    {
        "The underlying gbm device was already destroyed"
    }
}

/// The device handed to a mapping call is not the one that owns the buffer.
#[derive(Debug, Clone, Copy, PartialEq, Eq, Structural)]
pub struct WrongDeviceError;

impl WrongDeviceError {
    /// A human-readable description.
    pub fn message(&self) -> (s: &'static str)
        ensures
            s@ == "The gbm device specified is not the one this buffer object belongs to"@,
    {
        "The gbm device specified is not the one this buffer object belongs to"
    }
}

/// Thrown when the fd is invalid
#[derive(Debug, Clone, Copy, PartialEq, Eq, Structural)]
pub struct InvalidFdError;

impl InvalidFdError {
    /// A human-readable description.
    pub fn message(&self) -> (s: &'static str)
        ensures
            s@ == "The returned fd is invalid"@,
    {
        "The returned fd is invalid"
    }
}

/// Why exporting a buffer as a file descriptor failed.
#[derive(Debug, Clone, Copy, PartialEq, Eq, Structural)]
pub enum FdError {
    /// The device that owns the buffer is gone.
    DeviceDestroyed(DeviceDestroyedError),
    /// The native library returned its failure sentinel.
    InvalidFd(InvalidFdError),
    /// The platform's native library has no per-plane export.
    Unsupported,
}

impl FdError {
    /// A human-readable description.
    pub fn message(&self) -> (s: &'static str)
        ensures
            s@ == match *self {
                FdError::DeviceDestroyed(_) => "The underlying gbm device was already destroyed"@,
                FdError::InvalidFd(_) => "The returned fd is invalid"@,
                FdError::Unsupported => "Operation not supported on this platform"@,
            },
    {
        match self {
            FdError::DeviceDestroyed(e) => e.message(),
            FdError::InvalidFd(e) => e.message(),
            FdError::Unsupported => "Operation not supported on this platform",
        }
    }
}

/// Errors that may happen when locking the front buffer
#[derive(Debug, Clone, Copy, PartialEq, Eq, Structural)]
pub enum FrontBufferError {
    /// The surface has no buffer left to hand out.
    NoFreeBuffers,
    /// The native library failed without saying why.
    Unknown,
    /// The device that owns the surface is gone.
    Destroyed(DeviceDestroyedError),
}

impl FrontBufferError {
    /// A human-readable description.
    pub fn message(&self) -> (s: &'static str)
        ensures
            s@ == match *self {
                FrontBufferError::NoFreeBuffers => "No free buffers remaining"@,
                FrontBufferError::Unknown => "Unknown error"@,
                FrontBufferError::Destroyed(_) => "The underlying gbm device was already destroyed"@,
            },
    {
        match self {
            FrontBufferError::NoFreeBuffers => "No free buffers remaining",
            FrontBufferError::Unknown => "Unknown error",
            FrontBufferError::Destroyed(e) => e.message(),
        }
    }
}

} // verus!
