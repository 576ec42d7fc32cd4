//! Ownership tracking for Generic Buffer Manager objects.
//!
//! A GBM device hands out surfaces and buffer objects. Each of them is a native
//! object with its own teardown call, and each surface and buffer is only usable
//! while its device lives. This crate keeps the books on those objects: which
//! handles are alive, who refers to whom, which native call is due when a handle
//! goes away, and which payload is attached to which buffer.
//!
//! The crate makes no native call itself. Every operation that needs one returns
//! a [`NativeCall`] describing it, and every operation that depends on what the
//! native library answered takes that answer as a plain value.

use vstd::prelude::*;

pub mod buffer_object;
pub mod device;
pub mod error;
pub mod flags;
pub mod format;
pub mod handle;
pub mod laws;
pub mod mapped;
pub mod model;
pub mod native;
pub mod registry;
pub mod surface;

pub use crate::buffer_object::BufferObject;
pub use crate::device::Device;
pub use crate::error::{
    DeviceDestroyedError, FdError, FrontBufferError, InvalidFdError, IoError, WrongDeviceError,
};
pub use crate::flags::BufferObjectFlags;
pub use crate::handle::{Ptr, WeakPtr};
pub use crate::mapped::MappedBufferObject;
pub use crate::native::{Import, NativeCall};
pub use crate::registry::Registry;
pub use crate::surface::Surface;
pub use drm_fourcc::{DrmFourcc as Format, DrmModifier as Modifier};

verus! {

/// Trait for types that allow to obtain the address of the native object
/// behind them.
pub trait AsRaw {
    /// The address of the native object.
    spec fn raw_address(&self) -> usize;

    /// Receive the address of the native object behind this value, for handing
    /// to the native library.
    fn as_raw(&self) -> (raw: usize)
        ensures
            raw == self.raw_address(),
    ;
}

} // verus!
