//! A rendering surface and the locking of its front buffer.

use crate::buffer_object::BufferObject;
use crate::device::Device;
use crate::error::{DeviceDestroyedError, FrontBufferError, IoError};
use crate::handle::WeakPtr;
use crate::model::lemma_parked_from;
use crate::model::lemma_retired_from;
use crate::model::RegistryState;
use crate::native::NativeCall;
use crate::registry::Registry;
use crate::AsRaw;
use std::marker::PhantomData;
use vstd::prelude::*;

verus! {

/// A GBM rendering surface
///
/// A value of this type is the owner of the native surface. It refers to its
/// device without keeping it alive: once the device is gone the surface can be
/// asked nothing, and releasing it makes no native call. `T` is the type of
/// the payload of the buffers that come out of the surface.
#[derive(Debug)]
pub struct Surface<T> {
    slot: usize,
    raw: usize,
    device: WeakPtr,
    marker: PhantomData<T>,
}

impl<T> Surface<T> {
    /// The number of the surface in its registry.
    pub closed spec fn slot(&self) -> usize {
        self.slot
    }

    /// The address of the native surface.
    pub closed spec fn raw(&self) -> usize {
        self.raw
    }

    /// The number of the device the surface belongs to.
    pub closed spec fn device(&self) -> usize {
        self.device.slot()
    }

    /// The address of the native device the surface belongs to.
    pub closed spec fn device_raw(&self) -> usize {
        self.device.raw()
    }

    /// Whether `registry` counts this value as the owner of its surface.
    pub open spec fn held_by(&self, registry: RegistryState<T>) -> bool {
        &&& registry.surface_alive(self.slot())
        &&& registry.surfaces[self.slot() as int].handle.raw == self.raw()
        &&& registry.surfaces[self.slot() as int].device == self.device()
        &&& self.device() < registry.devices.len()
        &&& registry.devices[self.device() as int].raw == self.device_raw()
    }

    /// Registers what the native library returned for an allocation call of
    /// `device` (see [`Device::create_surface`] and its variants).
    ///
    /// `ptr` is the address returned and `os_error` the platform's error code
    /// after the call. A null `ptr` is an allocation failure and gives that
    /// error; the registry then stays as it is. Otherwise the surface is
    /// registered with this value as its owner and with a weak reference to
    /// the device.
    pub fn new<F>(registry: &mut Registry<T>, device: &Device<F>, ptr: usize, os_error: i32) -> (surface:
        Result<Surface<T>, IoError>)
        requires
            old(registry)@.wf(),
            device.held_by(old(registry)@),
        ensures
            final(registry)@.wf(),
            match surface {
                Ok(surface) => {
                    &&& ptr != 0
                    &&& final(registry)@ == old(registry)@.with_surface(device.slot(), ptr)
                    &&& surface.slot() == old(registry)@.surfaces.len()
                    &&& surface.raw() == ptr
                    &&& surface.device() == device.slot()
                    &&& surface.device_raw() == device.raw()
                    &&& surface.held_by(final(registry)@)
                },
                Err(e) => {
                    &&& ptr == 0
                    &&& e.code() == os_error
                    &&& final(registry)@ == old(registry)@
                },
            },
    {
        if ptr == 0 {
            Err(IoError::from_raw_os_error(os_error))
        } else {
            let slot = registry.add_surface(device.index(), ptr);
            Ok(Surface { slot, raw: ptr, device: device.downgrade(), marker: PhantomData })
        }
    }

    /// The weak reference to the device the surface belongs to.
    pub fn device_ref(&self) -> (weak: WeakPtr)
        ensures
            weak.slot() == self.device(),
            weak.raw() == self.device_raw(),
    {
        self.device
    }

    /// Makes the weak reference to the device strong: the result is one more
    /// owner of the device, which keeps it alive until it is released in its
    /// turn. Fails once the device has no owner left.
    pub fn upgrade(&self, registry: &mut Registry<T>) -> (device: Result<
        Device<()>,
        DeviceDestroyedError,
    >)
        requires
            old(registry)@.wf(),
            self.held_by(old(registry)@),
            old(registry)@.devices[self.device() as int].strong < usize::MAX,
        ensures
            final(registry)@.wf(),
            final(registry)@ == old(registry)@.clone_device(self.device()),
            self.held_by(final(registry)@),
            match device {
                Ok(device) => {
                    &&& old(registry)@.device_alive(self.device())
                    &&& device.slot() == self.device()
                    &&& device.raw() == self.device_raw()
                    &&& device.held_by(final(registry)@)
                },
                Err(_) => {
                    &&& !old(registry)@.device_alive(self.device())
                    &&& final(registry)@ == old(registry)@
                },
            },
    {
        self.device.upgrade(registry)
    }

    /// The number of the device the surface belongs to.
    pub fn device_index(&self) -> (device: usize)
        ensures
            device == self.device(),
    {
        self.device.index()
    }

    /// The number of the surface in its registry.
    pub fn index(&self) -> (slot: usize)
        ensures
            slot == self.slot(),
    {
        self.slot
    }

    ///  Return whether or not a surface has free (non-locked) buffers
    ///
    /// Before starting a new frame, the surface must have a buffer available
    /// for rendering. Initially, a GBM surface will have a free buffer, but
    /// after one or more buffers have been locked, the application must check
    /// for a free buffer before rendering.
    ///
    /// The call that asks, or nothing once the device is gone;
    /// [`Surface::has_free_buffers_reply`] reads the answer.
    pub fn has_free_buffers(&self, registry: &Registry<T>) -> (call: Option<NativeCall>)
        ensures
            call == if registry@.device_alive(self.device()) {
                Some(NativeCall::HasFreeBuffers { surface: self.raw() })
            } else {
                None
            },
    {
        if registry.device_alive(self.device.index()) {
            Some(NativeCall::HasFreeBuffers { surface: self.raw })
        } else {
            None
        }
    }

    /// Whether the surface has a free buffer, given what the native library
    /// answered, if it was asked: a surface whose device is gone was not asked
    /// and has none.
    pub fn has_free_buffers_reply(answer: Option<i32>) -> (free: bool)
        ensures
            free == (answer matches Some(n) && n != 0),
    {
        match answer {
            Some(n) => n != 0,
            None => false,
        }
    }

    /// The call that locks the front buffer, or the reason why none is to be
    /// made: the device is gone, or the surface reported no free buffer
    /// (`free_buffers` is its answer to [`Surface::has_free_buffers`]).
    pub fn lock_front_buffer_call(&self, registry: &Registry<T>, free_buffers: i32) -> (call: Result<
        NativeCall,
        FrontBufferError,
    >)
        ensures
            call == if !registry@.device_alive(self.device()) {
                Err::<NativeCall, _>(FrontBufferError::Destroyed(DeviceDestroyedError))
            } else if free_buffers == 0 {
                Err(FrontBufferError::NoFreeBuffers)
            } else {
                Ok(NativeCall::LockFrontBuffer { surface: self.raw() })
            },
    {
        if !registry.device_alive(self.device.index()) {
            Err(FrontBufferError::Destroyed(DeviceDestroyedError))
        } else if free_buffers == 0 {
            Err(FrontBufferError::NoFreeBuffers)
        } else {
            Ok(NativeCall::LockFrontBuffer { surface: self.raw })
        }
    }

    /// Lock the surface's current front buffer
    ///
    /// `buffer` is what the native library returned for the call of
    /// [`Surface::lock_front_buffer_call`]. A null `buffer` is a failure the
    /// native library gives no reason for. Otherwise the result owns the
    /// buffer, and letting go of it gives the buffer back to the surface
    /// instead of tearing it down. A buffer that was locked before has the
    /// payload it was given back with.
    ///
    /// The native call must be made exactly once after each swap of the
    /// surface's buffers, and never before the first: the native library then
    /// returns no buffer that is still locked, which is what this function
    /// asks of `buffer`.
    pub fn lock_front_buffer(&self, registry: &mut Registry<T>, buffer: usize) -> (locked: Result<
        BufferObject<T>,
        FrontBufferError,
    >)
        requires
            old(registry)@.wf(),
            self.held_by(old(registry)@),
            !old(registry)@.locked(self.slot(), buffer),
        ensures
            final(registry)@.wf(),
            match locked {
                Ok(bo) => {
                    &&& old(registry)@.device_alive(self.device())
                    &&& buffer != 0
                    &&& final(registry)@ == old(registry)@.lock(self.slot(), buffer)
                    &&& bo.slot() == old(registry)@.locked_slot(self.slot(), buffer)
                    &&& bo.raw() == buffer
                    &&& bo.device() == self.device()
                    &&& bo.device_raw() == self.device_raw()
                    &&& bo.held_by(final(registry)@)
                },
                Err(e) => {
                    &&& final(registry)@ == old(registry)@
                    &&& e == if !old(registry)@.device_alive(self.device()) {
                        FrontBufferError::Destroyed(DeviceDestroyedError)
                    } else {
                        FrontBufferError::Unknown
                    }
                    &&& !old(registry)@.device_alive(self.device()) || buffer == 0
                },
            },
    {
        if !registry.device_alive(self.device.index()) {
            Err(FrontBufferError::Destroyed(DeviceDestroyedError))
        } else if buffer == 0 {
            Err(FrontBufferError::Unknown)
        } else {
            proof {
                lemma_parked_from(registry@, self.slot, buffer, 0);
                lemma_retired_from(registry@, 0);
            }
            let slot = registry.lock(self.slot, buffer);
            Ok(BufferObject::from_parts(slot, buffer, self.device))
        }
    }

    /// Lets go of the surface. Returns the native call that is due: the
    /// teardown of the surface, or nothing if the device is gone, for the
    /// native surface went with it. The buffers that were given back to the
    /// surface go with it, and their payloads are dropped.
    pub fn release(self, registry: &mut Registry<T>) -> (call: Option<NativeCall>)
        requires
            old(registry)@.wf(),
            self.held_by(old(registry)@),
        ensures
            final(registry)@.wf(),
            final(registry)@ == old(registry)@.release_surface(self.slot()),
            call == old(registry)@.surface_teardown(self.slot()),
    {
        registry.release_surface(self.slot)
    }
}

impl<T> AsRaw for Surface<T> {
    open spec fn raw_address(&self) -> usize {
        self.raw()
    }

    fn as_raw(&self) -> (raw: usize) {
        self.raw
    }
}

} // verus!
