//! A buffer object: its queries, its mappings and its payload.

use crate::device::Device;
use crate::error::{DeviceDestroyedError, FdError, InvalidFdError, IoError, WrongDeviceError};
use crate::format::{format_from_code, fourcc_code, fourcc_of_code};
use crate::format::{modifier_code, modifier_from_code, modifier_of_code};
use crate::mapped::{MappedBufferObject, Mapping};
use crate::handle::WeakPtr;
use crate::model::lemma_operations_preserve_wf;
use crate::model::lemma_retired_from;
use crate::model::RegistryState;
use crate::native::{NativeCall, TRANSFER_READ, TRANSFER_READ_WRITE};
use crate::registry::Registry;
use crate::AsRaw;
use drm_fourcc::DrmFourcc;
use drm_fourcc::DrmModifier;
use std::marker::PhantomData;
use vstd::prelude::*;

verus! {

/// A GBM buffer object
///
/// A value of this type is the owner of the native buffer. It refers to its
/// device without keeping it alive: once the device is gone every query fails,
/// and releasing the buffer makes no native call. `T` is the type of the
/// payload that can be attached to the buffer.
#[derive(Debug)]
pub struct BufferObject<T> {
    slot: usize,
    raw: usize,
    device: WeakPtr,
    marker: PhantomData<T>,
}

/// Whether a buffer of `plane_count` planes is asked about plane `plane`: the
/// first plane always, a further one if the buffer has it.
pub open spec fn plane_asked(plane_count: u32, plane: int) -> bool {
    plane == 0 || plane < plane_count
}

/// Whether `s` is something `f` can return when it is handed `mapping` to read.
pub open spec fn returned_by_reader<'a, T: 'a, C, S>(f: C, mapping: Mapping, s: S) -> bool where
    C: FnOnce(&MappedBufferObject<'a, T>) -> S,
{
    exists|m: MappedBufferObject<'a, T>| m@ == mapping && call_ensures(f, (&m,), s)
}

/// Whether `s` is something `f` can return when it is handed `mapping` to read
/// and write, and `unmap` the call that undoes the mapping it then gives back.
pub open spec fn returned_by_writer<'a, T: 'a, C, S>(
    f: C,
    mapping: Mapping,
    s: S,
    unmap: NativeCall,
) -> bool where C: FnOnce(MappedBufferObject<'a, T>) -> (S, MappedBufferObject<'a, T>) {
    exists|m: MappedBufferObject<'a, T>, n: MappedBufferObject<'a, T>|
        m@ == mapping && #[trigger] call_ensures(f, (m,), (s, n)) && unmap == n@.unmap()
}

impl<T> BufferObject<T> {
    /// The number of the buffer in its registry.
    pub closed spec fn slot(&self) -> usize {
        self.slot
    }

    /// The address of the native buffer.
    pub closed spec fn raw(&self) -> usize {
        self.raw
    }

    /// The number of the device the buffer belongs to.
    pub closed spec fn device(&self) -> usize {
        self.device.slot()
    }

    /// The address of the native device the buffer belongs to.
    pub closed spec fn device_raw(&self) -> usize {
        self.device.raw()
    }

    /// Whether `registry` counts this value as the owner of its buffer.
    pub open spec fn held_by(&self, registry: RegistryState<T>) -> bool {
        &&& registry.buffer_alive(self.slot())
        &&& registry.buffers[self.slot() as int].handle.raw == self.raw()
        &&& registry.buffers[self.slot() as int].device == self.device()
        &&& self.device() < registry.devices.len()
        &&& registry.devices[self.device() as int].raw == self.device_raw()
    }

    /// What a query of this buffer gives: the call that puts it to the native
    /// library while the device lives, an error once it is gone.
    pub open spec fn query(&self, registry: RegistryState<T>, call: NativeCall) -> Result<
        NativeCall,
        DeviceDestroyedError,
    > {
        if registry.device_alive(self.device()) {
            Ok(call)
        } else {
            Err(DeviceDestroyedError)
        }
    }

    pub(crate) fn from_parts(slot: usize, raw: usize, device: WeakPtr) -> (bo: BufferObject<T>)
        ensures
            bo.slot() == slot,
            bo.raw() == raw,
            bo.device() == device.slot(),
            bo.device_raw() == device.raw(),
    {
        BufferObject { slot, raw, device, marker: PhantomData }
    }

    /// Registers what the native library returned for an allocation or import
    /// call of `device` (see [`Device::create_buffer_object`],
    /// [`Device::import_buffer_object_from_dma_buf`] and their variants).
    ///
    /// `ptr` is the address returned and `os_error` the platform's error code
    /// after the call. A null `ptr` is an allocation failure and gives that
    /// error; the registry then stays as it is. Otherwise the buffer is
    /// registered with this value as its owner, with a weak reference to the
    /// device, and without a payload.
    pub fn new<F>(registry: &mut Registry<T>, device: &Device<F>, ptr: usize, os_error: i32) -> (bo:
        Result<BufferObject<T>, IoError>)
        requires
            old(registry)@.wf(),
            device.held_by(old(registry)@),
        ensures
            final(registry)@.wf(),
            match bo {
                Ok(bo) => {
                    &&& ptr != 0
                    &&& final(registry)@ == old(registry)@.with_buffer(device.slot(), ptr)
                    &&& bo.slot() == old(registry)@.vacancy()
                    &&& bo.raw() == ptr
                    &&& bo.device() == device.slot()
                    &&& bo.device_raw() == device.raw()
                    &&& bo.held_by(final(registry)@)
                },
                Err(e) => {
                    &&& ptr == 0
                    &&& e.code() == os_error
                    &&& final(registry)@ == old(registry)@
                },
            },
    {
        if ptr == 0 {
            Err(IoError::from_raw_os_error(os_error))
        } else {
            proof {
                lemma_retired_from(registry@, 0);
            }
            let slot = registry.add_buffer(device.index(), ptr);
            Ok(BufferObject::from_parts(slot, ptr, device.downgrade()))
        }
    }

    /// The weak reference to the device the buffer belongs to.
    pub fn device_ref(&self) -> (weak: WeakPtr)
        ensures
            weak.slot() == self.device(),
            weak.raw() == self.device_raw(),
    {
        self.device
    }

    /// Makes the weak reference to the device strong: the result is one more
    /// owner of the device, which keeps it alive until it is released in its
    /// turn. Fails once the device has no owner left.
    pub fn upgrade(&self, registry: &mut Registry<T>) -> (device: Result<
        Device<()>,
        DeviceDestroyedError,
    >)
        requires
            old(registry)@.wf(),
            self.held_by(old(registry)@),
            old(registry)@.devices[self.device() as int].strong < usize::MAX,
        ensures
            final(registry)@.wf(),
            final(registry)@ == old(registry)@.clone_device(self.device()),
            self.held_by(final(registry)@),
            match device {
                Ok(device) => {
                    &&& old(registry)@.device_alive(self.device())
                    &&& device.slot() == self.device()
                    &&& device.raw() == self.device_raw()
                    &&& device.held_by(final(registry)@)
                },
                Err(_) => {
                    &&& !old(registry)@.device_alive(self.device())
                    &&& final(registry)@ == old(registry)@
                },
            },
    {
        self.device.upgrade(registry)
    }

    /// The number of the device the buffer belongs to.
    pub fn device_index(&self) -> (device: usize)
        ensures
            device == self.device(),
    {
        self.device.index()
    }

    /// The number of the buffer in its registry.
    pub fn index(&self) -> (slot: usize)
        ensures
            slot == self.slot(),
    {
        self.slot
    }

    fn gate(&self, registry: &Registry<T>, call: NativeCall) -> (query: Result<
        NativeCall,
        DeviceDestroyedError,
    >)
        ensures
            query == self.query(registry@, call),
    {
        if registry.device_alive(self.device.index()) {
            Ok(call)
        } else {
            Err(DeviceDestroyedError)
        }
    }

    /// Get the width of the buffer object
    ///
    /// The call that asks for it, or an error once the device is gone.
    pub fn width(&self, registry: &Registry<T>) -> (query: Result<NativeCall, DeviceDestroyedError>)
        ensures
            query == self.query(registry@, NativeCall::BufferWidth { buffer: self.raw() }),
    {
        self.gate(registry, NativeCall::BufferWidth { buffer: self.raw })
    }

    /// Get the height of the buffer object
    ///
    /// The call that asks for it, or an error once the device is gone.
    pub fn height(&self, registry: &Registry<T>) -> (query: Result<NativeCall, DeviceDestroyedError>)
        ensures
            query == self.query(registry@, NativeCall::BufferHeight { buffer: self.raw() }),
    {
        self.gate(registry, NativeCall::BufferHeight { buffer: self.raw })
    }

    /// Get the stride of the buffer object
    ///
    /// The call that asks for it, or an error once the device is gone.
    pub fn stride(&self, registry: &Registry<T>) -> (query: Result<NativeCall, DeviceDestroyedError>)
        ensures
            query == self.query(registry@, NativeCall::BufferStride { buffer: self.raw() }),
    {
        self.gate(registry, NativeCall::BufferStride { buffer: self.raw })
    }

    /// Get the stride of one plane of the buffer object
    ///
    /// The call that asks for it, or an error once the device is gone.
    pub fn stride_for_plane(&self, registry: &Registry<T>, plane: i32) -> (query: Result<
        NativeCall,
        DeviceDestroyedError,
    >)
        ensures
            query == self.query(
                registry@,
                NativeCall::BufferStrideForPlane { buffer: self.raw(), plane },
            ),
    {
        self.gate(registry, NativeCall::BufferStrideForPlane { buffer: self.raw, plane })
    }

    /// Get the format of the buffer object
    ///
    /// The call that asks for its code, or an error once the device is gone;
    /// [`BufferObject::format_reply`] reads the answer.
    pub fn format(&self, registry: &Registry<T>) -> (query: Result<NativeCall, DeviceDestroyedError>)
        ensures
            query == self.query(registry@, NativeCall::BufferFormat { buffer: self.raw() }),
    {
        self.gate(registry, NativeCall::BufferFormat { buffer: self.raw })
    }

    /// The format behind the code the native library answered with, or `None`
    /// for a code that stands for no format.
    pub fn format_reply(code: u32) -> (format: Option<DrmFourcc>)
        ensures
            format == fourcc_of_code(code),
            format matches Some(f) ==> fourcc_code(f) == code,
    {
        format_from_code(code)
    }

    /// Get the bits per pixel of the buffer object
    ///
    /// The call that asks for them, or an error once the device is gone.
    pub fn bpp(&self, registry: &Registry<T>) -> (query: Result<NativeCall, DeviceDestroyedError>)
        ensures
            query == self.query(registry@, NativeCall::BufferBpp { buffer: self.raw() }),
    {
        self.gate(registry, NativeCall::BufferBpp { buffer: self.raw })
    }

    /// Get the offset for a plane of the buffer object
    ///
    /// The call that asks for it, or an error once the device is gone.
    pub fn offset(&self, registry: &Registry<T>, plane: i32) -> (query: Result<
        NativeCall,
        DeviceDestroyedError,
    >)
        ensures
            query == self.query(registry@, NativeCall::BufferOffset { buffer: self.raw(), plane }),
    {
        self.gate(registry, NativeCall::BufferOffset { buffer: self.raw, plane })
    }

    /// Get the plane count of the buffer object
    ///
    /// The call that asks for it, or an error once the device is gone;
    /// [`BufferObject::plane_count_reply`] reads the answer.
    pub fn plane_count(&self, registry: &Registry<T>) -> (query: Result<
        NativeCall,
        DeviceDestroyedError,
    >)
        ensures
            query == self.query(registry@, NativeCall::BufferPlaneCount { buffer: self.raw() }),
    {
        self.gate(registry, NativeCall::BufferPlaneCount { buffer: self.raw })
    }

    /// The plane count in the native library's answer: the answer itself as an
    /// unsigned number, and for a negative answer the number with the same bits.
    pub fn plane_count_reply(answer: i32) -> (count: u32)
        ensures
            answer >= 0 ==> count == answer,
            answer < 0 ==> count == answer + 0x1_0000_0000,
    {
        if answer >= 0 {
            answer as u32
        } else {
            let below: u32 = (-(answer + 1)) as u32;
            u32::MAX - below
        }
    }

    /// Get the modifier of the buffer object
    ///
    /// The call that asks for its code, or an error once the device is gone;
    /// [`BufferObject::modifier_reply`] reads the answer.
    pub fn modifier(&self, registry: &Registry<T>) -> (query: Result<NativeCall, DeviceDestroyedError>)
        ensures
            query == self.query(registry@, NativeCall::BufferModifier { buffer: self.raw() }),
    {
        self.gate(registry, NativeCall::BufferModifier { buffer: self.raw })
    }

    /// The modifier behind the code the native library answered with.
    pub fn modifier_reply(code: u64) -> (modifier: DrmModifier)
        ensures
            modifier == modifier_of_code(code),
            modifier_code(modifier) == code,
    {
        modifier_from_code(code)
    }

    /// What an export of this buffer gives: the call that makes the native
    /// library export it while the device lives, an error once it is gone.
    pub open spec fn export(&self, registry: RegistryState<T>, call: NativeCall) -> Result<
        NativeCall,
        FdError,
    > {
        if registry.device_alive(self.device()) {
            Ok(call)
        } else {
            Err(FdError::DeviceDestroyed(DeviceDestroyedError))
        }
    }

    /// Get a DMA-BUF file descriptor for the buffer object
    ///
    /// This creates a DMA-BUF (also known as PRIME) file descriptor handle for
    /// the buffer object. Each call returns a new file descriptor and the
    /// caller is responsible for closing the file descriptor.
    ///
    /// The call that exports, or an error once the device is gone;
    /// [`BufferObject::fd_reply`] reads the answer.
    pub fn fd(&self, registry: &Registry<T>) -> (query: Result<NativeCall, FdError>)
        ensures
            query == self.export(registry@, NativeCall::BufferFd { buffer: self.raw() }),
    {
        if registry.device_alive(self.device.index()) {
            Ok(NativeCall::BufferFd { buffer: self.raw })
        } else {
            Err(FdError::DeviceDestroyed(DeviceDestroyedError))
        }
    }

    /// Get a DMA-BUF file descriptor for a plane of the buffer object
    ///
    /// Each call returns a new file descriptor and the caller is responsible
    /// for closing the file descriptor. Not every native library can export
    /// a single plane: `supported` says whether the one at hand can, and if it
    /// cannot there is nothing to call.
    ///
    /// The call that exports, or an error once the device is gone;
    /// [`BufferObject::fd_reply`] reads the answer.
    pub fn fd_for_plane(&self, registry: &Registry<T>, plane: i32, supported: bool) -> (query:
        Result<NativeCall, FdError>)
        ensures
            query == if supported {
                self.export(registry@, NativeCall::BufferFdForPlane { buffer: self.raw(), plane })
            } else {
                Err(FdError::Unsupported)
            },
    {
        if !supported {
            Err(FdError::Unsupported)
        } else if registry.device_alive(self.device.index()) {
            Ok(NativeCall::BufferFdForPlane { buffer: self.raw, plane })
        } else {
            Err(FdError::DeviceDestroyed(DeviceDestroyedError))
        }
    }

    /// The descriptor in the native library's answer to an export, which the
    /// caller now owns, or the error that the native failure value -1 stands
    /// for.
    pub fn fd_reply(answer: i32) -> (fd: Result<i32, FdError>)
        ensures
            fd == if answer == -1 {
                Err::<i32, _>(FdError::InvalidFd(InvalidFdError))
            } else {
                Ok(answer)
            },
    {
        if answer == -1 {
            Err(FdError::InvalidFd(InvalidFdError))
        } else {
            Ok(answer)
        }
    }

    /// Get the file descriptor of the gbm device of this buffer object
    ///
    /// The call that asks for it, or an error once the device is gone.
    pub fn device_fd(&self, registry: &Registry<T>) -> (query: Result<NativeCall, DeviceDestroyedError>)
        ensures
            query == self.query(registry@, NativeCall::DeviceFd { device: self.device_raw() }),
    {
        self.gate(registry, NativeCall::DeviceFd { device: self.device.as_raw() })
    }

    /// Get the handle of the buffer object
    ///
    /// The call that asks for it, or an error once the device is gone. The
    /// handle is platform specific; the native library answers with a union,
    /// of which this crate knows nothing.
    pub fn handle(&self, registry: &Registry<T>) -> (query: Result<NativeCall, DeviceDestroyedError>)
        ensures
            query == self.query(registry@, NativeCall::BufferHandle { buffer: self.raw() }),
    {
        self.gate(registry, NativeCall::BufferHandle { buffer: self.raw })
    }

    /// Get the handle of a plane of the buffer object
    ///
    /// The call that asks for it, or an error once the device is gone.
    pub fn handle_for_plane(&self, registry: &Registry<T>, plane: i32) -> (query: Result<
        NativeCall,
        DeviceDestroyedError,
    >)
        ensures
            query == self.query(
                registry@,
                NativeCall::BufferHandleForPlane { buffer: self.raw(), plane },
            ),
    {
        self.gate(registry, NativeCall::BufferHandleForPlane { buffer: self.raw, plane })
    }

    /// What a request to map a region gives: the call that maps it if the
    /// device numbered `device` at address `device_raw` is the one that owns
    /// the buffer, and that device lives; an error if it is not.
    pub open spec fn mapping_call(
        &self,
        registry: RegistryState<T>,
        device: usize,
        device_raw: usize,
        x: u32,
        y: u32,
        width: u32,
        height: u32,
        flags: u32,
    ) -> Result<NativeCall, WrongDeviceError> {
        if device == self.device() && device_raw == self.device_raw() && registry.device_alive(
            device,
        ) {
            Ok(NativeCall::MapBuffer { buffer: self.raw(), x, y, width, height, flags })
        } else {
            Err(WrongDeviceError)
        }
    }

    /// The mapping that the native library's answer describes.
    pub open spec fn mapping(
        &self,
        x: u32,
        y: u32,
        width: u32,
        height: u32,
        bytes: Seq<u8>,
        stride: u32,
        map_data: usize,
        writable: bool,
    ) -> Mapping {
        Mapping { buffer: self.raw(), bytes, map_data, stride, height, width, x, y, writable }
    }

    /// The number of bytes that a mapped region of `height` rows spans when
    /// its rows are `stride` bytes apart.
    pub fn mapping_len(height: u32, stride: u32) -> (len: u64)
        ensures
            len == height * stride,
    {
        let rows: u64 = height as u64;
        let pitch: u64 = stride as u64;
        assert(rows * pitch <= 0xffff_ffff * 0xffff_ffff) by (nonlinear_arith)
            requires
                rows <= 0xffff_ffff,
                pitch <= 0xffff_ffff,
        ;
        rows * pitch
    }

    /// Map a region of a GBM buffer object for cpu access
    ///
    /// The call that maps the region for cpu read access, or an error if
    /// `device` is not the device of this buffer;
    /// [`BufferObject::map_reply`] takes the answer.
    pub fn map<F>(
        &self,
        registry: &Registry<T>,
        device: &Device<F>,
        x: u32,
        y: u32,
        width: u32,
        height: u32,
    ) -> (call: Result<NativeCall, WrongDeviceError>)
        ensures
            call == self.mapping_call(
                registry@,
                device.slot(),
                device.raw(),
                x,
                y,
                width,
                height,
                TRANSFER_READ,
            ),
    {
        if device.index() == self.device.index() && device.as_raw() == self.device.as_raw()
            && registry.device_alive(self.device.index()) {
            Ok(
                NativeCall::MapBuffer {
                    buffer: self.raw,
                    x,
                    y,
                    width,
                    height,
                    flags: TRANSFER_READ,
                },
            )
        } else {
            Err(WrongDeviceError)
        }
    }

    /// Hands the region that the native library mapped to `f`, for reading.
    ///
    /// `ptr`, `stride` and `map_data` are what the native library answered to
    /// the call of [`BufferObject::map`], and `os_error` the platform's error
    /// code after it. A null `ptr` is a failure and gives that error; `f` is
    /// then not called. Otherwise `bytes` are the bytes at `ptr`, as many as
    /// [`BufferObject::mapping_len`] gives, and the result is what `f`
    /// returned, together with the one call that undoes the mapping.
    pub fn map_reply<'a, C, S>(
        &'a self,
        x: u32,
        y: u32,
        width: u32,
        height: u32,
        ptr: usize,
        bytes: &'a mut [u8],
        stride: u32,
        map_data: usize,
        os_error: i32,
        f: C,
    ) -> (out: Result<(S, NativeCall), IoError>) where C: FnOnce(&MappedBufferObject<'a, T>) -> S
        requires
            ptr != 0 ==> old(bytes)@.len() == height * stride,
            ptr != 0 ==> forall|m: MappedBufferObject<'a, T>|
                m@ == self.mapping(x, y, width, height, old(bytes)@, stride, map_data, false)
                    ==> call_requires(f, (&m,)),
        ensures
            match out {
                Ok((s, unmap)) => {
                    &&& ptr != 0
                    &&& unmap == (NativeCall::UnmapBuffer { buffer: self.raw(), map_data })
                    &&& returned_by_reader(
                        f,
                        self.mapping(x, y, width, height, old(bytes)@, stride, map_data, false),
                        s,
                    )
                },
                Err(e) => ptr == 0 && e.code() == os_error,
            },
    {
        if ptr == 0 {
            Err(IoError::from_raw_os_error(os_error))
        } else {
            let mapped = MappedBufferObject::shared(
                self,
                bytes,
                map_data,
                stride,
                height,
                width,
                x,
                y,
            );
            let s = f(&mapped);
            assert(mapped@ == self.mapping(
                x,
                y,
                width,
                height,
                old(bytes)@,
                stride,
                map_data,
                false,
            ) && call_ensures(f, (&mapped,), s));
            Ok((s, mapped.unmap()))
        }
    }

    /// Map a region of a GBM buffer object for cpu access
    ///
    /// The call that maps the region for cpu read/write access, or an error if
    /// `device` is not the device of this buffer;
    /// [`BufferObject::map_mut_reply`] takes the answer.
    pub fn map_mut<F>(
        &mut self,
        registry: &Registry<T>,
        device: &Device<F>,
        x: u32,
        y: u32,
        width: u32,
        height: u32,
    ) -> (call: Result<NativeCall, WrongDeviceError>)
        ensures
            call == old(self).mapping_call(
                registry@,
                device.slot(),
                device.raw(),
                x,
                y,
                width,
                height,
                TRANSFER_READ_WRITE,
            ),
            *final(self) == *old(self),
    {
        if device.index() == self.device.index() && device.as_raw() == self.device.as_raw()
            && registry.device_alive(self.device.index()) {
            Ok(
                NativeCall::MapBuffer {
                    buffer: self.raw,
                    x,
                    y,
                    width,
                    height,
                    flags: TRANSFER_READ_WRITE,
                },
            )
        } else {
            Err(WrongDeviceError)
        }
    }

    /// Hands the region that the native library mapped to `f`, for reading and
    /// writing. `f` takes the mapping and gives it back when it is done.
    ///
    /// `ptr`, `stride` and `map_data` are what the native library answered to
    /// the call of [`BufferObject::map_mut`], and `os_error` the platform's
    /// error code after it. A null `ptr` is a failure and gives that error; `f`
    /// is then not called. Otherwise `bytes` are the bytes at `ptr`, as many
    /// as [`BufferObject::mapping_len`] gives, and the result is what `f`
    /// returned, together with the one call that undoes the mapping it gave
    /// back.
    pub fn map_mut_reply<'a, C, S>(
        &'a mut self,
        x: u32,
        y: u32,
        width: u32,
        height: u32,
        ptr: usize,
        bytes: &'a mut [u8],
        stride: u32,
        map_data: usize,
        os_error: i32,
        f: C,
    ) -> (out: Result<(S, NativeCall), IoError>) where
        C: FnOnce(MappedBufferObject<'a, T>) -> (S, MappedBufferObject<'a, T>),
        requires
            ptr != 0 ==> old(bytes)@.len() == height * stride,
            ptr != 0 ==> forall|m: MappedBufferObject<'a, T>|
                m@ == old(self).mapping(x, y, width, height, old(bytes)@, stride, map_data, true)
                    ==> call_requires(f, (m,)),
        ensures
            match out {
                Ok((s, unmap)) => {
                    &&& ptr != 0
                    &&& returned_by_writer(
                        f,
                        old(self).mapping(
                            x,
                            y,
                            width,
                            height,
                            old(bytes)@,
                            stride,
                            map_data,
                            true,
                        ),
                        s,
                        unmap,
                    )
                },
                Err(e) => ptr == 0 && e.code() == os_error,
            },
    {
        if ptr == 0 {
            Err(IoError::from_raw_os_error(os_error))
        } else {
            let mapped = MappedBufferObject::exclusive(
                self,
                bytes,
                map_data,
                stride,
                height,
                width,
                x,
                y,
            );
            let ghost handed = mapped;
            let (s, mapped) = f(mapped);
            let ghost given_back = mapped;
            let unmap = mapped.unmap();
            assert(handed@ == old(self).mapping(
                x,
                y,
                width,
                height,
                old(bytes)@,
                stride,
                map_data,
                true,
            ) && call_ensures(f, (handed,), (s, given_back)) && unmap == given_back@.unmap());
            Ok((s, unmap))
        }
    }

    ///  Write data into the buffer object
    ///
    /// If the buffer object was created with the write flag, this can be used
    /// to write data into the buffer object. The data is copied directly into
    /// the object and it's the responsibility of the caller to make sure the
    /// data represents valid pixel data, according to the width, height, stride
    /// and format of the buffer object. The length of `buffer` is not held
    /// against the size of the buffer object here: the native library does
    /// that, and [`BufferObject::write_reply`] reports what it found.
    pub fn write(&mut self, registry: &Registry<T>, buffer: &[u8]) -> (query: Result<
        NativeCall,
        DeviceDestroyedError,
    >)
        ensures
            query == old(self).query(
                registry@,
                NativeCall::WriteBuffer { buffer: old(self).raw(), len: buffer@.len() as usize },
            ),
            *final(self) == *old(self),
    {
        self.gate(registry, NativeCall::WriteBuffer { buffer: self.raw, len: buffer.len() })
    }

    /// The outcome of a write: success if the native library answered 0, else
    /// the platform's error, whose code after the call was `os_error`.
    pub fn write_reply(answer: i32, os_error: i32) -> (written: Result<(), IoError>)
        ensures
            answer == 0 ==> written is Ok,
            answer != 0 ==> written is Err && written->Err_0.code() == os_error,
    {
        if answer != 0 {
            Err(IoError::from_raw_os_error(os_error))
        } else {
            Ok(())
        }
    }

    /// Sets the userdata of the buffer object.
    ///
    /// If previously userdata was set, it is returned.
    pub fn set_userdata(&mut self, registry: &mut Registry<T>, userdata: T) -> (previous: Result<
        Option<T>,
        DeviceDestroyedError,
    >)
        requires
            old(registry)@.wf(),
            old(self).held_by(old(registry)@),
        ensures
            *final(self) == *old(self),
            final(registry)@.wf(),
            match previous {
                Ok(previous) => {
                    &&& old(registry)@.device_alive(old(self).device())
                    &&& previous == old(registry)@.userdata(old(self).slot())
                    &&& final(registry)@ == old(registry)@.with_userdata(
                        old(self).slot(),
                        Some(userdata),
                    )
                },
                Err(_) => {
                    &&& !old(registry)@.device_alive(old(self).device())
                    &&& final(registry)@ == old(registry)@
                },
            },
    {
        if registry.device_alive(self.device.index()) {
            Ok(registry.replace_userdata(self.slot, Some(userdata)))
        } else {
            Err(DeviceDestroyedError)
        }
    }

    /// Clears the set userdata of the buffer object.
    pub fn clear_userdata(&mut self, registry: &mut Registry<T>) -> (cleared: Result<
        (),
        DeviceDestroyedError,
    >)
        requires
            old(registry)@.wf(),
            old(self).held_by(old(registry)@),
        ensures
            *final(self) == *old(self),
            final(registry)@.wf(),
            match cleared {
                Ok(_) => {
                    &&& old(registry)@.device_alive(old(self).device())
                    &&& final(registry)@ == old(registry)@.with_userdata(old(self).slot(), None)
                },
                Err(_) => {
                    &&& !old(registry)@.device_alive(old(self).device())
                    &&& final(registry)@ == old(registry)@
                },
            },
    {
        if registry.device_alive(self.device.index()) {
            let _ = registry.replace_userdata(self.slot, None);
            Ok(())
        } else {
            Err(DeviceDestroyedError)
        }
    }

    /// Returns a reference to set userdata, if any.
    pub fn userdata<'a>(&self, registry: &'a Registry<T>) -> (userdata: Result<
        Option<&'a T>,
        DeviceDestroyedError,
    >)
        requires
            registry@.wf(),
            self.held_by(registry@),
        ensures
            match userdata {
                Ok(found) => {
                    &&& registry@.device_alive(self.device())
                    &&& found is Some <==> registry@.userdata(self.slot()) is Some
                    &&& found matches Some(value) ==> registry@.userdata(self.slot()) == Some(
                        *value,
                    )
                },
                Err(_) => !registry@.device_alive(self.device()),
            },
    {
        if registry.device_alive(self.device.index()) {
            Ok(registry.userdata(self.slot))
        } else {
            Err(DeviceDestroyedError)
        }
    }

    /// Returns a mutable reference to set userdata, if any.
    pub fn userdata_mut<'a>(&mut self, registry: &'a mut Registry<T>) -> (userdata: Result<
        Option<&'a mut T>,
        DeviceDestroyedError,
    >)
        requires
            old(registry)@.wf(),
            old(self).held_by(old(registry)@),
        ensures
            *final(self) == *old(self),
            final(registry)@.wf(),
            match userdata {
                Ok(Some(value)) => {
                    &&& old(registry)@.device_alive(old(self).device())
                    &&& old(registry)@.userdata(old(self).slot()) == Some(*value)
                    &&& final(registry)@ == old(registry)@.with_userdata(
                        old(self).slot(),
                        Some(*final(value)),
                    )
                },
                Ok(None) => {
                    &&& old(registry)@.device_alive(old(self).device())
                    &&& old(registry)@.userdata(old(self).slot()) is None
                    &&& final(registry)@ == old(registry)@
                },
                Err(_) => {
                    &&& !old(registry)@.device_alive(old(self).device())
                    &&& final(registry)@ == old(registry)@
                },
            },
    {
        proof {
            lemma_operations_preserve_wf(registry@);
        }
        if registry.device_alive(self.device.index()) {
            Ok(registry.userdata_mut(self.slot))
        } else {
            Err(DeviceDestroyedError)
        }
    }

    /// Takes ownership of previously set userdata, if any.
    ///
    /// This removes the userdata from the buffer object.
    pub fn take_userdata(&mut self, registry: &mut Registry<T>) -> (userdata: Result<
        Option<T>,
        DeviceDestroyedError,
    >)
        requires
            old(registry)@.wf(),
            old(self).held_by(old(registry)@),
        ensures
            *final(self) == *old(self),
            final(registry)@.wf(),
            match userdata {
                Ok(userdata) => {
                    &&& old(registry)@.device_alive(old(self).device())
                    &&& userdata == old(registry)@.userdata(old(self).slot())
                    &&& final(registry)@ == old(registry)@.with_userdata(old(self).slot(), None)
                },
                Err(_) => {
                    &&& !old(registry)@.device_alive(old(self).device())
                    &&& final(registry)@ == old(registry)@
                },
            },
    {
        if registry.device_alive(self.device.index()) {
            Ok(registry.replace_userdata(self.slot, None))
        } else {
            Err(DeviceDestroyedError)
        }
    }

    /// Whether a buffer of `plane_count` planes is to be asked about plane
    /// `plane`: about the first always, about a further one if the buffer has it.
    pub fn asks_plane(plane_count: u32, plane: u32) -> (asked: bool)
        ensures
            asked == plane_asked(plane_count, plane as int),
    {
        plane == 0 || plane < plane_count
    }

    /// The offsets of the four planes a buffer can have, given the number of
    /// planes it has and what the native library answered for each plane it
    /// was asked about (see [`plane_asked`]): the answer for such a plane, 0
    /// for any other.
    pub fn offsets(plane_count: u32, answers: [u32; 4]) -> (offsets: [u32; 4])
        ensures
            forall|plane: int|
                0 <= plane < 4 ==> offsets@[plane] == if plane_asked(plane_count, plane) {
                    answers@[plane]
                } else {
                    0
                },
    {
        [
            answers[0],
            if plane_count > 1 {
                answers[1]
            } else {
                0
            },
            if plane_count > 2 {
                answers[2]
            } else {
                0
            },
            if plane_count > 3 {
                answers[3]
            } else {
                0
            },
        ]
    }

    /// The strides of the four planes a buffer can have, given the number of
    /// planes it has and what the native library answered for each plane it
    /// was asked about (see [`plane_asked`]): the answer for such a plane, 0
    /// for any other.
    pub fn pitches(plane_count: u32, answers: [u32; 4]) -> (pitches: [u32; 4])
        ensures
            forall|plane: int|
                0 <= plane < 4 ==> pitches@[plane] == if plane_asked(plane_count, plane) {
                    answers@[plane]
                } else {
                    0
                },
    {
        Self::offsets(plane_count, answers)
    }

    /// The handles of the four planes a buffer can have, given the number of
    /// planes it has and what the native library answered for each plane it
    /// was asked about (see [`plane_asked`]): the answer for such a plane,
    /// nothing for any other.
    pub fn handles(plane_count: u32, answers: [u32; 4]) -> (handles: [Option<u32>; 4])
        ensures
            forall|plane: int|
                0 <= plane < 4 ==> handles@[plane] == if plane_asked(plane_count, plane) {
                    Some(answers@[plane])
                } else {
                    None
                },
    {
        [
            Some(answers[0]),
            if plane_count > 1 {
                Some(answers[1])
            } else {
                None
            },
            if plane_count > 2 {
                Some(answers[2])
            } else {
                None
            },
            if plane_count > 3 {
                Some(answers[3])
            } else {
                None
            },
        ]
    }

    /// Lets go of the buffer. Returns the native call that is due: for a buffer
    /// that was locked from a surface, to give it back to that surface, or
    /// nothing if the surface or the device is gone; for any other buffer, to
    /// tear it down, or nothing if the device is gone. A buffer that returns to
    /// its surface keeps its payload for the next lock; any other payload is
    /// dropped.
    pub fn release(self, registry: &mut Registry<T>) -> (call: Option<NativeCall>)
        requires
            old(registry)@.wf(),
            self.held_by(old(registry)@),
        ensures
            final(registry)@.wf(),
            final(registry)@ == old(registry)@.release_buffer(self.slot()),
            call == old(registry)@.buffer_teardown(self.slot()),
    {
        registry.release_buffer(self.slot)
    }
}

impl<T> AsRaw for BufferObject<T> {
    open spec fn raw_address(&self) -> usize {
        self.raw()
    }

    fn as_raw(&self) -> (raw: usize) {
        self.raw
    }
}

} // verus!
