//! An open device: the root of the objects the native library hands out.

use crate::error::IoError;
use crate::flags::BufferObjectFlags;
use crate::format::{fourcc_code, format_to_code, modifier_code, modifier_codes, modifier_codes_of};
use crate::format::modifier_to_code;
use crate::handle::WeakPtr;
use crate::model::RegistryState;
use crate::native::{Import, NativeCall};
use crate::registry::Registry;
use crate::AsRaw;
use drm_fourcc::DrmFourcc;
use drm_fourcc::DrmModifier;
use vstd::prelude::*;
use vstd::string::StringSliceAdditionalSpecFns;
use vstd::utf8::valid_utf8;

verus! {

/// An open GBM device
///
/// A value of this type is one owner of the native device. The device is torn
/// down when the last owner is released. The value keeps `fd`, the resource the
/// device was opened on, so that the descriptor outlives this owner.
#[derive(Debug)]
pub struct Device<F> {
    slot: usize,
    raw: usize,
    fd: F,
}

/// The descriptor to put for one plane of a DMA buffer: the plane's own, or -1
/// where there is none.
pub open spec fn plane_fd(fd: Option<i32>) -> i32 {
    match fd {
        Some(fd) => fd,
        None => -1i32,
    }
}

/// Calls `core::str::from_utf8`.
///
/// Trusted: the result is a string exactly for bytes that are valid UTF-8, and
/// the string is then made of those bytes.
#[verifier::external_body]
fn text_of(bytes: &[u8]) -> (text: Option<&str>)
    ensures
        text is Some <==> valid_utf8(bytes@),
        text matches Some(s) ==> s.spec_bytes() == bytes@,
{
    core::str::from_utf8(bytes).ok()
}

impl<F> Device<F> {
    /// The number of the device in its registry.
    pub closed spec fn slot(&self) -> usize {
        self.slot
    }

    /// The address of the native device.
    pub closed spec fn raw(&self) -> usize {
        self.raw
    }

    /// The resource the device was opened on.
    pub closed spec fn descriptor(&self) -> F {
        self.fd
    }

    /// Whether `registry` counts this value among the owners of its device.
    pub open spec fn held_by<T>(&self, registry: RegistryState<T>) -> bool {
        &&& registry.device_alive(self.slot())
        &&& registry.devices[self.slot() as int].raw == self.raw()
    }

    pub(crate) fn from_parts(slot: usize, raw: usize, fd: F) -> (device: Device<F>)
        ensures
            device.slot() == slot,
            device.raw() == raw,
            device.descriptor() == fd,
    {
        Device { slot, raw, fd }
    }

    /// The call that opens a device on the descriptor numbered `fd`.
    pub fn open(fd: i32) -> (call: NativeCall)
        ensures
            call == (NativeCall::CreateDevice { fd }),
    {
        NativeCall::CreateDevice { fd }
    }

    /// Open a GBM device from a given open DRM device.
    ///
    /// `ptr` is what the native library returned for [`Device::open`] on the
    /// descriptor of `fd`, and `os_error` the platform's error code after that
    /// call. A null `ptr` is an allocation failure and gives that error; the
    /// registry then stays as it is. Otherwise the device is registered with
    /// this value as its one owner.
    pub fn new<T>(registry: &mut Registry<T>, fd: F, ptr: usize, os_error: i32) -> (device: Result<
        Device<F>,
        IoError,
    >)
        requires
            old(registry)@.wf(),
        ensures
            final(registry)@.wf(),
            match device {
                Ok(device) => {
                    &&& ptr != 0
                    &&& final(registry)@ == old(registry)@.with_device(ptr)
                    &&& device.slot() == old(registry)@.devices.len()
                    &&& device.raw() == ptr
                    &&& device.descriptor() == fd
                    &&& device.held_by(final(registry)@)
                },
                Err(e) => {
                    &&& ptr == 0
                    &&& e.code() == os_error
                    &&& final(registry)@ == old(registry)@
                },
            },
    {
        if ptr == 0 {
            Err(IoError::from_raw_os_error(os_error))
        } else {
            let slot = registry.add_device(ptr);
            Ok(Device { slot, raw: ptr, fd })
        }
    }

    /// The resource the device was opened on.
    pub fn fd(&self) -> (fd: &F)
        ensures
            *fd == self.descriptor(),
    {
        &self.fd
    }

    /// The resource the device was opened on, to change it.
    pub fn fd_mut(&mut self) -> (fd: &mut F)
        ensures
            *fd == old(self).descriptor(),
            final(self).descriptor() == *final(fd),
            final(self).slot() == old(self).slot(),
            final(self).raw() == old(self).raw(),
    {
        &mut self.fd
    }

    /// A reference to the device that does not keep it alive.
    pub fn downgrade(&self) -> (weak: WeakPtr)
        ensures
            weak.slot() == self.slot(),
            weak.raw() == self.raw(),
    {
        WeakPtr::new(self.slot, self.raw)
    }

    /// The number of the device in its registry.
    pub fn index(&self) -> (slot: usize)
        ensures
            slot == self.slot(),
    {
        self.slot
    }

    /// The call that asks for the descriptor the native device works on.
    pub fn as_fd(&self) -> (call: NativeCall)
        ensures
            call == (NativeCall::DeviceFd { device: self.raw() }),
    {
        NativeCall::DeviceFd { device: self.raw }
    }

    /// Get the backend name
    ///
    /// The call that asks for it; [`Device::backend_name_reply`] reads the answer.
    pub fn backend_name(&self) -> (call: NativeCall)
        ensures
            call == (NativeCall::BackendName { device: self.raw() }),
    {
        NativeCall::BackendName { device: self.raw }
    }

    /// The name in the native library's answer, whose bytes up to the closing
    /// NUL are `bytes`, or `None` if those bytes are no text.
    pub fn backend_name_reply(bytes: &[u8]) -> (name: Option<&str>)
        ensures
            name is Some <==> valid_utf8(bytes@),
            name matches Some(s) ==> s.spec_bytes() == bytes@,
    {
        text_of(bytes)
    }

    /// Test if a format is supported for a given set of usage flags
    ///
    /// The call that asks; [`Device::is_format_supported_reply`] reads the answer.
    pub fn is_format_supported(&self, format: DrmFourcc, usage: BufferObjectFlags) -> (call:
        NativeCall)
        ensures
            call == (NativeCall::IsFormatSupported {
                device: self.raw(),
                format: fourcc_code(format),
                usage: usage@,
            }),
    {
        NativeCall::IsFormatSupported {
            device: self.raw,
            format: format_to_code(format),
            usage: usage.bits(),
        }
    }

    /// Whether the native library's answer means that the format is supported.
    pub fn is_format_supported_reply(answer: i32) -> (supported: bool)
        ensures
            supported == (answer != 0),
    {
        answer != 0
    }

    /// Get the required number of planes for a given format and modifier
    ///
    /// The call that asks; [`Device::format_modifier_plane_count_reply`] reads
    /// the answer.
    pub fn format_modifier_plane_count(&self, format: DrmFourcc, modifier: DrmModifier) -> (call:
        NativeCall)
        ensures
            call == (NativeCall::FormatModifierPlaneCount {
                device: self.raw(),
                format: fourcc_code(format),
                modifier: modifier_code(modifier),
            }),
    {
        NativeCall::FormatModifierPlaneCount {
            device: self.raw,
            format: format_to_code(format),
            modifier: modifier_to_code(modifier),
        }
    }

    /// The number of planes in the native library's answer.
    ///
    /// Some combination (e.g. with an invalid modifier) might not have a
    /// defined number of planes; the native library then answers with a
    /// negative number, and the result is `None`.
    pub fn format_modifier_plane_count_reply(answer: i32) -> (count: Option<u32>)
        ensures
            answer >= 0 ==> count == Some(answer as u32),
            answer < 0 ==> count is None,
    {
        if answer >= 0 {
            Some(answer as u32)
        } else {
            None
        }
    }

    /// Allocate a new surface object
    ///
    /// The call that allocates; [`crate::Surface::new`] takes the result.
    pub fn create_surface(
        &self,
        width: u32,
        height: u32,
        format: DrmFourcc,
        usage: BufferObjectFlags,
    ) -> (call: NativeCall)
        ensures
            call == (NativeCall::CreateSurface {
                device: self.raw(),
                width,
                height,
                format: fourcc_code(format),
                usage: usage@,
            }),
    {
        NativeCall::CreateSurface {
            device: self.raw,
            width,
            height,
            format: format_to_code(format),
            usage: usage.bits(),
        }
    }

    /// Allocate a new surface object with explicit modifiers
    ///
    /// The call that allocates; [`crate::Surface::new`] takes the result.
    pub fn create_surface_with_modifiers(
        &self,
        width: u32,
        height: u32,
        format: DrmFourcc,
        modifiers: &[DrmModifier],
    ) -> (call: NativeCall)
        requires
            modifiers@.len() <= u32::MAX,
        ensures
            call matches NativeCall::CreateSurfaceWithModifiers {
                device,
                width: w,
                height: h,
                format: f,
                modifiers: codes,
                count,
            } && device == self.raw() && w == width && h == height && f == fourcc_code(format)
                && codes@ == modifier_codes_of(modifiers@) && count == modifiers@.len(),
    {
        let codes = modifier_codes(modifiers);
        let count = codes.len() as u32;
        NativeCall::CreateSurfaceWithModifiers {
            device: self.raw,
            width,
            height,
            format: format_to_code(format),
            modifiers: codes,
            count,
        }
    }

    /// Allocate a new surface object with explicit modifiers and flags
    ///
    /// The call that allocates; [`crate::Surface::new`] takes the result.
    pub fn create_surface_with_modifiers2(
        &self,
        width: u32,
        height: u32,
        format: DrmFourcc,
        modifiers: &[DrmModifier],
        usage: BufferObjectFlags,
    ) -> (call: NativeCall)
        requires
            modifiers@.len() <= u32::MAX,
        ensures
            call matches NativeCall::CreateSurfaceWithModifiers2 {
                device,
                width: w,
                height: h,
                format: f,
                modifiers: codes,
                count,
                usage: u,
            } && device == self.raw() && w == width && h == height && f == fourcc_code(format)
                && codes@ == modifier_codes_of(modifiers@) && count == modifiers@.len() && u
                == usage@,
    {
        let codes = modifier_codes(modifiers);
        let count = codes.len() as u32;
        NativeCall::CreateSurfaceWithModifiers2 {
            device: self.raw,
            width,
            height,
            format: format_to_code(format),
            modifiers: codes,
            count,
            usage: usage.bits(),
        }
    }

    ///  Allocate a buffer object for the given dimensions
    ///
    /// The call that allocates; [`crate::BufferObject::new`] takes the result.
    pub fn create_buffer_object(
        &self,
        width: u32,
        height: u32,
        format: DrmFourcc,
        usage: BufferObjectFlags,
    ) -> (call: NativeCall)
        ensures
            call == (NativeCall::CreateBuffer {
                device: self.raw(),
                width,
                height,
                format: fourcc_code(format),
                usage: usage@,
            }),
    {
        NativeCall::CreateBuffer {
            device: self.raw,
            width,
            height,
            format: format_to_code(format),
            usage: usage.bits(),
        }
    }

    ///  Allocate a buffer object for the given dimensions with explicit modifiers
    ///
    /// The call that allocates; [`crate::BufferObject::new`] takes the result.
    pub fn create_buffer_object_with_modifiers(
        &self,
        width: u32,
        height: u32,
        format: DrmFourcc,
        modifiers: &[DrmModifier],
    ) -> (call: NativeCall)
        requires
            modifiers@.len() <= u32::MAX,
        ensures
            call matches NativeCall::CreateBufferWithModifiers {
                device,
                width: w,
                height: h,
                format: f,
                modifiers: codes,
                count,
            } && device == self.raw() && w == width && h == height && f == fourcc_code(format)
                && codes@ == modifier_codes_of(modifiers@) && count == modifiers@.len(),
    {
        let codes = modifier_codes(modifiers);
        let count = codes.len() as u32;
        NativeCall::CreateBufferWithModifiers {
            device: self.raw,
            width,
            height,
            format: format_to_code(format),
            modifiers: codes,
            count,
        }
    }

    ///  Allocate a buffer object for the given dimensions with explicit modifiers and flags
    ///
    /// The call that allocates; [`crate::BufferObject::new`] takes the result.
    pub fn create_buffer_object_with_modifiers2(
        &self,
        width: u32,
        height: u32,
        format: DrmFourcc,
        modifiers: &[DrmModifier],
        usage: BufferObjectFlags,
    ) -> (call: NativeCall)
        requires
            modifiers@.len() <= u32::MAX,
        ensures
            call matches NativeCall::CreateBufferWithModifiers2 {
                device,
                width: w,
                height: h,
                format: f,
                modifiers: codes,
                count,
                usage: u,
            } && device == self.raw() && w == width && h == height && f == fourcc_code(format)
                && codes@ == modifier_codes_of(modifiers@) && count == modifiers@.len() && u
                == usage@,
    {
        let codes = modifier_codes(modifiers);
        let count = codes.len() as u32;
        NativeCall::CreateBufferWithModifiers2 {
            device: self.raw,
            width,
            height,
            format: format_to_code(format),
            modifiers: codes,
            count,
            usage: usage.bits(),
        }
    }

    /// Create a GBM buffer object from a wayland buffer
    ///
    /// `buffer` is the address of the protocol resource behind the foreign
    /// buffer. The GBM bo shares the underlying pixels but its life-time is
    /// independent of the foreign object.
    ///
    /// The call that imports; [`crate::BufferObject::new`] takes the result.
    pub fn import_buffer_object_from_wayland(&self, buffer: usize, usage: BufferObjectFlags) -> (call:
        NativeCall)
        ensures
            call == (NativeCall::ImportBuffer {
                device: self.raw(),
                source: Import::WaylandBuffer { resource: buffer },
                usage: usage@,
            }),
    {
        NativeCall::ImportBuffer {
            device: self.raw,
            source: Import::WaylandBuffer { resource: buffer },
            usage: usage.bits(),
        }
    }

    /// Create a GBM buffer object from an egl buffer
    ///
    /// `buffer` is the handle of the foreign image. Nothing here can tell a
    /// valid handle from an invalid one: whoever makes the call answers for it.
    ///
    /// The call that imports; [`crate::BufferObject::new`] takes the result.
    pub fn import_buffer_object_from_egl(&self, buffer: usize, usage: BufferObjectFlags) -> (call:
        NativeCall)
        ensures
            call == (NativeCall::ImportBuffer {
                device: self.raw(),
                source: Import::EglImage { image: buffer },
                usage: usage@,
            }),
    {
        NativeCall::ImportBuffer {
            device: self.raw,
            source: Import::EglImage { image: buffer },
            usage: usage.bits(),
        }
    }

    /// Create a GBM buffer object from a dma buffer
    ///
    /// `buffer` is the number of an open file descriptor of the foreign buffer.
    ///
    /// The call that imports; [`crate::BufferObject::new`] takes the result.
    pub fn import_buffer_object_from_dma_buf(
        &self,
        buffer: i32,
        width: u32,
        height: u32,
        stride: u32,
        format: DrmFourcc,
        usage: BufferObjectFlags,
    ) -> (call: NativeCall)
        ensures
            call == (NativeCall::ImportBuffer {
                device: self.raw(),
                source: Import::Fd {
                    fd: buffer,
                    width,
                    height,
                    stride,
                    format: fourcc_code(format),
                },
                usage: usage@,
            }),
    {
        NativeCall::ImportBuffer {
            device: self.raw,
            source: Import::Fd {
                fd: buffer,
                width,
                height,
                stride,
                format: format_to_code(format),
            },
            usage: usage.bits(),
        }
    }

    /// Create a GBM buffer object from a dma buffer with explicit modifiers
    ///
    /// `buffers` holds the number of an open file descriptor for each plane
    /// that has one; a plane without one is handed on as -1.
    ///
    /// The call that imports; [`crate::BufferObject::new`] takes the result.
    pub fn import_buffer_object_from_dma_buf_with_modifiers(
        &self,
        len: u32,
        buffers: [Option<i32>; 4],
        width: u32,
        height: u32,
        format: DrmFourcc,
        usage: BufferObjectFlags,
        strides: [i32; 4],
        offsets: [i32; 4],
        modifier: DrmModifier,
    ) -> (call: NativeCall)
        ensures
            call matches NativeCall::ImportBuffer {
                device,
                source: Import::FdModifier {
                    fds,
                    num_fds,
                    width: w,
                    height: h,
                    format: f,
                    strides: s,
                    offsets: o,
                    modifier: m,
                },
                usage: u,
            } && device == self.raw() && num_fds == len && w == width && h == height && f
                == fourcc_code(format) && s == strides && o == offsets && m == modifier_code(
                modifier,
            ) && u == usage@ && fds@ == Seq::new(4, |i: int| plane_fd(buffers@[i])),
    {
        let fds = [
            Self::plane_descriptor(buffers[0]),
            Self::plane_descriptor(buffers[1]),
            Self::plane_descriptor(buffers[2]),
            Self::plane_descriptor(buffers[3]),
        ];
        assert(fds@ =~= Seq::new(4, |i: int| plane_fd(buffers@[i])));
        NativeCall::ImportBuffer {
            device: self.raw,
            source: Import::FdModifier {
                fds,
                num_fds: len,
                width,
                height,
                format: format_to_code(format),
                strides,
                offsets,
                modifier: modifier_to_code(modifier),
            },
            usage: usage.bits(),
        }
    }

    fn plane_descriptor(fd: Option<i32>) -> (raw: i32)
        ensures
            raw == plane_fd(fd),
    {
        match fd {
            Some(fd) => fd,
            None => -1,
        }
    }

    /// Lets go of the device. Returns the native call that is due, which is the
    /// teardown of the device if this owner was the last and nothing otherwise,
    /// and the resource the device was opened on, which has to outlive that call.
    pub fn release<T>(self, registry: &mut Registry<T>) -> (out: (Option<NativeCall>, F))
        requires
            old(registry)@.wf(),
            self.held_by(old(registry)@),
        ensures
            final(registry)@.wf(),
            final(registry)@ == old(registry)@.release_device(self.slot()),
            out.0 == old(registry)@.device_teardown(self.slot()),
            out.0 is Some <==> old(registry)@.devices[self.slot() as int].strong == 1,
            out.0 is Some <==> !final(registry)@.device_alive(self.slot()),
            out.1 == self.descriptor(),
    {
        let call = registry.release_device(self.slot);
        (call, self.fd)
    }
}

impl<F: Clone> Device<F> {
    /// Another owner of the same native device, with a clone of the resource
    /// the device was opened on.
    pub fn clone_in<T>(&self, registry: &mut Registry<T>) -> (device: Device<F>)
        requires
            old(registry)@.wf(),
            self.held_by(old(registry)@),
            old(registry)@.devices[self.slot() as int].strong < usize::MAX,
        ensures
            final(registry)@.wf(),
            final(registry)@ == old(registry)@.clone_device(self.slot()),
            device.slot() == self.slot(),
            device.raw() == self.raw(),
            cloned(self.descriptor(), device.descriptor()),
            device.held_by(final(registry)@),
            self.held_by(final(registry)@),
    {
        registry.clone_device(self.slot);
        Device { slot: self.slot, raw: self.raw, fd: self.fd.clone() }
    }
}

impl<F> AsRaw for Device<F> {
    open spec fn raw_address(&self) -> usize {
        self.raw()
    }

    fn as_raw(&self) -> (raw: usize) {
        self.raw
    }
}

} // verus!
