//! A region of a buffer object mapped for cpu access.

use crate::buffer_object::BufferObject;
use crate::native::NativeCall;
use crate::AsRaw;
use vstd::prelude::*;

verus! {

enum BORef<'a, T> {
    Ref(&'a BufferObject<T>),
    Mut(&'a mut BufferObject<T>),
}

/// What a mapping is, to those who reason about it.
pub struct Mapping {
    /// The address of the native buffer that is mapped.
    pub buffer: usize,
    /// The bytes of the region.
    pub bytes: Seq<u8>,
    /// The handle the native library gave the mapping, to undo it by.
    pub map_data: usize,
    /// The number of bytes from one row of the region to the next.
    pub stride: u32,
    /// The height of the region.
    pub height: u32,
    /// The width of the region.
    pub width: u32,
    /// The left edge of the region.
    pub x: u32,
    /// The upper edge of the region.
    pub y: u32,
    /// Whether the region may be written.
    pub writable: bool,
}

impl Mapping {
    /// The number of bytes the mapping spans: one stride for each row.
    pub open spec fn len(self) -> int {
        self.height * self.stride
    }

    /// The call that undoes the mapping.
    pub open spec fn unmap(self) -> NativeCall {
        NativeCall::UnmapBuffer { buffer: self.buffer, map_data: self.map_data }
    }
}

/// A mapped buffer object
///
/// For as long as the value lives it borrows the buffer object: shared for a
/// mapping that is read, exclusively for one that is written. So a buffer has
/// any number of mappings that are read, or one that is written, and never both.
pub struct MappedBufferObject<'a, T> {
    bo: BORef<'a, T>,
    buffer: &'a mut [u8],
    map_data: usize,
    stride: u32,
    height: u32,
    width: u32,
    x: u32,
    y: u32,
}

impl<'a, T> MappedBufferObject<'a, T> {
    /// What the mapping is.
    pub closed spec fn view(&self) -> Mapping {
        Mapping {
            buffer: match self.bo {
                BORef::Ref(bo) => bo.raw(),
                BORef::Mut(bo) => bo.raw(),
            },
            bytes: (*self.buffer)@,
            map_data: self.map_data,
            stride: self.stride,
            height: self.height,
            width: self.width,
            x: self.x,
            y: self.y,
            writable: self.bo is Mut,
        }
    }

    pub(crate) fn shared(
        bo: &'a BufferObject<T>,
        buffer: &'a mut [u8],
        map_data: usize,
        stride: u32,
        height: u32,
        width: u32,
        x: u32,
        y: u32,
    ) -> (mapped: MappedBufferObject<'a, T>)
        ensures
            mapped@ == (Mapping {
                buffer: bo.raw(),
                bytes: old(buffer)@,
                map_data,
                stride,
                height,
                width,
                x,
                y,
                writable: false,
            }),
    {
        MappedBufferObject { bo: BORef::Ref(bo), buffer, map_data, stride, height, width, x, y }
    }

    pub(crate) fn exclusive(
        bo: &'a mut BufferObject<T>,
        buffer: &'a mut [u8],
        map_data: usize,
        stride: u32,
        height: u32,
        width: u32,
        x: u32,
        y: u32,
    ) -> (mapped: MappedBufferObject<'a, T>)
        ensures
            mapped@ == (Mapping {
                buffer: old(bo).raw(),
                bytes: old(buffer)@,
                map_data,
                stride,
                height,
                width,
                x,
                y,
                writable: true,
            }),
    {
        MappedBufferObject { bo: BORef::Mut(bo), buffer, map_data, stride, height, width, x, y }
    }

    /// Get the stride of the buffer object
    ///
    /// This is calculated by the backend when it does the allocation of the buffer.
    pub fn stride(&self) -> (stride: u32)
        ensures
            stride == self@.stride,
    {
        self.stride
    }

    /// The height of the mapped region for the buffer
    pub fn height(&self) -> (height: u32)
        ensures
            height == self@.height,
    {
        self.height
    }

    /// The width of the mapped region for the buffer
    pub fn width(&self) -> (width: u32)
        ensures
            width == self@.width,
    {
        self.width
    }

    /// The X (top left origin) starting position of the mapped region for the buffer
    pub fn x(&self) -> (x: u32)
        ensures
            x == self@.x,
    {
        self.x
    }

    /// The Y (top left origin) starting position of the mapped region for the buffer
    pub fn y(&self) -> (y: u32)
        ensures
            y == self@.y,
    {
        self.y
    }

    /// Access to the underlying image buffer
    pub fn buffer(&self) -> (bytes: &[u8])
        ensures
            bytes@ == self@.bytes,
    {
        &*self.buffer
    }

    /// Mutable access to the underlying image buffer
    pub fn buffer_mut(&mut self) -> (bytes: &mut [u8])
        ensures
            bytes@ == old(self)@.bytes,
            final(self)@ == (Mapping { bytes: final(bytes)@, ..old(self)@ }),
    {
        &mut *self.buffer
    }

    /// The number of bytes the mapping spans: one stride for each row of the
    /// region.
    pub fn len(&self) -> (len: u64)
        ensures
            len == self@.len(),
    {
        BufferObject::<T>::mapping_len(self.height, self.stride)
    }

    /// Whether the mapping may be written.
    pub fn is_writable(&self) -> (writable: bool)
        ensures
            writable == self@.writable,
    {
        match &self.bo {
            BORef::Ref(_) => false,
            BORef::Mut(_) => true,
        }
    }

    /// The name of the way the region is mapped: `"read"` or `"write"`.
    pub fn mode(&self) -> (mode: &'static str)
        ensures
            mode@ == if self@.writable {
                "write"@
            } else {
                "read"@
            },
    {
        match &self.bo {
            BORef::Ref(_) => "read",
            BORef::Mut(_) => "write",
        }
    }

    /// The buffer object that is mapped.
    pub fn buffer_object(&self) -> (bo: &BufferObject<T>)
        ensures
            bo.raw() == self@.buffer,
    {
        match &self.bo {
            BORef::Ref(bo) => bo,
            BORef::Mut(bo) => bo,
        }
    }

    /// The buffer object that is mapped, to change it.
    pub fn buffer_object_mut(&mut self) -> (bo: &mut BufferObject<T>)
        requires
            old(self)@.writable,
        ensures
            bo.raw() == old(self)@.buffer,
    {
        match &mut self.bo {
            BORef::Ref(_) => vstd::pervasive::unreached(),
            BORef::Mut(bo) => bo,
        }
    }

    /// Ends the mapping, and returns the call that undoes it.
    pub fn unmap(self) -> (call: NativeCall)
        ensures
            call == self@.unmap(),
    {
        let buffer = self.buffer_object().as_raw();
        NativeCall::UnmapBuffer { buffer, map_data: self.map_data }
    }
}

} // verus!
