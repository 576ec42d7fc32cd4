//! The calls into the native library, as values.
//!
//! Nothing in this crate reaches the native library. An operation that needs it
//! returns the call to make; whoever embeds the crate makes the call and reports
//! the answer to the operation that continues from there.

use vstd::prelude::*;

verus! {

/// Transfer flag of a mapping that is only read.
pub const TRANSFER_READ: u32 = 1;

/// Transfer flag of a mapping that is read and written.
pub const TRANSFER_READ_WRITE: u32 = 3;

/// A foreign object to turn into a buffer object.
#[derive(Debug, Clone, PartialEq, Eq)]
pub enum Import {
    /// A buffer of the windowing protocol, by the address of its resource.
    WaylandBuffer { resource: usize },
    /// An external image, by its handle.
    EglImage { image: usize },
    /// A DMA buffer with a single plane.
    Fd { fd: i32, width: u32, height: u32, stride: u32, format: u32 },
    /// A DMA buffer with up to four planes and an explicit modifier.
    FdModifier {
        fds: [i32; 4],
        num_fds: u32,
        width: u32,
        height: u32,
        format: u32,
        strides: [i32; 4],
        offsets: [i32; 4],
        modifier: u64,
    },
}

/// One call into the native library, with its arguments.
///
/// Devices, surfaces and buffers are given by the address the native library
/// returned for them; formats, modifiers and usage flags by their numeric codes.
#[derive(Debug, Clone, PartialEq, Eq)]
pub enum NativeCall {
    /// Open a device on a file descriptor.
    CreateDevice { fd: i32 },
    /// Tear a device down.
    DestroyDevice { device: usize },
    /// Ask for the file descriptor a device was opened on.
    DeviceFd { device: usize },
    /// Ask for the name of the backend.
    BackendName { device: usize },
    /// Ask whether a format can be allocated for a usage.
    IsFormatSupported { device: usize, format: u32, usage: u32 },
    /// Ask how many planes a format has under a modifier.
    FormatModifierPlaneCount { device: usize, format: u32, modifier: u64 },
    /// Allocate a surface.
    CreateSurface { device: usize, width: u32, height: u32, format: u32, usage: u32 },
    /// Allocate a surface, choosing among modifiers.
    CreateSurfaceWithModifiers {
        device: usize,
        width: u32,
        height: u32,
        format: u32,
        modifiers: Vec<u64>,
        count: u32,
    },
    /// Allocate a surface, choosing among modifiers, for a usage.
    CreateSurfaceWithModifiers2 {
        device: usize,
        width: u32,
        height: u32,
        format: u32,
        modifiers: Vec<u64>,
        count: u32,
        usage: u32,
    },
    /// Tear a surface down.
    DestroySurface { surface: usize },
    /// Ask whether a surface has a buffer left to render into.
    HasFreeBuffers { surface: usize },
    /// Lock the front buffer of a surface.
    LockFrontBuffer { surface: usize },
    /// Give a locked buffer back to its surface.
    ReleaseBuffer { surface: usize, buffer: usize },
    /// Allocate a buffer.
    CreateBuffer { device: usize, width: u32, height: u32, format: u32, usage: u32 },
    /// Allocate a buffer, choosing among modifiers.
    CreateBufferWithModifiers {
        device: usize,
        width: u32,
        height: u32,
        format: u32,
        modifiers: Vec<u64>,
        count: u32,
    },
    /// Allocate a buffer, choosing among modifiers, for a usage.
    CreateBufferWithModifiers2 {
        device: usize,
        width: u32,
        height: u32,
        format: u32,
        modifiers: Vec<u64>,
        count: u32,
        usage: u32,
    },
    /// Make a buffer out of a foreign object.
    ImportBuffer { device: usize, source: Import, usage: u32 },
    /// Tear a buffer down.
    DestroyBuffer { buffer: usize },
    /// Ask for the width of a buffer.
    BufferWidth { buffer: usize },
    /// Ask for the height of a buffer.
    BufferHeight { buffer: usize },
    /// Ask for the stride of a buffer.
    BufferStride { buffer: usize },
    /// Ask for the stride of one plane.
    BufferStrideForPlane { buffer: usize, plane: i32 },
    /// Ask for the format code of a buffer.
    BufferFormat { buffer: usize },
    /// Ask for the bits per pixel of a buffer.
    BufferBpp { buffer: usize },
    /// Ask for the offset of one plane.
    BufferOffset { buffer: usize, plane: i32 },
    /// Ask for the number of planes.
    BufferPlaneCount { buffer: usize },
    /// Ask for the modifier code of a buffer.
    BufferModifier { buffer: usize },
    /// Ask for the platform handle of a buffer.
    BufferHandle { buffer: usize },
    /// Ask for the platform handle of one plane.
    BufferHandleForPlane { buffer: usize, plane: i32 },
    /// Export a buffer as a new file descriptor.
    BufferFd { buffer: usize },
    /// Export one plane as a new file descriptor.
    BufferFdForPlane { buffer: usize, plane: i32 },
    /// Map a region of a buffer into the address space.
    MapBuffer { buffer: usize, x: u32, y: u32, width: u32, height: u32, flags: u32 },
    /// Undo a mapping.
    UnmapBuffer { buffer: usize, map_data: usize },
    /// Copy bytes into a buffer.
    WriteBuffer { buffer: usize, len: usize },
}

} // verus!
