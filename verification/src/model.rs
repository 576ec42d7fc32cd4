//! What a registry holds, as sequences of plain records, and what each
//! operation makes of it.
//!
//! Devices, surfaces and buffers are numbered in the order in which they were
//! registered. A surface and a buffer name their device by its number, and a
//! buffer that came out of a surface names that surface by its number. Such a
//! number is a weak reference: it keeps nothing alive.

use crate::handle::PtrState;
use crate::native::NativeCall;
use vstd::prelude::*;

verus! {

/// What is due to a native object when its last owner lets go.
#[derive(Debug, Clone, Copy, PartialEq, Eq, Structural)]
pub enum Destructor {
    /// Tear the device down.
    DestroyDevice,
    /// Tear the surface down, if its device still lives.
    DestroySurface,
    /// Tear the buffer down, if its device still lives.
    DestroyBuffer,
    /// Give the buffer back to the surface it was locked from, if that surface
    /// and its device still live.
    ReleaseBuffer { surface: usize },
}

/// A registered surface.
pub struct SurfaceState {
    /// The shared handle of the native surface.
    pub handle: PtrState<Destructor>,
    /// The number of the device the surface belongs to.
    pub device: usize,
}

/// A registered buffer.
pub struct BufferState<T> {
    /// The shared handle of the native buffer.
    pub handle: PtrState<Destructor>,
    /// The number of the device the buffer belongs to.
    pub device: usize,
    /// The number of the surface the buffer was locked from, if it was.
    pub surface: Option<usize>,
    /// The payload attached to the buffer.
    pub userdata: Option<T>,
    /// Whether the native buffer is gone for good.
    pub retired: bool,
}

impl<T> BufferState<T> {
    /// A buffer that was given back to its surface and can be locked again.
    pub open spec fn parked(self) -> bool {
        self.surface is Some && !self.handle.alive() && !self.retired
    }

    /// The destructor the handle of this buffer was made with.
    pub open spec fn destructor(self) -> Destructor {
        match self.surface {
            Some(surface) => Destructor::ReleaseBuffer { surface },
            None => Destructor::DestroyBuffer,
        }
    }

    /// The buffer when surface `s` goes away: a buffer parked at `s` goes with
    /// it and loses its payload, any other buffer stays as it is.
    pub open spec fn without_surface(self, s: usize) -> Self {
        if self.surface == Some(s) && self.parked() {
            BufferState { userdata: None, retired: true, ..self }
        } else {
            self
        }
    }
}

/// Everything a registry holds.
#[verifier::ext_equal]
pub struct RegistryState<T> {
    /// The handles of the devices, by number.
    pub devices: Seq<PtrState<Destructor>>,
    /// The surfaces, by number.
    pub surfaces: Seq<SurfaceState>,
    /// The buffers, by number.
    pub buffers: Seq<BufferState<T>>,
}

impl<T> RegistryState<T> {
    /// The registry without anything in it.
    pub open spec fn empty() -> Self {
        RegistryState { devices: Seq::empty(), surfaces: Seq::empty(), buffers: Seq::empty() }
    }

    /// Every object has a number that fits the machine, every handle is
    /// well-formed and carries the destructor of its kind, a surface and a
    /// buffer have one owner at most, and every reference names something that
    /// was registered.
    pub open spec fn wf(self) -> bool {
        &&& self.devices.len() <= usize::MAX
        &&& self.surfaces.len() <= usize::MAX
        &&& self.buffers.len() <= usize::MAX
        &&& forall|d: int|
            0 <= d < self.devices.len() ==> {
                &&& (#[trigger] self.devices[d]).wf()
                &&& self.devices[d].alive() ==> self.devices[d].destructor == Some(
                    Destructor::DestroyDevice,
                )
            }
        &&& forall|s: int|
            0 <= s < self.surfaces.len() ==> {
                &&& (#[trigger] self.surfaces[s]).handle.wf()
                &&& self.surfaces[s].handle.strong <= 1
                &&& self.surfaces[s].device < self.devices.len()
                &&& self.surfaces[s].handle.alive() ==> self.surfaces[s].handle.destructor == Some(
                    Destructor::DestroySurface,
                )
            }
        &&& forall|b: int|
            0 <= b < self.buffers.len() ==> {
                &&& (#[trigger] self.buffers[b]).handle.wf()
                &&& self.buffers[b].handle.strong <= 1
                &&& self.buffers[b].device < self.devices.len()
                &&& self.buffers[b].handle.alive() ==> self.buffers[b].handle.destructor == Some(
                    self.buffers[b].destructor(),
                )
                &&& self.buffers[b].surface matches Some(s) ==> s < self.surfaces.len()
                    && self.surfaces[s as int].device == self.buffers[b].device
                &&& self.buffers[b].retired ==> !self.buffers[b].handle.alive()
                    && self.buffers[b].userdata is None
                &&& self.buffers[b].surface is None && !self.buffers[b].handle.alive()
                    ==> self.buffers[b].retired
            }
    }

    /// Whether device `d` has an owner.
    pub open spec fn device_alive(self, d: usize) -> bool {
        d < self.devices.len() && self.devices[d as int].alive()
    }

    /// Whether surface `s` has an owner.
    pub open spec fn surface_alive(self, s: usize) -> bool {
        s < self.surfaces.len() && self.surfaces[s as int].handle.alive()
    }

    /// Whether surface `s` has an owner and its device lives.
    pub open spec fn surface_usable(self, s: usize) -> bool {
        self.surface_alive(s) && self.device_alive(self.surfaces[s as int].device)
    }

    /// Whether buffer `b` has an owner.
    pub open spec fn buffer_alive(self, b: usize) -> bool {
        b < self.buffers.len() && self.buffers[b as int].handle.alive()
    }

    /// Whether buffer `b` has an owner and its device lives.
    pub open spec fn buffer_usable(self, b: usize) -> bool {
        self.buffer_alive(b) && self.device_alive(self.buffers[b as int].device)
    }

    /// Whether some owner holds the buffer at address `raw` of surface `s`.
    pub open spec fn locked(self, s: usize, raw: usize) -> bool {
        exists|b: int|
            0 <= b < self.buffers.len() && (#[trigger] self.buffers[b]).surface == Some(s)
                && self.buffers[b].handle.raw == raw && self.buffers[b].handle.alive()
    }

    /// The registry with one more device, at address `raw`, with one owner.
    pub open spec fn with_device(self, raw: usize) -> Self {
        RegistryState {
            devices: self.devices.push(PtrState::fresh(raw, Destructor::DestroyDevice)),
            ..self
        }
    }

    /// The registry after an owner of device `d` cloned its handle. Where
    /// there is no owner there is nothing to clone.
    pub open spec fn clone_device(self, d: usize) -> Self {
        RegistryState {
            devices: self.devices.update(d as int, self.devices[d as int].upgraded()),
            ..self
        }
    }

    /// The registry after an owner of device `d` let go.
    pub open spec fn release_device(self, d: usize) -> Self {
        RegistryState {
            devices: self.devices.update(d as int, self.devices[d as int].released()),
            ..self
        }
    }

    /// The native call that is due when an owner of device `d` lets go.
    pub open spec fn device_teardown(self, d: usize) -> Option<NativeCall> {
        if self.devices[d as int].due() is Some {
            Some(NativeCall::DestroyDevice { device: self.devices[d as int].raw })
        } else {
            None
        }
    }

    /// The registry with one more surface of device `d`, at address `raw`.
    pub open spec fn with_surface(self, d: usize, raw: usize) -> Self {
        RegistryState {
            surfaces: self.surfaces.push(
                SurfaceState { handle: PtrState::fresh(raw, Destructor::DestroySurface), device: d },
            ),
            ..self
        }
    }

    /// The registry after the owner of surface `s` let go: the buffers parked
    /// at the surface go with it.
    pub open spec fn release_surface(self, s: usize) -> Self {
        let surface = self.surfaces[s as int];
        RegistryState {
            surfaces: self.surfaces.update(
                s as int,
                SurfaceState { handle: surface.handle.released(), ..surface },
            ),
            buffers: if surface.handle.due() is Some {
                Seq::new(self.buffers.len(), |b: int| self.buffers[b].without_surface(s))
            } else {
                self.buffers
            },
            ..self
        }
    }

    /// The native call that is due when the owner of surface `s` lets go:
    /// none if the device is gone, for the surface went with it.
    pub open spec fn surface_teardown(self, s: usize) -> Option<NativeCall> {
        let surface = self.surfaces[s as int];
        if surface.handle.due() is Some && self.device_alive(surface.device) {
            Some(NativeCall::DestroySurface { surface: surface.handle.raw })
        } else {
            None
        }
    }

    /// The first buffer at or after number `from` whose native buffer is gone
    /// for good.
    pub open spec fn retired_from(self, from: int) -> Option<usize>
        decreases self.buffers.len() - from,
    {
        if from < 0 || from >= self.buffers.len() {
            None
        } else if self.buffers[from].retired {
            Some(from as usize)
        } else {
            self.retired_from(from + 1)
        }
    }

    /// The number that the next buffer is registered under: the first one
    /// whose buffer is gone for good, or else a new one.
    pub open spec fn vacancy(self) -> usize {
        match self.retired_from(0) {
            Some(b) => b,
            None => self.buffers.len() as usize,
        }
    }

    /// The registry with `buffer` registered under the next number.
    pub open spec fn place(self, buffer: BufferState<T>) -> Self {
        RegistryState {
            buffers: match self.retired_from(0) {
                Some(b) => self.buffers.update(b as int, buffer),
                None => self.buffers.push(buffer),
            },
            ..self
        }
    }

    /// The registry with a buffer of device `d`, at address `raw`, that
    /// belongs to no surface, registered under the next number.
    pub open spec fn with_buffer(self, d: usize, raw: usize) -> Self {
        self.place(
            BufferState {
                handle: PtrState::fresh(raw, Destructor::DestroyBuffer),
                device: d,
                surface: None,
                userdata: None,
                retired: false,
            },
        )
    }

    /// The first buffer at or after number `from` that is parked at surface `s`
    /// under the address `raw`.
    pub open spec fn parked_from(self, s: usize, raw: usize, from: int) -> Option<usize>
        decreases self.buffers.len() - from,
    {
        if from < 0 || from >= self.buffers.len() {
            None
        } else if self.buffers[from].surface == Some(s) && self.buffers[from].handle.raw == raw
            && self.buffers[from].parked() {
            Some(from as usize)
        } else {
            self.parked_from(s, raw, from + 1)
        }
    }

    /// The number under which the buffer at address `raw`, locked from surface
    /// `s`, is registered: the one it was parked under, or else the next.
    pub open spec fn locked_slot(self, s: usize, raw: usize) -> usize {
        match self.parked_from(s, raw, 0) {
            Some(b) => b,
            None => self.vacancy(),
        }
    }

    /// The registry after surface `s` handed out its front buffer at address
    /// `raw`. A buffer that was parked keeps its payload.
    pub open spec fn lock(self, s: usize, raw: usize) -> Self {
        let handle = PtrState::fresh(raw, Destructor::ReleaseBuffer { surface: s });
        match self.parked_from(s, raw, 0) {
            Some(b) => RegistryState {
                buffers: self.buffers.update(
                    b as int,
                    BufferState { handle, ..self.buffers[b as int] },
                ),
                ..self
            },
            None => self.place(
                BufferState {
                    handle,
                    device: self.surfaces[s as int].device,
                    surface: Some(s),
                    userdata: None,
                    retired: false,
                },
            ),
        }
    }

    /// Whether buffer `b`, when its owner lets go, returns to a surface that
    /// can hand it out again.
    pub open spec fn parks(self, b: usize) -> bool {
        self.buffers[b as int].surface matches Some(s) && self.surface_usable(s)
    }

    /// The registry after the owner of buffer `b` let go. A buffer that returns
    /// to its surface keeps its payload; any other is gone, and its payload
    /// with it.
    pub open spec fn release_buffer(self, b: usize) -> Self {
        let buffer = self.buffers[b as int];
        let handle = buffer.handle.released();
        RegistryState {
            buffers: self.buffers.update(
                b as int,
                if buffer.handle.due() is Some && !self.parks(b) {
                    BufferState { handle, userdata: None, retired: true, ..buffer }
                } else {
                    BufferState { handle, ..buffer }
                },
            ),
            ..self
        }
    }

    /// The native call that is due when the owner of buffer `b` lets go. A
    /// buffer locked from a surface is given back to it, and nothing is done if
    /// the surface or the device is gone. Any other buffer is torn down, and
    /// nothing is done if the device is gone.
    pub open spec fn buffer_teardown(self, b: usize) -> Option<NativeCall> {
        let buffer = self.buffers[b as int];
        if buffer.handle.due() is Some {
            match buffer.surface {
                Some(s) => if self.surface_usable(s) {
                    Some(
                        NativeCall::ReleaseBuffer {
                            surface: self.surfaces[s as int].handle.raw,
                            buffer: buffer.handle.raw,
                        },
                    )
                } else {
                    None
                },
                None => if self.device_alive(buffer.device) {
                    Some(NativeCall::DestroyBuffer { buffer: buffer.handle.raw })
                } else {
                    None
                },
            }
        } else {
            None
        }
    }

    /// The registry with `userdata` as the payload of buffer `b`.
    pub open spec fn with_userdata(self, b: usize, userdata: Option<T>) -> Self {
        RegistryState {
            buffers: self.buffers.update(
                b as int,
                BufferState { userdata, ..self.buffers[b as int] },
            ),
            ..self
        }
    }

    /// The payload of buffer `b`.
    pub open spec fn userdata(self, b: usize) -> Option<T> {
        self.buffers[b as int].userdata
    }
}

/// A search for a parked buffer finds one that is parked at that surface under
/// that address, and the first such; it finds none only if there is none.
pub proof fn lemma_parked_from<T>(state: RegistryState<T>, s: usize, raw: usize, from: int)
    requires
        0 <= from,
        state.buffers.len() <= usize::MAX,
    ensures
        match state.parked_from(s, raw, from) {
            Some(b) => {
                &&& from <= b < state.buffers.len()
                &&& state.buffers[b as int].surface == Some(s)
                &&& state.buffers[b as int].handle.raw == raw
                &&& state.buffers[b as int].parked()
                &&& forall|k: int|
                    from <= k < b ==> !((#[trigger] state.buffers[k]).surface == Some(s)
                        && state.buffers[k].handle.raw == raw && state.buffers[k].parked())
            },
            None => forall|k: int|
                from <= k < state.buffers.len() ==> !((#[trigger] state.buffers[k]).surface
                    == Some(s) && state.buffers[k].handle.raw == raw && state.buffers[k].parked()),
        },
    decreases state.buffers.len() - from,
{
    if from < state.buffers.len() {
        lemma_parked_from(state, s, raw, from + 1);
    }
}

/// A search for a buffer that is gone finds one that is gone, and the first
/// such; it finds none only if there is none.
pub proof fn lemma_retired_from<T>(state: RegistryState<T>, from: int)
    requires
        0 <= from,
        state.buffers.len() <= usize::MAX,
    ensures
        match state.retired_from(from) {
            Some(b) => {
                &&& from <= b < state.buffers.len()
                &&& state.buffers[b as int].retired
                &&& forall|k: int| from <= k < b ==> !(#[trigger] state.buffers[k]).retired
            },
            None => forall|k: int|
                from <= k < state.buffers.len() ==> !(#[trigger] state.buffers[k]).retired,
        },
    decreases state.buffers.len() - from,
{
    if from < state.buffers.len() {
        lemma_retired_from(state, from + 1);
    }
}

/// Whether the machine has a number left for one more buffer.
pub open spec fn has_vacancy<T>(state: RegistryState<T>) -> bool {
    state.buffers.len() < usize::MAX || state.retired_from(0) is Some
}

/// Every operation that is made on a well-formed registry, with numbers that
/// name what the operation needs alive, leaves a well-formed registry, as long
/// as the machine has a number left for what the operation registers.
pub proof fn lemma_operations_preserve_wf<T>(state: RegistryState<T>)
    requires
        state.wf(),
    ensures
        forall|raw: usize|
            raw != 0 && state.devices.len() < usize::MAX ==> (#[trigger] state.with_device(
                raw,
            )).wf(),
        forall|d: usize| state.device_alive(d) ==> (#[trigger] state.clone_device(d)).wf(),
        forall|d: usize| state.device_alive(d) ==> (#[trigger] state.release_device(d)).wf(),
        forall|d: usize, raw: usize|
            raw != 0 && d < state.devices.len() && state.surfaces.len() < usize::MAX ==> (
            #[trigger] state.with_surface(d, raw)).wf(),
        forall|s: usize| state.surface_alive(s) ==> (#[trigger] state.release_surface(s)).wf(),
        forall|d: usize, raw: usize|
            raw != 0 && d < state.devices.len() && has_vacancy(state) ==> (
            #[trigger] state.with_buffer(d, raw)).wf(),
        forall|s: usize, raw: usize|
            raw != 0 && s < state.surfaces.len() && (has_vacancy(state) || state.parked_from(
                s,
                raw,
                0,
            ) is Some) ==> (#[trigger] state.lock(s, raw)).wf(),
        forall|b: usize| state.buffer_alive(b) ==> (#[trigger] state.release_buffer(b)).wf(),
        forall|b: usize, userdata: Option<T>|
            state.buffer_alive(b) ==> (#[trigger] state.with_userdata(b, userdata)).wf(),
{
    lemma_retired_from(state, 0);
    assert forall|s: usize, raw: usize|
        raw != 0 && s < state.surfaces.len() && (has_vacancy(state) || state.parked_from(
            s,
            raw,
            0,
        ) is Some) implies (#[trigger] state.lock(s, raw)).wf() by {
        lemma_parked_from(state, s, raw, 0);
    }
}

} // verus!
