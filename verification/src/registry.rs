//! The registry: the books on every device, surface and buffer.

use crate::handle::Ptr;
use crate::model::{BufferState, Destructor, RegistryState, SurfaceState};
use crate::model::lemma_operations_preserve_wf;
use crate::model::has_vacancy;
use crate::model::lemma_parked_from;
use crate::model::lemma_retired_from;
use crate::native::NativeCall;
use vstd::prelude::*;

verus! {

pub(crate) struct SurfaceSlot {
    pub(crate) ffi: Ptr<Destructor>,
    pub(crate) device: usize,
}

impl SurfaceSlot {
    pub(crate) open spec fn view(&self) -> SurfaceState {
        SurfaceState { handle: self.ffi@, device: self.device }
    }
}

pub(crate) struct BufferSlot<T> {
    pub(crate) ffi: Ptr<Destructor>,
    pub(crate) device: usize,
    pub(crate) surface: Option<usize>,
    pub(crate) userdata: Option<T>,
    pub(crate) retired: bool,
}

impl<T> BufferSlot<T> {
    pub(crate) open spec fn view(&self) -> BufferState<T> {
        BufferState {
            handle: self.ffi@,
            device: self.device,
            surface: self.surface,
            userdata: self.userdata,
            retired: self.retired,
        }
    }
}

/// The books on the devices, surfaces and buffers of one embedding.
///
/// A device and a surface keep their numbers for good, so that a number says
/// that its object is gone once it is. The number of a buffer is free again
/// once the native buffer is gone, and goes to the next buffer registered.
pub struct Registry<T> {
    devices: Vec<Ptr<Destructor>>,
    surfaces: Vec<SurfaceSlot>,
    buffers: Vec<BufferSlot<T>>,
}

impl<T> Registry<T> {
    /// What the registry holds.
    pub closed spec fn view(&self) -> RegistryState<T> {
        RegistryState {
            devices: Seq::new(self.devices@.len(), |i: int| self.devices@[i]@),
            surfaces: Seq::new(self.surfaces@.len(), |i: int| self.surfaces@[i]@),
            buffers: Seq::new(self.buffers@.len(), |i: int| self.buffers@[i]@),
        }
    }

    proof fn lemma_bounded(&self)
        ensures
            self@.devices.len() == self.devices.len() <= usize::MAX,
            self@.surfaces.len() == self.surfaces.len() <= usize::MAX,
            self@.buffers.len() == self.buffers.len() <= usize::MAX,
    {
    }

    /// A registry without anything in it.
    pub fn new() -> (registry: Registry<T>)
        ensures
            registry@ == RegistryState::<T>::empty(),
            registry@.wf(),
    {
        let registry = Registry { devices: Vec::new(), surfaces: Vec::new(), buffers: Vec::new() };
        proof {
            registry.lemma_bounded();
        }
        assert(registry@ =~= RegistryState::<T>::empty());
        registry
    }

    /// Whether device number `d` has an owner.
    pub fn device_alive(&self, d: usize) -> (alive: bool)
        ensures
            alive == self@.device_alive(d),
    {
        d < self.devices.len() && self.devices[d].is_alive()
    }

    /// Whether surface number `s` has an owner and its device lives.
    pub fn surface_usable(&self, s: usize) -> (usable: bool)
        ensures
            usable == self@.surface_usable(s),
    {
        s < self.surfaces.len() && self.surfaces[s].ffi.is_alive() && self.device_alive(
            self.surfaces[s].device,
        )
    }

    /// Whether buffer number `b` has an owner and its device lives.
    pub fn buffer_usable(&self, b: usize) -> (usable: bool)
        ensures
            usable == self@.buffer_usable(b),
    {
        b < self.buffers.len() && self.buffers[b].ffi.is_alive() && self.device_alive(
            self.buffers[b].device,
        )
    }

    /// How many owners device number `d` has; none if there is no such device.
    pub fn device_owners(&self, d: usize) -> (owners: usize)
        ensures
            owners == if d < self@.devices.len() {
                self@.devices[d as int].strong
            } else {
                0
            },
    {
        if d < self.devices.len() {
            self.devices[d].strong_count()
        } else {
            0
        }
    }

    /// Whether some owner holds the buffer at address `raw` of surface number `s`.
    pub fn is_locked(&self, s: usize, raw: usize) -> (locked: bool)
        ensures
            locked == self@.locked(s, raw),
    {
        let mut b: usize = 0;
        while b < self.buffers.len()
            invariant
                b <= self.buffers.len(),
                forall|k: int|
                    0 <= k < b ==> !((#[trigger] self@.buffers[k]).surface == Some(s)
                        && self@.buffers[k].handle.raw == raw && self@.buffers[k].handle.alive()),
            decreases self.buffers.len() - b,
        {
            let slot = &self.buffers[b];
            if slot.surface == Some(s) && slot.ffi.as_raw() == raw && slot.ffi.is_alive() {
                assert(self@.buffers[b as int].surface == Some(s));
                return true;
            }
            b = b + 1;
        }
        false
    }

    pub(crate) fn add_device(&mut self, raw: usize) -> (d: usize)
        requires
            old(self)@.wf(),
            raw != 0,
        ensures
            final(self)@ == old(self)@.with_device(raw),
            final(self)@.wf(),
            d == old(self)@.devices.len(),
    {
        proof {
            lemma_operations_preserve_wf(self@);
        }
        let d = self.devices.len();
        self.devices.push(Ptr::new(raw, Destructor::DestroyDevice));
        proof {
            self.lemma_bounded();
        }
        assert(self@ =~= old(self)@.with_device(raw));
        d
    }

    pub(crate) fn clone_device(&mut self, d: usize)
        requires
            old(self)@.wf(),
            old(self)@.device_alive(d),
            old(self)@.devices[d as int].strong < usize::MAX,
        ensures
            final(self)@ == old(self)@.clone_device(d),
            final(self)@.wf(),
    {
        proof {
            lemma_operations_preserve_wf(self@);
        }
        self.devices[d].acquire();
        assert(self@ =~= old(self)@.clone_device(d));
    }

    pub(crate) fn upgrade_device(&mut self, d: usize) -> (upgraded: bool)
        requires
            old(self)@.wf(),
            d < old(self)@.devices.len(),
            old(self)@.devices[d as int].strong < usize::MAX,
        ensures
            final(self)@ == old(self)@.clone_device(d),
            final(self)@.wf(),
            upgraded == old(self)@.device_alive(d),
            !upgraded ==> final(self)@ == old(self)@,
    {
        proof {
            lemma_operations_preserve_wf(self@);
        }
        let upgraded = self.devices[d].upgrade();
        assert(self@ =~= old(self)@.clone_device(d));
        assert(!upgraded ==> self@.devices =~= old(self)@.devices);
        upgraded
    }

    pub(crate) fn release_device(&mut self, d: usize) -> (call: Option<NativeCall>)
        requires
            old(self)@.wf(),
            old(self)@.device_alive(d),
        ensures
            final(self)@ == old(self)@.release_device(d),
            final(self)@.wf(),
            call == old(self)@.device_teardown(d),
    {
        proof {
            lemma_operations_preserve_wf(self@);
        }
        let raw = self.devices[d].as_raw();
        let due = self.devices[d].release();
        assert(self@ =~= old(self)@.release_device(d));
        match due {
            Some(_) => Some(NativeCall::DestroyDevice { device: raw }),
            None => None,
        }
    }

    pub(crate) fn add_surface(&mut self, d: usize, raw: usize) -> (s: usize)
        requires
            old(self)@.wf(),
            d < old(self)@.devices.len(),
            raw != 0,
        ensures
            final(self)@ == old(self)@.with_surface(d, raw),
            final(self)@.wf(),
            s == old(self)@.surfaces.len(),
    {
        proof {
            lemma_operations_preserve_wf(self@);
        }
        let s = self.surfaces.len();
        self.surfaces.push(
            SurfaceSlot { ffi: Ptr::new(raw, Destructor::DestroySurface), device: d },
        );
        proof {
            self.lemma_bounded();
        }
        assert(self@ =~= old(self)@.with_surface(d, raw));
        s
    }

    pub(crate) fn release_surface(&mut self, s: usize) -> (call: Option<NativeCall>)
        requires
            old(self)@.wf(),
            old(self)@.surface_alive(s),
        ensures
            final(self)@ == old(self)@.release_surface(s),
            final(self)@.wf(),
            call == old(self)@.surface_teardown(s),
    {
        proof {
            lemma_operations_preserve_wf(self@);
        }
        let raw = self.surfaces[s].ffi.as_raw();
        let device_alive = self.device_alive(self.surfaces[s].device);
        let due = self.surfaces[s].ffi.release();
        assert(self@.devices =~= old(self)@.devices);
        assert(self@.surfaces =~= old(self)@.release_surface(s).surfaces);
        assert(self@.buffers =~= old(self)@.buffers);
        match due {
            Some(_) => {
                self.retire_parked(s);
                assert(self@.buffers =~= old(self)@.release_surface(s).buffers);
                if device_alive {
                    Some(NativeCall::DestroySurface { surface: raw })
                } else {
                    None
                }
            },
            None => None,
        }
    }

    fn retire_parked(&mut self, s: usize)
        ensures
            final(self)@.devices == old(self)@.devices,
            final(self)@.surfaces == old(self)@.surfaces,
            final(self)@.buffers == Seq::new(
                old(self)@.buffers.len(),
                |b: int| old(self)@.buffers[b].without_surface(s),
            ),
    {
        let mut b: usize = 0;
        while b < self.buffers.len()
            invariant
                b <= self.buffers.len(),
                self.buffers.len() == old(self).buffers.len(),
                self.devices == old(self).devices,
                self.surfaces == old(self).surfaces,
                forall|k: int|
                    0 <= k < b ==> (#[trigger] self.buffers@[k])@
                        == old(self).buffers@[k]@.without_surface(s),
                forall|k: int|
                    b <= k < self.buffers.len() ==> #[trigger] self.buffers@[k]
                        == old(self).buffers@[k],
            decreases self.buffers.len() - b,
        {
            if self.buffers[b].surface == Some(s) && !self.buffers[b].ffi.is_alive()
                && !self.buffers[b].retired {
                self.buffers[b].userdata = None;
                self.buffers[b].retired = true;
            }
            b = b + 1;
        }
        assert(self@.buffers =~= Seq::new(
            old(self)@.buffers.len(),
            |b: int| old(self)@.buffers[b].without_surface(s),
        ));
        assert(self@.devices =~= old(self)@.devices);
        assert(self@.surfaces =~= old(self)@.surfaces);
    }

    fn find_retired(&self) -> (found: Option<usize>)
        ensures
            found == self@.retired_from(0),
    {
        let mut b: usize = 0;
        while b < self.buffers.len()
            invariant
                b <= self.buffers.len(),
                self@.retired_from(0) == self@.retired_from(b as int),
            decreases self.buffers.len() - b,
        {
            if self.buffers[b].retired {
                return Some(b);
            }
            b = b + 1;
        }
        None
    }

    fn place(&mut self, slot: BufferSlot<T>) -> (b: usize)
        ensures
            final(self)@ == old(self)@.place(slot@),
            final(self)@.buffers.len() <= usize::MAX,
            b == old(self)@.vacancy(),
    {
        proof {
            self.lemma_bounded();
            lemma_retired_from(self@, 0);
        }
        match self.find_retired() {
            Some(b) => {
                self.buffers[b] = slot;
                assert(self@ =~= old(self)@.place(slot@));
                b
            },
            None => {
                let b = self.buffers.len();
                self.buffers.push(slot);
                proof {
                    self.lemma_bounded();
                }
                assert(self@ =~= old(self)@.place(slot@));
                b
            },
        }
    }

    pub(crate) fn add_buffer(&mut self, d: usize, raw: usize) -> (b: usize)
        requires
            old(self)@.wf(),
            d < old(self)@.devices.len(),
            raw != 0,
        ensures
            final(self)@ == old(self)@.with_buffer(d, raw),
            final(self)@.wf(),
            b == old(self)@.vacancy(),
    {
        let b = self.place(
            BufferSlot {
                ffi: Ptr::new(raw, Destructor::DestroyBuffer),
                device: d,
                surface: None,
                userdata: None,
                retired: false,
            },
        );
        proof {
            assert(has_vacancy(old(self)@));
            assert(self@ == old(self)@.with_buffer(d, raw));
            lemma_operations_preserve_wf(old(self)@);
        }
        b
    }

    fn find_parked(&self, s: usize, raw: usize) -> (found: Option<usize>)
        ensures
            found == self@.parked_from(s, raw, 0),
    {
        let mut b: usize = 0;
        while b < self.buffers.len()
            invariant
                b <= self.buffers.len(),
                self@.parked_from(s, raw, 0) == self@.parked_from(s, raw, b as int),
            decreases self.buffers.len() - b,
        {
            let slot = &self.buffers[b];
            if slot.surface == Some(s) && slot.ffi.as_raw() == raw && !slot.ffi.is_alive()
                && !slot.retired {
                return Some(b);
            }
            b = b + 1;
        }
        None
    }

    pub(crate) fn lock(&mut self, s: usize, raw: usize) -> (b: usize)
        requires
            old(self)@.wf(),
            s < old(self)@.surfaces.len(),
            raw != 0,
        ensures
            final(self)@ == old(self)@.lock(s, raw),
            final(self)@.wf(),
            b == old(self)@.locked_slot(s, raw),
    {
        proof {
            self.lemma_bounded();
            lemma_operations_preserve_wf(self@);
            lemma_parked_from(self@, s, raw, 0);
        }
        let ffi = Ptr::new(raw, Destructor::ReleaseBuffer { surface: s });
        match self.find_parked(s, raw) {
            Some(b) => {
                self.buffers[b].ffi = ffi;
                assert(self@ =~= old(self)@.lock(s, raw));
                b
            },
            None => {
                let device = self.surfaces[s].device;
                let b = self.place(
                    BufferSlot { ffi, device, surface: Some(s), userdata: None, retired: false },
                );
                proof {
                    assert(has_vacancy(old(self)@));
                    lemma_operations_preserve_wf(old(self)@);
                }
                b
            },
        }
    }

    pub(crate) fn release_buffer(&mut self, b: usize) -> (call: Option<NativeCall>)
        requires
            old(self)@.wf(),
            old(self)@.buffer_alive(b),
        ensures
            final(self)@ == old(self)@.release_buffer(b),
            final(self)@.wf(),
            call == old(self)@.buffer_teardown(b),
    {
        proof {
            lemma_operations_preserve_wf(self@);
        }
        let raw = self.buffers[b].ffi.as_raw();
        let call = match self.buffers[b].surface {
            Some(s) => if self.surface_usable(s) {
                Some(NativeCall::ReleaseBuffer { surface: self.surfaces[s].ffi.as_raw(), buffer: raw })
            } else {
                None
            },
            None => if self.device_alive(self.buffers[b].device) {
                Some(NativeCall::DestroyBuffer { buffer: raw })
            } else {
                None
            },
        };
        let due = self.buffers[b].ffi.release();
        match due {
            Some(_) => {
                if call.is_none() || self.buffers[b].surface.is_none() {
                    self.buffers[b].userdata = None;
                    self.buffers[b].retired = true;
                }
                assert(self@ =~= old(self)@.release_buffer(b));
                call
            },
            None => {
                assert(self@ =~= old(self)@.release_buffer(b));
                None
            },
        }
    }

    pub(crate) fn replace_userdata(&mut self, b: usize, userdata: Option<T>) -> (previous: Option<T>)
        requires
            old(self)@.wf(),
            old(self)@.buffer_alive(b),
        ensures
            final(self)@ == old(self)@.with_userdata(b, userdata),
            final(self)@.wf(),
            previous == old(self)@.userdata(b),
    {
        proof {
            lemma_operations_preserve_wf(self@);
        }
        let previous = self.buffers[b].userdata.take();
        self.buffers[b].userdata = userdata;
        assert(self@ =~= old(self)@.with_userdata(b, userdata));
        previous
    }

    pub(crate) fn userdata(&self, b: usize) -> (userdata: Option<&T>)
        requires
            b < self@.buffers.len(),
        ensures
            userdata is Some <==> self@.userdata(b) is Some,
            userdata matches Some(value) ==> self@.userdata(b) == Some(*value),
    {
        self.buffers[b].userdata.as_ref()
    }

    pub(crate) fn userdata_mut(&mut self, b: usize) -> (userdata: Option<&mut T>)
        requires
            old(self)@.wf(),
            old(self)@.buffer_alive(b),
        ensures
            match userdata {
                Some(value) => {
                    &&& old(self)@.userdata(b) == Some(*value)
                    &&& final(self)@ =~= old(self)@.with_userdata(b, Some(*final(value)))
                },
                None => old(self)@.userdata(b) is None && final(self)@ =~= old(self)@,
            },
    {
        self.buffers[b].userdata.as_mut()
    }
}

} // verus!
