//! The shared native handle: a native address, a count of owners, and the
//! destructor that is due when the last owner lets go.

use crate::device::Device;
use crate::error::DeviceDestroyedError;
use crate::registry::Registry;
use vstd::prelude::*;

verus! {

/// What a shared handle is, to those who reason about it.
pub struct PtrState<D> {
    /// The address the native library gave the object.
    pub raw: usize,
    /// How many owners the handle has.
    pub strong: nat,
    /// The destructor, for as long as it has not been handed out.
    pub destructor: Option<D>,
    /// How many times the destructor has been handed out.
    pub runs: nat,
}

/// Something that can happen to a shared handle.
pub enum HandleOp {
    /// An owner clones its handle.
    Clone,
    /// An observer tries to become an owner.
    Upgrade,
    /// An owner lets go.
    Release,
}

impl<D> PtrState<D> {
    /// A handle that has just been made, with one owner.
    pub open spec fn fresh(raw: usize, destructor: D) -> Self {
        PtrState { raw, strong: 1, destructor: Some(destructor), runs: 0 }
    }

    /// The destructor is there exactly while there is an owner, and has been
    /// handed out once if there is none, never otherwise.
    pub open spec fn wf(self) -> bool {
        &&& self.raw != 0
        &&& self.strong > 0 <==> self.destructor is Some
        &&& self.runs == if self.strong == 0 { 1nat } else { 0nat }
    }

    /// Whether the handle has an owner.
    pub open spec fn alive(self) -> bool {
        self.strong > 0
    }

    /// The handle with one owner more.
    pub open spec fn cloned(self) -> Self {
        PtrState { strong: self.strong + 1, ..self }
    }

    /// The handle after an observer tried to become an owner: one owner more
    /// if it had any, unchanged if not.
    pub open spec fn upgraded(self) -> Self {
        if self.alive() {
            self.cloned()
        } else {
            self
        }
    }

    /// The handle after an owner let go.
    pub open spec fn released(self) -> Self {
        if self.strong == 1 {
            PtrState { strong: 0, destructor: None, runs: self.runs + 1, ..self }
        } else if self.strong > 1 {
            PtrState { strong: (self.strong - 1) as nat, ..self }
        } else {
            self
        }
    }

    /// The destructor that is due when an owner lets go: that of the handle if
    /// this owner is the last, none otherwise.
    pub open spec fn due(self) -> Option<D> {
        if self.strong == 1 {
            self.destructor
        } else {
            None
        }
    }

    /// The handle after `op`.
    pub open spec fn step(self, op: HandleOp) -> Self {
        match op {
            HandleOp::Clone => self.upgraded(),
            HandleOp::Upgrade => self.upgraded(),
            HandleOp::Release => self.released(),
        }
    }

    /// The handle after each of `ops` in turn.
    pub open spec fn run(self, ops: Seq<HandleOp>) -> Self
        decreases ops.len(),
    {
        if ops.len() == 0 {
            self
        } else {
            self.run(ops.drop_last()).step(ops.last())
        }
    }

    /// How many destructors fall due while `ops` happen in turn.
    pub open spec fn due_during(self, ops: Seq<HandleOp>) -> nat
        decreases ops.len(),
    {
        if ops.len() == 0 {
            0
        } else {
            let before = self.run(ops.drop_last());
            let now: nat = if ops.last() is Release && before.due() is Some {
                1
            } else {
                0
            };
            self.due_during(ops.drop_last()) + now
        }
    }
}

/// A native object shared among owners.
///
/// Owners are counted. The destructor given at construction is handed out to
/// the owner that lets go last, and to nobody else.
pub struct Ptr<D> {
    raw: usize,
    strong: usize,
    destructor: Option<D>,
    runs: Ghost<nat>,
}

impl<D> Ptr<D> {
    /// The state of the handle.
    pub closed spec fn view(&self) -> PtrState<D> {
        PtrState {
            raw: self.raw,
            strong: self.strong as nat,
            destructor: self.destructor,
            runs: self.runs@,
        }
    }

    /// Wraps the address of a native object, with the destructor to run on it.
    /// The result has one owner.
    pub fn new(ptr: usize, destructor: D) -> (p: Ptr<D>)
        requires
            ptr != 0,
        ensures
            p@ == PtrState::fresh(ptr, destructor),
            p@.wf(),
    {
        Ptr { raw: ptr, strong: 1, destructor: Some(destructor), runs: Ghost(0) }
    }

    /// The native address, for handing to the native library.
    pub fn as_raw(&self) -> (raw: usize)
        ensures
            raw == self@.raw,
    {
        self.raw
    }

    /// Whether the handle has an owner.
    pub fn is_alive(&self) -> (alive: bool)
        ensures
            alive == self@.alive(),
    {
        self.strong > 0
    }

    /// The number of owners.
    pub fn strong_count(&self) -> (count: usize)
        ensures
            count == self@.strong,
    {
        self.strong
    }

    /// Adds an owner to a handle that has one.
    pub fn acquire(&mut self)
        requires
            old(self)@.wf(),
            old(self)@.alive(),
            old(self)@.strong < usize::MAX,
        ensures
            final(self)@ == old(self)@.cloned(),
            final(self)@.wf(),
    {
        self.strong = self.strong + 1;
    }

    /// Adds an owner if the handle still has one, and says whether it did.
    pub fn upgrade(&mut self) -> (upgraded: bool)
        requires
            old(self)@.wf(),
            old(self)@.strong < usize::MAX,
        ensures
            upgraded == old(self)@.alive(),
            final(self)@ == old(self)@.upgraded(),
            final(self)@.wf(),
    {
        if self.strong > 0 {
            self.strong = self.strong + 1;
            true
        } else {
            false
        }
    }

    /// Takes an owner away. Hands out the destructor if that was the last one.
    pub fn release(&mut self) -> (due: Option<D>)
        requires
            old(self)@.wf(),
            old(self)@.alive(),
        ensures
            final(self)@ == old(self)@.released(),
            due == old(self)@.due(),
            due is Some <==> !final(self)@.alive(),
            final(self)@.wf(),
    {
        self.strong = self.strong - 1;
        if self.strong == 0 {
            proof {
                self.runs = Ghost(self.runs@ + 1);
            }
            self.destructor.take()
        } else {
            None
        }
    }
}

/// A reference to a registered device that does not keep the device alive.
///
/// Surfaces and buffers refer to their device in this way, so that a device
/// goes when its owners let go of it, whatever still refers to it. What refers
/// to it can tell that it is gone, and can become an owner while it is not.
#[derive(Debug, Clone, Copy, PartialEq, Eq)]
pub struct WeakPtr {
    slot: usize,
    raw: usize,
}

impl WeakPtr {
    /// The number of the device in its registry.
    pub closed spec fn slot(&self) -> usize {
        self.slot
    }

    /// The address of the native device.
    pub closed spec fn raw(&self) -> usize {
        self.raw
    }

    pub(crate) fn new(slot: usize, raw: usize) -> (weak: WeakPtr)
        ensures
            weak.slot() == slot,
            weak.raw() == raw,
    {
        WeakPtr { slot, raw }
    }

    /// The number of the device in its registry.
    pub fn index(&self) -> (slot: usize)
        ensures
            slot == self.slot(),
    {
        self.slot
    }

    /// The address of the native device.
    pub fn as_raw(&self) -> (raw: usize)
        ensures
            raw == self.raw(),
    {
        self.raw
    }

    /// Whether the device still has an owner.
    pub fn is_alive<T>(&self, registry: &Registry<T>) -> (alive: bool)
        ensures
            alive == registry@.device_alive(self.slot()),
    {
        registry.device_alive(self.slot)
    }

    /// Makes the reference strong: the result is one more owner of the
    /// device, which keeps it alive until it is released in its turn. Fails
    /// once the device has no owner left.
    pub fn upgrade<T>(&self, registry: &mut Registry<T>) -> (device: Result<
        Device<()>,
        DeviceDestroyedError,
    >)
        requires
            old(registry)@.wf(),
            self.slot() < old(registry)@.devices.len(),
            old(registry)@.devices[self.slot() as int].raw == self.raw(),
            old(registry)@.devices[self.slot() as int].strong < usize::MAX,
        ensures
            final(registry)@.wf(),
            final(registry)@ == old(registry)@.clone_device(self.slot()),
            match device {
                Ok(device) => {
                    &&& old(registry)@.device_alive(self.slot())
                    &&& device.slot() == self.slot()
                    &&& device.raw() == self.raw()
                    &&& device.held_by(final(registry)@)
                },
                Err(_) => {
                    &&& !old(registry)@.device_alive(self.slot())
                    &&& final(registry)@ == old(registry)@
                },
            },
    {
        if registry.upgrade_device(self.slot) {
            Ok(Device::from_parts(self.slot, self.raw, ()))
        } else {
            Err(DeviceDestroyedError)
        }
    }
}

/// A well-formed handle stays well-formed whatever happens to it.
pub proof fn lemma_run_preserves_wf<D>(state: PtrState<D>, ops: Seq<HandleOp>)
    requires
        state.wf(),
    ensures
        state.run(ops).wf(),
        state.run(ops).raw == state.raw,
    decreases ops.len(),
{
    if ops.len() > 0 {
        lemma_run_preserves_wf(state, ops.drop_last());
    }
}

/// Whatever owners and observers do with a handle, and in whatever order, its
/// destructor falls due at most once: once if the handle ends without an owner,
/// never if it ends with one. It falls due only to an owner that was the last.
pub proof fn lemma_destructor_due_once<D>(raw: usize, destructor: D, ops: Seq<HandleOp>)
    requires
        raw != 0,
    ensures
        ({
            let start = PtrState::fresh(raw, destructor);
            &&& start.due_during(ops) == start.run(ops).runs
            &&& start.due_during(ops) == if start.run(ops).alive() { 0nat } else { 1nat }
        }),
    decreases ops.len(),
{
    let start = PtrState::fresh(raw, destructor);
    if ops.len() > 0 {
        lemma_destructor_due_once(raw, destructor, ops.drop_last());
        lemma_run_preserves_wf(start, ops.drop_last());
        lemma_run_preserves_wf(start, ops);
    }
}

/// Once a handle has lost its last owner it stays without one: no clone and
/// no upgrade brings it back.
pub proof fn lemma_dead_stays_dead<D>(state: PtrState<D>, ops: Seq<HandleOp>)
    requires
        !state.alive(),
    ensures
        state.run(ops) == state,
        state.due_during(ops) == 0,
    decreases ops.len(),
{
    if ops.len() > 0 {
        lemma_dead_stays_dead(state, ops.drop_last());
    }
}

} // verus!
