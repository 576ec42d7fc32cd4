//! What holds of the registry whatever is done with it.

use crate::buffer_object::BufferObject;
use crate::error::{DeviceDestroyedError, FdError};
use crate::model::lemma_operations_preserve_wf;
use crate::model::has_vacancy;
use crate::model::lemma_parked_from;
use crate::model::lemma_retired_from;
use crate::model::RegistryState;
use crate::native::NativeCall;
use crate::surface::Surface;
use vstd::prelude::*;

verus! {

/// Whether no surface and no buffer of device `d` has an owner.
pub open spec fn childless<T>(state: RegistryState<T>, d: usize) -> bool {
    &&& forall|s: int|
        0 <= s < state.surfaces.len() && (#[trigger] state.surfaces[s]).device == d
            ==> !state.surfaces[s].handle.alive()
    &&& forall|b: int|
        0 <= b < state.buffers.len() && (#[trigger] state.buffers[b]).device == d
            ==> !state.buffers[b].handle.alive()
}

/// In a well-formed registry the teardown of a device has fallen due exactly
/// once if the device has no owner left, and never if it has one.
pub proof fn lemma_device_teardown_counted<T>(state: RegistryState<T>, d: usize)
    requires
        state.wf(),
        d < state.devices.len(),
    ensures
        state.devices[d as int].runs == if state.device_alive(d) {
            0nat
        } else {
            1nat
        },
{
}

/// When an owner of a device lets go, the teardown of the device is due if and
/// only if that owner was the last, and it is then counted. While another
/// owner remains the native device stays, and nothing is due.
pub proof fn lemma_device_torn_down_by_last_owner<T>(state: RegistryState<T>, d: usize)
    requires
        state.wf(),
        state.device_alive(d),
    ensures
        ({
            let after = state.release_device(d);
            let owners = state.devices[d as int].strong;
            &&& owners == 1 ==> state.device_teardown(d) == Some(
                NativeCall::DestroyDevice { device: state.devices[d as int].raw },
            ) && !after.device_alive(d) && after.devices[d as int].runs == 1
            &&& owners > 1 ==> state.device_teardown(d) is None && after.device_alive(d)
                && after.devices[d as int].runs == 0 && after.devices[d as int].strong == owners
                - 1
        }),
{
}

/// A device that is let go of after its surfaces and buffers is torn down with
/// none of them registered as alive, and none is alive afterwards.
pub proof fn lemma_device_torn_down_after_children<T>(state: RegistryState<T>, d: usize)
    requires
        state.wf(),
        state.device_alive(d),
        state.devices[d as int].strong == 1,
        childless(state, d),
    ensures
        state.device_teardown(d) == Some(
            NativeCall::DestroyDevice { device: state.devices[d as int].raw },
        ),
        childless(state.release_device(d), d),
        forall|s: usize|
            s < state.surfaces.len() && state.surfaces[s as int].device == d
                ==> !state.release_device(d).surface_alive(s),
        forall|b: usize|
            b < state.buffers.len() && state.buffers[b as int].device == d
                ==> !state.release_device(d).buffer_alive(b),
{
}

/// A surface or a buffer that is let go of while its device lives is torn
/// down by a native call of its own: the device does not have to do it.
pub proof fn lemma_children_torn_down_while_device_lives<T>(
    state: RegistryState<T>,
    s: usize,
    b: usize,
)
    requires
        state.wf(),
    ensures
        state.surface_usable(s) ==> state.surface_teardown(s) == Some(
            NativeCall::DestroySurface { surface: state.surfaces[s as int].handle.raw },
        ),
        state.buffer_usable(b) && state.buffers[b as int].surface is None
            ==> state.buffer_teardown(b) == Some(
            NativeCall::DestroyBuffer { buffer: state.buffers[b as int].handle.raw },
        ),
{
}

/// Whether device `d` was registered and has no owner.
pub open spec fn gone<T>(state: RegistryState<T>, d: usize) -> bool {
    d < state.devices.len() && !state.device_alive(d)
}

/// A device without an owner never has one again, whatever is done.
pub proof fn lemma_device_stays_gone<T>(state: RegistryState<T>, d: usize)
    requires
        gone(state, d),
    ensures
        forall|raw: usize| gone(#[trigger] state.with_device(raw), d),
        forall|other: usize|
            other < state.devices.len() ==> gone(#[trigger] state.clone_device(other), d),
        forall|other: usize|
            other < state.devices.len() ==> gone(#[trigger] state.release_device(other), d),
        forall|other: usize, raw: usize| gone(#[trigger] state.with_surface(other, raw), d),
        forall|s: usize| gone(#[trigger] state.release_surface(s), d),
        forall|other: usize, raw: usize| gone(#[trigger] state.with_buffer(other, raw), d),
        forall|s: usize, raw: usize| gone(#[trigger] state.lock(s, raw), d),
        forall|b: usize| gone(#[trigger] state.release_buffer(b), d),
        forall|b: usize, userdata: Option<T>| gone(#[trigger] state.with_userdata(b, userdata), d),
{
}

/// Once the last owner of a device has let go, every query and every export of
/// a buffer of that device fails with the error that says so, and nothing is
/// due when the buffer is let go of.
pub proof fn lemma_buffer_of_gone_device<T>(
    state: RegistryState<T>,
    bo: BufferObject<T>,
    call: NativeCall,
)
    requires
        state.wf(),
        state.device_alive(bo.device()),
        state.devices[bo.device() as int].strong == 1,
        bo.held_by(state),
    ensures
        ({
            let after = state.release_device(bo.device());
            &&& bo.query(after, call) == Err::<NativeCall, _>(DeviceDestroyedError)
            &&& bo.export(after, call) == Err::<NativeCall, _>(
                FdError::DeviceDestroyed(DeviceDestroyedError),
            )
            &&& bo.mapping_call(after, bo.device(), bo.device_raw(), 0, 0, 0, 0, 0) is Err
            &&& after.buffer_teardown(bo.slot()) is None
            &&& bo.held_by(after)
        }),
{
}

/// Once the last owner of a device has let go, a surface of that device is
/// not usable, and nothing is due when the surface is let go of.
pub proof fn lemma_surface_of_gone_device<T>(state: RegistryState<T>, surface: Surface<T>)
    requires
        state.wf(),
        state.device_alive(surface.device()),
        state.devices[surface.device() as int].strong == 1,
        surface.held_by(state),
    ensures
        ({
            let after = state.release_device(surface.device());
            &&& !after.device_alive(surface.device())
            &&& !after.surface_usable(surface.slot())
            &&& after.surface_teardown(surface.slot()) is None
            &&& surface.held_by(after)
        }),
{
}

/// A payload that is set is the payload that is taken, and after it was taken
/// there is none to take.
pub proof fn lemma_userdata_round_trip<T>(state: RegistryState<T>, b: usize, userdata: T)
    requires
        b < state.buffers.len(),
    ensures
        ({
            let set = state.with_userdata(b, Some(userdata));
            let taken = set.with_userdata(b, None);
            &&& set.userdata(b) == Some(userdata)
            &&& taken.userdata(b) is None
            &&& taken.with_userdata(b, None).userdata(b) is None
        }),
{
}

/// The payload of one buffer is no other buffer's.
pub proof fn lemma_userdata_apart<T>(
    state: RegistryState<T>,
    b: usize,
    other: usize,
    userdata: Option<T>,
)
    requires
        b < state.buffers.len(),
        other < state.buffers.len(),
        b != other,
    ensures
        state.with_userdata(b, userdata).userdata(other) == state.userdata(other),
{
}

/// A buffer locked from a surface is given back to that surface when it is let
/// go of, not torn down; and nothing at all is due once the surface is gone.
pub proof fn lemma_locked_buffer_goes_back<T>(state: RegistryState<T>, s: usize, raw: usize)
    requires
        state.wf(),
        state.surface_usable(s),
        raw != 0,
    ensures
        ({
            let locked = state.lock(s, raw);
            let b = state.locked_slot(s, raw);
            &&& locked.buffer_alive(b)
            &&& locked.buffers[b as int].handle.raw == raw
            &&& locked.buffer_teardown(b) == Some(
                NativeCall::ReleaseBuffer {
                    surface: state.surfaces[s as int].handle.raw,
                    buffer: raw,
                },
            )
            &&& locked.release_surface(s).buffer_teardown(b) is None
            &&& state.devices[state.surfaces[s as int].device as int].strong == 1
                ==> locked.release_device(state.surfaces[s as int].device).buffer_teardown(b)
                is None
        }),
{
    lemma_parked_from(state, s, raw, 0);
    lemma_retired_from(state, 0);
}

/// A buffer that was given back to a living surface with a payload has that
/// payload when the surface hands it out again, under the number it had.
pub proof fn lemma_payload_survives_the_cycle<T>(
    state: RegistryState<T>,
    s: usize,
    b: usize,
    userdata: T,
)
    requires
        state.wf(),
        state.surface_usable(s),
        state.buffer_alive(b),
        state.buffers[b as int].surface == Some(s),
        !exists|k: int|
            0 <= k < b && (#[trigger] state.buffers[k]).surface == Some(s)
                && state.buffers[k].handle.raw == state.buffers[b as int].handle.raw
                && state.buffers[k].parked(),
    ensures
        ({
            let raw = state.buffers[b as int].handle.raw;
            let given_back = state.with_userdata(b, Some(userdata)).release_buffer(b);
            &&& !given_back.buffer_alive(b)
            &&& given_back.locked_slot(s, raw) == b
            &&& given_back.lock(s, raw).buffer_alive(b)
            &&& given_back.lock(s, raw).userdata(b) == Some(userdata)
        }),
{
    let raw = state.buffers[b as int].handle.raw;
    let given_back = state.with_userdata(b, Some(userdata)).release_buffer(b);
    lemma_parked_from(given_back, s, raw, 0);
}

/// The number that the next buffer is registered under is no buffer's that has
/// an owner, waits at its surface, or has a payload; and registering a buffer
/// leaves every other buffer as it is.
pub proof fn lemma_vacancy_is_free<T>(state: RegistryState<T>, d: usize, raw: usize)
    requires
        state.wf(),
    ensures
        ({
            let b = state.vacancy();
            &&& b <= state.buffers.len()
            &&& b < state.buffers.len() ==> {
                &&& !state.buffer_alive(b)
                &&& !state.buffers[b as int].parked()
                &&& state.userdata(b) is None
            }
            &&& forall|other: int|
                0 <= other < state.buffers.len() && other != b ==> state.with_buffer(
                    d,
                    raw,
                ).buffers[other] == state.buffers[other]
        }),
{
    lemma_retired_from(state, 0);
}

/// One step in the life of a registry.
pub enum Step<T> {
    /// A device is opened at address `raw`.
    OpenDevice { raw: usize },
    /// An owner of a device clones its handle, or an observer upgrades its own.
    CloneDevice { device: usize },
    /// An owner of a device lets go.
    ReleaseDevice { device: usize },
    /// A device allocates a surface at address `raw`.
    CreateSurface { device: usize, raw: usize },
    /// The owner of a surface lets go.
    ReleaseSurface { surface: usize },
    /// A device allocates or imports a buffer at address `raw`.
    CreateBuffer { device: usize, raw: usize },
    /// A surface hands out its front buffer at address `raw`.
    LockFrontBuffer { surface: usize, raw: usize },
    /// The owner of a buffer lets go.
    ReleaseBuffer { buffer: usize },
    /// The payload of a buffer is set, taken or cleared.
    SetUserdata { buffer: usize, userdata: Option<T> },
}

/// Whether `step` can be taken in `state`: whether the value it is taken
/// through exists, and the native library returned what it may return.
pub open spec fn admits<T>(state: RegistryState<T>, step: Step<T>) -> bool {
    match step {
        Step::OpenDevice { raw } => raw != 0 && state.devices.len() < usize::MAX,
        Step::CloneDevice { device } => device < state.devices.len(),
        Step::ReleaseDevice { device } => state.device_alive(device),
        Step::CreateSurface { device, raw } => raw != 0 && state.device_alive(device)
            && state.surfaces.len() < usize::MAX,
        Step::ReleaseSurface { surface } => state.surface_alive(surface),
        Step::CreateBuffer { device, raw } => raw != 0 && state.device_alive(device)
            && has_vacancy(state),
        Step::LockFrontBuffer { surface, raw } => raw != 0 && state.surface_usable(surface)
            && !state.locked(surface, raw) && (has_vacancy(state) || state.parked_from(
            surface,
            raw,
            0,
        ) is Some),
        Step::ReleaseBuffer { buffer } => state.buffer_alive(buffer),
        Step::SetUserdata { buffer, userdata } => state.buffer_usable(buffer),
    }
}

/// The registry after `step`.
pub open spec fn after<T>(state: RegistryState<T>, step: Step<T>) -> RegistryState<T> {
    match step {
        Step::OpenDevice { raw } => state.with_device(raw),
        Step::CloneDevice { device } => state.clone_device(device),
        Step::ReleaseDevice { device } => state.release_device(device),
        Step::CreateSurface { device, raw } => state.with_surface(device, raw),
        Step::ReleaseSurface { surface } => state.release_surface(surface),
        Step::CreateBuffer { device, raw } => state.with_buffer(device, raw),
        Step::LockFrontBuffer { surface, raw } => state.lock(surface, raw),
        Step::ReleaseBuffer { buffer } => state.release_buffer(buffer),
        Step::SetUserdata { buffer, userdata } => state.with_userdata(buffer, userdata),
    }
}

/// The native teardown that `step` makes due in `state`.
pub open spec fn teardown<T>(state: RegistryState<T>, step: Step<T>) -> Option<NativeCall> {
    match step {
        Step::ReleaseDevice { device } => state.device_teardown(device),
        Step::ReleaseSurface { surface } => state.surface_teardown(surface),
        Step::ReleaseBuffer { buffer } => state.buffer_teardown(buffer),
        _ => None,
    }
}

/// The device that the object which `step` lets go of belongs to.
pub open spec fn device_of<T>(state: RegistryState<T>, step: Step<T>) -> usize {
    match step {
        Step::ReleaseDevice { device } => device,
        Step::ReleaseSurface { surface } => state.surfaces[surface as int].device,
        Step::ReleaseBuffer { buffer } => state.buffers[buffer as int].device,
        _ => 0,
    }
}

/// Whether each of `steps` can be taken in turn, from a registry without
/// anything in it.
pub open spec fn possible<T>(steps: Seq<Step<T>>) -> bool
    decreases steps.len(),
{
    steps.len() == 0 || (possible(steps.drop_last()) && admits(
        outcome(steps.drop_last()),
        steps.last(),
    ))
}

/// The registry after each of `steps` in turn, from one without anything in it.
pub open spec fn outcome<T>(steps: Seq<Step<T>>) -> RegistryState<T>
    decreases steps.len(),
{
    if steps.len() == 0 {
        RegistryState::empty()
    } else {
        after(outcome(steps.drop_last()), steps.last())
    }
}

/// How many of `steps` make the teardown of device `d` due.
pub open spec fn device_teardowns<T>(steps: Seq<Step<T>>, d: usize) -> nat
    decreases steps.len(),
{
    if steps.len() == 0 {
        0
    } else {
        let before = outcome(steps.drop_last());
        let now: nat = if steps.last() == (Step::<T>::ReleaseDevice { device: d })
            && before.device_teardown(d) is Some {
            1
        } else {
            0
        };
        device_teardowns(steps.drop_last(), d) + now
    }
}

/// Whatever is done with a registry, in whatever order, it stays well-formed.
pub proof fn lemma_every_outcome_is_wf<T>(steps: Seq<Step<T>>)
    requires
        possible(steps),
    ensures
        outcome(steps).wf(),
    decreases steps.len(),
{
    if steps.len() > 0 {
        lemma_every_outcome_is_wf(steps.drop_last());
        lemma_operations_preserve_wf(outcome(steps.drop_last()));
    }
}

/// Whatever is done with a registry, in whatever order, the teardown of a
/// device falls due exactly once if the device ends without an owner, and
/// never if it ends with one.
pub proof fn lemma_device_torn_down_exactly_once<T>(steps: Seq<Step<T>>, d: usize)
    requires
        possible(steps),
    ensures
        d < outcome(steps).devices.len() ==> device_teardowns(steps, d) == (if outcome(steps)
            .device_alive(d) {
            0nat
        } else {
            1nat
        }),
        d >= outcome(steps).devices.len() ==> device_teardowns(steps, d) == 0,
    decreases steps.len(),
{
    if steps.len() > 0 {
        let before = outcome(steps.drop_last());
        lemma_device_torn_down_exactly_once(steps.drop_last(), d);
        lemma_every_outcome_is_wf(steps.drop_last());
        lemma_every_outcome_is_wf(steps);
    }
}

/// Whatever is done with a registry, in whatever order, a teardown of a
/// surface or a buffer is due only while the device it belongs to lives: no
/// native call is ever made on an object whose device is gone.
pub proof fn lemma_teardown_only_while_device_lives<T>(steps: Seq<Step<T>>, step: Step<T>)
    requires
        possible(steps),
        admits(outcome(steps), step),
        teardown(outcome(steps), step) is Some,
    ensures
        outcome(steps).device_alive(device_of(outcome(steps), step)),
{
    lemma_every_outcome_is_wf(steps);
}

/// Whatever is done with a registry after a device lost its last owner, the
/// device stays gone.
pub proof fn lemma_gone_for_good<T>(steps: Seq<Step<T>>, more: Seq<Step<T>>, d: usize)
    requires
        possible(steps + more),
        gone(outcome(steps), d),
    ensures
        gone(outcome(steps + more), d),
    decreases more.len(),
{
    if more.len() == 0 {
        assert(steps + more =~= steps);
    } else {
        assert((steps + more).drop_last() =~= steps + more.drop_last());
        assert((steps + more).last() == more.last());
        lemma_gone_for_good(steps, more.drop_last(), d);
        lemma_device_stays_gone(outcome(steps + more.drop_last()), d);
    }
}

} // verus!
