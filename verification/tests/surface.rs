use gbm::{
    AsRaw, BufferObject, Device, FrontBufferError, IoError, NativeCall, Registry, Surface,
};

fn setup() -> (Registry<u64>, Device<i32>, Surface<u64>) {
    let mut registry = Registry::new();
    let device = Device::new(&mut registry, 4, 0xd000, 0).unwrap();
    let surface = Surface::new(&mut registry, &device, 0x5000, 0).unwrap();
    (registry, device, surface)
}

#[test]
fn a_null_surface_is_an_allocation_failure() {
    let mut registry: Registry<u64> = Registry::new();
    let device = Device::new(&mut registry, 4, 0xd000, 0).unwrap();
    let failed = Surface::new(&mut registry, &device, 0, 12);
    assert_eq!(failed.err(), Some(IoError::from_raw_os_error(12)));
    assert!(!registry.surface_usable(0));
}

#[test]
fn a_new_surface_is_usable() {
    let (registry, _device, surface) = setup();
    assert_eq!(surface.index(), 0);
    assert_eq!(surface.as_raw(), 0x5000);
    assert!(registry.surface_usable(0));
}

#[test]
fn free_buffers_are_read_from_the_answer() {
    assert!(Surface::<u64>::has_free_buffers_reply(Some(1)));
    assert!(Surface::<u64>::has_free_buffers_reply(Some(-3)));
    assert!(!Surface::<u64>::has_free_buffers_reply(Some(0)));
    assert!(!Surface::<u64>::has_free_buffers_reply(None));
}

#[test]
fn locking_without_a_free_buffer_is_refused() {
    let (registry, _device, surface) = setup();
    assert_eq!(surface.lock_front_buffer_call(&registry, 0), Err(FrontBufferError::NoFreeBuffers));
    assert_eq!(
        surface.lock_front_buffer_call(&registry, 1),
        Ok(NativeCall::LockFrontBuffer { surface: 0x5000 })
    );
}

#[test]
fn a_null_front_buffer_is_an_unknown_failure() {
    let (mut registry, _device, surface) = setup();
    assert_eq!(surface.lock_front_buffer(&mut registry, 0).err(), Some(FrontBufferError::Unknown));
    assert!(!registry.is_locked(0, 0));
}

#[test]
fn a_locked_buffer_is_released_to_its_surface_and_not_destroyed() {
    let (mut registry, _device, surface) = setup();
    let bo = surface.lock_front_buffer(&mut registry, 0xf000).unwrap();
    assert_eq!(bo.as_raw(), 0xf000);
    assert!(registry.is_locked(0, 0xf000));
    assert_eq!(
        bo.release(&mut registry),
        Some(NativeCall::ReleaseBuffer { surface: 0x5000, buffer: 0xf000 })
    );
    assert!(!registry.is_locked(0, 0xf000));
}

#[test]
fn releasing_a_locked_buffer_after_its_surface_is_a_no_op() {
    let (mut registry, _device, surface) = setup();
    let bo = surface.lock_front_buffer(&mut registry, 0xf000).unwrap();
    assert_eq!(
        surface.release(&mut registry),
        Some(NativeCall::DestroySurface { surface: 0x5000 })
    );
    assert_eq!(bo.release(&mut registry), None);
}

#[test]
fn a_payload_survives_the_lock_cycle() {
    let (mut registry, _device, surface) = setup();
    let mut bo = surface.lock_front_buffer(&mut registry, 0xf000).unwrap();
    let slot = bo.index();
    assert_eq!(bo.set_userdata(&mut registry, 77), Ok(None));
    assert!(bo.release(&mut registry).is_some());

    let other = surface.lock_front_buffer(&mut registry, 0xf100).unwrap();
    assert_ne!(other.index(), slot);
    assert_eq!(other.userdata(&registry), Ok(None));

    let mut again = surface.lock_front_buffer(&mut registry, 0xf000).unwrap();
    assert_eq!(again.index(), slot);
    assert_eq!(again.userdata(&registry), Ok(Some(&77)));
    assert_eq!(again.take_userdata(&mut registry), Ok(Some(77)));
    assert_eq!(
        again.release(&mut registry),
        Some(NativeCall::ReleaseBuffer { surface: 0x5000, buffer: 0xf000 })
    );
    assert!(other.release(&mut registry).is_some());
}

#[test]
fn buffers_given_back_go_with_their_surface() {
    let (mut registry, device, surface) = setup();
    let mut bo = surface.lock_front_buffer(&mut registry, 0xf000).unwrap();
    let slot = bo.index();
    assert_eq!(bo.set_userdata(&mut registry, 5), Ok(None));
    assert!(bo.release(&mut registry).is_some());
    assert!(surface.release(&mut registry).is_some());

    let next = Surface::new(&mut registry, &device, 0x5000, 0).unwrap();
    assert_ne!(next.index(), 0);
    let fresh = next.lock_front_buffer(&mut registry, 0xf000).unwrap();
    assert_eq!(fresh.index(), slot);
    assert_eq!(fresh.userdata(&registry), Ok(None));
    assert_eq!(
        fresh.release(&mut registry),
        Some(NativeCall::ReleaseBuffer { surface: 0x5000, buffer: 0xf000 })
    );
}

#[test]
fn surfaces_keep_their_buffers_apart() {
    let (mut registry, device, surface) = setup();
    let second = Surface::new(&mut registry, &device, 0x6000, 0).unwrap();
    let mut bo = surface.lock_front_buffer(&mut registry, 0xf000).unwrap();
    assert_eq!(bo.set_userdata(&mut registry, 1), Ok(None));
    assert!(bo.release(&mut registry).is_some());
    let theirs: BufferObject<u64> = second.lock_front_buffer(&mut registry, 0xf000).unwrap();
    assert_eq!(theirs.userdata(&registry), Ok(None));
    assert_eq!(
        theirs.release(&mut registry),
        Some(NativeCall::ReleaseBuffer { surface: 0x6000, buffer: 0xf000 })
    );
}
