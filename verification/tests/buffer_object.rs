use gbm::{
    AsRaw, BufferObject, BufferObjectFlags, Device, DeviceDestroyedError, FdError, Format,
    FrontBufferError, InvalidFdError, IoError, NativeCall, Registry, WrongDeviceError,
};

fn setup() -> (Registry<String>, Device<i32>, BufferObject<String>) {
    let mut registry = Registry::new();
    let device = Device::new(&mut registry, 4, 0xd000, 0).unwrap();
    let bo = BufferObject::new(&mut registry, &device, 0xb000, 0).unwrap();
    (registry, device, bo)
}

#[test]
fn write_a_full_frame_to_a_scanout_buffer() {
    let mut registry: Registry<()> = Registry::new();
    assert_eq!(Device::<i32>::open(7), NativeCall::CreateDevice { fd: 7 });
    let device = Device::new(&mut registry, 7, 0xd000, 0).unwrap();
    let usage = BufferObjectFlags::scanout() | BufferObjectFlags::write();
    assert_eq!(
        device.create_buffer_object(1280, 720, Format::Argb8888, usage),
        NativeCall::CreateBuffer {
            device: 0xd000,
            width: 1280,
            height: 720,
            format: Format::Argb8888 as u32,
            usage: 0x09,
        }
    );
    let mut bo: BufferObject<()> = BufferObject::new(&mut registry, &device, 0xb000, 0).unwrap();

    let mut frame = Vec::new();
    for i in 0..1280 {
        for _ in 0..720 {
            frame.push(if i % 2 == 0 { 0 } else { 255 });
        }
    }
    assert_eq!(
        bo.write(&registry, &frame),
        Ok(NativeCall::WriteBuffer { buffer: 0xb000, len: 1280 * 720 })
    );
    assert_eq!(BufferObject::<()>::write_reply(0, 0), Ok(()));
}

#[test]
fn a_short_write_is_left_to_the_native_library() {
    let (registry, _device, mut bo) = setup();
    assert_eq!(
        bo.write(&registry, &[0u8; 10]),
        Ok(NativeCall::WriteBuffer { buffer: 0xb000, len: 10 })
    );
    assert_eq!(
        BufferObject::<String>::write_reply(-1, 22),
        Err(IoError::from_raw_os_error(22))
    );
    assert_eq!(BufferObject::<String>::write_reply(1, 5).err().map(|e| e.raw_os_error()), Some(5));
}

#[test]
fn a_null_buffer_is_an_allocation_failure() {
    let mut registry: Registry<String> = Registry::new();
    let device = Device::new(&mut registry, 4, 0xd000, 0).unwrap();
    let failed = BufferObject::new(&mut registry, &device, 0, 12);
    assert_eq!(failed.err(), Some(IoError::from_raw_os_error(12)));
    assert!(!registry.buffer_usable(0));
}

#[test]
fn queries_name_the_native_buffer() {
    let (registry, _device, bo) = setup();
    assert_eq!(bo.index(), 0);
    assert_eq!(bo.as_raw(), 0xb000);
    assert_eq!(bo.width(&registry), Ok(NativeCall::BufferWidth { buffer: 0xb000 }));
    assert_eq!(bo.height(&registry), Ok(NativeCall::BufferHeight { buffer: 0xb000 }));
    assert_eq!(bo.stride(&registry), Ok(NativeCall::BufferStride { buffer: 0xb000 }));
    assert_eq!(
        bo.stride_for_plane(&registry, 1),
        Ok(NativeCall::BufferStrideForPlane { buffer: 0xb000, plane: 1 })
    );
    assert_eq!(bo.format(&registry), Ok(NativeCall::BufferFormat { buffer: 0xb000 }));
    assert_eq!(bo.bpp(&registry), Ok(NativeCall::BufferBpp { buffer: 0xb000 }));
    assert_eq!(
        bo.offset(&registry, 2),
        Ok(NativeCall::BufferOffset { buffer: 0xb000, plane: 2 })
    );
    assert_eq!(bo.plane_count(&registry), Ok(NativeCall::BufferPlaneCount { buffer: 0xb000 }));
    assert_eq!(bo.modifier(&registry), Ok(NativeCall::BufferModifier { buffer: 0xb000 }));
    assert_eq!(bo.handle(&registry), Ok(NativeCall::BufferHandle { buffer: 0xb000 }));
    assert_eq!(
        bo.handle_for_plane(&registry, 3),
        Ok(NativeCall::BufferHandleForPlane { buffer: 0xb000, plane: 3 })
    );
    assert_eq!(bo.device_fd(&registry), Ok(NativeCall::DeviceFd { device: 0xd000 }));
    assert_eq!(bo.fd(&registry), Ok(NativeCall::BufferFd { buffer: 0xb000 }));
    assert_eq!(
        bo.fd_for_plane(&registry, 1, true),
        Ok(NativeCall::BufferFdForPlane { buffer: 0xb000, plane: 1 })
    );
}

#[test]
fn the_native_sentinel_is_an_invalid_descriptor() {
    assert_eq!(BufferObject::<()>::fd_reply(-1), Err(FdError::InvalidFd(InvalidFdError)));
    assert_eq!(BufferObject::<()>::fd_reply(0), Ok(0));
    assert_eq!(BufferObject::<()>::fd_reply(17), Ok(17));
    assert_eq!(BufferObject::<()>::fd_reply(-2), Ok(-2));
}

#[test]
fn per_plane_export_can_be_missing() {
    let (registry, _device, bo) = setup();
    assert_eq!(bo.fd_for_plane(&registry, 0, false), Err(FdError::Unsupported));
}

#[test]
fn plane_count_keeps_the_bits_of_the_answer() {
    assert_eq!(BufferObject::<()>::plane_count_reply(1), 1);
    assert_eq!(BufferObject::<()>::plane_count_reply(4), 4);
    assert_eq!(BufferObject::<()>::plane_count_reply(0), 0);
    assert_eq!(BufferObject::<()>::plane_count_reply(-1), u32::MAX);
    assert_eq!(BufferObject::<()>::plane_count_reply(i32::MIN), 0x8000_0000);
    assert_eq!(BufferObject::<()>::plane_count_reply(-7), -7i32 as u32);
}

#[test]
fn the_first_plane_is_always_asked_about() {
    assert!(BufferObject::<()>::asks_plane(0, 0));
    assert!(BufferObject::<()>::asks_plane(1, 0));
    assert!(!BufferObject::<()>::asks_plane(1, 1));
    assert!(BufferObject::<()>::asks_plane(2, 1));
    assert!(!BufferObject::<()>::asks_plane(3, 3));
    assert!(BufferObject::<()>::asks_plane(4, 3));
    assert!(BufferObject::<()>::asks_plane(u32::MAX, 3));
}

#[test]
fn plane_tables_hold_what_the_buffer_has() {
    let answers = [10, 20, 30, 40];
    assert_eq!(BufferObject::<()>::offsets(1, answers), [10, 0, 0, 0]);
    assert_eq!(BufferObject::<()>::offsets(0, answers), [10, 0, 0, 0]);
    assert_eq!(BufferObject::<()>::offsets(3, answers), [10, 20, 30, 0]);
    assert_eq!(BufferObject::<()>::offsets(4, answers), [10, 20, 30, 40]);
    assert_eq!(BufferObject::<()>::offsets(9, answers), [10, 20, 30, 40]);
    assert_eq!(BufferObject::<()>::pitches(2, answers), [10, 20, 0, 0]);
    assert_eq!(BufferObject::<()>::pitches(4, answers), [10, 20, 30, 40]);
    assert_eq!(BufferObject::<()>::handles(1, answers), [Some(10), None, None, None]);
    assert_eq!(BufferObject::<()>::handles(2, answers), [Some(10), Some(20), None, None]);
    assert_eq!(
        BufferObject::<()>::handles(4, answers),
        [Some(10), Some(20), Some(30), Some(40)]
    );
}

#[test]
fn userdata_round_trip() {
    let (mut registry, _device, mut bo) = setup();
    assert_eq!(bo.userdata(&registry), Ok(None));
    assert_eq!(bo.set_userdata(&mut registry, "frame".to_string()), Ok(None));
    assert_eq!(bo.userdata(&registry), Ok(Some(&"frame".to_string())));
    assert_eq!(bo.take_userdata(&mut registry), Ok(Some("frame".to_string())));
    assert_eq!(bo.take_userdata(&mut registry), Ok(None));
    assert_eq!(bo.userdata(&registry), Ok(None));
}

#[test]
fn setting_userdata_returns_what_was_set_before() {
    let (mut registry, _device, mut bo) = setup();
    assert_eq!(bo.set_userdata(&mut registry, "one".to_string()), Ok(None));
    assert_eq!(bo.set_userdata(&mut registry, "two".to_string()), Ok(Some("one".to_string())));
    assert_eq!(bo.clear_userdata(&mut registry), Ok(()));
    assert_eq!(bo.userdata(&registry), Ok(None));
    assert_eq!(bo.clear_userdata(&mut registry), Ok(()));
}

#[test]
fn userdata_can_be_changed_in_place() {
    let (mut registry, _device, mut bo) = setup();
    assert_eq!(bo.userdata_mut(&mut registry), Ok(None));
    assert_eq!(bo.set_userdata(&mut registry, "a".to_string()), Ok(None));
    match bo.userdata_mut(&mut registry) {
        Ok(Some(value)) => value.push('b'),
        other => panic!("unexpected {:?}", other),
    }
    assert_eq!(bo.take_userdata(&mut registry), Ok(Some("ab".to_string())));
}

#[test]
fn each_buffer_has_its_own_userdata() {
    let (mut registry, device, mut bo) = setup();
    let mut other = BufferObject::new(&mut registry, &device, 0xb100, 0).unwrap();
    assert_eq!(bo.set_userdata(&mut registry, "mine".to_string()), Ok(None));
    assert_eq!(other.userdata(&registry), Ok(None));
    assert_eq!(other.set_userdata(&mut registry, "theirs".to_string()), Ok(None));
    assert_eq!(bo.take_userdata(&mut registry), Ok(Some("mine".to_string())));
    assert_eq!(other.take_userdata(&mut registry), Ok(Some("theirs".to_string())));
}

#[test]
fn a_released_buffer_is_destroyed_while_its_device_lives() {
    let (mut registry, _device, mut bo) = setup();
    assert_eq!(bo.set_userdata(&mut registry, "dropped".to_string()), Ok(None));
    assert!(registry.buffer_usable(0));
    assert_eq!(bo.release(&mut registry), Some(NativeCall::DestroyBuffer { buffer: 0xb000 }));
    assert!(!registry.buffer_usable(0));
}

#[test]
fn the_number_of_a_buffer_that_is_gone_is_used_again() {
    let (mut registry, device, mut bo) = setup();
    let second: BufferObject<String> = BufferObject::new(&mut registry, &device, 0xb100, 0).unwrap();
    assert_eq!((bo.index(), second.index()), (0, 1));
    assert_eq!(bo.set_userdata(&mut registry, "old".to_string()), Ok(None));
    assert_eq!(bo.release(&mut registry), Some(NativeCall::DestroyBuffer { buffer: 0xb000 }));

    let third: BufferObject<String> = BufferObject::new(&mut registry, &device, 0xb200, 0).unwrap();
    assert_eq!(third.index(), 0);
    assert_eq!(third.as_raw(), 0xb200);
    assert_eq!(third.userdata(&registry), Ok(None));
    assert_eq!(second.width(&registry), Ok(NativeCall::BufferWidth { buffer: 0xb100 }));
    let fourth: BufferObject<String> = BufferObject::new(&mut registry, &device, 0xb300, 0).unwrap();
    assert_eq!(fourth.index(), 2);
    assert_eq!(third.release(&mut registry), Some(NativeCall::DestroyBuffer { buffer: 0xb200 }));
    assert_eq!(second.release(&mut registry), Some(NativeCall::DestroyBuffer { buffer: 0xb100 }));
    assert_eq!(fourth.release(&mut registry), Some(NativeCall::DestroyBuffer { buffer: 0xb300 }));
}

#[test]
fn mapping_is_refused_for_another_device() {
    let (mut registry, device, mut bo) = setup();
    let other = Device::new(&mut registry, 9, 0xe000, 0).unwrap();
    assert_eq!(bo.map(&registry, &other, 0, 0, 16, 16), Err(WrongDeviceError));
    assert_eq!(bo.map_mut(&registry, &other, 0, 0, 16, 16), Err(WrongDeviceError));
    let mut elsewhere: Registry<String> = Registry::new();
    let stranger = Device::new(&mut elsewhere, 4, 0xd100, 0).unwrap();
    assert_eq!(stranger.index(), device.index());
    assert_eq!(bo.map(&registry, &stranger, 0, 0, 16, 16), Err(WrongDeviceError));
    assert_eq!(
        bo.map(&registry, &device, 1, 2, 16, 8),
        Ok(NativeCall::MapBuffer { buffer: 0xb000, x: 1, y: 2, width: 16, height: 8, flags: 1 })
    );
    assert_eq!(
        bo.map_mut(&registry, &device, 1, 2, 16, 8),
        Ok(NativeCall::MapBuffer { buffer: 0xb000, x: 1, y: 2, width: 16, height: 8, flags: 3 })
    );
}

#[test]
fn a_mapping_is_handed_to_the_callback_and_undone_once() {
    let (_registry, _device, bo) = setup();
    let mut bytes = vec![0u8; 720 * 5120];
    bytes[5120] = 9;
    let out = bo.map_reply(4, 2, 1280, 720, 0x7000, &mut bytes, 5120, 0x9000, 0, |mapped| {
        assert_eq!(mapped.buffer_object().as_raw(), 0xb000);
        assert!(!mapped.is_writable());
        assert_eq!(mapped.mode(), "read");
        assert_eq!(mapped.buffer().len(), 3_686_400);
        assert_eq!(mapped.buffer()[mapped.stride() as usize], 9);
        (mapped.x(), mapped.y(), mapped.width(), mapped.height(), mapped.stride(), mapped.len())
    });
    assert_eq!(
        out,
        Ok((
            (4, 2, 1280, 720, 5120, 3_686_400),
            NativeCall::UnmapBuffer { buffer: 0xb000, map_data: 0x9000 }
        ))
    );
}

#[test]
fn mappings_that_are_read_can_overlap() {
    let (_registry, _device, bo) = setup();
    let mut outer_bytes = vec![1u8; 256];
    let mut inner_bytes = vec![2u8; 64];
    let out = bo.map_reply(0, 0, 8, 8, 0x7000, &mut outer_bytes, 32, 0x9000, 0, |outer| {
        let inner = bo.map_reply(0, 0, 4, 4, 0x7100, &mut inner_bytes, 16, 0x9100, 0, |inner| {
            (inner.len(), inner.buffer()[0])
        });
        (outer.len(), outer.buffer()[0], inner)
    });
    assert_eq!(
        out,
        Ok((
            (256, 1, Ok(((64, 2), NativeCall::UnmapBuffer { buffer: 0xb000, map_data: 0x9100 }))),
            NativeCall::UnmapBuffer { buffer: 0xb000, map_data: 0x9000 }
        ))
    );
}

#[test]
fn a_written_mapping_is_undone_once() {
    let (_registry, _device, mut bo) = setup();
    let mut bytes = vec![0u8; 64 * 256];
    let out = bo.map_mut_reply(0, 0, 64, 64, 0x7000, &mut bytes, 256, 0x9000, 0, |mut mapped| {
        assert!(mapped.is_writable());
        assert_eq!(mapped.mode(), "write");
        assert_eq!(mapped.buffer_object_mut().as_raw(), 0xb000);
        mapped.buffer_mut()[256] = 7;
        (mapped.len(), mapped)
    });
    assert_eq!(
        out,
        Ok((16_384, NativeCall::UnmapBuffer { buffer: 0xb000, map_data: 0x9000 }))
    );
    assert_eq!(bytes[256], 7);
    assert_eq!(bytes[255], 0);
}

#[test]
fn a_failed_mapping_calls_nothing_and_undoes_nothing() {
    let (_registry, _device, mut bo) = setup();
    let mut called = false;
    let out = bo.map_reply(0, 0, 64, 64, 0, &mut [], 0, 0, 13, |_| called = true);
    assert_eq!(out, Err(IoError::from_raw_os_error(13)));
    assert!(!called);
    let out = bo.map_mut_reply(0, 0, 64, 64, 0, &mut [], 0, 0, 13, |mapped| (called = true, mapped));
    assert_eq!(out.err(), Some(IoError::from_raw_os_error(13)));
    assert!(!called);
}

#[test]
fn a_mapping_spans_one_stride_for_each_row() {
    assert_eq!(BufferObject::<()>::mapping_len(720, 5120), 3_686_400);
    assert_eq!(BufferObject::<()>::mapping_len(0, 4096), 0);
    assert_eq!(BufferObject::<()>::mapping_len(1, 0), 0);
    assert_eq!(BufferObject::<()>::mapping_len(u32::MAX, u32::MAX), 18_446_744_065_119_617_025);
}

#[test]
fn error_messages() {
    assert_eq!(InvalidFdError.message(), "The returned fd is invalid");
    assert_eq!(FrontBufferError::Unknown.message(), "Unknown error");
    assert_eq!(FrontBufferError::NoFreeBuffers.message(), "No free buffers remaining");
    assert_eq!(
        FrontBufferError::Destroyed(DeviceDestroyedError).message(),
        DeviceDestroyedError.message()
    );
    assert_eq!(FdError::InvalidFd(InvalidFdError).message(), InvalidFdError.message());
    assert_eq!(
        FdError::DeviceDestroyed(DeviceDestroyedError).message(),
        "The underlying gbm device was already destroyed"
    );
    assert_eq!(FdError::Unsupported.message(), "Operation not supported on this platform");
    assert_eq!(
        WrongDeviceError.message(),
        "The gbm device specified is not the one this buffer object belongs to"
    );
    assert_eq!(IoError::from_raw_os_error(2).raw_os_error(), 2);
}
