use gbm::{
    AsRaw, BufferObjectFlags, Device, Format, Import, IoError, Modifier, NativeCall, Registry,
};

fn open(registry: &mut Registry<u32>) -> Device<i32> {
    Device::new(registry, 5, 0xd000, 0).unwrap()
}

#[test]
fn opening_asks_for_a_device_on_the_descriptor() {
    assert_eq!(Device::<i32>::open(5), NativeCall::CreateDevice { fd: 5 });
    assert_eq!(Device::<i32>::open(-1), NativeCall::CreateDevice { fd: -1 });
}

#[test]
fn a_null_device_is_an_allocation_failure() {
    let mut registry: Registry<u32> = Registry::new();
    let failed = Device::new(&mut registry, 5, 0, 19);
    assert_eq!(failed.err(), Some(IoError::from_raw_os_error(19)));
    assert!(!registry.device_alive(0));
}

#[test]
fn a_new_device_is_registered_with_one_owner() {
    let mut registry: Registry<u32> = Registry::new();
    let device = open(&mut registry);
    assert_eq!(device.index(), 0);
    assert_eq!(device.as_raw(), 0xd000);
    assert_eq!(*device.fd(), 5);
    assert!(registry.device_alive(0));
    assert_eq!(registry.device_owners(0), 1);
    let second = Device::new(&mut registry, 6, 0xe000, 0).unwrap();
    assert_eq!(second.index(), 1);
    assert_eq!(registry.device_owners(1), 1);
}

#[test]
fn the_descriptor_can_be_changed_in_place() {
    let mut registry: Registry<u32> = Registry::new();
    let mut device = open(&mut registry);
    *device.fd_mut() = 9;
    assert_eq!(*device.fd(), 9);
    assert_eq!(device.as_raw(), 0xd000);
    let (_, fd) = device.release(&mut registry);
    assert_eq!(fd, 9);
}

#[test]
fn device_queries_name_the_native_device() {
    let mut registry: Registry<u32> = Registry::new();
    let device = open(&mut registry);
    assert_eq!(device.backend_name(), NativeCall::BackendName { device: 0xd000 });
    assert_eq!(device.as_fd(), NativeCall::DeviceFd { device: 0xd000 });
}

#[test]
fn is_format_supported_reads_nonzero_as_yes() {
    assert!(Device::<i32>::is_format_supported_reply(1));
    assert!(Device::<i32>::is_format_supported_reply(-1));
    assert!(!Device::<i32>::is_format_supported_reply(0));
}

#[test]
fn plane_count_of_a_format_is_none_when_negative() {
    assert_eq!(Device::<i32>::format_modifier_plane_count_reply(2), Some(2));
    assert_eq!(Device::<i32>::format_modifier_plane_count_reply(0), Some(0));
    assert_eq!(Device::<i32>::format_modifier_plane_count_reply(-1), None);
    assert_eq!(Device::<i32>::format_modifier_plane_count_reply(i32::MAX), Some(0x7fff_ffff));
    assert_eq!(Device::<i32>::format_modifier_plane_count_reply(i32::MIN), None);
}

#[test]
fn surface_allocation_calls() {
    let mut registry: Registry<u32> = Registry::new();
    let device = open(&mut registry);
    let usage = BufferObjectFlags::scanout() | BufferObjectFlags::rendering();
    assert_eq!(
        device.create_surface(1920, 1080, Format::Xrgb8888, usage),
        NativeCall::CreateSurface {
            device: 0xd000,
            width: 1920,
            height: 1080,
            format: 875713112,
            usage: 5,
        }
    );
    let modifiers = [Modifier::Linear, Modifier::I915_x_tiled];
    assert_eq!(
        device.create_surface_with_modifiers(1920, 1080, Format::Xrgb8888, &modifiers),
        NativeCall::CreateSurfaceWithModifiers {
            device: 0xd000,
            width: 1920,
            height: 1080,
            format: 875713112,
            modifiers: vec![0, 0x0100_0000_0000_0001],
            count: 2,
        }
    );
    assert_eq!(
        device.create_surface_with_modifiers2(640, 480, Format::Xrgb8888, &modifiers, usage),
        NativeCall::CreateSurfaceWithModifiers2 {
            device: 0xd000,
            width: 640,
            height: 480,
            format: 875713112,
            modifiers: vec![0, 0x0100_0000_0000_0001],
            count: 2,
            usage: 5,
        }
    );
}

#[test]
fn buffer_allocation_calls() {
    let mut registry: Registry<u32> = Registry::new();
    let device = open(&mut registry);
    let usage = BufferObjectFlags::scanout() | BufferObjectFlags::write();
    assert_eq!(
        device.create_buffer_object(1280, 720, Format::Argb8888, usage),
        NativeCall::CreateBuffer {
            device: 0xd000,
            width: 1280,
            height: 720,
            format: 875713089,
            usage: 9,
        }
    );
    assert_eq!(
        device.create_buffer_object_with_modifiers(64, 64, Format::Argb8888, &[]),
        NativeCall::CreateBufferWithModifiers {
            device: 0xd000,
            width: 64,
            height: 64,
            format: 875713089,
            modifiers: vec![],
            count: 0,
        }
    );
    assert_eq!(
        device.create_buffer_object_with_modifiers2(
            64,
            64,
            Format::Argb8888,
            &[Modifier::Invalid],
            BufferObjectFlags::cursor(),
        ),
        NativeCall::CreateBufferWithModifiers2 {
            device: 0xd000,
            width: 64,
            height: 64,
            format: 875713089,
            modifiers: vec![0x00ff_ffff_ffff_ffff],
            count: 1,
            usage: 2,
        }
    );
}

#[test]
fn import_calls() {
    let mut registry: Registry<u32> = Registry::new();
    let device = open(&mut registry);
    let usage = BufferObjectFlags::scanout();
    assert_eq!(
        device.import_buffer_object_from_wayland(0xabc0, usage),
        NativeCall::ImportBuffer {
            device: 0xd000,
            source: Import::WaylandBuffer { resource: 0xabc0 },
            usage: 1,
        }
    );
    assert_eq!(
        device.import_buffer_object_from_egl(0xe610, usage),
        NativeCall::ImportBuffer {
            device: 0xd000,
            source: Import::EglImage { image: 0xe610 },
            usage: 1,
        }
    );
    assert_eq!(
        device.import_buffer_object_from_dma_buf(11, 256, 128, 1024, Format::Abgr8888, usage),
        NativeCall::ImportBuffer {
            device: 0xd000,
            source: Import::Fd { fd: 11, width: 256, height: 128, stride: 1024, format: 875708993 },
            usage: 1,
        }
    );
}

#[test]
fn a_plane_without_a_descriptor_is_imported_as_minus_one() {
    let mut registry: Registry<u32> = Registry::new();
    let device = open(&mut registry);
    let call = device.import_buffer_object_from_dma_buf_with_modifiers(
        2,
        [Some(11), Some(12), None, None],
        256,
        128,
        Format::Nv12,
        BufferObjectFlags::rendering(),
        [256, 256, 0, 0],
        [0, 32768, 0, 0],
        Modifier::Linear,
    );
    assert_eq!(
        call,
        NativeCall::ImportBuffer {
            device: 0xd000,
            source: Import::FdModifier {
                fds: [11, 12, -1, -1],
                num_fds: 2,
                width: 256,
                height: 128,
                format: 842094158,
                strides: [256, 256, 0, 0],
                offsets: [0, 32768, 0, 0],
                modifier: 0,
            },
            usage: 4,
        }
    );
    let call = device.import_buffer_object_from_dma_buf_with_modifiers(
        0,
        [None, None, None, Some(0)],
        1,
        1,
        Format::C8,
        BufferObjectFlags::empty(),
        [0; 4],
        [0; 4],
        Modifier::Invalid,
    );
    match call {
        NativeCall::ImportBuffer { source: Import::FdModifier { fds, .. }, .. } => {
            assert_eq!(fds, [-1, -1, -1, 0])
        }
        other => panic!("unexpected call {:?}", other),
    }
}

#[test]
fn a_clone_is_another_owner_of_the_same_device() {
    let mut registry: Registry<u32> = Registry::new();
    let device = open(&mut registry);
    let clone = device.clone_in(&mut registry);
    assert_eq!(clone.index(), device.index());
    assert_eq!(clone.as_raw(), device.as_raw());
    assert_eq!(*clone.fd(), 5);
    assert_eq!(registry.device_owners(0), 2);
}

#[test]
fn a_backend_name_is_read_as_text() {
    assert_eq!(Device::<i32>::backend_name_reply(b"drm"), Some("drm"));
    assert_eq!(Device::<i32>::backend_name_reply(b""), Some(""));
    assert_eq!(Device::<i32>::backend_name_reply("n\u{e9}e".as_bytes()), Some("n\u{e9}e"));
}

#[test]
fn bytes_that_are_no_text_are_no_backend_name() {
    assert_eq!(Device::<i32>::backend_name_reply(&[0x64, 0xff, 0x6d]), None);
    assert_eq!(Device::<i32>::backend_name_reply(&[0xc3]), None);
    assert_eq!(Device::<i32>::backend_name_reply(&[0xed, 0xa0, 0x80]), None);
}
