use gbm::format::modifier_codes;
use gbm::{BufferObject, BufferObjectFlags, Device, Format, Modifier, NativeCall, Registry};

fn device(registry: &mut Registry<()>) -> Device<i32> {
    Device::new(registry, 3, 0xd000, 0).unwrap()
}

#[test]
fn a_format_goes_out_as_its_fourcc_code() {
    let mut registry = Registry::new();
    let device = device(&mut registry);
    let call = device.is_format_supported(Format::Xrgb8888, BufferObjectFlags::scanout());
    assert_eq!(
        call,
        NativeCall::IsFormatSupported { device: 0xd000, format: 875713112, usage: 1 }
    );
    let call = device.is_format_supported(Format::Argb8888, BufferObjectFlags::rendering());
    assert_eq!(
        call,
        NativeCall::IsFormatSupported { device: 0xd000, format: 875713089, usage: 4 }
    );
}

#[test]
fn a_code_comes_back_as_its_format() {
    assert_eq!(BufferObject::<()>::format_reply(875710274), Some(Format::Bgr888));
    assert_eq!(BufferObject::<()>::format_reply(875713112), Some(Format::Xrgb8888));
    assert_eq!(BufferObject::<()>::format_reply(875713089), Some(Format::Argb8888));
}

#[test]
fn an_unknown_code_is_no_format() {
    assert_eq!(BufferObject::<()>::format_reply(0), None);
    assert_eq!(BufferObject::<()>::format_reply(828601953), None);
    assert_eq!(BufferObject::<()>::format_reply(1), None);
}

#[test]
fn a_format_survives_the_round_trip_through_its_code() {
    let mut registry = Registry::new();
    let device = device(&mut registry);
    for format in [Format::Argb8888, Format::Nv12, Format::C8, Format::Big_endian] {
        let code = match device.is_format_supported(format, BufferObjectFlags::empty()) {
            NativeCall::IsFormatSupported { format, .. } => format,
            other => panic!("unexpected call {:?}", other),
        };
        assert_eq!(code, format as u32);
        assert_eq!(BufferObject::<()>::format_reply(code), Some(format));
    }
}

#[test]
fn a_modifier_goes_out_as_its_code() {
    let mut registry = Registry::new();
    let device = device(&mut registry);
    assert_eq!(
        device.format_modifier_plane_count(Format::Nv12, Modifier::Linear),
        NativeCall::FormatModifierPlaneCount { device: 0xd000, format: 842094158, modifier: 0 }
    );
    assert_eq!(
        device.format_modifier_plane_count(Format::Nv12, Modifier::Invalid),
        NativeCall::FormatModifierPlaneCount {
            device: 0xd000,
            format: 842094158,
            modifier: 0x00ff_ffff_ffff_ffff,
        }
    );
}

#[test]
fn modifier_codes_keep_the_order() {
    let codes = modifier_codes(&[
        Modifier::I915_x_tiled,
        Modifier::Linear,
        Modifier::Unrecognized(42),
        Modifier::Invalid,
    ]);
    assert_eq!(codes, vec![0x0100_0000_0000_0001, 0, 42, 0x00ff_ffff_ffff_ffff]);
    assert_eq!(modifier_codes(&[]), Vec::<u64>::new());
}

#[test]
fn a_code_comes_back_as_its_modifier() {
    assert_eq!(BufferObject::<()>::modifier_reply(0), Modifier::Linear);
    assert_eq!(BufferObject::<()>::modifier_reply(0x0100_0000_0000_0002), Modifier::I915_y_tiled);
    assert_eq!(BufferObject::<()>::modifier_reply(0x00ff_ffff_ffff_ffff), Modifier::Invalid);
    let odd = BufferObject::<()>::modifier_reply(0x7700_0000_0000_0001);
    assert_eq!(u64::from(odd), 0x7700_0000_0000_0001);
    assert!(matches!(odd, Modifier::Unrecognized(0x7700_0000_0000_0001)));
}
