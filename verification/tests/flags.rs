use gbm::flags::{ALL_BITS, CURSOR, CURSOR_64X64, LINEAR, PROTECTED, RENDERING, SCANOUT, WRITE};
use gbm::BufferObjectFlags;

#[test]
fn union_of_scanout_and_write_has_both_bits() {
    let flags = BufferObjectFlags::scanout() | BufferObjectFlags::write();
    assert_eq!(flags.bits(), 0x09);
    assert!(flags.contains(BufferObjectFlags::scanout()));
    assert!(flags.contains(BufferObjectFlags::write()));
    assert!(!flags.contains(BufferObjectFlags::cursor()));
}

#[test]
fn each_flag_has_its_native_bit() {
    assert_eq!(BufferObjectFlags::scanout().bits(), 1 << 0);
    assert_eq!(BufferObjectFlags::cursor().bits(), 1 << 1);
    assert_eq!(BufferObjectFlags::cursor_64x64().bits(), 1 << 1);
    assert_eq!(BufferObjectFlags::rendering().bits(), 1 << 2);
    assert_eq!(BufferObjectFlags::write().bits(), 1 << 3);
    assert_eq!(BufferObjectFlags::linear().bits(), 1 << 4);
    assert_eq!(BufferObjectFlags::protected().bits(), 1 << 5);
    assert_eq!(SCANOUT | CURSOR | CURSOR_64X64 | RENDERING | WRITE | LINEAR | PROTECTED, ALL_BITS);
}

#[test]
fn empty_and_all_are_the_bounds() {
    assert_eq!(BufferObjectFlags::empty().bits(), 0);
    assert!(BufferObjectFlags::empty().is_empty());
    assert_eq!(BufferObjectFlags::all().bits(), 0x3f);
    assert!(!BufferObjectFlags::all().is_empty());
    assert!(BufferObjectFlags::all().contains(BufferObjectFlags::protected()));
}

#[test]
fn from_bits_refuses_unknown_bits() {
    assert_eq!(BufferObjectFlags::from_bits(0x09).map(|f| f.bits()), Some(0x09));
    assert_eq!(BufferObjectFlags::from_bits(0x3f), Some(BufferObjectFlags::all()));
    assert_eq!(BufferObjectFlags::from_bits(0x40), None);
    assert_eq!(BufferObjectFlags::from_bits(0x8000_0001), None);
}

#[test]
fn from_bits_truncate_drops_unknown_bits() {
    assert_eq!(BufferObjectFlags::from_bits_truncate(0xffff_ffff).bits(), 0x3f);
    assert_eq!(BufferObjectFlags::from_bits_truncate(0x48).bits(), 0x08);
}

#[test]
fn set_operations_on_flags() {
    let a = BufferObjectFlags::scanout().union(BufferObjectFlags::rendering());
    let b = BufferObjectFlags::rendering().union(BufferObjectFlags::linear());
    assert_eq!(a.union(b).bits(), 0x15);
    assert_eq!(a.intersection(b).bits(), 0x04);
    assert_eq!(a.difference(b).bits(), 0x01);
    assert!(a.intersects(b));
    assert!(!a.intersects(BufferObjectFlags::write()));
    assert!(!a.contains(b));
}

#[test]
fn insert_and_remove_change_a_set_in_place() {
    let mut flags = BufferObjectFlags::empty();
    flags.insert(BufferObjectFlags::cursor());
    flags.insert(BufferObjectFlags::write());
    assert_eq!(flags.bits(), 0x0a);
    flags.remove(BufferObjectFlags::cursor());
    assert_eq!(flags.bits(), 0x08);
    flags.remove(BufferObjectFlags::cursor());
    assert_eq!(flags.bits(), 0x08);
}
