//! Bit-level checks of the entry layout against literal hex encodings, and
//! of the small value types around it.

use ept::AccessType;
use ept::Entry;
use ept::MemoryType;
use ept::PhysicalAddress;

#[test]
fn entry_new_is_all_zero() {
    let e = Entry::new();
    assert_eq!(e.bits, 0);
    assert!(!e.readable());
    assert!(!e.writable());
    assert!(!e.executable());
    assert_eq!(e.memory_type(), 0);
    assert!(!e.large());
    assert_eq!(e.pfn(), 0);
    assert!(!e.verify_guest_paging());
    assert!(!e.paging_write_access());
}

#[test]
fn entry_field_positions_match_hardware_layout() {
    let mut e = Entry::new();
    e.set_readable(true);
    assert_eq!(e.bits, 0x1);
    e.set_writable(true);
    assert_eq!(e.bits, 0x3);
    e.set_executable(true);
    assert_eq!(e.bits, 0x7);
    e.set_memory_type(6);
    assert_eq!(e.bits, 0x37);
    e.set_large(true);
    assert_eq!(e.bits, 0xB7);
    e.set_pfn(0x1234);
    assert_eq!(e.bits, 0x1234_0B7);
    e.set_verify_guest_paging(true);
    assert_eq!(e.bits, 0x0200_0000_0123_40B7);
    e.set_paging_write_access(true);
    assert_eq!(e.bits, 0x0600_0000_0123_40B7);
}

#[test]
fn entry_decodes_literal_hex_value() {
    // Readable + executable, write-back, large, frame 0x7FFF.
    let e = Entry { bits: 0x7FFF0B5 };
    assert!(e.readable());
    assert!(!e.writable());
    assert!(e.executable());
    assert_eq!(e.memory_type(), 6);
    assert!(e.large());
    assert_eq!(e.pfn(), 0x7FFF);
}

#[test]
fn entry_setters_only_touch_their_field() {
    let mut e = Entry { bits: 0x0600_0000_0123_40B7 };
    e.set_memory_type(0);
    assert_eq!(e.bits, 0x0600_0000_0123_4087);
    e.set_pfn(0);
    assert_eq!(e.bits, 0x0600_0000_0000_0087);
    e.set_large(false);
    assert_eq!(e.bits, 0x0600_0000_0000_0007);
    e.set_verify_guest_paging(false);
    assert_eq!(e.bits, 0x0400_0000_0000_0007);
    e.set_paging_write_access(false);
    assert_eq!(e.bits, 0x7);
}

#[test]
fn entry_pfn_field_is_forty_bits_wide() {
    let mut e = Entry::new();
    e.set_pfn(0xFF_FFFF_FFFF);
    assert_eq!(e.pfn(), 0xFF_FFFF_FFFF);
    assert_eq!(e.bits, 0x000F_FFFF_FFFF_F000);
    // A frame number wider than the field loses its top bits, as the
    // hardware layout dictates.
    let mut w = Entry::new();
    w.set_pfn(0x1FF_FFFF_FFFF);
    assert_eq!(w.pfn(), 0xFF_FFFF_FFFF);
}

#[test]
fn physical_address_roundtrips() {
    assert_eq!(PhysicalAddress::from_pa(0).pa(), 0);
    assert_eq!(PhysicalAddress::from_pa(0xDEAD_B000).pa(), 0xDEAD_B000);
    assert_eq!(PhysicalAddress::from_pa(u64::MAX).pa(), u64::MAX);
    assert_eq!(PhysicalAddress::from_pfn(0xDEAD_B).pfn(), 0xDEAD_B);
    assert_eq!(PhysicalAddress::from_pfn(0).pfn(), 0);
}

#[test]
fn physical_address_pfn_is_pa_shifted() {
    let p = PhysicalAddress::from_pa(0x1234_5678);
    assert_eq!(p.pfn(), 0x1_2345);
    assert_eq!(p.pa() >> 12, p.pfn());
    let q = PhysicalAddress::from_pfn(0x1_2345);
    assert_eq!(q.pa(), 0x1234_5000);
}

#[test]
fn access_type_unions() {
    let rwx = AccessType::read_write_execute();
    assert!(rwx.read && rwx.write && rwx.execute);
    let rw = AccessType::read_write();
    assert!(rw.read && rw.write && !rw.execute);
    let rx = AccessType::read_execute();
    assert!(rx.read && !rx.write && rx.execute);
    let wx = AccessType::write_execute();
    assert!(!wx.read && wx.write && wx.execute);
    let r = AccessType::read();
    assert!(r.read && !r.write && !r.execute);
    let w = AccessType::write();
    assert!(!w.read && w.write && !w.execute);
    let x = AccessType::execute();
    assert!(!x.read && !x.write && x.execute);
}

#[test]
fn memory_type_codes_match_processor_encoding() {
    assert_eq!(MemoryType::Uncacheable.code(), 0);
    assert_eq!(MemoryType::WriteCombining.code(), 1);
    assert_eq!(MemoryType::WriteThrough.code(), 4);
    assert_eq!(MemoryType::WriteProtected.code(), 5);
    assert_eq!(MemoryType::WriteBack.code(), 6);
}
