//! Behavioural checks of identity-map construction, splitting, permission
//! edits, remapping, unmapping and EPTP encoding.

use ept::AccessType;
use ept::BoundedMemoryTypeResolver;
use ept::Entry;
use ept::Ept;
use ept::EptError;
use ept::FixedMemoryTypeResolver;
use ept::MemoryType;

const BASE: u64 = 0x100_0000;
const ROOT_PFN: u64 = BASE >> 12;

fn identity_ept() -> Ept {
    let mut ept = Ept::new();
    let resolver = FixedMemoryTypeResolver { memory_type: MemoryType::WriteBack };
    ept.build_identity(&resolver, BASE).expect("identity map must build");
    ept
}

#[test]
fn build_identity_populates_the_walk() {
    let ept = identity_ept();

    // PML4 entry 0 references the PDPT, the page after the PML4 table.
    let pml4e = ept.pml4_entry(0);
    assert!(pml4e.readable() && pml4e.writable() && pml4e.executable());
    assert_eq!(pml4e.pfn(), ROOT_PFN + 1);
    // No other PML4 entry is populated.
    assert_eq!(ept.pml4_entry(1).bits, 0);
    assert_eq!(ept.pml4_entry(511).bits, 0);

    // Every PDPT entry references its page directory.
    for i in [0usize, 1, 100, 511] {
        let pdpte = ept.pdpt_entry(i);
        assert!(pdpte.readable() && pdpte.writable() && pdpte.executable());
        assert_eq!(pdpte.pfn(), ROOT_PFN + 2 + i as u64);
        assert!(!pdpte.large());
    }

    // The first PD entry references pt[0], the page after the 512 PDs.
    let first = ept.pd_entry(0, 0);
    assert!(first.readable() && first.writable() && first.executable());
    assert!(!first.large());
    assert_eq!(first.pfn(), ROOT_PFN + 2 + 512);

    // pt[0] maps the first 2 MB one base page at a time, identity and
    // write-back.
    for k in [0usize, 1, 255, 511] {
        let pte = ept.pt_entry(0, k);
        assert!(pte.readable() && pte.writable() && pte.executable());
        assert_eq!(pte.pfn(), k as u64);
        assert_eq!(pte.memory_type(), MemoryType::WriteBack.code());
    }
}

#[test]
fn build_identity_maps_large_pages_identity() {
    let ept = identity_ept();
    // Every other PD entry is a large 2 MB leaf mapping its own region.
    for (i, j) in [(0usize, 1usize), (0, 511), (3, 7), (511, 511)] {
        let pde = ept.pd_entry(i, j);
        assert!(pde.readable() && pde.writable() && pde.executable());
        assert!(pde.large());
        let region = (i * 512 + j) as u64;
        assert_eq!(pde.pfn(), region * 512);
        assert_eq!(pde.pfn() << 12, region * 0x20_0000);
        assert_eq!(pde.memory_type(), MemoryType::WriteBack.code());
    }
}

#[test]
fn build_identity_fails_when_a_range_cannot_be_classified() {
    let mut ept = Ept::new();
    // Classifies only the first 4 MB: construction dies on the third 2 MB
    // region.
    let resolver = BoundedMemoryTypeResolver { limit: 0x40_0000, memory_type: MemoryType::WriteBack };
    let r = ept.build_identity(&resolver, BASE);
    assert_eq!(r, Err(EptError::MemoryTypeResolutionError));
}

#[test]
fn build_identity_succeeds_when_every_range_is_classified() {
    let mut ept = Ept::new();
    // Classifies exactly the whole 512 GB walk and nothing beyond.
    let resolver = BoundedMemoryTypeResolver {
        limit: 512 * 1024 * 1024 * 1024,
        memory_type: MemoryType::Uncacheable,
    };
    ept.build_identity(&resolver, BASE).expect("a resolver covering the walk must suffice");
    assert_eq!(ept.pd_entry(511, 511).memory_type(), MemoryType::Uncacheable.code());
    assert_eq!(ept.pt_entry(0, 0).memory_type(), MemoryType::Uncacheable.code());
}

#[test]
fn split_replaces_a_large_page_with_a_page_table() {
    let mut ept = Ept::new();
    let resolver = FixedMemoryTypeResolver { memory_type: MemoryType::WriteThrough };
    ept.build_identity(&resolver, BASE).unwrap();

    let guest_pa: u64 = 0x20_0000;
    assert!(ept.pd_entry(0, 1).large());
    ept.split_2mb_to_4kb(guest_pa, 1, BASE).expect("split must succeed");

    // The PD entry now references pt[1] and is no longer large; the memory
    // type of the former large page is preserved on it.
    let pde = ept.pd_entry(0, 1);
    assert!(pde.readable() && pde.writable() && pde.executable());
    assert!(!pde.large());
    assert_eq!(pde.pfn(), ROOT_PFN + 2 + 512 + 1);
    assert_eq!(pde.memory_type(), MemoryType::WriteThrough.code());

    // All 512 entries of pt[1] map the same 2 MB region at 4 KB granularity,
    // same backing, full permissions, preserved memory type.
    for k in 0..512usize {
        let pte = ept.pt_entry(1, k);
        assert!(pte.readable() && pte.writable() && pte.executable());
        assert_eq!(pte.pfn(), (guest_pa >> 12) + k as u64);
        assert_eq!(pte.memory_type(), MemoryType::WriteThrough.code());
    }
}

#[test]
fn split_rejects_reserved_or_out_of_range_index() {
    let mut ept = identity_ept();
    let before = ept.clone();
    assert_eq!(ept.split_2mb_to_4kb(0x20_0000, 0, BASE), Err(EptError::InvalidPtIndex));
    assert!(ept == before);
    assert_eq!(ept.split_2mb_to_4kb(0x20_0000, 64, BASE), Err(EptError::InvalidPtIndex));
    assert!(ept == before);
}

#[test]
fn split_on_already_split_region_changes_nothing() {
    let mut ept = identity_ept();
    ept.split_2mb_to_4kb(0x40_0000, 2, BASE).unwrap();
    let before = ept.clone();
    let r = ept.split_2mb_to_4kb(0x40_0000, 2, BASE);
    assert_eq!(r, Err(EptError::PageAlreadySplit));
    // Byte for byte unchanged.
    assert!(ept == before);
    // The first 2 MB was never large to begin with, so it cannot be split
    // either.
    let r2 = ept.split_2mb_to_4kb(0, 3, BASE);
    assert_eq!(r2, Err(EptError::PageAlreadySplit));
}

#[test]
fn modify_page_permissions_rejects_unaligned_address() {
    let mut ept = identity_ept();
    let before = ept.clone();
    let r = ept.modify_page_permissions(0x1001, AccessType::read_write(), 1);
    assert_eq!(r, Err(EptError::UnalignedAddressError));
    assert!(ept == before);
}

#[test]
fn modify_page_permissions_edits_a_large_page_in_place() {
    let mut ept = identity_ept();
    let before = ept.pd_entry(0, 2);
    ept.modify_page_permissions(0x40_0000, AccessType::read_write(), 1).unwrap();
    let pde = ept.pd_entry(0, 2);
    assert!(pde.readable() && pde.writable() && !pde.executable());
    // Memory type, frame and large flag are untouched.
    assert_eq!(pde.memory_type(), before.memory_type());
    assert_eq!(pde.pfn(), before.pfn());
    assert_eq!(pde.large(), before.large());
}

#[test]
fn modify_page_permissions_edits_a_split_page() {
    let mut ept = identity_ept();
    ept.split_2mb_to_4kb(0x20_0000, 1, BASE).unwrap();
    ept.modify_page_permissions(0x20_3000, AccessType::execute(), 1).unwrap();
    let pte = ept.pt_entry(1, 3);
    assert!(!pte.readable() && !pte.writable() && pte.executable());
    // The neighbours keep full permissions.
    let other = ept.pt_entry(1, 4);
    assert!(other.readable() && other.writable() && other.executable());
}

#[test]
fn modify_page_permissions_rejects_reserved_or_out_of_range_index() {
    let mut ept = identity_ept();
    let before = ept.clone();
    let r = ept.modify_page_permissions(0x40_0000, AccessType::read(), 0);
    assert_eq!(r, Err(EptError::InvalidPtIndex));
    let r = ept.modify_page_permissions(0x40_0000, AccessType::read(), 64);
    assert_eq!(r, Err(EptError::InvalidPtIndex));
    assert!(ept == before);
}

#[test]
fn remap_rejects_a_still_large_region() {
    let mut ept = identity_ept();
    let before = ept.clone();
    let r = ept.remap_gpa_to_hpa(0x20_0000, 0x5000, 1);
    assert_eq!(r, Err(EptError::LargePageRemapError));
    assert!(ept == before);
}

#[test]
fn remap_changes_only_the_frame_after_a_split() {
    let mut ept = identity_ept();
    ept.split_2mb_to_4kb(0x20_0000, 1, BASE).unwrap();
    let before = ept.pt_entry(1, 4);
    ept.remap_gpa_to_hpa(0x20_4000, 0x5000, 1).expect("remap must succeed after the split");
    let pte = ept.pt_entry(1, 4);
    assert_eq!(pte.pfn(), 0x5);
    // Permissions and memory type are untouched.
    assert_eq!(pte.readable(), before.readable());
    assert_eq!(pte.writable(), before.writable());
    assert_eq!(pte.executable(), before.executable());
    assert_eq!(pte.memory_type(), before.memory_type());
    // The neighbouring entry still maps identity.
    assert_eq!(ept.pt_entry(1, 5).pfn(), (0x20_0000u64 >> 12) + 5);
}

#[test]
fn remap_rejects_unaligned_addresses() {
    let mut ept = identity_ept();
    ept.split_2mb_to_4kb(0x20_0000, 1, BASE).unwrap();
    let before = ept.clone();
    assert_eq!(ept.remap_gpa_to_hpa(0x20_4001, 0x5000, 1), Err(EptError::UnalignedAddressError));
    assert_eq!(ept.remap_gpa_to_hpa(0x20_4000, 0x5001, 1), Err(EptError::UnalignedAddressError));
    assert_eq!(ept.remap_gpa_to_hpa(0x20_4000, 0x5000, 0), Err(EptError::InvalidPtIndex));
    assert!(ept == before);
}

#[test]
fn unmap_twice_is_idempotent() {
    let mut e = Entry { bits: 0 };
    e.set_readable(true);
    e.set_writable(true);
    e.set_executable(true);
    e.set_memory_type(6);
    e.set_large(true);
    e.set_pfn(0x1234);

    Ept::unmap_2mb(&mut e);
    assert_eq!(e.bits, 0);
    let after_first = e;
    Ept::unmap_2mb(&mut e);
    assert_eq!(e, after_first);

    // The verification flags and undefined bits survive the clearing, and a
    // second call is still a no-op on them.
    let mut f = Entry { bits: 0x0600_0000_0123_40B7 };
    Ept::unmap_2mb(&mut f);
    assert_eq!(f.bits, 0x0600_0000_0000_0000);
    let after = f;
    Ept::unmap_2mb(&mut f);
    assert_eq!(f, after);

    // unmap_4kb delegates to the same clearing logic.
    let mut g = Entry { bits: 0x1234_0B7 };
    Ept::unmap_4kb(&mut g);
    assert_eq!(g.bits, 0);
}

#[test]
fn eptp_encoding_requires_an_aligned_base() {
    let ept = identity_ept();
    for base in [0x1001u64, 0x1234, 0xFFF, 0x100_0001, 0x100_0800] {
        assert_eq!(
            ept.create_eptp_with_wb_and_4lvl_walk(base),
            Err(EptError::InvalidEptPml4BaseAddress)
        );
    }
}

#[test]
fn eptp_encoding_sets_walk_length_and_write_back() {
    let ept = identity_ept();
    // Four-level walk is encoded as 3 << 3 = 0x18; write-back is 6.
    assert_eq!(ept.create_eptp_with_wb_and_4lvl_walk(BASE), Ok(BASE | 0x18 | 6));
    assert_eq!(ept.create_eptp_with_wb_and_4lvl_walk(0x1000), Ok(0x101E));
    assert_eq!(ept.create_eptp_with_wb_and_4lvl_walk(0), Ok(0x1E));
}
