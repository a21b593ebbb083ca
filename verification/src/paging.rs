//! The Extended Page Table hierarchy and its construction and mutation
//! algorithms.
//!
//! An [`Ept`] owns four levels of tables, each of 512 [`Entry`] values: one
//! PML4 table, one PDPT, 512 page directories (PDs) and 64 page tables (PTs).
//! Only PML4 entry 0 is ever populated, so one structure covers the 512 GB
//! that a single PML4 entry spans. The backing memory for the whole structure
//! is one contiguous, 4096-byte-aligned block; entries that reference another
//! table hold the page-frame number of that table's page inside the block:
//! the PML4 table is page 0 of the block, the PDPT page 1, PD `i` page
//! `2 + i`, and PT `t` page `514 + t`.
//!
//! `pt[0]` is permanently reserved for the first 2 MB of the physical space,
//! mapped at 4 KB granularity during identity-map construction. `pt[1..64]`
//! back 4 KB sub-regions carved out of originally large pages by
//! [`Ept::split_2mb_to_4kb`]; which index backs which 2 MB region is the
//! caller's bookkeeping, and reusing an index silently overwrites an
//! unrelated region's fine-grained mappings.

use vstd::prelude::*;
use vstd::pervasive::VecAdditionalExecFns;
use vstd::arithmetic::div_mod::lemma_fundamental_div_mod;
use vstd::arithmetic::div_mod::lemma_mod_multiples_basic;

use crate::entry::Entry;
use crate::entry::EntryView;
use crate::error::EptError;
use crate::access::AccessType;
use crate::memory_type::MemoryType;
use crate::memory_type::MemoryTypeResolver;

verus! {

/// Entries in one table, and tables covered by one entry of the level above.
pub const TABLE_ENTRY_COUNT: usize = 512;

/// Page directories owned by one EPT: one per PDPT entry.
pub const PD_TABLE_COUNT: usize = 512;

/// Page tables owned by one EPT: `pt[0]` plus 63 split slots.
pub const PT_TABLE_COUNT: usize = 64;

/// Size of a base page (4 KB).
pub const BASE_PAGE_SIZE: u64 = 4096;

/// Size of a large page (2 MB).
pub const LARGE_PAGE_SIZE: u64 = 0x20_0000;

/// Bytes of the contiguous block backing one EPT: 578 table pages (one PML4,
/// one PDPT, 512 PDs, 64 PTs) of 4096 bytes each.
pub const EPT_FOOTPRINT: u64 = 578 * 4096;

/// One past the largest physical address the hardware can translate: Intel
/// processors implement at most 52 physical-address bits, which is also
/// exactly what the 40-bit page-frame-number field of an entry can name.
pub const MAX_PHYSICAL_ADDRESS: u64 = 0x10_0000_0000_0000;

/// The PDPT slot a guest-physical address selects: its address bits 30..=38.
pub open spec fn spec_pdpt_index(guest_pa: u64) -> int {
    ((guest_pa >> 30) & 0x1ff) as int
}

/// The page-directory slot a guest-physical address selects within its PD:
/// its address bits 21..=29.
pub open spec fn spec_pd_index(guest_pa: u64) -> int {
    ((guest_pa >> 21) & 0x1ff) as int
}

/// The page-table slot a guest-physical address selects within its PT: its
/// address bits 12..=20.
pub open spec fn spec_pt_index(guest_pa: u64) -> int {
    ((guest_pa >> 12) & 0x1ff) as int
}

/// The position, among all 512 * 512 page-directory entries, of the entry
/// governing a guest-physical address: PDPT slot first, PD slot within it.
pub open spec fn spec_pd_slot(guest_pa: u64) -> int {
    spec_pdpt_index(guest_pa) * 512 + spec_pd_index(guest_pa)
}

proof fn lemma_index_bounds(guest_pa: u64)
    by (bit_vector)
    ensures
        (guest_pa >> 30) & 0x1ff < 512,
        (guest_pa >> 21) & 0x1ff < 512,
        (guest_pa >> 12) & 0x1ff < 512,
{
}

/// The page-frame number of the first page of an aligned block that ends
/// within the physical address space, and room for all 578 table pages above
/// it.
proof fn lemma_root_pfn(base_pa: u64)
    requires
        base_pa % 4096 == 0,
        base_pa + EPT_FOOTPRINT <= MAX_PHYSICAL_ADDRESS,
    ensures
        base_pa >> 12 == base_pa / 4096,
        base_pa / 4096 + 578 <= 0x100_0000_0000,
{
    assert(base_pa >> 12 == base_pa / 4096) by (bit_vector);
    lemma_fundamental_div_mod(base_pa as int, 4096);
}

fn pdpt_index(guest_pa: u64) -> (r: usize)
    ensures
        r == spec_pdpt_index(guest_pa),
        r < 512,
{
    proof {
        lemma_index_bounds(guest_pa);
    }
    ((guest_pa >> 30) & 0x1ff) as usize
}

fn pd_index(guest_pa: u64) -> (r: usize)
    ensures
        r == spec_pd_index(guest_pa),
        r < 512,
{
    proof {
        lemma_index_bounds(guest_pa);
    }
    ((guest_pa >> 21) & 0x1ff) as usize
}

fn pt_index(guest_pa: u64) -> (r: usize)
    ensures
        r == spec_pt_index(guest_pa),
        r < 512,
{
    proof {
        lemma_index_bounds(guest_pa);
    }
    ((guest_pa >> 12) & 0x1ff) as usize
}

/// What clearing an entry leaves behind: an already-not-present entry is kept
/// as it is, and a present one keeps only its hardware-verification flags and
/// undefined bits.
pub open spec fn unmapped_entry(v: EntryView) -> EntryView {
    if !v.readable {
        v
    } else {
        EntryView {
            readable: false,
            writable: false,
            executable: false,
            memory_type: 0,
            large: false,
            pfn: 0,
            ..v
        }
    }
}

/// Law: clearing an entry twice is the same as clearing it once — the second
/// call finds the entry not present and is a no-op.
pub proof fn lemma_unmap_idempotent(v: EntryView)
    ensures
        unmapped_entry(unmapped_entry(v)) == unmapped_entry(v),
{
}

/// Law: splitting a 2 MB-aligned, identity-mapped region changes only the
/// granularity of its mapping, never its backing. The split stamps the entry
/// of the `k`-th base page with frame number `guest_pa / 4096 + k`, and that
/// frame is exactly the page's own guest-physical address.
pub proof fn lemma_split_frames_are_identity(guest_pa: u64, k: int)
    requires
        guest_pa % 0x20_0000 == 0,
        guest_pa + 0x20_0000 <= MAX_PHYSICAL_ADDRESS,
        0 <= k < 512,
    ensures
        (guest_pa / 4096 + k) * 4096 == guest_pa + k * 4096,
{
    assert(guest_pa % 0x20_0000 == 0 ==> guest_pa % 4096 == 0) by (bit_vector);
    lemma_fundamental_div_mod(guest_pa as int, 4096);
}

/// Law: in an identity-mapped hierarchy, every page-aligned guest-physical
/// address below 512 GB is governed by an entry that grants read, write and
/// execute and translates the address to itself. Inside the first 2 MB the
/// governing entry is the one `pt[0]` holds for the address, and its frame is
/// the address's own; everywhere else it is the large page-directory entry,
/// whose frame plus the offset within the 2 MB region reproduces the address.
pub proof fn lemma_identity_mapping_covers(ept: Ept, g: u64)
    requires
        ept.identity_mapped(),
        g % 4096 == 0,
        g < 0x80_0000_0000,
    ensures
        g < 0x20_0000 ==> ({
            let e = ept.pt@[spec_pt_index(g)]@;
            e.readable && e.writable && e.executable && e.pfn == g / 4096 && e.pfn * 4096 == g
        }),
        g >= 0x20_0000 ==> ({
            let e = ept.pd@[spec_pd_slot(g)]@;
            e.readable && e.writable && e.executable && e.large && e.pfn * 4096 + (g % 0x20_0000)
                == g
        }),
{
    lemma_index_bounds(g);
    if g < 0x20_0000 {
        assert(g % 4096 == 0 && g < 0x20_0000 ==> ((g >> 12) & 0x1ff) * 4096 == g && (g >> 12)
            & 0x1ff == g / 4096) by (bit_vector);
    } else {
        assert(0x20_0000 <= g && g < 0x80_0000_0000 ==> 1 <= ((g >> 30) & 0x1ff) * 512 + ((g >> 21)
            & 0x1ff)) by (bit_vector);
        assert(g < 0x80_0000_0000 ==> ((((g >> 30) & 0x1ff) * 512 + ((g >> 21) & 0x1ff)) * 512)
            * 4096 + (g % 0x20_0000) == g) by (bit_vector);
    }
}

fn zeroed_entries(n: usize) -> (v: Vec<Entry>)
    ensures
        v@.len() == n,
        forall|i: int| 0 <= i < n ==> v@[i]@ == EntryView::zeroed() && v@[i].bits == 0,
{
    let mut v: Vec<Entry> = Vec::new();
    let mut i: usize = 0;
    while i < n
        invariant
            i <= n,
            v@.len() == i,
            forall|j: int| 0 <= j < i ==> v@[j]@ == EntryView::zeroed() && v@[j].bits == 0,
        decreases n - i,
    {
        v.push(Entry::new());
        i += 1;
    }
    v
}

/// Represents the entire Extended Page Table structure.
///
/// The two directory levels and the two leaf-capable levels are stored as
/// flat vectors of entries; table `i` of a level occupies the 512-entry block
/// starting at position `i * 512`. See the module documentation for how the
/// structure is laid out in its physical backing block.
#[derive(Clone, PartialEq, Eq)]
pub struct Ept {
    /// Page Map Level 4 (PML4) table; 512 entries, only entry 0 populated.
    pub pml4: Vec<Entry>,
    /// Page Directory Pointer Table (PDPT); 512 entries.
    pub pdpt: Vec<Entry>,
    /// All 512 page directories, flattened: 512 * 512 entries.
    pub pd: Vec<Entry>,
    /// All 64 page tables, flattened: 64 * 512 entries.
    pub pt: Vec<Entry>,
}

impl Ept {
    /// Each level holds exactly the entries the hardware walk expects.
    pub open spec fn wf(self) -> bool {
        &&& self.pml4@.len() == 512
        &&& self.pdpt@.len() == 512
        &&& self.pd@.len() == 512 * 512
        &&& self.pt@.len() == 64 * 512
    }

    /// An all-zero structure: every entry of every level not present.
    pub fn new() -> (r: Ept)
        ensures
            r.wf(),
            forall|i: int| 0 <= i < 512 ==> r.pml4@[i].bits == 0,
            forall|i: int| 0 <= i < 512 ==> r.pdpt@[i].bits == 0,
            forall|i: int| 0 <= i < 512 * 512 ==> r.pd@[i].bits == 0,
            forall|i: int| 0 <= i < 64 * 512 ==> r.pt@[i].bits == 0,
            forall|i: int| 0 <= i < 512 ==> r.pml4@[i]@ == EntryView::zeroed(),
            forall|i: int| 0 <= i < 512 ==> r.pdpt@[i]@ == EntryView::zeroed(),
            forall|i: int| 0 <= i < 512 * 512 ==> r.pd@[i]@ == EntryView::zeroed(),
            forall|i: int| 0 <= i < 64 * 512 ==> r.pt@[i]@ == EntryView::zeroed(),
    {
        Ept {
            pml4: zeroed_entries(512),
            pdpt: zeroed_entries(512),
            pd: zeroed_entries(512 * 512),
            pt: zeroed_entries(64 * 512),
        }
    }

    /// Reads one PML4 entry.
    pub fn pml4_entry(&self, i: usize) -> (r: Entry)
        requires
            self.wf(),
            i < 512,
        ensures
            r == self.pml4@[i as int],
    {
        self.pml4[i]
    }

    /// Reads one PDPT entry.
    pub fn pdpt_entry(&self, i: usize) -> (r: Entry)
        requires
            self.wf(),
            i < 512,
        ensures
            r == self.pdpt@[i as int],
    {
        self.pdpt[i]
    }

    /// Reads entry `j` of page directory `i`.
    pub fn pd_entry(&self, i: usize, j: usize) -> (r: Entry)
        requires
            self.wf(),
            i < 512,
            j < 512,
        ensures
            r == self.pd@[i * 512 + j],
    {
        self.pd[i * 512 + j]
    }

    /// Reads entry `k` of page table `t`.
    pub fn pt_entry(&self, t: usize, k: usize) -> (r: Entry)
        requires
            self.wf(),
            t < 64,
            k < 512,
        ensures
            r == self.pt@[t * 512 + k],
    {
        self.pt[t * 512 + k]
    }

    /// Unmaps a 2 MB page by clearing the corresponding page-directory entry:
    /// permissions, memory type, large-page flag and page-frame number are
    /// all reset. Calling it on an entry that is already not present is a
    /// no-op, so the operation is idempotent.
    pub fn unmap_2mb(entry: &mut Entry)
        ensures
            final(entry)@ == unmapped_entry(old(entry)@),
    {
        if !entry.readable() {
            // The page is already not present; no action needed.
            return ;
        }
        entry.set_readable(false);
        entry.set_writable(false);
        entry.set_executable(false);
        entry.set_memory_type(0);
        entry.set_large(false);
        entry.set_pfn(0);
    }

    /// Unmaps a 4 KB page. The entry layout is uniform across levels, so this
    /// is the same clearing logic as [`Ept::unmap_2mb`].
    pub fn unmap_4kb(entry: &mut Entry)
        ensures
            final(entry)@ == unmapped_entry(old(entry)@),
    {
        Self::unmap_2mb(entry);
    }

    /// Identity-map construction succeeds exactly when the resolver
    /// classifies every range it is asked about: each 4 KB page of the first
    /// 2 MB, and each further 2 MB region of the 512 GB range.
    pub open spec fn all_ranges_resolved<R: MemoryTypeResolver>(mtrr: &R) -> bool {
        &&& (forall|pa: u64|
            pa < 0x20_0000 && pa % 4096 == 0 ==> (#[trigger] mtrr.spec_find(pa, 4096)) is Some)
        &&& (forall|pa: u64|
            0x20_0000 <= pa < 0x80_0000_0000 && pa % 0x20_0000 == 0 ==> (#[trigger] mtrr.spec_find(
                pa,
                0x20_0000,
            )) is Some)
    }

    /// The shape a successful identity-map construction leaves behind, as far
    /// as translation is concerned: the first page directory entry references
    /// a page table, every other page-directory entry is a large leaf with
    /// full permissions whose frame number continues the identity walk, and
    /// the first page table maps the first 2 MB one base page at a time.
    pub open spec fn identity_mapped(self) -> bool {
        &&& self.wf()
        &&& self.pd@[0]@.readable
        &&& self.pd@[0]@.writable
        &&& self.pd@[0]@.executable
        &&& !self.pd@[0]@.large
        &&& (forall|m: int|
            1 <= m < 512 * 512 ==> {
                let e = (#[trigger] self.pd@[m])@;
                e.readable && e.writable && e.executable && e.large && e.pfn == m * 512
            })
        &&& (forall|k: int|
            0 <= k < 512 ==> {
                let e = (#[trigger] self.pt@[k])@;
                e.readable && e.writable && e.executable && e.pfn == k
            })
    }

    /// Builds an identity-mapped EPT hierarchy, with cacheability taken from
    /// the memory-type resolver, for the full 512 GB range that PML4 entry 0
    /// covers. Guest-physical address X translates to host-physical address
    /// X everywhere in that range, with full permissions.
    ///
    /// `base_pa` is the physical address of the structure's contiguous
    /// backing block, from which the inter-table references are computed; it
    /// must be 4096-byte aligned and leave room for the 578 table pages below
    /// the physical address ceiling. The whole range is mapped with large
    /// pages except the first 2 MB, which goes through `pt[0]` at 4 KB
    /// granularity so that memory-type boundaries in low memory are respected
    /// exactly; one address cursor is shared across the whole walk, so the
    /// mapping is contiguous. Table-reference entries carry full permissions
    /// and no memory type; only leaf entries are stamped with the resolved
    /// type. If any range cannot be classified, construction stops with
    /// `MemoryTypeResolutionError`, leaving the structure partially
    /// populated: the operation is not retryable and startup must be
    /// abandoned.
    pub fn build_identity<R: MemoryTypeResolver>(&mut self, mtrr: &R, base_pa: u64) -> (r: Result<
        (),
        EptError,
    >)
        requires
            old(self).wf(),
            base_pa % 4096 == 0,
            base_pa + EPT_FOOTPRINT <= MAX_PHYSICAL_ADDRESS,
        ensures
            final(self).wf(),
            (r == Ok::<(), EptError>(())) <==> Self::all_ranges_resolved(mtrr),
            r is Err ==> r == Err::<(), EptError>(EptError::MemoryTypeResolutionError),
            r is Ok ==> ({
                &&& final(self).pml4@[0]@ == (EntryView {
                    readable: true,
                    writable: true,
                    executable: true,
                    pfn: (base_pa / 4096 + 1) as u64,
                    ..old(self).pml4@[0]@
                })
                &&& (forall|i: int| 1 <= i < 512 ==> final(self).pml4@[i] == old(self).pml4@[i])
                &&& (forall|i: int|
                    0 <= i < 512 ==> (#[trigger] final(self).pdpt@[i])@ == (EntryView {
                        readable: true,
                        writable: true,
                        executable: true,
                        pfn: (base_pa / 4096 + 2 + i) as u64,
                        ..old(self).pdpt@[i]@
                    }))
                &&& final(self).pd@[0]@ == (EntryView {
                    readable: true,
                    writable: true,
                    executable: true,
                    pfn: (base_pa / 4096 + 514) as u64,
                    ..old(self).pd@[0]@
                })
                &&& (forall|m: int|
                    1 <= m < 512 * 512 ==> (#[trigger] final(self).pd@[m])@ == (EntryView {
                        readable: true,
                        writable: true,
                        executable: true,
                        memory_type: mtrr.spec_find((m * 0x20_0000) as u64, 0x20_0000)->0.spec_code(),
                        large: true,
                        pfn: (m * 512) as u64,
                        ..old(self).pd@[m]@
                    }))
                &&& (forall|k: int|
                    0 <= k < 512 ==> (#[trigger] final(self).pt@[k])@ == (EntryView {
                        readable: true,
                        writable: true,
                        executable: true,
                        memory_type: mtrr.spec_find((k * 4096) as u64, 4096)->0.spec_code(),
                        pfn: k as u64,
                        ..old(self).pt@[k]@
                    }))
                &&& (forall|q: int| 512 <= q < 64 * 512 ==> final(self).pt@[q] == old(self).pt@[q])
            }),
            r is Ok && !old(self).pd@[0]@.large ==> final(self).identity_mapped(),
    {
        let root_pfn = base_pa >> 12;
        proof {
            lemma_root_pfn(base_pa);
        }

        // The root of the walk: PML4 entry 0 references the PDPT.
        let mut e0 = self.pml4[0];
        e0.set_readable(true);
        e0.set_writable(true);
        e0.set_executable(true);
        e0.set_pfn(root_pfn + 1);
        self.pml4.set(0, e0);

        // Every PDPT entry references its page directory.
        let mut i: usize = 0;
        while i < 512
            invariant
                self.wf(),
                i <= 512,
                root_pfn == base_pa / 4096,
                root_pfn + 578 <= 0x100_0000_0000,
                self.pml4@[0]@ == (EntryView {
                    readable: true,
                    writable: true,
                    executable: true,
                    pfn: (base_pa / 4096 + 1) as u64,
                    ..old(self).pml4@[0]@
                }),
                forall|i2: int| 1 <= i2 < 512 ==> self.pml4@[i2] == old(self).pml4@[i2],
                forall|i2: int|
                    0 <= i2 < i ==> (#[trigger] self.pdpt@[i2])@ == (EntryView {
                        readable: true,
                        writable: true,
                        executable: true,
                        pfn: (base_pa / 4096 + 2 + i2) as u64,
                        ..old(self).pdpt@[i2]@
                    }),
                forall|i2: int| i <= i2 < 512 ==> self.pdpt@[i2] == old(self).pdpt@[i2],
                self.pd == old(self).pd,
                self.pt == old(self).pt,
            decreases 512 - i,
        {
            let mut e = self.pdpt[i];
            e.set_readable(true);
            e.set_writable(true);
            e.set_executable(true);
            e.set_pfn(root_pfn + 2 + i as u64);
            self.pdpt.set(i, e);
            i += 1;
        }

        // One cursor walks the whole 512 GB range, `pa` in bytes and `frame`
        // in base pages, shared between the large-page walk and the 4 KB walk
        // of the first region: the mapping is contiguous and monotonic.
        let mut pa: u64 = 0;
        let mut frame: u64 = 0;
        let mut m: usize = 0;
        while m < 512 * 512
            invariant
                self.wf(),
                m <= 512 * 512,
                pa == m * 0x20_0000,
                frame == m * 512,
                root_pfn == base_pa / 4096,
                root_pfn + 578 <= 0x100_0000_0000,
                self.pml4@[0]@ == (EntryView {
                    readable: true,
                    writable: true,
                    executable: true,
                    pfn: (base_pa / 4096 + 1) as u64,
                    ..old(self).pml4@[0]@
                }),
                forall|i2: int| 1 <= i2 < 512 ==> self.pml4@[i2] == old(self).pml4@[i2],
                forall|i2: int|
                    0 <= i2 < 512 ==> (#[trigger] self.pdpt@[i2])@ == (EntryView {
                        readable: true,
                        writable: true,
                        executable: true,
                        pfn: (base_pa / 4096 + 2 + i2) as u64,
                        ..old(self).pdpt@[i2]@
                    }),
                m >= 1 ==> self.pd@[0]@ == (EntryView {
                    readable: true,
                    writable: true,
                    executable: true,
                    pfn: (base_pa / 4096 + 514) as u64,
                    ..old(self).pd@[0]@
                }),
                forall|m2: int|
                    1 <= m2 < m ==> (#[trigger] self.pd@[m2])@ == (EntryView {
                        readable: true,
                        writable: true,
                        executable: true,
                        memory_type: mtrr.spec_find((m2 * 0x20_0000) as u64, 0x20_0000)->0.spec_code(),
                        large: true,
                        pfn: (m2 * 512) as u64,
                        ..old(self).pd@[m2]@
                    }),
                forall|m2: int| m <= m2 < 512 * 512 ==> self.pd@[m2] == old(self).pd@[m2],
                forall|pa2: u64|
                    0x20_0000 <= pa2 < m * 0x20_0000 && pa2 % 0x20_0000 == 0 ==> (
                    #[trigger] mtrr.spec_find(pa2, 0x20_0000)) is Some,
                m == 0 ==> self.pt == old(self).pt,
                m >= 1 ==> (forall|k2: int|
                    0 <= k2 < 512 ==> (#[trigger] self.pt@[k2])@ == (EntryView {
                        readable: true,
                        writable: true,
                        executable: true,
                        memory_type: mtrr.spec_find((k2 * 4096) as u64, 4096)->0.spec_code(),
                        pfn: k2 as u64,
                        ..old(self).pt@[k2]@
                    })),
                m >= 1 ==> (forall|pa2: u64|
                    pa2 < 0x20_0000 && pa2 % 4096 == 0 ==> (#[trigger] mtrr.spec_find(
                        pa2,
                        4096,
                    )) is Some),
                forall|q: int| 512 <= q < 64 * 512 ==> self.pt@[q] == old(self).pt@[q],
            decreases 512 * 512 - m,
        {
            if pa == 0 {
                // The first 2 MB: reference pt[0] and map at 4 KB granularity
                // so the memory-type boundaries of low memory are respected.
                let mut e = self.pd[0];
                e.set_readable(true);
                e.set_writable(true);
                e.set_executable(true);
                e.set_pfn(root_pfn + 514);
                self.pd.set(0, e);

                let mut k: usize = 0;
                while k < 512
                    invariant
                        self.wf(),
                        k <= 512,
                        m == 0,
                        pa == k * 4096,
                        frame == k,
                        root_pfn == base_pa / 4096,
                        root_pfn + 578 <= 0x100_0000_0000,
                        self.pml4@[0]@ == (EntryView {
                            readable: true,
                            writable: true,
                            executable: true,
                            pfn: (base_pa / 4096 + 1) as u64,
                            ..old(self).pml4@[0]@
                        }),
                        forall|i2: int| 1 <= i2 < 512 ==> self.pml4@[i2] == old(self).pml4@[i2],
                        forall|i2: int|
                            0 <= i2 < 512 ==> (#[trigger] self.pdpt@[i2])@ == (EntryView {
                                readable: true,
                                writable: true,
                                executable: true,
                                pfn: (base_pa / 4096 + 2 + i2) as u64,
                                ..old(self).pdpt@[i2]@
                            }),
                        self.pd@[0]@ == (EntryView {
                            readable: true,
                            writable: true,
                            executable: true,
                            pfn: (base_pa / 4096 + 514) as u64,
                            ..old(self).pd@[0]@
                        }),
                        forall|m2: int| 1 <= m2 < 512 * 512 ==> self.pd@[m2] == old(self).pd@[m2],
                        forall|k2: int|
                            0 <= k2 < k ==> (#[trigger] self.pt@[k2])@ == (EntryView {
                                readable: true,
                                writable: true,
                                executable: true,
                                memory_type: mtrr.spec_find((k2 * 4096) as u64, 4096)->0.spec_code(),
                                pfn: k2 as u64,
                                ..old(self).pt@[k2]@
                            }),
                        forall|pa2: u64|
                            pa2 < k * 4096 && pa2 % 4096 == 0 ==> (#[trigger] mtrr.spec_find(
                                pa2,
                                4096,
                            )) is Some,
                        forall|q: int| k <= q < 64 * 512 ==> self.pt@[q] == old(self).pt@[q],
                    decreases 512 - k,
                {
                    proof {
                        lemma_mod_multiples_basic(k as int, 4096);
                    }
                    let memory_type = match mtrr.find(pa, BASE_PAGE_SIZE) {
                        Some(mt) => mt,
                        None => {
                            return Err(EptError::MemoryTypeResolutionError);
                        },
                    };
                    let mt_code = memory_type.code();
                    let mut pte = self.pt[k];
                    pte.set_readable(true);
                    pte.set_writable(true);
                    pte.set_executable(true);
                    pte.set_memory_type(mt_code);
                    pte.set_pfn(frame);
                    self.pt.set(k, pte);
                    proof {
                        assert forall|pa2: u64|
                            pa2 < (k + 1) * 4096 && pa2 % 4096 == 0 implies (
                        #[trigger] mtrr.spec_find(pa2, 4096)) is Some by {
                            if pa2 >= k * 4096 {
                                lemma_fundamental_div_mod(pa2 as int, 4096);
                                assert(pa2 == k * 4096);
                            }
                        }
                    }
                    pa = pa + BASE_PAGE_SIZE;
                    frame = frame + 1;
                    k += 1;
                }
            } else {
                proof {
                    lemma_mod_multiples_basic(m as int, 0x20_0000);
                }
                let memory_type = match mtrr.find(pa, LARGE_PAGE_SIZE) {
                    Some(mt) => mt,
                    None => {
                        return Err(EptError::MemoryTypeResolutionError);
                    },
                };
                let mt_code = memory_type.code();
                let mut e = self.pd[m];
                e.set_readable(true);
                e.set_writable(true);
                e.set_executable(true);
                e.set_memory_type(mt_code);
                e.set_large(true);
                e.set_pfn(frame);
                self.pd.set(m, e);
                proof {
                    assert forall|pa2: u64|
                        0x20_0000 <= pa2 < (m + 1) * 0x20_0000 && pa2 % 0x20_0000 == 0 implies (
                    #[trigger] mtrr.spec_find(pa2, 0x20_0000)) is Some by {
                        if pa2 >= m * 0x20_0000 {
                            lemma_fundamental_div_mod(pa2 as int, 0x20_0000);
                            assert(pa2 == m * 0x20_0000);
                        }
                    }
                }
                pa = pa + LARGE_PAGE_SIZE;
                frame = frame + 512;
            }
            m += 1;
        }
        Ok(())
    }

    /// Splits the large 2 MB page governing `guest_pa` into 512 4 KB pages
    /// backed by page table `pt_table_index` of the EPT whose backing block
    /// starts at `base_pa`.
    ///
    /// The effective mapping of the 2 MB region is unchanged — same physical
    /// backing, full permissions, and the memory type of the former large
    /// entry preserved in every new page-table entry — only the granularity
    /// changes, so that single 4 KB pages can afterwards be remapped or given
    /// different permissions. `pt_table_index` must lie in `1..64`, since
    /// `pt[0]` is reserved; the governing page-directory entry must still be
    /// a large page, otherwise the region is already split. No translation
    /// cache is flushed here; the caller must invalidate.
    pub fn split_2mb_to_4kb(&mut self, guest_pa: u64, pt_table_index: usize, base_pa: u64) -> (r:
        Result<(), EptError>)
        requires
            old(self).wf(),
            base_pa % 4096 == 0,
            base_pa + EPT_FOOTPRINT <= MAX_PHYSICAL_ADDRESS,
            guest_pa + LARGE_PAGE_SIZE <= MAX_PHYSICAL_ADDRESS,
        ensures
            final(self).wf(),
            !(1 <= pt_table_index < 64) ==> r == Err::<(), EptError>(EptError::InvalidPtIndex)
                && *final(self) == *old(self),
            1 <= pt_table_index < 64 && !old(self).pd@[spec_pd_slot(guest_pa)]@.large ==> r == Err::<
                (),
                EptError,
            >(EptError::PageAlreadySplit) && *final(self) == *old(self),
            1 <= pt_table_index < 64 && old(self).pd@[spec_pd_slot(guest_pa)]@.large ==> ({
                let slot = spec_pd_slot(guest_pa);
                let pde_old = old(self).pd@[slot]@;
                &&& r == Ok::<(), EptError>(())
                &&& final(self).pml4 == old(self).pml4
                &&& final(self).pdpt == old(self).pdpt
                &&& final(self).pd@ == old(self).pd@.update(slot, final(self).pd@[slot])
                &&& final(self).pd@[slot]@ == (EntryView {
                    readable: true,
                    writable: true,
                    executable: true,
                    memory_type: pde_old.memory_type,
                    large: false,
                    pfn: (base_pa / 4096 + 514 + pt_table_index) as u64,
                    ..pde_old
                })
                &&& final(self).pt@.len() == old(self).pt@.len()
                &&& (forall|q: int|
                    pt_table_index * 512 <= q < pt_table_index * 512 + 512
                        ==> final(self).pt@[q]@ == (EntryView {
                        readable: true,
                        writable: true,
                        executable: true,
                        memory_type: pde_old.memory_type,
                        pfn: (guest_pa / 4096 + (q - pt_table_index * 512)) as u64,
                        ..old(self).pt@[q]@
                    }))
                &&& (forall|q: int|
                    0 <= q < 64 * 512 && !(pt_table_index * 512 <= q < pt_table_index * 512 + 512)
                        ==> final(self).pt@[q] == old(self).pt@[q])
            }),
    {
        // Ensure the PT index is valid: pt[0] is reserved for the first 2 MB.
        if pt_table_index == 0 || pt_table_index >= PT_TABLE_COUNT {
            return Err(EptError::InvalidPtIndex);
        }
        let pdpt_i = pdpt_index(guest_pa);
        let pd_i = pd_index(guest_pa);
        let slot = pdpt_i * 512 + pd_i;

        // Only large pages can be split; a page-directory reference means the
        // region is already split.
        let pde = self.pd[slot];
        if !pde.large() {
            return Err(EptError::PageAlreadySplit);
        }

        // Keep the memory type of the large page before resetting the entry.
        let memory_type = pde.memory_type();

        // Unmap the 2 MB page by resetting the page-directory entry.
        let mut new_pde = pde;
        Self::unmap_2mb(&mut new_pde);

        // Map the same physical range as 512 4 KB pages in the claimed PT.
        let pfn_base = guest_pa >> 12;
        proof {
            assert(guest_pa >> 12 == guest_pa / 4096) by (bit_vector);
            lemma_fundamental_div_mod(guest_pa as int, 4096);
        }
        let mut k: usize = 0;
        while k < 512
            invariant
                self.wf(),
                k <= 512,
                1 <= pt_table_index < 64,
                pfn_base == guest_pa / 4096,
                pfn_base + 512 <= 0x100_0000_0000,
                self.pml4 == old(self).pml4,
                self.pdpt == old(self).pdpt,
                self.pd@ == old(self).pd@,
                forall|q: int|
                    pt_table_index * 512 <= q < pt_table_index * 512 + k ==> self.pt@[q]@
                        == (EntryView {
                        readable: true,
                        writable: true,
                        executable: true,
                        memory_type: old(self).pd@[spec_pd_slot(guest_pa)]@.memory_type,
                        pfn: (guest_pa / 4096 + (q - pt_table_index * 512)) as u64,
                        ..old(self).pt@[q]@
                    }),
                forall|q: int|
                    0 <= q < 64 * 512 && !(pt_table_index * 512 <= q < pt_table_index * 512 + k)
                        ==> self.pt@[q] == old(self).pt@[q],
                memory_type == old(self).pd@[spec_pd_slot(guest_pa)]@.memory_type,
                memory_type <= 7,
            decreases 512 - k,
        {
            let idx = pt_table_index * 512 + k;
            let mut pte = self.pt[idx];
            pte.set_readable(true);
            pte.set_writable(true);
            pte.set_executable(true);
            pte.set_memory_type(memory_type);
            pte.set_pfn(pfn_base + k as u64);
            self.pt.set(idx, pte);
            k += 1;
        }

        // Repoint the page-directory entry at the new page table, no longer a
        // large page.
        let root_pfn = base_pa >> 12;
        proof {
            lemma_root_pfn(base_pa);
        }
        new_pde.set_readable(true);
        new_pde.set_writable(true);
        new_pde.set_executable(true);
        new_pde.set_memory_type(memory_type);
        new_pde.set_large(false);
        new_pde.set_pfn(root_pfn + 514 + pt_table_index as u64);
        self.pd.set(slot, new_pde);

        Ok(())
    }

    /// Overwrites the read/write/execute permissions of the entry governing
    /// `guest_pa`, at whichever granularity currently governs that address.
    ///
    /// `guest_pa` must be page aligned (alignment to the 2 MB boundary
    /// implies alignment to the 4 KB one, so one test covers both) and
    /// `pt_table_index` must lie in `1..64`. If the governing page-directory
    /// entry is still a large page it is edited directly; otherwise the entry
    /// in page table `pt_table_index` selected by `guest_pa` is edited.
    /// Memory type, page-frame number and large/present flags are untouched,
    /// and no translation cache is flushed.
    pub fn modify_page_permissions(
        &mut self,
        guest_pa: u64,
        access_type: AccessType,
        pt_table_index: usize,
    ) -> (r: Result<(), EptError>)
        requires
            old(self).wf(),
        ensures
            final(self).wf(),
            !(1 <= pt_table_index < 64) ==> r == Err::<(), EptError>(EptError::InvalidPtIndex)
                && *final(self) == *old(self),
            1 <= pt_table_index < 64 && guest_pa % 4096 != 0 ==> r == Err::<(), EptError>(
                EptError::UnalignedAddressError,
            ) && *final(self) == *old(self),
            1 <= pt_table_index < 64 && guest_pa % 4096 == 0 && old(self).pd@[spec_pd_slot(
                guest_pa,
            )]@.large ==> ({
                let slot = spec_pd_slot(guest_pa);
                &&& r == Ok::<(), EptError>(())
                &&& final(self).pml4 == old(self).pml4
                &&& final(self).pdpt == old(self).pdpt
                &&& final(self).pt == old(self).pt
                &&& final(self).pd@ == old(self).pd@.update(slot, final(self).pd@[slot])
                &&& final(self).pd@[slot]@ == (EntryView {
                    readable: access_type.read,
                    writable: access_type.write,
                    executable: access_type.execute,
                    ..old(self).pd@[slot]@
                })
            }),
            1 <= pt_table_index < 64 && guest_pa % 4096 == 0 && !old(self).pd@[spec_pd_slot(
                guest_pa,
            )]@.large ==> ({
                let slot = pt_table_index * 512 + spec_pt_index(guest_pa);
                &&& r == Ok::<(), EptError>(())
                &&& final(self).pml4 == old(self).pml4
                &&& final(self).pdpt == old(self).pdpt
                &&& final(self).pd == old(self).pd
                &&& final(self).pt@ == old(self).pt@.update(slot, final(self).pt@[slot])
                &&& final(self).pt@[slot]@ == (EntryView {
                    readable: access_type.read,
                    writable: access_type.write,
                    executable: access_type.execute,
                    ..old(self).pt@[slot]@
                })
            }),
    {
        // Ensure the PT index is valid: pt[0] is reserved for the first 2 MB.
        if pt_table_index == 0 || pt_table_index >= PT_TABLE_COUNT {
            return Err(EptError::InvalidPtIndex);
        }

        // Ensure the guest-physical address is aligned to a page boundary.
        if guest_pa % BASE_PAGE_SIZE != 0 {
            return Err(EptError::UnalignedAddressError);
        }

        let pdpt_i = pdpt_index(guest_pa);
        let pd_i = pd_index(guest_pa);
        let pt_i = pt_index(guest_pa);
        let slot = pdpt_i * 512 + pd_i;

        let pde = self.pd[slot];
        if pde.large() {
            // Change the permissions of the 2 MB page.
            let mut e = pde;
            e.set_readable(access_type.read);
            e.set_writable(access_type.write);
            e.set_executable(access_type.execute);
            self.pd.set(slot, e);
        } else {
            // Change the permissions of the 4 KB page.
            let idx = pt_table_index * 512 + pt_i;
            let mut e = self.pt[idx];
            e.set_readable(access_type.read);
            e.set_writable(access_type.write);
            e.set_executable(access_type.execute);
            self.pt.set(idx, e);
        }

        Ok(())
    }

    /// Remaps the 4 KB page at `guest_pa` to the host-physical frame at
    /// `host_pa`, breaking the identity mapping for that one page.
    ///
    /// Both addresses must be page aligned and `pt_table_index` must lie in
    /// `1..64`. The governing page-directory entry must no longer be large —
    /// a large page cannot be remapped without splitting it first. Only the
    /// page-frame number of the targeted entry in page table `pt_table_index`
    /// changes; permissions and memory type are left untouched, and no
    /// translation cache is flushed.
    pub fn remap_gpa_to_hpa(&mut self, guest_pa: u64, host_pa: u64, pt_table_index: usize) -> (r:
        Result<(), EptError>)
        requires
            old(self).wf(),
            host_pa < MAX_PHYSICAL_ADDRESS,
        ensures
            final(self).wf(),
            !(1 <= pt_table_index < 64) ==> r == Err::<(), EptError>(EptError::InvalidPtIndex)
                && *final(self) == *old(self),
            1 <= pt_table_index < 64 && (guest_pa % 4096 != 0 || host_pa % 4096 != 0) ==> r
                == Err::<(), EptError>(EptError::UnalignedAddressError) && *final(self) == *old(self),
            1 <= pt_table_index < 64 && guest_pa % 4096 == 0 && host_pa % 4096 == 0 && old(
                self,
            ).pd@[spec_pd_slot(guest_pa)]@.large ==> r == Err::<(), EptError>(
                EptError::LargePageRemapError,
            ) && *final(self) == *old(self),
            1 <= pt_table_index < 64 && guest_pa % 4096 == 0 && host_pa % 4096 == 0 && !old(
                self,
            ).pd@[spec_pd_slot(guest_pa)]@.large ==> ({
                let slot = pt_table_index * 512 + spec_pt_index(guest_pa);
                &&& r == Ok::<(), EptError>(())
                &&& final(self).pml4 == old(self).pml4
                &&& final(self).pdpt == old(self).pdpt
                &&& final(self).pd == old(self).pd
                &&& final(self).pt@ == old(self).pt@.update(slot, final(self).pt@[slot])
                &&& final(self).pt@[slot]@ == (EntryView {
                    pfn: (host_pa / 4096) as u64,
                    ..old(self).pt@[slot]@
                })
            }),
    {
        // Ensure the PT index is valid: pt[0] is reserved for the first 2 MB.
        if pt_table_index == 0 || pt_table_index >= PT_TABLE_COUNT {
            return Err(EptError::InvalidPtIndex);
        }

        // Ensure both addresses are page aligned.
        if guest_pa % BASE_PAGE_SIZE != 0 || host_pa % BASE_PAGE_SIZE != 0 {
            return Err(EptError::UnalignedAddressError);
        }

        let pdpt_i = pdpt_index(guest_pa);
        let pd_i = pd_index(guest_pa);
        let pt_i = pt_index(guest_pa);
        let slot = pdpt_i * 512 + pd_i;

        // A large-page mapping cannot be remapped at 4 KB granularity.
        let pde = self.pd[slot];
        if pde.large() {
            return Err(EptError::LargePageRemapError);
        }

        // Update the targeted page-table entry to point at the new frame.
        let new_pfn = host_pa >> 12;
        proof {
            assert(host_pa >> 12 == host_pa / 4096) by (bit_vector);
            lemma_fundamental_div_mod(host_pa as int, 4096);
        }
        let idx = pt_table_index * 512 + pt_i;
        let mut e = self.pt[idx];
        e.set_pfn(new_pfn);
        self.pt.set(idx, e);

        Ok(())
    }

    /// Creates an Extended Page Table Pointer (EPTP) with a write-back memory
    /// type and a 4-level page walk, for the PML4 table residing at
    /// `pml4_base_pa`.
    ///
    /// The base must be 4096-byte aligned — its low 12 bits are claimed by
    /// the walk-length and memory-type fields of the EPTP encoding. The
    /// structural alignment of the backing block guarantees this, but EPTP
    /// corruption is catastrophic, so the alignment is still checked and a
    /// stray base is rejected with `InvalidEptPml4BaseAddress`.
    pub fn create_eptp_with_wb_and_4lvl_walk(&self, pml4_base_pa: u64) -> (r: Result<
        u64,
        EptError,
    >)
        ensures
            pml4_base_pa % 4096 == 0 ==> r == Ok::<u64, EptError>(
                pml4_base_pa | 0x18 | MemoryType::WriteBack.spec_code(),
            ),
            pml4_base_pa % 4096 != 0 ==> r == Err::<u64, EptError>(
                EptError::InvalidEptPml4BaseAddress,
            ),
    {
        // EPT page-walk length for a 4-level walk: the EPTP encoding wants
        // "number of levels minus one", 3, in bits 5:3.
        let walk_length_4: u64 = 0x18;
        if pml4_base_pa % 4096 == 0 {
            Ok(pml4_base_pa | walk_length_4 | MemoryType::WriteBack.code())
        } else {
            Err(EptError::InvalidEptPml4BaseAddress)
        }
    }
}

} // verus!
