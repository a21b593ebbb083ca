//! A single 64-bit Extended Page Table entry.
//!
//! EPT entries manage memory access permissions and address mapping for
//! virtual machines. The same 64-bit layout is used at every level of the
//! hierarchy (PML4, PDPT, PD, PT):
//!
//! * bit 0 — `readable`: the memory region can be read;
//! * bit 1 — `writable`: the memory region can be written;
//! * bit 2 — `executable`: code can be executed from the memory region;
//! * bits 3..=5 — `memory_type`: the cacheability class (write-back,
//!   uncacheable, ...);
//! * bit 7 — `large`: the entry maps a large page directly instead of
//!   referencing the next table level;
//! * bits 12..=51 — `pfn`: the page-frame number of the mapped page or of
//!   the next-level table;
//! * bit 57 — `verify_guest_paging`: hardware guest-paging verification flag;
//! * bit 58 — `paging_write_access`: hardware paging-write-access flag.
//!
//! An entry with `readable`, `writable` and `executable` all clear is not
//! present; the remaining fields carry no meaning in that state.

use vstd::prelude::*;

verus! {

/// The decoded fields of an [`Entry`], the form its contracts speak of.
///
/// `undefined` collects the bits of the raw value that no field above covers
/// (bits 6, 8..=11, 52..=56 and 59..=63), so that a view determines the raw
/// 64-bit value completely.
pub struct EntryView {
    pub readable: bool,
    pub writable: bool,
    pub executable: bool,
    pub memory_type: u64,
    pub large: bool,
    pub pfn: u64,
    pub verify_guest_paging: bool,
    pub paging_write_access: bool,
    pub undefined: u64,
}

/// An Extended Page Table entry: one 64-bit word in the hardware layout
/// described at module level.
#[derive(Clone, Copy, Debug, PartialEq, Eq, Structural)]
pub struct Entry {
    pub bits: u64,
}

impl View for Entry {
    type V = EntryView;

    open spec fn view(&self) -> EntryView {
        EntryView {
            readable: self.bits & 0x1 == 0x1,
            writable: self.bits & 0x2 == 0x2,
            executable: self.bits & 0x4 == 0x4,
            memory_type: (self.bits >> 3) & 0x7,
            large: self.bits & 0x80 == 0x80,
            pfn: (self.bits >> 12) & 0xff_ffff_ffff,
            verify_guest_paging: self.bits & 0x0200_0000_0000_0000 == 0x0200_0000_0000_0000,
            paging_write_access: self.bits & 0x0400_0000_0000_0000 == 0x0400_0000_0000_0000,
            undefined: self.bits & 0xf9f0_0000_0000_0f40,
        }
    }
}

impl EntryView {
    /// The view of an all-zero entry: not present, every field clear.
    pub open spec fn zeroed() -> EntryView {
        EntryView {
            readable: false,
            writable: false,
            executable: false,
            memory_type: 0,
            large: false,
            pfn: 0,
            verify_guest_paging: false,
            paging_write_access: false,
            undefined: 0,
        }
    }
}

proof fn lemma_set_bit0(b: u64, v: u64)
    by (bit_vector)
    requires
        v == 0 || v == 0x1,
    ensures
        ((b & !0x1u64) | v) & 0x1 == v,
        ((b & !0x1u64) | v) & 0x2 == b & 0x2,
        ((b & !0x1u64) | v) & 0x4 == b & 0x4,
        (((b & !0x1u64) | v) >> 3) & 0x7 == (b >> 3) & 0x7,
        ((b & !0x1u64) | v) & 0x80 == b & 0x80,
        (((b & !0x1u64) | v) >> 12) & 0xff_ffff_ffff == (b >> 12) & 0xff_ffff_ffff,
        ((b & !0x1u64) | v) & 0x0200_0000_0000_0000 == b & 0x0200_0000_0000_0000,
        ((b & !0x1u64) | v) & 0x0400_0000_0000_0000 == b & 0x0400_0000_0000_0000,
        ((b & !0x1u64) | v) & 0xf9f0_0000_0000_0f40 == b & 0xf9f0_0000_0000_0f40,
{
}

proof fn lemma_set_bit1(b: u64, v: u64)
    by (bit_vector)
    requires
        v == 0 || v == 0x2,
    ensures
        ((b & !0x2u64) | v) & 0x1 == b & 0x1,
        ((b & !0x2u64) | v) & 0x2 == v,
        ((b & !0x2u64) | v) & 0x4 == b & 0x4,
        (((b & !0x2u64) | v) >> 3) & 0x7 == (b >> 3) & 0x7,
        ((b & !0x2u64) | v) & 0x80 == b & 0x80,
        (((b & !0x2u64) | v) >> 12) & 0xff_ffff_ffff == (b >> 12) & 0xff_ffff_ffff,
        ((b & !0x2u64) | v) & 0x0200_0000_0000_0000 == b & 0x0200_0000_0000_0000,
        ((b & !0x2u64) | v) & 0x0400_0000_0000_0000 == b & 0x0400_0000_0000_0000,
        ((b & !0x2u64) | v) & 0xf9f0_0000_0000_0f40 == b & 0xf9f0_0000_0000_0f40,
{
}

proof fn lemma_set_bit2(b: u64, v: u64)
    by (bit_vector)
    requires
        v == 0 || v == 0x4,
    ensures
        ((b & !0x4u64) | v) & 0x1 == b & 0x1,
        ((b & !0x4u64) | v) & 0x2 == b & 0x2,
        ((b & !0x4u64) | v) & 0x4 == v,
        (((b & !0x4u64) | v) >> 3) & 0x7 == (b >> 3) & 0x7,
        ((b & !0x4u64) | v) & 0x80 == b & 0x80,
        (((b & !0x4u64) | v) >> 12) & 0xff_ffff_ffff == (b >> 12) & 0xff_ffff_ffff,
        ((b & !0x4u64) | v) & 0x0200_0000_0000_0000 == b & 0x0200_0000_0000_0000,
        ((b & !0x4u64) | v) & 0x0400_0000_0000_0000 == b & 0x0400_0000_0000_0000,
        ((b & !0x4u64) | v) & 0xf9f0_0000_0000_0f40 == b & 0xf9f0_0000_0000_0f40,
{
}

proof fn lemma_set_memory_type(b: u64, mt: u64)
    by (bit_vector)
    ensures
        ((b & !0x38u64) | ((mt & 0x7) << 3)) & 0x1 == b & 0x1,
        ((b & !0x38u64) | ((mt & 0x7) << 3)) & 0x2 == b & 0x2,
        ((b & !0x38u64) | ((mt & 0x7) << 3)) & 0x4 == b & 0x4,
        (((b & !0x38u64) | ((mt & 0x7) << 3)) >> 3) & 0x7 == mt & 0x7,
        ((b & !0x38u64) | ((mt & 0x7) << 3)) & 0x80 == b & 0x80,
        (((b & !0x38u64) | ((mt & 0x7) << 3)) >> 12) & 0xff_ffff_ffff == (b >> 12)
            & 0xff_ffff_ffff,
        ((b & !0x38u64) | ((mt & 0x7) << 3)) & 0x0200_0000_0000_0000 == b & 0x0200_0000_0000_0000,
        ((b & !0x38u64) | ((mt & 0x7) << 3)) & 0x0400_0000_0000_0000 == b & 0x0400_0000_0000_0000,
        ((b & !0x38u64) | ((mt & 0x7) << 3)) & 0xf9f0_0000_0000_0f40 == b & 0xf9f0_0000_0000_0f40,
        mt <= 0x7 ==> mt & 0x7 == mt,
{
}

proof fn lemma_set_bit7(b: u64, v: u64)
    by (bit_vector)
    requires
        v == 0 || v == 0x80,
    ensures
        ((b & !0x80u64) | v) & 0x1 == b & 0x1,
        ((b & !0x80u64) | v) & 0x2 == b & 0x2,
        ((b & !0x80u64) | v) & 0x4 == b & 0x4,
        (((b & !0x80u64) | v) >> 3) & 0x7 == (b >> 3) & 0x7,
        ((b & !0x80u64) | v) & 0x80 == v,
        (((b & !0x80u64) | v) >> 12) & 0xff_ffff_ffff == (b >> 12) & 0xff_ffff_ffff,
        ((b & !0x80u64) | v) & 0x0200_0000_0000_0000 == b & 0x0200_0000_0000_0000,
        ((b & !0x80u64) | v) & 0x0400_0000_0000_0000 == b & 0x0400_0000_0000_0000,
        ((b & !0x80u64) | v) & 0xf9f0_0000_0000_0f40 == b & 0xf9f0_0000_0000_0f40,
{
}

proof fn lemma_set_pfn(b: u64, pfn: u64)
    by (bit_vector)
    ensures
        ((b & !0x000f_ffff_ffff_f000u64) | ((pfn & 0xff_ffff_ffff) << 12)) & 0x1 == b & 0x1,
        ((b & !0x000f_ffff_ffff_f000u64) | ((pfn & 0xff_ffff_ffff) << 12)) & 0x2 == b & 0x2,
        ((b & !0x000f_ffff_ffff_f000u64) | ((pfn & 0xff_ffff_ffff) << 12)) & 0x4 == b & 0x4,
        (((b & !0x000f_ffff_ffff_f000u64) | ((pfn & 0xff_ffff_ffff) << 12)) >> 3) & 0x7 == (b >> 3)
            & 0x7,
        ((b & !0x000f_ffff_ffff_f000u64) | ((pfn & 0xff_ffff_ffff) << 12)) & 0x80 == b & 0x80,
        (((b & !0x000f_ffff_ffff_f000u64) | ((pfn & 0xff_ffff_ffff) << 12)) >> 12)
            & 0xff_ffff_ffff == pfn & 0xff_ffff_ffff,
        ((b & !0x000f_ffff_ffff_f000u64) | ((pfn & 0xff_ffff_ffff) << 12)) & 0x0200_0000_0000_0000
            == b & 0x0200_0000_0000_0000,
        ((b & !0x000f_ffff_ffff_f000u64) | ((pfn & 0xff_ffff_ffff) << 12)) & 0x0400_0000_0000_0000
            == b & 0x0400_0000_0000_0000,
        ((b & !0x000f_ffff_ffff_f000u64) | ((pfn & 0xff_ffff_ffff) << 12)) & 0xf9f0_0000_0000_0f40
            == b & 0xf9f0_0000_0000_0f40,
        pfn < 0x100_0000_0000 ==> pfn & 0xff_ffff_ffff == pfn,
{
}

proof fn lemma_set_bit57(b: u64, v: u64)
    by (bit_vector)
    requires
        v == 0 || v == 0x0200_0000_0000_0000,
    ensures
        ((b & !0x0200_0000_0000_0000u64) | v) & 0x1 == b & 0x1,
        ((b & !0x0200_0000_0000_0000u64) | v) & 0x2 == b & 0x2,
        ((b & !0x0200_0000_0000_0000u64) | v) & 0x4 == b & 0x4,
        (((b & !0x0200_0000_0000_0000u64) | v) >> 3) & 0x7 == (b >> 3) & 0x7,
        ((b & !0x0200_0000_0000_0000u64) | v) & 0x80 == b & 0x80,
        (((b & !0x0200_0000_0000_0000u64) | v) >> 12) & 0xff_ffff_ffff == (b >> 12)
            & 0xff_ffff_ffff,
        ((b & !0x0200_0000_0000_0000u64) | v) & 0x0200_0000_0000_0000 == v,
        ((b & !0x0200_0000_0000_0000u64) | v) & 0x0400_0000_0000_0000 == b & 0x0400_0000_0000_0000,
        ((b & !0x0200_0000_0000_0000u64) | v) & 0xf9f0_0000_0000_0f40 == b & 0xf9f0_0000_0000_0f40,
{
}

proof fn lemma_set_bit58(b: u64, v: u64)
    by (bit_vector)
    requires
        v == 0 || v == 0x0400_0000_0000_0000,
    ensures
        ((b & !0x0400_0000_0000_0000u64) | v) & 0x1 == b & 0x1,
        ((b & !0x0400_0000_0000_0000u64) | v) & 0x2 == b & 0x2,
        ((b & !0x0400_0000_0000_0000u64) | v) & 0x4 == b & 0x4,
        (((b & !0x0400_0000_0000_0000u64) | v) >> 3) & 0x7 == (b >> 3) & 0x7,
        ((b & !0x0400_0000_0000_0000u64) | v) & 0x80 == b & 0x80,
        (((b & !0x0400_0000_0000_0000u64) | v) >> 12) & 0xff_ffff_ffff == (b >> 12)
            & 0xff_ffff_ffff,
        ((b & !0x0400_0000_0000_0000u64) | v) & 0x0200_0000_0000_0000 == b & 0x0200_0000_0000_0000,
        ((b & !0x0400_0000_0000_0000u64) | v) & 0x0400_0000_0000_0000 == v,
        ((b & !0x0400_0000_0000_0000u64) | v) & 0xf9f0_0000_0000_0f40 == b & 0xf9f0_0000_0000_0f40,
{
}

impl Entry {
    /// An all-zero entry: not present, every field clear.
    pub fn new() -> (r: Entry)
        ensures
            r@ == EntryView::zeroed(),
            r.bits == 0,
    {
        proof {
            assert(0u64 & 0x1 == 0 && 0u64 & 0x2 == 0 && 0u64 & 0x4 == 0 && (0u64 >> 3) & 0x7 == 0
                && 0u64 & 0x80 == 0 && (0u64 >> 12) & 0xff_ffff_ffff == 0 && 0u64
                & 0x0200_0000_0000_0000 == 0 && 0u64 & 0x0400_0000_0000_0000 == 0 && 0u64
                & 0xf9f0_0000_0000_0f40 == 0) by (bit_vector);
        }
        Entry { bits: 0 }
    }

    /// Whether reads of the mapped region are permitted.
    pub fn readable(&self) -> (r: bool)
        ensures
            r == self@.readable,
    {
        self.bits & 0x1 == 0x1
    }

    /// Whether writes to the mapped region are permitted.
    pub fn writable(&self) -> (r: bool)
        ensures
            r == self@.writable,
    {
        self.bits & 0x2 == 0x2
    }

    /// Whether execution from the mapped region is permitted.
    pub fn executable(&self) -> (r: bool)
        ensures
            r == self@.executable,
    {
        self.bits & 0x4 == 0x4
    }

    /// The cacheability class stamped into this entry. The field is three
    /// bits wide, so the result is at most 7.
    pub fn memory_type(&self) -> (r: u64)
        ensures
            r == self@.memory_type,
            r <= 7,
    {
        proof {
            let b = self.bits;
            assert((b >> 3) & 0x7 <= 7) by (bit_vector);
        }
        (self.bits >> 3) & 0x7
    }

    /// Whether this entry maps a large page directly.
    pub fn large(&self) -> (r: bool)
        ensures
            r == self@.large,
    {
        self.bits & 0x80 == 0x80
    }

    /// The page-frame number of the mapped page or next-level table.
    pub fn pfn(&self) -> (r: u64)
        ensures
            r == self@.pfn,
    {
        (self.bits >> 12) & 0xff_ffff_ffff
    }

    /// The hardware guest-paging verification flag.
    pub fn verify_guest_paging(&self) -> (r: bool)
        ensures
            r == self@.verify_guest_paging,
    {
        self.bits & 0x0200_0000_0000_0000 == 0x0200_0000_0000_0000
    }

    /// The hardware paging-write-access flag.
    pub fn paging_write_access(&self) -> (r: bool)
        ensures
            r == self@.paging_write_access,
    {
        self.bits & 0x0400_0000_0000_0000 == 0x0400_0000_0000_0000
    }

    /// Sets or clears the read permission; every other field is untouched.
    pub fn set_readable(&mut self, value: bool)
        ensures
            final(self)@ == (EntryView { readable: value, ..old(self)@ }),
    {
        let v: u64 = if value {
            0x1
        } else {
            0
        };
        proof {
            lemma_set_bit0(self.bits, v);
        }
        self.bits = (self.bits & !0x1u64) | v;
    }

    /// Sets or clears the write permission; every other field is untouched.
    pub fn set_writable(&mut self, value: bool)
        ensures
            final(self)@ == (EntryView { writable: value, ..old(self)@ }),
    {
        let v: u64 = if value {
            0x2
        } else {
            0
        };
        proof {
            lemma_set_bit1(self.bits, v);
        }
        self.bits = (self.bits & !0x2u64) | v;
    }

    /// Sets or clears the execute permission; every other field is untouched.
    pub fn set_executable(&mut self, value: bool)
        ensures
            final(self)@ == (EntryView { executable: value, ..old(self)@ }),
    {
        let v: u64 = if value {
            0x4
        } else {
            0
        };
        proof {
            lemma_set_bit2(self.bits, v);
        }
        self.bits = (self.bits & !0x4u64) | v;
    }

    /// Stores a cacheability class; only its low three bits fit the field,
    /// exactly as the hardware layout provides. Every other field is
    /// untouched.
    pub fn set_memory_type(&mut self, memory_type: u64)
        ensures
            final(self)@ == (EntryView { memory_type: memory_type & 0x7, ..old(self)@ }),
            memory_type <= 0x7 ==> final(self)@.memory_type == memory_type,
    {
        proof {
            lemma_set_memory_type(self.bits, memory_type);
        }
        self.bits = (self.bits & !0x38u64) | ((memory_type & 0x7) << 3);
    }

    /// Sets or clears the large-page flag; every other field is untouched.
    pub fn set_large(&mut self, value: bool)
        ensures
            final(self)@ == (EntryView { large: value, ..old(self)@ }),
    {
        let v: u64 = if value {
            0x80
        } else {
            0
        };
        proof {
            lemma_set_bit7(self.bits, v);
        }
        self.bits = (self.bits & !0x80u64) | v;
    }

    /// Stores a page-frame number; only its low forty bits fit the field,
    /// exactly as the hardware layout provides. Every other field is
    /// untouched.
    pub fn set_pfn(&mut self, pfn: u64)
        ensures
            final(self)@ == (EntryView { pfn: pfn & 0xff_ffff_ffff, ..old(self)@ }),
            pfn < 0x100_0000_0000 ==> final(self)@.pfn == pfn,
    {
        proof {
            lemma_set_pfn(self.bits, pfn);
        }
        self.bits = (self.bits & !0x000f_ffff_ffff_f000u64) | ((pfn & 0xff_ffff_ffff) << 12);
    }

    /// Sets or clears the guest-paging verification flag; every other field
    /// is untouched.
    pub fn set_verify_guest_paging(&mut self, value: bool)
        ensures
            final(self)@ == (EntryView { verify_guest_paging: value, ..old(self)@ }),
    {
        let v: u64 = if value {
            0x0200_0000_0000_0000
        } else {
            0
        };
        proof {
            lemma_set_bit57(self.bits, v);
        }
        self.bits = (self.bits & !0x0200_0000_0000_0000u64) | v;
    }

    /// Sets or clears the paging-write-access flag; every other field is
    /// untouched.
    pub fn set_paging_write_access(&mut self, value: bool)
        ensures
            final(self)@ == (EntryView { paging_write_access: value, ..old(self)@ }),
    {
        let v: u64 = if value {
            0x0400_0000_0000_0000
        } else {
            0
        };
        proof {
            lemma_set_bit58(self.bits, v);
        }
        self.bits = (self.bits & !0x0400_0000_0000_0000u64) | v;
    }
}

} // verus!
