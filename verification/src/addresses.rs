//! Abstraction over physical addresses with utility functions for address
//! conversion.
//!
//! A `PhysicalAddress` wraps a raw 64-bit physical address and converts
//! between addresses and page-frame numbers (PFNs). A PFN is the address
//! shifted right by 12 bits, the width of a 4096-byte base page.

use vstd::prelude::*;

verus! {

/// A representation of physical addresses.
///
/// Provides utility methods to work with physical addresses, in particular
/// conversions between raw addresses and page-frame numbers.
#[derive(Clone, Copy, Debug, PartialEq, Eq, Structural)]
pub struct PhysicalAddress {
    addr: u64,
}

impl View for PhysicalAddress {
    type V = u64;

    closed spec fn view(&self) -> u64 {
        self.addr
    }
}

impl PhysicalAddress {
    /// The address that `from_pa` constructs.
    pub closed spec fn spec_from_pa(pa: u64) -> PhysicalAddress {
        PhysicalAddress { addr: pa }
    }

    /// The address that `from_pfn` constructs: the frame number shifted into
    /// address position, with the bits above bit 51 discarded.
    pub closed spec fn spec_from_pfn(pfn: u64) -> PhysicalAddress {
        PhysicalAddress { addr: pfn << 12 }
    }

    /// Constructs a `PhysicalAddress` from a given physical address.
    pub fn from_pa(pa: u64) -> (r: Self)
        ensures
            r == Self::spec_from_pa(pa),
            r@ == pa,
    {
        Self { addr: pa }
    }

    /// Constructs a `PhysicalAddress` from a given page frame number (PFN).
    pub fn from_pfn(pfn: u64) -> (r: Self)
        ensures
            r == Self::spec_from_pfn(pfn),
            r@ == pfn << 12,
    {
        Self { addr: pfn << 12 }
    }

    /// Retrieves the page frame number (PFN) for the physical address.
    pub fn pfn(&self) -> (r: u64)
        ensures
            r == self@ >> 12,
    {
        self.addr >> 12
    }

    /// Retrieves the physical address.
    pub fn pa(&self) -> (r: u64)
        ensures
            r == self@,
    {
        self.addr
    }
}

/// Law: converting a raw address in and back out is the identity, and a page
/// frame number survives the round trip through `from_pfn` as long as it fits
/// in the 52 address bits that remain above the 12-bit page offset.
///
/// A frame number of `0x10_0000_0000_0000` or more loses its top bits when
/// shifted into address position, so such inputs are excluded.
pub proof fn lemma_physical_address_roundtrip(x: u64)
    ensures
        PhysicalAddress::spec_from_pa(x)@ == x,
        x < 0x10_0000_0000_0000 ==> PhysicalAddress::spec_from_pfn(x)@ >> 12 == x,
{
    assert(x < 0x10_0000_0000_0000 ==> (x << 12) >> 12 == x) by (bit_vector);
}

} // verus!
