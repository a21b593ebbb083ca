//! Error kinds reported by the EPT structure and its operations.

use vstd::prelude::*;

verus! {

/// The ways an EPT operation can be rejected or fail.
///
/// Every structural-mutation error leaves the tables unchanged; only
/// `MemoryTypeResolutionError` can leave a partially populated hierarchy
/// behind, and the caller must then abort startup rather than retry.
#[derive(Clone, Copy, Debug, PartialEq, Eq, Structural)]
pub enum EptError {
    /// A cacheability classification lookup failed during construction.
    MemoryTypeResolutionError,
    /// A page-table index of zero (reserved) or out of range was passed.
    InvalidPtIndex,
    /// A split was requested on an entry that is not a large page.
    PageAlreadySplit,
    /// An address did not meet the alignment the operation demands.
    UnalignedAddressError,
    /// A remap was attempted on a still-large page.
    LargePageRemapError,
    /// The PML4 base handed to EPTP encoding was not 4096-byte aligned.
    InvalidEptPml4BaseAddress,
}

} // verus!
