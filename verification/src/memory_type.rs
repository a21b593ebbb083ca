//! Cacheability classes and the lookup service that assigns them.
//!
//! The memory-type resolver stands for the processor's MTRR configuration: a
//! collaborator that classifies a physical range as write-back, uncacheable
//! and so on. Identity-map construction consults it for every mapped region;
//! a range it cannot classify is a hard construction failure.

use vstd::prelude::*;

verus! {

/// A cacheability classification for a physical memory range, with the
/// encoding the processor assigns to each class.
#[derive(Clone, Copy, Debug, PartialEq, Eq, Structural)]
pub enum MemoryType {
    Uncacheable,
    WriteCombining,
    WriteThrough,
    WriteProtected,
    WriteBack,
}

impl MemoryType {
    /// The numeric encoding of this class in page-table entries and in the
    /// EPT pointer.
    pub open spec fn spec_code(self) -> u64 {
        match self {
            MemoryType::Uncacheable => 0,
            MemoryType::WriteCombining => 1,
            MemoryType::WriteThrough => 4,
            MemoryType::WriteProtected => 5,
            MemoryType::WriteBack => 6,
        }
    }

    /// Returns the numeric encoding of this class.
    pub fn code(self) -> (r: u64)
        ensures
            r == self.spec_code(),
            r <= 7,
    {
        match self {
            MemoryType::Uncacheable => 0,
            MemoryType::WriteCombining => 1,
            MemoryType::WriteThrough => 4,
            MemoryType::WriteProtected => 5,
            MemoryType::WriteBack => 6,
        }
    }
}

/// A lookup service that classifies physical ranges, in the way the MTRR
/// configuration of the processor does. `find` must agree with the spec-level
/// `spec_find`, so that contracts over a resolver pin down exactly which
/// classes end up in the tables it helped to build.
pub trait MemoryTypeResolver {
    /// The classification this resolver gives the range starting at `start`
    /// and `len` bytes long, or `None` when it cannot classify the range.
    spec fn spec_find(&self, start: u64, len: u64) -> Option<MemoryType>;

    /// Looks up the classification of the range `start..start + len`.
    fn find(&self, start: u64, len: u64) -> (r: Option<MemoryType>)
        requires
            start + len <= u64::MAX,
        ensures
            r == self.spec_find(start, len),
    ;
}

/// A resolver that assigns one class to every range: the degenerate
/// configuration of a machine whose whole physical space carries a single
/// memory type.
#[derive(Clone, Copy, Debug, PartialEq, Eq, Structural)]
pub struct FixedMemoryTypeResolver {
    pub memory_type: MemoryType,
}

impl MemoryTypeResolver for FixedMemoryTypeResolver {
    open spec fn spec_find(&self, start: u64, len: u64) -> Option<MemoryType> {
        Some(self.memory_type)
    }

    fn find(&self, start: u64, len: u64) -> (r: Option<MemoryType>) {
        Some(self.memory_type)
    }
}

/// A resolver that classifies only the ranges lying entirely below a limit,
/// the way a configuration that describes a bounded amount of physical
/// memory does; everything beyond the limit is unclassified.
#[derive(Clone, Copy, Debug, PartialEq, Eq, Structural)]
pub struct BoundedMemoryTypeResolver {
    pub limit: u64,
    pub memory_type: MemoryType,
}

impl MemoryTypeResolver for BoundedMemoryTypeResolver {
    open spec fn spec_find(&self, start: u64, len: u64) -> Option<MemoryType> {
        if start + len <= self.limit {
            Some(self.memory_type)
        } else {
            None
        }
    }

    fn find(&self, start: u64, len: u64) -> (r: Option<MemoryType>) {
        if len <= self.limit && start <= self.limit - len {
            Some(self.memory_type)
        } else {
            None
        }
    }
}

} // verus!
