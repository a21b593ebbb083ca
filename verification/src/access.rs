//! Desired access permissions for a page.

use vstd::prelude::*;

verus! {

/// A set of read/write/execute permission bits, used to express the desired
/// permissions when editing an entry. It is never persisted independently of
/// an entry.
#[derive(Clone, Copy, Debug, PartialEq, Eq, Structural)]
pub struct AccessType {
    pub read: bool,
    pub write: bool,
    pub execute: bool,
}

impl AccessType {
    /// Read access alone.
    pub fn read() -> (r: AccessType)
        ensures
            r == (AccessType { read: true, write: false, execute: false }),
    {
        AccessType { read: true, write: false, execute: false }
    }

    /// Write access alone.
    pub fn write() -> (r: AccessType)
        ensures
            r == (AccessType { read: false, write: true, execute: false }),
    {
        AccessType { read: false, write: true, execute: false }
    }

    /// Execute access alone.
    pub fn execute() -> (r: AccessType)
        ensures
            r == (AccessType { read: false, write: false, execute: true }),
    {
        AccessType { read: false, write: false, execute: true }
    }

    /// Read and write access.
    pub fn read_write() -> (r: AccessType)
        ensures
            r == (AccessType { read: true, write: true, execute: false }),
    {
        AccessType { read: true, write: true, execute: false }
    }

    /// Read and execute access.
    pub fn read_execute() -> (r: AccessType)
        ensures
            r == (AccessType { read: true, write: false, execute: true }),
    {
        AccessType { read: true, write: false, execute: true }
    }

    /// Write and execute access.
    pub fn write_execute() -> (r: AccessType)
        ensures
            r == (AccessType { read: false, write: true, execute: true }),
    {
        AccessType { read: false, write: true, execute: true }
    }

    /// Read, write and execute access.
    pub fn read_write_execute() -> (r: AccessType)
        ensures
            r == (AccessType { read: true, write: true, execute: true }),
    {
        AccessType { read: true, write: true, execute: true }
    }
}

} // verus!
