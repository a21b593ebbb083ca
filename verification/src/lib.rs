//! Memory-virtualization core for an Intel VT-x hypervisor: the Extended Page
//! Table (EPT) data structure with its construction and mutation algorithms,
//! and the EPT-violation protocol that swaps the active translation root.

pub mod access;
pub mod addresses;
pub mod entry;
pub mod error;
pub mod memory_type;
pub mod paging;
pub mod vmexit;

pub use access::AccessType;
pub use addresses::PhysicalAddress;
pub use entry::Entry;
pub use entry::EntryView;
pub use error::EptError;
pub use memory_type::BoundedMemoryTypeResolver;
pub use memory_type::FixedMemoryTypeResolver;
pub use memory_type::MemoryType;
pub use memory_type::MemoryTypeResolver;
pub use paging::Ept;
pub use vmexit::ActiveEptp;
pub use vmexit::EptViolationOutcome;
pub use vmexit::EptViolationQualification;
pub use vmexit::ExitType;
pub use vmexit::handle_ept_misconfiguration;
pub use vmexit::handle_ept_violation;
