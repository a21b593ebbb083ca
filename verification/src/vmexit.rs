//! The VM-exit-driven EPT protocol: which translation root stays active.
//!
//! Two independent EPT hierarchies are built at startup, a primary and a
//! secondary, and the processor walks whichever one the EPTP control field
//! names. An EPT violation on a page whose permissions were deliberately
//! restricted is the signal to load the other root, so that a physical page
//! can present different content and permissions to code execution than to
//! data access. The decisions live here; reading and writing the control
//! field and invalidating the translation caches are the surrounding
//! runtime's work, driven by the outcome values these functions return.

use vstd::prelude::*;

verus! {

/// Represents the type of VM exit handling that the dispatcher must perform
/// after a handler returns.
#[derive(Clone, Copy, Debug, PartialEq, Eq, PartialOrd, Structural)]
pub enum ExitType {
    ExitHypervisor,
    IncrementRIP,
    Continue,
}

/// Which of the two EPT roots is loaded in the EPTP control field.
#[derive(Clone, Copy, Debug, PartialEq, Eq, Structural)]
pub enum ActiveEptp {
    Primary,
    Secondary,
}

/// The access attributes of the page that faulted, decoded from the
/// exit-qualification word of an EPT-violation VM exit: whether the active
/// table currently lets the guest read, write or execute that page.
#[derive(Clone, Copy, Debug, PartialEq, Eq, Structural)]
pub struct EptViolationQualification {
    pub readable: bool,
    pub writable: bool,
    pub executable: bool,
}

/// What the runtime must do after an EPT violation was handled.
#[derive(Clone, Copy, Debug, PartialEq, Eq, Structural)]
pub struct EptViolationOutcome {
    /// The value to load into the EPTP control field, or `None` when the
    /// active root stays.
    pub eptp_to_load: Option<u64>,
    /// Whether one invalidation of all EPT translation-cache contexts must be
    /// issued. It is set exactly when `eptp_to_load` carries a value.
    pub invalidate_all_contexts: bool,
    /// The root that is active once the outcome has been applied.
    pub active: ActiveEptp,
    /// Always `Continue`: the instruction pointer is never advanced, so the
    /// faulting instruction re-executes against the newly active table.
    pub exit_type: ExitType,
}

/// Handles an EPT-violation VM exit.
///
/// A read/write data access against a page the active table restricts to
/// execute-only loads the secondary root; an execute attempt against a page
/// restricted to read/write loads the primary root; every other pattern
/// leaves the active root alone. Each swap is followed by exactly one
/// invalidation of all EPT translation-cache contexts, and the faulting
/// instruction always re-executes.
pub fn handle_ept_violation(
    active: ActiveEptp,
    primary_eptp: u64,
    secondary_eptp: u64,
    qualification: EptViolationQualification,
) -> (r: EptViolationOutcome)
    ensures
        qualification.readable && qualification.writable && !qualification.executable ==> r == (
        EptViolationOutcome {
            eptp_to_load: Some(secondary_eptp),
            invalidate_all_contexts: true,
            active: ActiveEptp::Secondary,
            exit_type: ExitType::Continue,
        }),
        !qualification.readable && !qualification.writable && qualification.executable ==> r == (
        EptViolationOutcome {
            eptp_to_load: Some(primary_eptp),
            invalidate_all_contexts: true,
            active: ActiveEptp::Primary,
            exit_type: ExitType::Continue,
        }),
        !(qualification.readable && qualification.writable && !qualification.executable) && !(
        !qualification.readable && !qualification.writable && qualification.executable) ==> r == (
        EptViolationOutcome {
            eptp_to_load: None,
            invalidate_all_contexts: false,
            active: active,
            exit_type: ExitType::Continue,
        }),
        r.exit_type == ExitType::Continue,
        r.invalidate_all_contexts == (r.eptp_to_load is Some),
{
    if qualification.readable && qualification.writable && !qualification.executable {
        // A data access faulted on the execute-only view: serve reads and
        // writes from the secondary table's unmodified page.
        EptViolationOutcome {
            eptp_to_load: Some(secondary_eptp),
            invalidate_all_contexts: true,
            active: ActiveEptp::Secondary,
            exit_type: ExitType::Continue,
        }
    } else if !qualification.readable && !qualification.writable && qualification.executable {
        // An execute attempt faulted on the read/write view: return to the
        // primary table's execute-capable page.
        EptViolationOutcome {
            eptp_to_load: Some(primary_eptp),
            invalidate_all_contexts: true,
            active: ActiveEptp::Primary,
            exit_type: ExitType::Continue,
        }
    } else {
        EptViolationOutcome {
            eptp_to_load: None,
            invalidate_all_contexts: false,
            active,
            exit_type: ExitType::Continue,
        }
    }
}

/// Handles an EPT-misconfiguration VM exit.
///
/// A misconfiguration means the hardware rejected the table structure itself,
/// so it is non-recoverable: the runtime must halt for debugging, typically
/// by raising a breakpoint exception, and tear the hypervisor down rather
/// than resume the guest.
pub fn handle_ept_misconfiguration() -> (r: ExitType)
    ensures
        r == ExitType::ExitHypervisor,
{
    ExitType::ExitHypervisor
}

} // verus!
