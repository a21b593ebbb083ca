//! Checks of the EPT-violation swap protocol and the misconfiguration
//! verdict.

use ept::handle_ept_misconfiguration;
use ept::handle_ept_violation;
use ept::ActiveEptp;
use ept::EptViolationQualification;
use ept::ExitType;

const PRIMARY: u64 = 0x100_101E;
const SECONDARY: u64 = 0x200_101E;

#[test]
fn data_access_on_execute_only_page_switches_to_secondary() {
    let qual = EptViolationQualification { readable: true, writable: true, executable: false };
    let outcome = handle_ept_violation(ActiveEptp::Primary, PRIMARY, SECONDARY, qual);
    assert_eq!(outcome.eptp_to_load, Some(SECONDARY));
    assert!(outcome.invalidate_all_contexts);
    assert_eq!(outcome.active, ActiveEptp::Secondary);
    assert_eq!(outcome.exit_type, ExitType::Continue);
}

#[test]
fn execute_on_read_write_page_switches_back_to_primary() {
    let qual = EptViolationQualification { readable: false, writable: false, executable: true };
    let outcome = handle_ept_violation(ActiveEptp::Secondary, PRIMARY, SECONDARY, qual);
    assert_eq!(outcome.eptp_to_load, Some(PRIMARY));
    assert!(outcome.invalidate_all_contexts);
    assert_eq!(outcome.active, ActiveEptp::Primary);
    assert_eq!(outcome.exit_type, ExitType::Continue);
}

#[test]
fn other_patterns_leave_the_active_root_alone() {
    let patterns = [
        (false, false, false),
        (true, false, false),
        (false, true, false),
        (true, false, true),
        (false, true, true),
        (true, true, true),
    ];
    for (readable, writable, executable) in patterns {
        let qual = EptViolationQualification { readable, writable, executable };
        let outcome = handle_ept_violation(ActiveEptp::Primary, PRIMARY, SECONDARY, qual);
        assert_eq!(outcome.eptp_to_load, None);
        assert!(!outcome.invalidate_all_contexts);
        assert_eq!(outcome.active, ActiveEptp::Primary);
        assert_eq!(outcome.exit_type, ExitType::Continue);

        let outcome = handle_ept_violation(ActiveEptp::Secondary, PRIMARY, SECONDARY, qual);
        assert_eq!(outcome.active, ActiveEptp::Secondary);
    }
}

#[test]
fn round_trip_of_the_two_state_protocol() {
    // Primary active; a data access hides the hook, an execute brings it
    // back: two transitions return to the starting state.
    let data = EptViolationQualification { readable: true, writable: true, executable: false };
    let exec = EptViolationQualification { readable: false, writable: false, executable: true };
    let first = handle_ept_violation(ActiveEptp::Primary, PRIMARY, SECONDARY, data);
    assert_eq!(first.active, ActiveEptp::Secondary);
    let second = handle_ept_violation(first.active, PRIMARY, SECONDARY, exec);
    assert_eq!(second.active, ActiveEptp::Primary);
    assert_eq!(second.eptp_to_load, Some(PRIMARY));
}

#[test]
fn misconfiguration_is_fatal() {
    assert_eq!(handle_ept_misconfiguration(), ExitType::ExitHypervisor);
}
