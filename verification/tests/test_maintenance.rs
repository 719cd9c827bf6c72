use quicklendx_contracts::errors::QuickLendXError;
use quicklendx_contracts::events::TtlExtended;
use quicklendx_contracts::maintenance::{ExtendReport, MaintenanceControl, MAX_REASON_LEN};

// ============================================================================
// Helpers
// ============================================================================

fn setup() -> (MaintenanceControl, String) {
    let admin = String::from("GADMIN");
    let control = MaintenanceControl::initialize_admin(admin.clone());
    (control, admin)
}

fn reason(msg: &str) -> String {
    String::from(msg)
}

/// Refreshes indexes holding the given numbers of invoices, bids and
/// currencies (no investments, no escrows).
fn extend(
    control: &MaintenanceControl,
    caller: &String,
    invoices: u32,
    bids: u32,
    currencies: u32,
) -> Result<(ExtendReport, Vec<TtlExtended>), QuickLendXError> {
    control.extend_protocol_ttl(caller, invoices, bids, 0, 0, currencies)
}

// ============================================================================
// 1. Toggle
// ============================================================================

#[test]
fn test_admin_can_enable_maintenance_mode() {
    let (mut control, admin) = setup();

    assert!(!control.is_maintenance_mode());

    control.set_maintenance_mode(&admin, true, &reason("Scheduled upgrade")).unwrap();

    assert!(control.is_maintenance_mode());
}

#[test]
fn test_admin_can_disable_maintenance_mode() {
    let (mut control, admin) = setup();

    control.set_maintenance_mode(&admin, true, &reason("Upgrade")).unwrap();
    assert!(control.is_maintenance_mode());

    control.set_maintenance_mode(&admin, false, &reason("")).unwrap();
    assert!(!control.is_maintenance_mode());
}

// ============================================================================
// 3. Reads remain available
// ============================================================================

#[test]
fn test_maintenance_allows_is_maintenance_mode_query() {
    let (mut control, admin) = setup();

    control.set_maintenance_mode(&admin, true, &reason("Upgrade")).unwrap();

    assert!(control.is_maintenance_mode());
}

#[test]
fn test_maintenance_allows_get_maintenance_reason() {
    let (mut control, admin) = setup();
    let msg = "Scheduled DB migration - back in 15 min";

    control.set_maintenance_mode(&admin, true, &reason(msg)).unwrap();

    let stored = control.get_maintenance_reason();
    assert_eq!(
        stored.unwrap(),
        reason(msg),
        "Reason must be readable during maintenance"
    );
}

// ============================================================================
// 4. Bypass prevention - non-admin cannot toggle
// ============================================================================

#[test]
fn test_non_admin_cannot_enable_maintenance() {
    let (mut control, _admin) = setup();
    let attacker = String::from("GATTACKER");

    let result = control.set_maintenance_mode(&attacker, true, &reason("Malicious reason"));
    assert_eq!(
        result.unwrap_err(),
        QuickLendXError::NotAdmin,
        "Non-admin must receive NotAdmin, not a generic error"
    );
    assert!(!control.is_maintenance_mode(), "Flag must not change");
}

#[test]
fn test_non_admin_cannot_disable_maintenance() {
    let (mut control, admin) = setup();
    let attacker = String::from("GATTACKER");

    control.set_maintenance_mode(&admin, true, &reason("Legitimate maintenance")).unwrap();
    assert!(control.is_maintenance_mode());

    let result = control.set_maintenance_mode(&attacker, false, &reason(""));
    assert_eq!(result.unwrap_err(), QuickLendXError::NotAdmin);
    assert!(
        control.is_maintenance_mode(),
        "Maintenance must remain active after rejected bypass attempt"
    );
}

// ============================================================================
// 5. Reason string - stored, returned, cleared on disable
// ============================================================================

#[test]
fn test_reason_stored_on_enable() {
    let (mut control, admin) = setup();
    let msg = "Network upgrade v2.1";

    control.set_maintenance_mode(&admin, true, &reason(msg)).unwrap();

    assert_eq!(control.get_maintenance_reason().unwrap(), reason(msg));
}

#[test]
fn test_reason_cleared_on_disable() {
    let (mut control, admin) = setup();

    control.set_maintenance_mode(&admin, true, &reason("Upgrade")).unwrap();
    control.set_maintenance_mode(&admin, false, &reason("")).unwrap();

    assert!(
        control.get_maintenance_reason().is_none(),
        "Reason must be cleared when maintenance is disabled"
    );
}

#[test]
fn test_reason_updated_on_re_enable() {
    let (mut control, admin) = setup();

    control.set_maintenance_mode(&admin, true, &reason("First window")).unwrap();
    control.set_maintenance_mode(&admin, false, &reason("")).unwrap();
    control.set_maintenance_mode(&admin, true, &reason("Second window")).unwrap();

    assert_eq!(
        control.get_maintenance_reason().unwrap(),
        reason("Second window")
    );
}

// ============================================================================
// 6. Reason validation - oversized reason rejected
// ============================================================================

#[test]
fn test_oversized_reason_rejected() {
    let (mut control, admin) = setup();

    // Build a reason one byte over the limit.
    let oversized: String = "x".repeat((MAX_REASON_LEN + 1) as usize);

    let result = control.set_maintenance_mode(&admin, true, &oversized);
    assert_eq!(
        result.unwrap_err(),
        QuickLendXError::InvalidDescription,
        "Reason exceeding MAX_REASON_LEN must be rejected"
    );
    assert!(
        !control.is_maintenance_mode(),
        "Flag must not change on rejection"
    );
}

#[test]
fn test_max_length_reason_accepted() {
    let (mut control, admin) = setup();

    let max_reason: String = "a".repeat(MAX_REASON_LEN as usize);

    control.set_maintenance_mode(&admin, true, &max_reason).unwrap();
    assert!(control.is_maintenance_mode());
}

// ============================================================================
// 7. Admin rotation - new admin can exit; old admin cannot
// ============================================================================

#[test]
fn test_new_admin_can_exit_maintenance_after_rotation() {
    let (mut control, admin) = setup();
    let new_admin = String::from("GNEWADMIN");

    control.set_maintenance_mode(&admin, true, &reason("Upgrade")).unwrap();
    control.transfer_admin(&admin, new_admin.clone()).unwrap();

    // Old admin is rejected.
    let result = control.set_maintenance_mode(&admin, false, &reason(""));
    assert_eq!(result.unwrap_err(), QuickLendXError::NotAdmin);
    assert!(control.is_maintenance_mode(), "Still in maintenance");

    // New admin succeeds.
    control.set_maintenance_mode(&new_admin, false, &reason("")).unwrap();
    assert!(!control.is_maintenance_mode());
}

// ============================================================================
// 8. Idempotency - enabling when already enabled is safe
// ============================================================================

#[test]
fn test_enable_when_already_enabled_is_safe() {
    let (mut control, admin) = setup();

    control.set_maintenance_mode(&admin, true, &reason("First reason")).unwrap();
    // Enable again with a different reason - should update the reason.
    control.set_maintenance_mode(&admin, true, &reason("Updated reason")).unwrap();

    assert!(control.is_maintenance_mode());
    assert_eq!(
        control.get_maintenance_reason().unwrap(),
        reason("Updated reason")
    );
}

#[test]
fn test_disable_when_already_disabled_is_safe() {
    let (mut control, admin) = setup();

    assert!(!control.is_maintenance_mode());
    // Disable when already off - must not panic or corrupt state.
    control.set_maintenance_mode(&admin, false, &reason("")).unwrap();
    assert!(!control.is_maintenance_mode());
    assert!(control.get_maintenance_reason().is_none());
}

// ============================================================================
// 10. TTL Extension
// ============================================================================

#[test]
fn test_admin_can_extend_protocol_ttl() {
    let (control, admin) = setup();

    // One currency, one invoice and one bid on it are indexed.
    let (report, _events) = extend(&control, &admin, 1, 1, 1).unwrap();

    assert!(report.invoices_refreshed > 0);
    assert!(report.bids_refreshed > 0);
    assert!(report.currencies_refreshed > 0);
    assert_eq!(report.investments_refreshed, 0);
    assert_eq!(report.escrows_refreshed, 0);
}

#[test]
fn test_extend_ttl_empty_indexes() {
    let (control, admin) = setup();

    let (report, _events) = extend(&control, &admin, 0, 0, 0).unwrap();

    assert_eq!(
        report,
        ExtendReport {
            invoices_refreshed: 0,
            bids_refreshed: 0,
            investments_refreshed: 0,
            escrows_refreshed: 0,
            currencies_refreshed: 0,
        },
        "report must be all-zero when no data exists"
    );
}

#[test]
fn test_extend_ttl_non_admin_rejected() {
    let (control, _admin) = setup();
    let attacker = String::from("GATTACKER");

    let result = extend(&control, &attacker, 0, 0, 0);
    assert_eq!(
        result.unwrap_err(),
        QuickLendXError::NotAdmin,
        "non-admin must receive NotAdmin"
    );
}

#[test]
fn test_extend_ttl_idempotent() {
    let (control, admin) = setup();

    let (report1, _) = extend(&control, &admin, 1, 1, 1).unwrap();
    let (report2, _) = extend(&control, &admin, 1, 1, 1).unwrap();

    assert_eq!(
        report1, report2,
        "extending TTL twice must produce identical report"
    );
}

#[test]
fn test_extend_ttl_all_kinds_populated() {
    let (control, admin) = setup();

    // Two invoices, one bid, two currencies are indexed.
    let (report, _events) = extend(&control, &admin, 2, 1, 2).unwrap();

    assert_eq!(report.invoices_refreshed, 2);
    assert!(report.bids_refreshed >= 1);
    assert_eq!(report.currencies_refreshed, 2);
}

#[test]
fn test_extend_ttl_emits_events() {
    let (control, admin) = setup();

    let (report, events) = extend(&control, &admin, 1, 1, 1).unwrap();

    let expected_events = (report.invoices_refreshed > 0) as usize
        + (report.bids_refreshed > 0) as usize
        + (report.investments_refreshed > 0) as usize
        + (report.escrows_refreshed > 0) as usize
        + (report.currencies_refreshed > 0) as usize;

    assert_eq!(
        events.len(),
        expected_events,
        "must emit one TtlExtended event per non-zero kind"
    );
}

#[test]
fn test_extend_ttl_no_events_when_empty() {
    let (control, admin) = setup();

    let (_report, events) = extend(&control, &admin, 0, 0, 0).unwrap();

    assert_eq!(
        events.len(),
        0,
        "no TtlExtended events when all indexes are empty"
    );
}

// ============================================================================
// 10. Upgrade-pending guard - writes blocked while active
// ============================================================================

#[test]
fn test_store_invoice_blocked_during_upgrade_pending() {
    let (mut control, admin) = setup();

    control.schedule_upgrade(&admin).unwrap();

    assert!(control.is_upgrade_pending());

    // The write guard that store_invoice passes first.
    let result = control.require_write_allowed();

    assert_eq!(
        result.unwrap_err(),
        QuickLendXError::UpgradeScheduled,
        "store_invoice must return UpgradeScheduled during pending upgrade"
    );
}

#[test]
fn test_cancel_upgrade_restores_writes() {
    let (mut control, admin) = setup();

    control.schedule_upgrade(&admin).unwrap();
    assert!(control.is_upgrade_pending());

    control.cancel_upgrade(&admin).unwrap();
    assert!(!control.is_upgrade_pending());

    // After cancel, writes succeed again.
    let result = control.require_write_allowed();
    assert!(
        result.is_ok(),
        "store_invoice must succeed after upgrade is cancelled: {:?}",
        result
    );
}

#[test]
fn test_schedule_upgrade_requires_admin() {
    let (mut control, _admin) = setup();
    let impostor = String::from("GIMPOSTOR");

    let result = control.schedule_upgrade(&impostor);
    assert_eq!(
        result.unwrap_err(),
        QuickLendXError::NotAdmin,
        "non-admin must not schedule an upgrade"
    );
}

#[test]
fn test_cancel_upgrade_idempotent_when_not_pending() {
    let (mut control, admin) = setup();

    assert!(!control.is_upgrade_pending());
    // Should not error
    let result = control.cancel_upgrade(&admin);
    assert!(result.is_ok());
    assert!(!control.is_upgrade_pending());
}
