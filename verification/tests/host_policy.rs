use renodx_core::errors::ServiceError;
use renodx_core::host_policy::{
    assess_scan, ActiveSlotReason, ActiveSlotState, HostAssessment, HostConflictKind,
    ReshadeAddonSupport, ReshadeHost, ReshadeHostAction, ReshadeIdentity, ReshadeScan,
    SlotActivity,
};

fn present_host(
    slot: &str,
    addon_support: ReshadeAddonSupport,
    identity: ReshadeIdentity,
    state: SlotActivity,
) -> ReshadeHost {
    ReshadeHost::Present {
        path: format!(r"C:\Games\Test\{slot}"),
        slot: slot.to_owned(),
        version: Some("6.7.3".to_owned()),
        addon_support,
        identity,
        active: ActiveSlotState { state, reason: ActiveSlotReason::DetectedByMatcher },
    }
}

fn assess_hosts(hosts: Vec<ReshadeHost>) -> HostAssessment {
    assess_scan(r"C:\Games\Test", "dxgi.dll", &ReshadeScan { hosts })
}

#[test]
fn absent_host_writes_requested_slot() {
    let assessment = assess_hosts(vec![]);
    assert_eq!(assessment.action, ReshadeHostAction::UpdateHost);
    assert!(!assessment.conflict);
    assert!(assessment.writes_host());
    assert_eq!(assessment.slot, "dxgi.dll");
    assert!(assessment.target_path.ends_with("dxgi.dll"));
}

#[test]
fn active_full_host_is_reused() {
    let assessment = assess_hosts(vec![present_host(
        "dxgi.dll",
        ReshadeAddonSupport::Full,
        ReshadeIdentity::Confirmed,
        SlotActivity::Active,
    )]);
    assert_eq!(assessment.action, ReshadeHostAction::UpToDate);
    assert!(!assessment.conflict);
    assert!(!assessment.writes_host());
}

#[test]
fn active_host_without_addon_support_is_reinstalled() {
    let assessment = assess_hosts(vec![present_host(
        "dxgi.dll",
        ReshadeAddonSupport::NotSupported,
        ReshadeIdentity::Confirmed,
        SlotActivity::Active,
    )]);
    assert_eq!(assessment.action, ReshadeHostAction::ReinstallWithAddonSupport);
    assert!(!assessment.conflict);
    assert!(assessment.writes_host());
}

#[test]
fn active_host_with_unknown_addon_support_is_repaired() {
    let assessment = assess_hosts(vec![present_host(
        "dxgi.dll",
        ReshadeAddonSupport::Unknown,
        ReshadeIdentity::Probable,
        SlotActivity::Active,
    )]);
    assert_eq!(assessment.action, ReshadeHostAction::RepairHost);
    assert!(!assessment.conflict);
    assert!(assessment.writes_host());
}

#[test]
fn weak_active_slot_is_conflict() {
    let assessment = assess_hosts(vec![present_host(
        "dxgi.dll",
        ReshadeAddonSupport::Unknown,
        ReshadeIdentity::Weak,
        SlotActivity::Active,
    )]);
    assert_eq!(assessment.action, ReshadeHostAction::Conflict);
    assert!(assessment.conflict);
    assert!(!assessment.writes_host());
}

#[test]
fn inactive_reshade_slot_is_conflict() {
    let assessment = assess_hosts(vec![present_host(
        "ReShade64.dll",
        ReshadeAddonSupport::Full,
        ReshadeIdentity::Confirmed,
        SlotActivity::Inactive,
    )]);
    assert_eq!(assessment.action, ReshadeHostAction::Conflict);
    assert!(assessment.conflict);
    assert!(!assessment.writes_host());
}

#[test]
fn multiple_reshade_hosts_are_conflict_even_with_active_full_host() {
    let assessment = assess_hosts(vec![
        present_host("dxgi.dll", ReshadeAddonSupport::Full, ReshadeIdentity::Confirmed, SlotActivity::Active),
        present_host("ReShade64.dll", ReshadeAddonSupport::Full, ReshadeIdentity::Probable, SlotActivity::Inactive),
    ]);
    assert_eq!(assessment.action, ReshadeHostAction::UpToDate);
    assert!(assessment.conflict);
    assert!(!assessment.writes_host());
}

// ---------------------------------------------------------------------------
// The library's own cases
// ---------------------------------------------------------------------------

fn conflict_message(a: &HostAssessment, proxy: &str) -> String {
    match a.ensure_not_conflicting(proxy) {
        Err(ServiceError::InvalidInput(m)) => m,
        other => panic!("expected a conflict, got {other:?}"),
    }
}

#[test]
fn every_conflict_is_refused_with_its_reason() {
    let multiple = assess_hosts(vec![
        present_host("dxgi.dll", ReshadeAddonSupport::Full, ReshadeIdentity::Confirmed, SlotActivity::Active),
        present_host("d3d11.dll", ReshadeAddonSupport::Full, ReshadeIdentity::Confirmed, SlotActivity::Inactive),
    ]);
    assert_eq!(multiple.conflict_kind, Some(HostConflictKind::MultipleHosts));
    assert_eq!(
        conflict_message(&multiple, "dxgi.dll"),
        "multiple ReShade hosts were found; resolve the active proxy slot before installing or updating"
    );
    let weak = assess_hosts(vec![present_host(
        "dxgi.dll",
        ReshadeAddonSupport::Unknown,
        ReshadeIdentity::Weak,
        SlotActivity::Active,
    )]);
    assert_eq!(
        conflict_message(&weak, "dxgi.dll"),
        "the 'dxgi.dll' slot RenoDX needs is occupied by a non-ReShade file; remove or relocate it before installing"
    );
    let inactive = assess_hosts(vec![present_host(
        "ReShade64.dll",
        ReshadeAddonSupport::Full,
        ReshadeIdentity::Confirmed,
        SlotActivity::Inactive,
    )]);
    assert!(conflict_message(&inactive, "dxgi.dll").starts_with("ReShade is present, but not in the proxy slot"));
    assert!(assess_hosts(vec![]).ensure_not_conflicting("dxgi.dll").is_ok());
}

#[test]
fn a_present_host_keeps_its_own_path_and_slot() {
    let a = assess_hosts(vec![present_host(
        "d3d11.dll",
        ReshadeAddonSupport::Full,
        ReshadeIdentity::Confirmed,
        SlotActivity::Active,
    )]);
    assert_eq!(a.slot, "d3d11.dll");
    assert_eq!(a.target_path, r"C:\Games\Test\d3d11.dll");
    let absent = assess_hosts(vec![]);
    assert_eq!(absent.target_path, r"C:\Games\Test\dxgi.dll");
}

#[test]
fn the_first_active_host_is_primary_even_when_listed_later() {
    let a = assess_hosts(vec![
        present_host("ReShade64.dll", ReshadeAddonSupport::Full, ReshadeIdentity::Weak, SlotActivity::Inactive),
        present_host("dxgi.dll", ReshadeAddonSupport::Unknown, ReshadeIdentity::Confirmed, SlotActivity::Active),
    ]);
    assert_eq!(a.slot, "dxgi.dll");
    assert_eq!(a.action, ReshadeHostAction::RepairHost);
    assert!(!a.conflict);
}
