use renodx_core::dto::{
    LayerDiagnosticReason, RenoDxUpdateReport, VulkanLayerActions, VulkanLayerArchitecture,
    VulkanLayerDetection, VulkanLayerFacts, VulkanLayerReport, VulkanLoaderVisibility,
};
use renodx_core::errors::{vulkan_layer_conflict, vulkan_unsupported_platform, ServiceError};
use renodx_core::types::UpdateStatus;
use renodx_core::types::UpdateStatus::{Available, Current, Unknown};
use renodx_core::vulkan::{
    layer_digest, layer_mutation_gate, layer_report, layer_update_verdict, map_platform_report,
    not_installed_report, register_app, resolve_digest_verdict, standard_paths,
    unregister_app, unsupported_report, AppRegistration, AppUnregistration, LayerMutationGate, PlatformLayerArchitecture,
    PlatformLayerDiagnostic, PlatformLayerFacts, PlatformLayerReport, PlatformLayerState,
    PlatformLoaderVisibility,
};

fn report_with(
    detection: VulkanLayerDetection,
    diagnostic_reasons: Vec<LayerDiagnosticReason>,
) -> VulkanLayerReport {
    VulkanLayerReport {
        layer_detection: detection,
        layer_facts: VulkanLayerFacts {
            manifest_path: None,
            dll_path: None,
            version: None,
            architecture: VulkanLayerArchitecture::Unknown,
            loader_visibility: VulkanLoaderVisibility::Normal,
        },
        diagnostic_reasons,
        actions: VulkanLayerActions {
            install: None,
            update: None,
            switch_channel: None,
            remove: None,
            resolve_conflict: None,
        },
    }
}

#[test]
fn gate_proceeds_for_not_installed_installed_and_installed_disabled() {
    for detection in [
        VulkanLayerDetection::NotInstalled,
        VulkanLayerDetection::Installed,
        VulkanLayerDetection::InstalledDisabled,
    ] {
        assert_eq!(
            layer_mutation_gate(&report_with(detection, Vec::new())),
            LayerMutationGate::Proceed
        );
    }
}

#[test]
fn gate_proceeds_for_standard_mutable_conflict() {
    let report = report_with(
        VulkanLayerDetection::Conflict,
        vec![LayerDiagnosticReason::RegistryDisabled],
    );
    assert_eq!(layer_mutation_gate(&report), LayerMutationGate::Proceed);
}

#[test]
fn gate_rejects_unresolved_conflict() {
    let report = report_with(
        VulkanLayerDetection::Conflict,
        vec![LayerDiagnosticReason::DuplicateLayerManifest],
    );
    assert_eq!(
        layer_mutation_gate(&report),
        LayerMutationGate::UnresolvedConflict
    );
}

#[test]
fn gate_rejects_external_read_only_and_unsupported() {
    assert_eq!(
        layer_mutation_gate(&report_with(
            VulkanLayerDetection::ExternalReadOnly,
            Vec::new()
        )),
        LayerMutationGate::ExternalReadOnly
    );
    assert_eq!(
        layer_mutation_gate(&report_with(VulkanLayerDetection::Unsupported, Vec::new())),
        LayerMutationGate::Unsupported
    );
}

#[test]
fn actual_dll_digest_wins_over_stale_db_digest() {
    let expected = "abc123";
    let verdict = resolve_digest_verdict(Some(expected), Some("stale-digest-from-db"), expected);
    assert_eq!(verdict.status, UpdateStatus::Current);
    assert!(verdict.diagnostics.is_empty());
}

#[test]
fn db_only_fallback_does_not_return_strong_current() {
    let expected = "abc123";
    let verdict = resolve_digest_verdict(None, Some(expected), expected);
    assert_eq!(verdict.status, UpdateStatus::UnknownNeedsValidation);
    assert_eq!(
        verdict.diagnostics,
        vec![LayerDiagnosticReason::DbOnlyFallback]
    );
}

#[test]
fn hash_mismatch_returns_update_available() {
    let verdict = resolve_digest_verdict(Some("actual-digest"), Some("db-digest"), "expected-digest");
    assert_eq!(verdict.status, UpdateStatus::Available);
    assert_eq!(
        verdict.diagnostics,
        vec![LayerDiagnosticReason::HashMismatch]
    );
}

#[test]
fn db_only_mismatch_returns_available() {
    let verdict = resolve_digest_verdict(None, Some("old-db-digest"), "expected-digest");
    assert_eq!(verdict.status, UpdateStatus::Available);
    assert_eq!(
        verdict.diagnostics,
        vec![LayerDiagnosticReason::DbOnlyFallback]
    );
}

#[test]
fn no_dll_no_db_returns_available() {
    let verdict = resolve_digest_verdict(None, None, "expected-digest");
    assert_eq!(verdict.status, UpdateStatus::Available);
    assert!(verdict.diagnostics.is_empty());
}

#[test]
fn not_installed_report_offers_install_only() {
    let report = not_installed_report();
    assert_eq!(report.layer_detection, VulkanLayerDetection::NotInstalled);
    assert!(report.actions.install.is_some());
    assert!(report.actions.update.is_none());
    assert!(report.actions.switch_channel.is_none());
    assert!(report.actions.remove.is_none());
    assert!(report.actions.resolve_conflict.is_none());
}

#[test]
fn unsupported_report_offers_no_actions() {
    let report = unsupported_report();
    assert_eq!(report.layer_detection, VulkanLayerDetection::Unsupported);
    assert!(report.actions.install.is_none());
    assert!(report.actions.update.is_none());
    assert!(report.actions.resolve_conflict.is_none());
}

#[test]
fn external_read_only_never_exposes_mutating_actions() {
    let report = unsupported_report();
    let external = VulkanLayerReport {
        layer_detection: VulkanLayerDetection::ExternalReadOnly,
        layer_facts: report.layer_facts,
        diagnostic_reasons: vec![LayerDiagnosticReason::ExternalLayerDetected],
        actions: VulkanLayerActions {
            install: None,
            update: None,
            switch_channel: None,
            remove: None,
            resolve_conflict: None,
        },
    };
    assert!(external.actions.update.is_none());
    assert!(external.actions.switch_channel.is_none());
    assert!(external.actions.remove.is_none());
    assert!(external.actions.install.is_none());
}

fn platform_report(
    state: PlatformLayerState,
    diagnostics: Vec<PlatformLayerDiagnostic>,
) -> PlatformLayerReport {
    PlatformLayerReport {
        state,
        facts: PlatformLayerFacts {
            manifest_path: Some("C:\\layer\\ReShade64.json".to_owned()),
            dll_path: Some("C:\\layer\\ReShade64.dll".to_owned()),
            version: Some("6.7.3".to_owned()),
            architecture: PlatformLayerArchitecture::X64,
            loader_visibility: PlatformLoaderVisibility::Normal,
        },
        diagnostics,
    }
}

fn map(report: PlatformLayerReport) -> VulkanLayerReport {
    map_platform_report(report, None)
}

#[test]
fn absent_maps_to_not_installed_with_install_action() {
    let report = map(platform_report(PlatformLayerState::Absent, Vec::new()));
    assert_eq!(report.layer_detection, VulkanLayerDetection::NotInstalled);
    assert!(report.actions.install.is_some());
    assert!(report.actions.update.is_none());
    assert!(report.actions.remove.is_none());
}

#[test]
fn installed_maps_to_installed_with_update_switch_remove() {
    let report = map(platform_report(PlatformLayerState::Installed, Vec::new()));
    assert_eq!(report.layer_detection, VulkanLayerDetection::Installed);
    assert!(report.actions.update.is_some());
    assert!(report.actions.switch_channel.is_some());
    assert!(report.actions.remove.is_some());
    assert!(report.actions.install.is_none());
    assert!(report.actions.resolve_conflict.is_none());
    assert!(report.actions.update.unwrap().requires_confirmation);
    assert!(report.actions.remove.unwrap().requires_confirmation);
}

#[test]
fn external_maps_to_external_read_only_without_mutating_actions() {
    let report = map(platform_report(PlatformLayerState::External, Vec::new()));
    assert_eq!(
        report.layer_detection,
        VulkanLayerDetection::ExternalReadOnly
    );
    assert!(report.actions.install.is_none());
    assert!(report.actions.update.is_none());
    assert!(report.actions.switch_channel.is_none());
    assert!(report.actions.remove.is_none());
    assert!(report
        .diagnostic_reasons
        .contains(&LayerDiagnosticReason::ExternalLayerDetected));
}

#[test]
fn installed_disabled_maps_with_update_and_remove() {
    let report = map(platform_report(
        PlatformLayerState::InstalledDisabled,
        vec![PlatformLayerDiagnostic::RegistryDisabled],
    ));
    assert_eq!(
        report.layer_detection,
        VulkanLayerDetection::InstalledDisabled
    );
    assert!(report.actions.install.is_none());
    assert!(report.actions.update.is_some());
    assert!(report.actions.update.unwrap().requires_confirmation);
    assert!(report.actions.switch_channel.is_none());
    assert!(report.actions.remove.is_some());
    assert!(report.actions.resolve_conflict.is_none());
    assert!(report
        .diagnostic_reasons
        .contains(&LayerDiagnosticReason::RegistryDisabled));
}

#[test]
fn duplicate_conflict_maps_to_resolve_conflict_only() {
    let report = map(platform_report(
        PlatformLayerState::Conflict,
        vec![PlatformLayerDiagnostic::DuplicateLayerManifest],
    ));
    assert_eq!(report.layer_detection, VulkanLayerDetection::Conflict);
    assert!(report.actions.install.is_none());
    assert!(report.actions.update.is_none());
    assert!(report.actions.remove.is_none());
    assert!(report.actions.resolve_conflict.is_some());
    assert!(!report.actions.resolve_conflict.unwrap().enabled);
    assert!(report
        .diagnostic_reasons
        .contains(&LayerDiagnosticReason::DuplicateLayerManifest));
}

#[test]
fn ambiguous_conflict_does_not_offer_repair_update() {
    let report = map(platform_report(
        PlatformLayerState::Conflict,
        vec![PlatformLayerDiagnostic::AmbiguousLoaderVisibility],
    ));
    assert_eq!(report.layer_detection, VulkanLayerDetection::Conflict);
    assert!(report.actions.update.is_none());
    assert!(report.actions.resolve_conflict.is_some());
}

#[test]
fn registry_missing_conflict_maps_to_repair_update_action() {
    let report = map(platform_report(
        PlatformLayerState::Conflict,
        vec![PlatformLayerDiagnostic::RegistryMissing],
    ));
    assert_eq!(report.layer_detection, VulkanLayerDetection::Conflict);
    let resolve = report.actions.resolve_conflict.expect("repair action");
    assert!(resolve.enabled);
    assert!(resolve.requires_confirmation);
    assert!(report.actions.update.is_none());
    assert!(report.actions.install.is_none());
    assert!(report.actions.remove.is_none());
    assert!(report
        .diagnostic_reasons
        .contains(&LayerDiagnosticReason::RegistryMissing));
}

#[test]
fn unsupported_maps_to_unsupported_with_no_actions() {
    let report = map(platform_report(
        PlatformLayerState::Unsupported,
        vec![PlatformLayerDiagnostic::UnsupportedArchitecture],
    ));
    assert_eq!(report.layer_detection, VulkanLayerDetection::Unsupported);
    assert!(report.actions.install.is_none());
    assert!(report.actions.resolve_conflict.is_none());
    assert!(report
        .diagnostic_reasons
        .contains(&LayerDiagnosticReason::UnsupportedArchitecture));
}

#[test]
fn facts_are_threaded_from_platform_to_public_dto() {
    let report = map(platform_report(PlatformLayerState::Installed, Vec::new()));
    assert_eq!(
        report.layer_facts.manifest_path.as_deref(),
        Some("C:\\layer\\ReShade64.json")
    );
    assert_eq!(
        report.layer_facts.dll_path.as_deref(),
        Some("C:\\layer\\ReShade64.dll")
    );
    assert_eq!(report.layer_facts.version.as_deref(), Some("6.7.3"));
    assert_eq!(report.layer_facts.architecture, VulkanLayerArchitecture::X64);
    assert_eq!(
        report.layer_facts.loader_visibility,
        VulkanLoaderVisibility::Normal
    );
}

#[test]
fn hkcu_visibility_is_threaded_from_platform() {
    let facts = PlatformLayerFacts {
        manifest_path: Some("C:\\layer\\ReShade64.json".to_owned()),
        dll_path: Some("C:\\layer\\ReShade64.dll".to_owned()),
        version: None,
        architecture: PlatformLayerArchitecture::X64,
        loader_visibility: PlatformLoaderVisibility::HkcuNotVisibleWhenElevated,
    };
    let report = map(PlatformLayerReport {
        state: PlatformLayerState::Installed,
        facts,
        diagnostics: vec![PlatformLayerDiagnostic::HkcuNotVisibleWhenElevated],
    });
    assert_eq!(
        report.layer_facts.loader_visibility,
        VulkanLoaderVisibility::HkcuNotVisibleWhenElevated
    );
    assert!(report
        .diagnostic_reasons
        .contains(&LayerDiagnosticReason::HkcuNotVisibleWhenElevated));
}

#[test]
fn missing_dll_conflict_surfaces_missing_layer_dll_diagnostic() {
    let report = map(PlatformLayerReport {
        state: PlatformLayerState::Conflict,
        facts: PlatformLayerFacts {
            manifest_path: Some("C:\\layer\\ReShade64.json".to_owned()),
            dll_path: Some("C:\\layer\\ReShade64.dll".to_owned()),
            version: None,
            architecture: PlatformLayerArchitecture::Unknown,
            loader_visibility: PlatformLoaderVisibility::Normal,
        },
        diagnostics: vec![PlatformLayerDiagnostic::MissingLayerDll],
    });
    assert_eq!(report.layer_detection, VulkanLayerDetection::Conflict);
    assert!(report.actions.resolve_conflict.is_some());
    assert_eq!(
        report.diagnostic_reasons,
        vec![LayerDiagnosticReason::MissingLayerDll]
    );
}

#[test]
fn installed_switch_channel_offered_without_target_channel() {
    let report = map(platform_report(PlatformLayerState::Installed, Vec::new()));
    let switch = report
        .actions
        .switch_channel
        .expect("switch_channel is offered");
    assert_eq!(switch.target_channel, None);
}

#[test]
fn unknown_architecture_is_backend_validation_failed_conflict() {
    let report = map(PlatformLayerReport {
        state: PlatformLayerState::Conflict,
        facts: PlatformLayerFacts {
            manifest_path: None,
            dll_path: None,
            version: None,
            architecture: PlatformLayerArchitecture::Unknown,
            loader_visibility: PlatformLoaderVisibility::Normal,
        },
        diagnostics: vec![PlatformLayerDiagnostic::BackendValidationFailed],
    });
    assert_eq!(report.layer_detection, VulkanLayerDetection::Conflict);
    assert_eq!(
        report.diagnostic_reasons,
        vec![LayerDiagnosticReason::BackendValidationFailed]
    );
}

#[test]
fn report_assembly_recorded_host_entry() {
    let report = RenoDxUpdateReport::new(Some(Current), Some(Available), None);
    assert_eq!(report.overall, Available);

    let report = RenoDxUpdateReport::new(Some(Current), Some(Current), None);
    assert_eq!(report.overall, Current);
}

#[test]
fn report_assembly_without_host_entry() {
    let report = RenoDxUpdateReport::new(Some(Current), None, None);
    assert_eq!(report.overall, Current);

    let report = RenoDxUpdateReport::new(Some(Available), None, None);
    assert_eq!(report.overall, Available);
}

#[test]
fn report_assembly_file_install() {
    let report = RenoDxUpdateReport::new(None, Some(Current), None);
    assert_eq!(report.overall, Unknown);
}

#[test]
fn report_assembly_keeps_dlss_fix_out_of_generic_overall() {
    let report = RenoDxUpdateReport::new(Some(Current), Some(Current), Some(Available));
    assert_eq!(report.overall, Current);
}

#[test]
fn vulkan_layer_conflict_names_the_blocked_operation() {
    for operation in ["installing", "updating"] {
        match vulkan_layer_conflict(operation) {
            ServiceError::InvalidInput(message) => {
                assert_eq!(
                    message,
                    format!("shared Vulkan layer conflict must be resolved before {operation} RenoDX")
                );
            }
            other => panic!("expected InvalidInput, got {other:?}"),
        }
    }
}

// ---------------------------------------------------------------------------
// Further cases of the library's own contracts
// ---------------------------------------------------------------------------

#[test]
fn update_report_keeps_the_diagnostics_it_is_given() {
    let report = RenoDxUpdateReport::with_vulkan_diagnostics(
        Some(Current),
        Some(Available),
        Some(Current),
        vec![LayerDiagnosticReason::HashMismatch],
    );
    assert_eq!(report.overall, Available);
    assert_eq!(report.vulkan_diagnostics, vec![LayerDiagnosticReason::HashMismatch]);
}

#[test]
fn layer_report_follows_platform_support_and_detection() {
    assert_eq!(
        layer_report(false, None, None).layer_detection,
        VulkanLayerDetection::Unsupported
    );
    assert_eq!(
        layer_report(true, None, None).layer_detection,
        VulkanLayerDetection::NotInstalled
    );
    for report in [layer_report(false, None, None), layer_report(true, None, None)] {
        assert_eq!(report.layer_facts.manifest_path, None);
        assert_eq!(report.layer_facts.dll_path, None);
        assert_eq!(report.layer_facts.version, None);
        assert_eq!(report.layer_facts.architecture, VulkanLayerArchitecture::Unknown);
        assert_eq!(report.layer_facts.loader_visibility, VulkanLoaderVisibility::Normal);
        assert!(report.diagnostic_reasons.is_empty());
    }
    let detected = layer_report(
        true,
        Some(platform_report(PlatformLayerState::Installed, Vec::new())),
        None,
    );
    assert_eq!(detected.layer_detection, VulkanLayerDetection::Installed);
}

#[test]
fn manifest_version_falls_back_to_the_dll_file_version() {
    let mut report = platform_report(PlatformLayerState::Installed, Vec::new());
    report.facts.version = None;
    let mapped = map_platform_report(report, Some("6.4.1".to_owned()));
    assert_eq!(mapped.layer_facts.version.as_deref(), Some("6.4.1"));
}

#[test]
fn app_registration_is_unsupported_without_the_windows_registry() {
    match register_app(AppRegistration::UnsupportedPlatform) {
        Err(ServiceError::InvalidInput(m)) => {
            assert_eq!(m, "RenoDX for Vulkan games is only supported on Windows")
        }
        other => panic!("unexpected {other:?}"),
    }
    assert!(unregister_app(AppUnregistration::UnsupportedPlatform).is_err());
    match vulkan_unsupported_platform() {
        ServiceError::InvalidInput(m) => {
            assert_eq!(m, "RenoDX for Vulkan games is only supported on Windows")
        }
        other => panic!("unexpected {other:?}"),
    }
}

fn failure_message<T: std::fmt::Debug>(r: Result<T, ServiceError>) -> String {
    match r {
        Err(ServiceError::Failed(m)) => m,
        other => panic!("unexpected {other:?}"),
    }
}

#[test]
fn app_registration_reports_the_registry_answer_on_windows() {
    assert!(register_app(AppRegistration::Registered(Ok(()))).is_ok());
    assert_eq!(failure_message(register_app(AppRegistration::NoProgramData)), "no ProgramData directory");
    assert_eq!(
        failure_message(register_app(AppRegistration::Registered(Err("denied".to_owned())))),
        "failed to register Vulkan layer app: denied"
    );
    assert_eq!(unregister_app(AppUnregistration::OthersRemain).expect("others"), false);
    assert_eq!(unregister_app(AppUnregistration::LastRemoved(Ok(()))).expect("last"), true);
    assert_eq!(failure_message(unregister_app(AppUnregistration::NoProgramData)), "no ProgramData directory");
    assert_eq!(
        failure_message(unregister_app(AppUnregistration::Failed("locked".to_owned()))),
        "failed to unregister Vulkan layer app: locked"
    );
    assert_eq!(
        failure_message(unregister_app(AppUnregistration::LastRemoved(Err("in use".to_owned())))),
        "failed to remove the shared Vulkan layer: in use"
    );
}

#[test]
fn standard_paths_sit_in_the_layer_directory() {
    assert!(standard_paths(None).is_none());
    let (dir, manifest, dll) =
        standard_paths(Some("C:\\ProgramData\\ReShade".to_owned())).expect("paths");
    assert_eq!(dir, "C:\\ProgramData\\ReShade");
    assert_eq!(manifest, "C:\\ProgramData\\ReShade\\ReShade64.json");
    assert_eq!(dll, "C:\\ProgramData\\ReShade\\ReShade64.dll");
}

#[test]
fn layer_digest_is_the_lowercase_sha256_of_the_dll() {
    assert_eq!(
        layer_digest(b"abc"),
        "ba7816bf8f01cfea414140de5dae2223b00361a396177a9cb410ff61f20015ad"
    );
    let verdict = layer_update_verdict(
        Some(&b"abc"[..]),
        None,
        "ba7816bf8f01cfea414140de5dae2223b00361a396177a9cb410ff61f20015ad",
    );
    assert_eq!(verdict.status, UpdateStatus::Current);
    let stale = layer_update_verdict(Some(&b"abd"[..]), None, "ba7816bf8f01cfea414140de5dae2223b00361a396177a9cb410ff61f20015ad");
    assert_eq!(stale.status, UpdateStatus::Available);
}
