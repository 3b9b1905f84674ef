use renodx_core::anticheat::{AntiCheatScanReport, DetectedAntiCheatEngine, RiskAssessment};
use renodx_core::errors::ServiceError;
use renodx_core::matcher::{resolve, MatchConfidence, RenoDxResolution};
use renodx_core::service::{
    arch_label, arch_str, availability_outcome, enforce_gate, ensure_addon_arch, gate,
    incompatibility_text, installable_plan, manual_file_install, plan_file_install, plan_install,
    AvailabilityOutcome, InstallGate,
};
use renodx_core::types::{
    AnticheatEngine, Architecture, AssessmentConfidence, Category, Channel, Compatibility, Defaults,
    ExeGraphicsInfo, GraphicsApi, HostKind, IncompatibilityReason, Launcher, MatchFacts,
    MatchKind, MatchRule, OnlineKind, RenoDxManifest, Risk, RiskSeverity, Status, Title,
};

fn risk(severity: RiskSeverity) -> RiskAssessment {
    RiskAssessment {
        severity,
        anticheat_engine: AnticheatEngine::NoAnticheat,
        online: OnlineKind::Singleplayer,
        message_key: "k".to_owned(),
        confidence: AssessmentConfidence::Medium,
        reference_url: None,
        detected_locally: false,
    }
}

fn message_of(result: Result<(), ServiceError>) -> String {
    match result {
        Err(ServiceError::InvalidInput(m)) => m,
        other => panic!("expected an invalid-input error, got {other:?}"),
    }
}

#[test]
fn safe_risk_proceeds_without_confirmation() {
    assert_eq!(gate(&risk(RiskSeverity::Info), false), InstallGate::Proceed);
}

#[test]
fn addon_arch_invariant_rejects_a_bitness_mismatch() {
    assert!(ensure_addon_arch(Architecture::X64, Architecture::X64).is_ok());
    let error = ensure_addon_arch(Architecture::X86, Architecture::X64)
        .expect_err("a 32-bit add-on for a 64-bit host must be rejected");
    assert!(matches!(error, ServiceError::InvalidInput(_)));
}

#[test]
fn warn_risk_needs_confirmation_then_proceeds() {
    assert_eq!(
        gate(&risk(RiskSeverity::Warn), false),
        InstallGate::NeedsConfirmation
    );
    assert_eq!(gate(&risk(RiskSeverity::Warn), true), InstallGate::Proceed);
}

#[test]
fn blocked_risk_is_refused_even_with_confirmation() {
    assert_eq!(gate(&risk(RiskSeverity::Block), true), InstallGate::Blocked);
}

// ---------------------------------------------------------------------------
// The library's own cases
// ---------------------------------------------------------------------------

#[test]
fn enforce_gate_names_each_refusal() {
    assert!(enforce_gate(&risk(RiskSeverity::Info), false).is_ok());
    assert!(enforce_gate(&risk(RiskSeverity::Warn), true).is_ok());
    assert_eq!(
        message_of(enforce_gate(&risk(RiskSeverity::Block), true)),
        "RenoDX is blocked for this game and will not be installed"
    );
    assert_eq!(
        message_of(enforce_gate(&risk(RiskSeverity::Warn), false)),
        "RenoDX install requires explicit confirmation of the anti-cheat ban risk"
    );
}

#[test]
fn bitness_mismatch_message_names_both_builds() {
    assert_eq!(
        message_of(ensure_addon_arch(Architecture::X86, Architecture::X64)),
        "this add-on is 32-bit but RenoDX for this game needs the 64-bit build — download the matching add-on"
    );
    assert_eq!(arch_label(Architecture::X64), "64-bit");
    assert_eq!(arch_str(Architecture::X86), "x86");
}

fn rule(kind: MatchKind, value: &str, tier: u32) -> MatchRule {
    MatchRule { kind, value: value.to_owned(), tier }
}

fn title(slug: &str, category: Category) -> Title {
    Title {
        id: slug.to_owned(),
        name: format!("Game {slug}"),
        category,
        slug: slug.to_owned(),
        arch: Architecture::X64,
        status: Status::Working,
        channel: Channel::Stable,
        min_app_version: "1.0.0".to_owned(),
        match_rules: vec![rule(MatchKind::SteamAppid, "1091500", 100)],
        compatibility: Compatibility { required_api: Vec::new(), conflicts: Vec::new(), source: None },
        proxy_dll_override: None,
        notes_keys: vec!["renodx.note.hdr".to_owned()],
        download_url: None,
        risk: Risk {
            anticheat_engine: AnticheatEngine::NoAnticheat,
            online: OnlineKind::Singleplayer,
            severity: RiskSeverity::Info,
            message_key: "renodx.risk.sp_safe".to_owned(),
            confidence: AssessmentConfidence::Medium,
            source: None,
        },
    }
}

fn manifest(titles: Vec<Title>) -> RenoDxManifest {
    RenoDxManifest {
        schema_version: 1,
        generated_at: "2026-06-15T00:00:00Z".to_owned(),
        generics: Vec::new(),
        defaults: Defaults { min_app_version: "1.0.0".to_owned(), channel: Channel::Stable },
        titles,
    }
}

fn facts(apis: Vec<GraphicsApi>, arch: Option<Architecture>) -> MatchFacts {
    MatchFacts {
        launcher: Launcher::Steam,
        external_id: Some("1091500".to_owned()),
        exe_file_name: Some("Game.exe".to_owned()),
        exe_sha256: None,
        engine: None,
        graphics: ExeGraphicsInfo { apis, architecture: arch, graphics_dlls: Vec::new() },
    }
}

fn scan(engines: Vec<DetectedAntiCheatEngine>) -> AntiCheatScanReport {
    AntiCheatScanReport { engines }
}

#[test]
fn automatic_install_acts_only_on_an_installable_resolution() {
    let m = manifest(vec![title("cp2077", Category::Installable)]);
    let plan = plan_install(&m, &facts(vec![GraphicsApi::D3D12], Some(Architecture::X64)))
        .expect("installable");
    assert_eq!(plan.slug, "cp2077");

    let native = manifest(vec![title("nh", Category::NativeHdr)]);
    match plan_install(&native, &facts(vec![GraphicsApi::D3D12], Some(Architecture::X64))) {
        Err(ServiceError::InvalidInput(m)) => {
            assert_eq!(m, "this game has native HDR; RenoDX is not needed")
        }
        other => panic!("unexpected {other:?}"),
    }
    match plan_install(&manifest(vec![]), &facts(vec![GraphicsApi::D3D12], None)) {
        Err(ServiceError::InvalidInput(m)) => assert_eq!(m, "RenoDX has no profile for this game"),
        other => panic!("unexpected {other:?}"),
    }
}

#[test]
fn incompatible_resolution_is_refused_with_its_reason() {
    let refused = installable_plan(RenoDxResolution::Incompatible {
        reason: IncompatibilityReason::ApiNotAllowed {
            detected: GraphicsApi::D3D11,
            required: vec![GraphicsApi::D3D12, GraphicsApi::Vulkan],
        },
    });
    match refused {
        Err(ServiceError::InvalidInput(m)) => assert_eq!(
            m,
            "RenoDX is not compatible with this game: ApiNotAllowed { detected: D3D11, required: [D3D12, Vulkan] }"
        ),
        other => panic!("unexpected {other:?}"),
    }
    assert_eq!(
        incompatibility_text(&IncompatibilityReason::ApiUnsupported { detected: GraphicsApi::OpenGl }),
        "ApiUnsupported { detected: OpenGl }"
    );
    assert_eq!(incompatibility_text(&IncompatibilityReason::ArchUnknown), "ArchUnknown");
}

#[test]
fn file_install_checks_the_file_the_game_and_the_plan() {
    let m = manifest(vec![]);
    match plan_file_install(&m, &facts(vec![GraphicsApi::D3D11], None), "addon.dll") {
        Err(ServiceError::InvalidInput(msg)) => assert_eq!(
            msg,
            "the selected file is not a RenoDX add-on (.addon64 / .addon32)"
        ),
        other => panic!("unexpected {other:?}"),
    }
    match plan_file_install(
        &m,
        &facts(vec![GraphicsApi::D3D11], Some(Architecture::X64)),
        "renodx-game.addon32",
    ) {
        Err(ServiceError::InvalidInput(msg)) => assert_eq!(
            msg,
            "this add-on is 32-bit but the game is 64-bit — download the matching add-on"
        ),
        other => panic!("unexpected {other:?}"),
    }
    match plan_file_install(
        &m,
        &facts(vec![GraphicsApi::OpenGl], Some(Architecture::X64)),
        "renodx-game.addon64",
    ) {
        Err(ServiceError::InvalidInput(msg)) => assert_eq!(
            msg,
            "RenoDX cannot be installed for this game: its renderer is not Direct3D"
        ),
        other => panic!("unexpected {other:?}"),
    }
    let generic = plan_file_install(
        &m,
        &facts(vec![GraphicsApi::D3D11], Some(Architecture::X64)),
        "RENODX-GAME.ADDON64",
    )
    .expect("generic plan");
    assert_eq!(generic.slug, "");
    assert_eq!(generic.arch, Architecture::X64);
    assert_eq!(generic.host_kind, HostKind::Proxy);
    assert_eq!(generic.confidence, MatchConfidence::Untested);
}

#[test]
fn file_install_of_a_curated_external_title_enforces_its_architecture() {
    let ext = manifest(vec![title(
        "extslug",
        Category::External {
            url: "https://discord.gg/example".to_owned(),
            label_key: "renodx.external.discord".to_owned(),
        },
    )]);
    let plan = plan_file_install(&ext, &facts(vec![GraphicsApi::D3D12], None), "renodx-extslug.addon64")
        .expect("curated plan");
    assert_eq!(plan.slug, "extslug");
    match plan_file_install(&ext, &facts(vec![GraphicsApi::D3D12], None), "renodx-extslug.addon32") {
        Err(ServiceError::InvalidInput(msg)) => assert_eq!(
            msg,
            "this add-on is 32-bit but RenoDX for this game needs the 64-bit build — download the matching add-on"
        ),
        other => panic!("unexpected {other:?}"),
    }
}

#[test]
fn availability_merges_the_local_scan_into_the_risk() {
    let m = manifest(vec![title("cp2077", Category::Installable)]);
    let f = facts(vec![GraphicsApi::D3D12], Some(Architecture::X64));
    let outcome = availability_outcome(resolve(&m, &f), &scan(vec![DetectedAntiCheatEngine::BattlEye]));
    match outcome {
        AvailabilityOutcome::Installable { confidence, risk, notes_keys, host_kind } => {
            assert_eq!(confidence, MatchConfidence::Verified);
            assert!(risk.requires_confirmation());
            assert_eq!(risk.anticheat_engine, AnticheatEngine::BattlEye);
            assert_eq!(notes_keys, vec!["renodx.note.hdr".to_owned()]);
            assert_eq!(host_kind, HostKind::Proxy);
        }
        other => panic!("unexpected {other:?}"),
    }
    assert!(matches!(
        availability_outcome(RenoDxResolution::NoMatch, &scan(Vec::new())),
        AvailabilityOutcome::Unsupported
    ));
    match availability_outcome(
        RenoDxResolution::Unsupported { reason: Some("renodx.reason.broken".to_owned()) },
        &scan(Vec::new()),
    ) {
        AvailabilityOutcome::Blacklisted { reason } => {
            assert_eq!(reason.as_deref(), Some("renodx.reason.broken"))
        }
        other => panic!("unexpected {other:?}"),
    }
}

#[test]
fn manual_install_is_offered_only_without_another_path() {
    let m = manifest(vec![]);
    let f = facts(vec![GraphicsApi::D3D11], Some(Architecture::X64));
    let offer = manual_file_install(&m, &f, &RenoDxResolution::NoMatch, &scan(Vec::new()))
        .expect("offered for an unmatched DirectX game");
    assert_eq!(offer.expected_addon_name, None);
    assert_eq!(offer.game_arch.as_deref(), Some("x64"));
    assert_eq!(offer.host_kind, HostKind::Proxy);
    assert!(offer.risk.is_safe());

    assert!(manual_file_install(&m, &f, &RenoDxResolution::NativeHdr, &scan(Vec::new())).is_none());
    let gl = facts(vec![GraphicsApi::OpenGl], None);
    assert!(manual_file_install(&m, &gl, &RenoDxResolution::NoMatch, &scan(Vec::new())).is_none());

    let matched = manifest(vec![title("cp2077", Category::Installable)]);
    let incompatible = RenoDxResolution::Incompatible { reason: IncompatibilityReason::ArchUnknown };
    let offer = manual_file_install(&matched, &f, &incompatible, &scan(Vec::new())).expect("offered");
    assert_eq!(offer.expected_addon_name.as_deref(), Some("renodx-cp2077"));
}
