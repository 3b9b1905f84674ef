use renodx_core::anticheat::{combine, AntiCheatScanReport, DetectedAntiCheatEngine};
use renodx_core::glob::glob_matches_ci;
use renodx_core::policy::{api_supports_renodx, generic_risk, primary_api, proxy_dll};
use renodx_core::source::{
    addon_file_name, addon_url, dlss_fix_file_name, dlss_fix_url, generic_addon_url,
    is_dlss_fix_candidate_file_name, is_torn_install_leftover,
};
use renodx_core::types::{
    default_min_app_version, manifest_defaults, renodx_ini_defaults, AnticheatEngine,
    Architecture, AssessmentConfidence, Channel, Engine, ExeGraphicsInfo, Generic, GraphicsApi,
    OnlineKind, Risk, RiskSeverity, Status,
};

fn info(apis: &[GraphicsApi], arch: Option<Architecture>) -> ExeGraphicsInfo {
    ExeGraphicsInfo { apis: apis.to_vec(), architecture: arch, graphics_dlls: Vec::new() }
}

#[test]
fn supports_renodx_only_for_directx() {
    for api in [GraphicsApi::D3D9, GraphicsApi::D3D10, GraphicsApi::D3D11, GraphicsApi::D3D12] {
        assert!(api_supports_renodx(api));
    }
    for api in [GraphicsApi::OpenGl, GraphicsApi::Vulkan, GraphicsApi::Unknown] {
        assert!(!api_supports_renodx(api));
    }
}

#[test]
fn primary_api_picks_most_capable_directx() {
    let info = info(
        &[GraphicsApi::D3D11, GraphicsApi::D3D12, GraphicsApi::Vulkan],
        Some(Architecture::X64),
    );
    assert_eq!(primary_api(&info), GraphicsApi::D3D12);
}

#[test]
fn primary_api_defaults_to_unknown_for_empty_set() {
    let info = info(&[], None);
    assert_eq!(primary_api(&info), GraphicsApi::Unknown);
}

fn graphics_with_dlls(dlls: &[&str]) -> ExeGraphicsInfo {
    ExeGraphicsInfo {
        apis: Vec::new(),
        architecture: Some(Architecture::X64),
        graphics_dlls: dlls.iter().map(|dll| (*dll).to_owned()).collect(),
    }
}

#[test]
fn proxy_dll_prefers_dxgi_over_specific_device_dll() {
    assert_eq!(
        proxy_dll(&graphics_with_dlls(&["d3d12.dll", "dxgi.dll"])).as_deref(),
        Some("dxgi.dll")
    );
}

#[test]
fn proxy_dll_uses_the_specific_dll_when_no_dxgi_is_imported() {
    assert_eq!(proxy_dll(&graphics_with_dlls(&["d3d11.dll"])).as_deref(), Some("d3d11.dll"));
    assert_eq!(proxy_dll(&graphics_with_dlls(&["d3d9.dll"])).as_deref(), Some("d3d9.dll"));
    assert_eq!(proxy_dll(&graphics_with_dlls(&["d3d10core.dll"])).as_deref(), Some("d3d10.dll"));
}

#[test]
fn proxy_dll_is_none_without_a_directx_import() {
    assert_eq!(proxy_dll(&graphics_with_dlls(&[])), None);
    assert_eq!(proxy_dll(&graphics_with_dlls(&["vulkan-1.dll"])), None);
}

#[test]
fn addon_url_derives_from_slug_and_arch() {
    assert_eq!(
        addon_url("cp2077", Architecture::X64),
        "https://github.com/clshortfuse/renodx/releases/download/snapshot/renodx-cp2077.addon64"
    );
    assert_eq!(
        addon_url("oldgame", Architecture::X86),
        "https://github.com/clshortfuse/renodx/releases/download/snapshot/renodx-oldgame.addon32"
    );
}

#[test]
fn addon_file_name_is_derived_only_from_canonical_slug_and_arch() {
    assert_eq!(addon_file_name("cp2077", Architecture::X64), "renodx-cp2077.addon64");
    assert_eq!(addon_file_name("oldgame", Architecture::X86), "renodx-oldgame.addon32");
    assert_eq!(addon_file_name("", Architecture::X64), "renodx-manual.addon64");
}

#[test]
fn dlss_fix_source_and_file_name_share_the_reserved_slug() {
    assert_eq!(dlss_fix_file_name(Architecture::X64), addon_file_name("dlssfix", Architecture::X64));
    assert_eq!(dlss_fix_url(Architecture::X86), addon_url("dlssfix", Architecture::X86));
    assert!(is_dlss_fix_candidate_file_name("RENODX-DLSSFIX.ADDON64"));
    assert!(is_dlss_fix_candidate_file_name("renodx-dlssfix.invalid"));
    assert!(!is_dlss_fix_candidate_file_name("renodx-dlssfixer.addon64"));
}

#[test]
fn generic_url_prefers_explicit_override_then_slug() {
    let explicit = Generic {
        engine: Engine::Unity,
        status: Status::Unknown,
        slug: Some("unityengine".to_owned()),
        url64: Some("https://github.com/x/y/renodx-unityengine.addon64".to_owned()),
        url32: Some("https://github.com/x/y/renodx-unityengine.addon32".to_owned()),
        label_key: Some("renodx.generic.unity".to_owned()),
    };
    assert_eq!(
        generic_addon_url(&explicit, Architecture::X64).as_deref(),
        Some("https://github.com/x/y/renodx-unityengine.addon64")
    );
    assert_eq!(
        generic_addon_url(&explicit, Architecture::X86).as_deref(),
        Some("https://github.com/x/y/renodx-unityengine.addon32")
    );
    let slugged = Generic {
        engine: Engine::Unreal,
        status: Status::Unknown,
        slug: Some("_univ".to_owned()),
        url64: None,
        url32: None,
        label_key: Some("renodx.generic.universal".to_owned()),
    };
    assert_eq!(
        generic_addon_url(&slugged, Architecture::X64).as_deref(),
        Some("https://github.com/clshortfuse/renodx/releases/download/snapshot/renodx-_univ.addon64")
    );
}

fn risk(severity: RiskSeverity, engine: AnticheatEngine, key: &str) -> Risk {
    Risk {
        anticheat_engine: engine,
        online: OnlineKind::Singleplayer,
        severity,
        message_key: key.to_owned(),
        confidence: AssessmentConfidence::Medium,
        source: None,
    }
}

fn report(engines: Vec<DetectedAntiCheatEngine>) -> AntiCheatScanReport {
    AntiCheatScanReport { engines }
}

#[test]
fn safe_title_without_local_detection_needs_no_confirmation() {
    let assessment = combine(
        &risk(RiskSeverity::Info, AnticheatEngine::NoAnticheat, "renodx.risk.sp_safe"),
        &report(Vec::new()),
    );
    assert!(assessment.is_safe());
    assert!(!assessment.requires_confirmation());
    assert!(!assessment.detected_locally);
    assert_eq!(assessment.message_key, "renodx.risk.sp_safe");
}

#[test]
fn local_detection_escalates_safe_title_to_confirmation() {
    let assessment = combine(
        &risk(RiskSeverity::Info, AnticheatEngine::NoAnticheat, "renodx.risk.sp_safe"),
        &report(vec![DetectedAntiCheatEngine::EasyAntiCheat]),
    );
    assert!(assessment.requires_confirmation());
    assert_eq!(assessment.anticheat_engine, AnticheatEngine::Eac);
    assert_eq!(assessment.confidence, AssessmentConfidence::High);
    assert!(assessment.detected_locally);
    assert_eq!(assessment.message_key, "renodx.risk.anticheat_detected");
}

#[test]
fn local_detection_keeps_manifest_warning_message() {
    let assessment = combine(
        &risk(RiskSeverity::Warn, AnticheatEngine::BattlEye, "renodx.risk.pvp_banrisk"),
        &report(vec![DetectedAntiCheatEngine::BattlEye]),
    );
    assert!(assessment.requires_confirmation());
    assert_eq!(assessment.message_key, "renodx.risk.pvp_banrisk");
    assert_eq!(assessment.anticheat_engine, AnticheatEngine::BattlEye);
}

#[test]
fn local_detection_prefers_eac_when_multiple_engines_are_found() {
    let assessment = combine(
        &risk(RiskSeverity::Info, AnticheatEngine::NoAnticheat, "renodx.risk.sp_safe"),
        &report(vec![DetectedAntiCheatEngine::BattlEye, DetectedAntiCheatEngine::EasyAntiCheat]),
    );
    assert_eq!(assessment.anticheat_engine, AnticheatEngine::Eac);
    assert!(assessment.requires_confirmation());
}

#[test]
fn manifest_block_is_never_downgraded() {
    let assessment = combine(
        &risk(RiskSeverity::Block, AnticheatEngine::Eac, "renodx.risk.donotinstall"),
        &report(Vec::new()),
    );
    assert!(assessment.is_blocked());
    assert!(!assessment.requires_confirmation());
}

// ---------------------------------------------------------------------------
// The library's own cases
// ---------------------------------------------------------------------------

#[test]
fn a_scan_never_lowers_a_block_even_with_detection() {
    let assessment = combine(
        &risk(RiskSeverity::Block, AnticheatEngine::NoAnticheat, "renodx.risk.donotinstall"),
        &report(vec![DetectedAntiCheatEngine::EasyAntiCheat]),
    );
    assert!(assessment.is_blocked());
    assert_eq!(assessment.message_key, "renodx.risk.donotinstall");
    assert_eq!(assessment.anticheat_engine, AnticheatEngine::Eac);
}

#[test]
fn generic_risk_is_a_safe_low_confidence_assessment() {
    let r = generic_risk();
    assert_eq!(r.severity, RiskSeverity::Info);
    assert_eq!(r.message_key, "renodx.risk.generic");
    assert_eq!(r.confidence, AssessmentConfidence::Low);
}

#[test]
fn glob_star_matches_everything_and_is_case_insensitive() {
    assert!(glob_matches_ci("*", ""));
    assert!(glob_matches_ci("*", "Anything.exe"));
    assert!(glob_matches_ci("cyberpunk*.EXE", "Cyberpunk2077.exe"));
    assert!(glob_matches_ci("game?.exe", "GAME1.exe"));
    assert!(!glob_matches_ci("game?.exe", "game.exe"));
    assert!(!glob_matches_ci("a*b", "ac"));
}

#[test]
fn glob_laws_hold_on_concrete_names() {
    // A pattern without wildcards matches exactly, up to ASCII case.
    assert!(glob_matches_ci("Game.exe", "GAME.EXE"));
    assert!(!glob_matches_ci("Game.exe", "Game.exe2"));
    assert!(!glob_matches_ci("Game.exe", "Gam.exe"));
    // `?` needs a byte.
    assert!(!glob_matches_ci("?", ""));
    assert!(glob_matches_ci("?", "x"));
    // Case does not matter on either side.
    assert_eq!(
        glob_matches_ci(&"cyber*.exe".to_ascii_uppercase(), &"CyberPunk.EXE".to_ascii_lowercase()),
        glob_matches_ci("cyber*.exe", "CyberPunk.EXE")
    );
}

#[test]
fn catalogue_defaults_are_fixed() {
    assert_eq!(default_min_app_version(), "1.0.0");
    let d = manifest_defaults();
    assert_eq!(d.min_app_version, "1.0.0");
    assert_eq!(d.channel, Channel::Stable);
    let t = renodx_ini_defaults();
    assert_eq!(t.disabled_addons, vec!["Generic Depth".to_owned(), "Effect Runtime Sync".to_owned()]);
    assert!(t.addon_path.is_none());
    assert!(t.dlss_fix.is_none());
}

#[test]
fn torn_install_leftovers_are_renodx_addons_in_any_case() {
    assert!(is_torn_install_leftover("renodx-game.addon64"));
    assert!(is_torn_install_leftover("RenoDX-Game.ADDON32"));
    assert!(!is_torn_install_leftover("renodx-game.dll"));
    assert!(!is_torn_install_leftover("dxgi.dll"));
    assert!(!is_torn_install_leftover("other-renodx-game.addon64"));
}
