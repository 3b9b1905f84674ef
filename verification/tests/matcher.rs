use renodx_core::matcher::{
    file_installable, generic_file_install_plan, matched_slug, resolve, resolve_external_install,
    MatchConfidence, RenoDxResolution,
};
use renodx_core::source::addon_url;
use renodx_core::types::{
    AnticheatEngine, Architecture, AssessmentConfidence, Category, Channel, Compatibility, Defaults,
    Engine, ExeGraphicsInfo, Generic, GraphicsApi, HostKind, IncompatibilityReason, Launcher,
    MatchFacts, MatchKind, MatchRule, OnlineKind, RenoDxManifest, Risk, RiskSeverity, Status,
    Title,
};

fn rule(kind: MatchKind, value: &str, tier: u32) -> MatchRule {
    MatchRule { kind, value: value.to_owned(), tier }
}

fn title(id: &str, slug: &str, arch: Architecture, status: Status, match_rules: Vec<MatchRule>) -> Title {
    Title {
        id: id.to_owned(),
        name: format!("Game {id}"),
        category: Category::Installable,
        slug: slug.to_owned(),
        arch,
        status,
        channel: Channel::Stable,
        min_app_version: "1.0.0".to_owned(),
        match_rules,
        compatibility: Compatibility { required_api: Vec::new(), conflicts: Vec::new(), source: None },
        proxy_dll_override: None,
        notes_keys: Vec::new(),
        download_url: None,
        risk: Risk {
            anticheat_engine: AnticheatEngine::NoAnticheat,
            online: OnlineKind::Singleplayer,
            severity: RiskSeverity::Info,
            message_key: "renodx.risk.sp_safe".to_owned(),
            confidence: AssessmentConfidence::Medium,
            source: None,
        },
    }
}

fn manifest(titles: Vec<Title>) -> RenoDxManifest {
    RenoDxManifest {
        schema_version: 1,
        generated_at: "2026-06-15T00:00:00Z".to_owned(),
        generics: Vec::new(),
        defaults: Defaults { min_app_version: "1.0.0".to_owned(), channel: Channel::Stable },
        titles,
    }
}

fn graphics(apis: Vec<GraphicsApi>, architecture: Option<Architecture>) -> ExeGraphicsInfo {
    ExeGraphicsInfo { apis, architecture, graphics_dlls: Vec::new() }
}

fn categorized(id: &str, category: Category) -> Title {
    let mut t = title(id, id, Architecture::X64, Status::Working, vec![rule(MatchKind::SteamAppid, "1091500", 100)]);
    t.category = category;
    t
}

fn facts() -> MatchFacts {
    MatchFacts {
        launcher: Launcher::Steam,
        external_id: Some("1091500".to_owned()),
        exe_file_name: Some("Cyberpunk2077.exe".to_owned()),
        exe_sha256: None,
        engine: None,
        graphics: graphics(vec![GraphicsApi::D3D12], Some(Architecture::X64)),
    }
}

fn generic(engine: Engine, status: Status, slug: &str, url64: Option<&str>, url32: Option<&str>, label: &str) -> Generic {
    Generic {
        engine,
        status,
        slug: Some(slug.to_owned()),
        url64: url64.map(str::to_owned),
        url32: url32.map(str::to_owned),
        label_key: Some(label.to_owned()),
    }
}

fn installs_a_verified_steam_match_case() {
    let m = manifest(vec![title("cp2077", "cp2077", Architecture::X64, Status::Working, vec![rule(MatchKind::SteamAppid, "1091500", 100)])]);
    match resolve(&m, &facts()) {
        RenoDxResolution::Installable(plan) => {
            assert_eq!(plan.addon_url, addon_url("cp2077", Architecture::X64));
            assert_eq!(plan.proxy_dll_name, "dxgi.dll");
            assert_eq!(plan.confidence, MatchConfidence::Verified);
        }
        other => panic!("expected installable, got {other:?}"),
    }
}

fn download_url_overrides_slug_derived_url_case() {
    let mut t = title("ryza2", "ryza2", Architecture::X64, Status::Working, vec![rule(MatchKind::SteamAppid, "1091500", 100)]);
    t.download_url = Some("https://marat569.github.io/renodx/renodx-ryza2.addon64".to_owned());
    let m = manifest(vec![t]);
    match resolve(&m, &facts()) {
        RenoDxResolution::Installable(plan) => {
            assert_eq!(plan.addon_url, "https://marat569.github.io/renodx/renodx-ryza2.addon64");
            assert_eq!(plan.slug, "ryza2");
        }
        other => panic!("expected installable, got {other:?}"),
    }
}

fn title_slug_matching_a_generic_uses_the_generics_explicit_url_case() {
    let t = title("some-curated-unity-title", "unityengine", Architecture::X64, Status::Working, vec![rule(MatchKind::SteamAppid, "1091500", 100)]);
    let mut m = manifest(vec![t]);
    m.generics.push(generic(
        Engine::Unity,
        Status::Working,
        "unityengine",
        Some("https://github.com/NotVoosh/renodx-unity/releases/download/snapshot/renodx-unityengine.addon64"),
        None,
        "renodx.generic.unity",
    ));
    match resolve(&m, &facts()) {
        RenoDxResolution::Installable(plan) => {
            assert_eq!(plan.addon_url, "https://github.com/NotVoosh/renodx-unity/releases/download/snapshot/renodx-unityengine.addon64");
            assert_eq!(plan.slug, "unityengine");
        }
        other => panic!("expected installable, got {other:?}"),
    }
}

fn title_download_url_still_wins_over_a_matching_generic_case() {
    let mut t = title("curated-unity-game", "unityengine", Architecture::X64, Status::Working, vec![rule(MatchKind::SteamAppid, "1091500", 100)]);
    t.download_url = Some("https://example.com/renodx-unityengine.addon64".to_owned());
    let mut m = manifest(vec![t]);
    m.generics.push(generic(
        Engine::Unity,
        Status::Working,
        "unityengine",
        Some("https://github.com/NotVoosh/renodx-unity/releases/download/snapshot/renodx-unityengine.addon64"),
        None,
        "renodx.generic.unity",
    ));
    match resolve(&m, &facts()) {
        RenoDxResolution::Installable(plan) => {
            assert_eq!(plan.addon_url, "https://example.com/renodx-unityengine.addon64");
        }
        other => panic!("expected installable, got {other:?}"),
    }
}

fn title_slug_with_no_matching_generic_falls_back_to_clshortfuse_case() {
    let m = manifest(vec![title("cp2077", "cp2077", Architecture::X64, Status::Working, vec![rule(MatchKind::SteamAppid, "1091500", 100)])]);
    match resolve(&m, &facts()) {
        RenoDxResolution::Installable(plan) => {
            assert_eq!(plan.addon_url, addon_url("cp2077", Architecture::X64));
        }
        other => panic!("expected installable, got {other:?}"),
    }
}

fn construction_status_is_experimental_case() {
    let m = manifest(vec![title("wip", "wip", Architecture::X64, Status::Construction, vec![rule(MatchKind::SteamAppid, "1091500", 100)])]);
    match resolve(&m, &facts()) {
        RenoDxResolution::Installable(plan) => {
            assert_eq!(plan.confidence, MatchConfidence::Experimental);
        }
        other => panic!("expected installable, got {other:?}"),
    }
}

fn no_match_returns_no_match_case() {
    let m = manifest(vec![title("other", "other", Architecture::X64, Status::Working, vec![rule(MatchKind::SteamAppid, "42", 100)])]);
    assert!(matches!(resolve(&m, &facts()), RenoDxResolution::NoMatch));
}

fn curated_title_installs_despite_inconclusive_detection_case() {
    let m = manifest(vec![title("cp2077", "cp2077", Architecture::X64, Status::Working, vec![rule(MatchKind::SteamAppid, "1091500", 100)])]);
    let mut facts = facts();
    facts.graphics = graphics(Vec::new(), None);
    match resolve(&m, &facts) {
        RenoDxResolution::Installable(plan) => {
            assert_eq!(plan.proxy_dll_name, "dxgi.dll");
            assert_eq!(plan.arch, Architecture::X64);
        }
        other => panic!("expected installable, got {other:?}"),
    }
}

fn confirmed_vulkan_curated_title_installs_via_the_vulkan_layer_case() {
    let m = manifest(vec![title("cp2077", "cp2077", Architecture::X64, Status::Working, vec![rule(MatchKind::SteamAppid, "1091500", 100)])]);
    let mut facts = facts();
    facts.graphics = graphics(vec![GraphicsApi::Vulkan], Some(Architecture::X64));
    match resolve(&m, &facts) {
        RenoDxResolution::Installable(plan) => {
            assert_eq!(plan.host_kind, HostKind::Vulkan);
            assert!(plan.proxy_dll_name.is_empty());
        }
        other => panic!("expected installable via Vulkan, got {other:?}"),
    }
}

fn confirmed_opengl_curated_title_is_declined_case() {
    let m = manifest(vec![title("cp2077", "cp2077", Architecture::X64, Status::Working, vec![rule(MatchKind::SteamAppid, "1091500", 100)])]);
    let mut facts = facts();
    facts.graphics = graphics(vec![GraphicsApi::OpenGl], Some(Architecture::X64));
    assert!(matches!(
        resolve(&m, &facts),
        RenoDxResolution::Incompatible { reason: IncompatibilityReason::ApiUnsupported { .. } }
    ));
}

fn matches_by_exe_name_on_a_non_steam_launcher_case() {
    let m = manifest(vec![title(
        "cp2077",
        "cp2077",
        Architecture::X64,
        Status::Working,
        vec![rule(MatchKind::SteamAppid, "1091500", 100), rule(MatchKind::ExeName, "Cyberpunk2077.exe", 70)],
    )]);
    let mut facts = facts();
    facts.launcher = Launcher::Manual;
    facts.external_id = None;
    facts.exe_file_name = Some("Cyberpunk2077.exe".to_owned());
    match resolve(&m, &facts) {
        RenoDxResolution::Installable(plan) => assert_eq!(plan.slug, "cp2077"),
        other => panic!("expected installable by exe, got {other:?}"),
    }
}

fn proxy_comes_from_the_imported_dll_not_a_blind_default_case() {
    let m = manifest(vec![title("g", "g", Architecture::X64, Status::Working, vec![rule(MatchKind::SteamAppid, "1091500", 100)])]);
    let mut facts = facts();
    facts.graphics = ExeGraphicsInfo {
        apis: vec![GraphicsApi::D3D9],
        architecture: Some(Architecture::X64),
        graphics_dlls: vec!["d3d9.dll".to_owned()],
    };
    match resolve(&m, &facts) {
        RenoDxResolution::Installable(plan) => assert_eq!(plan.proxy_dll_name, "d3d9.dll"),
        other => panic!("expected installable, got {other:?}"),
    }
}

fn proxy_override_wins_over_detection_case() {
    let mut t = title("g", "g", Architecture::X64, Status::Working, vec![rule(MatchKind::SteamAppid, "1091500", 100)]);
    t.proxy_dll_override = Some("dinput8.dll".to_owned());
    let m = manifest(vec![t]);
    match resolve(&m, &facts()) {
        RenoDxResolution::Installable(plan) => assert_eq!(plan.proxy_dll_name, "dinput8.dll"),
        other => panic!("expected installable, got {other:?}"),
    }
}

fn engine_generic_fallback_is_untested_case() {
    let mut m = manifest(vec![title("other", "other", Architecture::X64, Status::Working, vec![rule(MatchKind::SteamAppid, "42", 100)])]);
    m.generics = vec![generic(Engine::Unreal, Status::Unknown, "_univ", None, None, "renodx.generic.universal")];
    let mut facts = facts();
    facts.external_id = Some("999".to_owned());
    facts.engine = Some("unreal".to_owned());
    match resolve(&m, &facts) {
        RenoDxResolution::Installable(plan) => {
            assert_eq!(plan.confidence, MatchConfidence::Untested);
            assert_eq!(plan.addon_url, addon_url("_univ", Architecture::X64));
        }
        other => panic!("expected generic installable, got {other:?}"),
    }
}

fn engine_generic_uses_manifest_slug_for_local_identity_with_explicit_url_case() {
    let mut m = manifest(vec![]);
    m.generics = vec![generic(
        Engine::Unity,
        Status::Working,
        "unityengine",
        Some("https://example/renodx-unityengine.addon64"),
        Some("https://example/renodx-unityengine.addon32"),
        "renodx.generic.unity",
    )];
    let mut facts = facts();
    facts.external_id = Some("999".to_owned());
    facts.engine = Some("unity".to_owned());
    match resolve(&m, &facts) {
        RenoDxResolution::Installable(plan) => {
            assert_eq!(plan.confidence, MatchConfidence::Verified);
            assert_eq!(plan.slug, "unityengine");
            assert_eq!(plan.addon_url, "https://example/renodx-unityengine.addon64");
        }
        other => panic!("expected generic installable, got {other:?}"),
    }
}

fn engine_generic_installs_on_inconclusive_detection_case() {
    let mut m = manifest(vec![]);
    m.generics = vec![generic(Engine::Unreal, Status::Unknown, "_univ", None, None, "renodx.generic.universal")];
    let mut facts = facts();
    facts.engine = Some("unreal".to_owned());
    facts.graphics = graphics(Vec::new(), Some(Architecture::X64));
    match resolve(&m, &facts) {
        RenoDxResolution::Installable(plan) => {
            assert_eq!(plan.proxy_dll_name, "dxgi.dll");
            assert_eq!(plan.confidence, MatchConfidence::Untested);
        }
        other => panic!("expected generic installable, got {other:?}"),
    }
}

fn engine_generic_installs_vulkan_and_declines_opengl_case() {
    let mut m = manifest(vec![]);
    m.generics = vec![generic(Engine::Unreal, Status::Unknown, "_univ", None, None, "renodx.generic.universal")];
    let mut facts = facts();
    facts.engine = Some("unreal".to_owned());
    facts.graphics = graphics(vec![GraphicsApi::Vulkan], Some(Architecture::X64));
    match resolve(&m, &facts) {
        RenoDxResolution::Installable(plan) => {
            assert_eq!(plan.host_kind, HostKind::Vulkan);
            assert_eq!(plan.confidence, MatchConfidence::Untested);
        }
        other => panic!("expected generic Vulkan install, got {other:?}"),
    }
    facts.graphics = graphics(vec![GraphicsApi::OpenGl], Some(Architecture::X64));
    assert!(matches!(
        resolve(&m, &facts),
        RenoDxResolution::Incompatible { reason: IncompatibilityReason::ApiUnsupported { .. } }
    ));
}

fn external_manifest() -> RenoDxManifest {
    let mut t = title("ext.game", "extslug", Architecture::X64, Status::Working, vec![rule(MatchKind::SteamAppid, "1091500", 100)]);
    t.category = Category::External {
        url: "https://discord.gg/example".to_owned(),
        label_key: "renodx.external.discord".to_owned(),
    };
    manifest(vec![t])
}

fn external_vulkan_title_offers_a_vulkan_file_install_case() {
    let m = external_manifest();
    let mut facts = facts();
    facts.graphics = graphics(vec![GraphicsApi::Vulkan], Some(Architecture::X64));
    match resolve(&m, &facts) {
        RenoDxResolution::External { file_install, url, .. } => {
            let fi = file_install.expect("a Vulkan external is file-installable via the layer");
            assert_eq!(fi.host_kind, HostKind::Vulkan);
            assert_eq!(url, "https://discord.gg/example");
        }
        other => panic!("expected external link, got {other:?}"),
    }
    let plan = resolve_external_install(&m, &facts).expect("external vulkan install plan");
    assert_eq!(plan.host_kind, HostKind::Vulkan);
    assert!(plan.proxy_dll_name.is_empty());
}

fn external_opengl_title_keeps_link_without_a_file_install_case() {
    let m = external_manifest();
    let mut facts = facts();
    facts.graphics = graphics(vec![GraphicsApi::OpenGl], Some(Architecture::X64));
    match resolve(&m, &facts) {
        RenoDxResolution::External { file_install, .. } => assert!(file_install.is_none()),
        other => panic!("expected external link, got {other:?}"),
    }
    assert!(resolve_external_install(&m, &facts).is_none());
}

fn compatible_external_title_offers_file_install_case() {
    let m = external_manifest();
    match resolve(&m, &facts()) {
        RenoDxResolution::External { file_install, .. } => {
            let fi = file_install.expect("compatible external is file-installable");
            assert_eq!(fi.confidence, MatchConfidence::Verified);
        }
        other => panic!("expected external, got {other:?}"),
    }
    let plan = resolve_external_install(&m, &facts()).expect("external install plan");
    assert_eq!(plan.slug, "extslug");
    assert_eq!(plan.proxy_dll_name, "dxgi.dll");
}

fn file_installable_for_directx_inconclusive_and_vulkan_but_not_opengl_case() {
    let mut facts = facts();
    facts.graphics = graphics(vec![GraphicsApi::D3D12], Some(Architecture::X64));
    assert!(file_installable(&facts));
    facts.graphics = graphics(Vec::new(), None);
    assert!(file_installable(&facts));
    facts.graphics = graphics(vec![GraphicsApi::Vulkan], Some(Architecture::X64));
    assert!(file_installable(&facts));
    facts.graphics = graphics(vec![GraphicsApi::OpenGl], Some(Architecture::X64));
    assert!(!file_installable(&facts));
}

fn generic_file_install_plan_routes_host_and_declines_opengl_case() {
    let mut facts = facts();
    facts.graphics = graphics(vec![GraphicsApi::D3D11], Some(Architecture::X64));
    let plan = generic_file_install_plan(&facts, Architecture::X64).expect("directx installable");
    assert_eq!(plan.host_kind, HostKind::Proxy);
    assert!(plan.slug.is_empty(), "a generic plan has no catalogue slug");
    assert_eq!(plan.arch, Architecture::X64);
    assert!(!plan.proxy_dll_name.is_empty());

    facts.graphics = graphics(vec![GraphicsApi::Vulkan], Some(Architecture::X64));
    let vk = generic_file_install_plan(&facts, Architecture::X64).expect("vulkan installable");
    assert_eq!(vk.host_kind, HostKind::Vulkan);
    assert!(vk.proxy_dll_name.is_empty());

    facts.graphics = graphics(vec![GraphicsApi::OpenGl], Some(Architecture::X64));
    assert!(generic_file_install_plan(&facts, Architecture::X64).is_none());
}

fn matched_slug_is_the_matching_titles_slug_or_none_case() {
    let m = manifest(vec![title("cp2077", "cp2077", Architecture::X64, Status::Working, vec![rule(MatchKind::SteamAppid, "1091500", 100)])]);
    assert_eq!(matched_slug(&m, &facts()).as_deref(), Some("cp2077"));
    assert_eq!(matched_slug(&manifest(vec![]), &facts()), None);
}

fn external_title_is_link_only_on_required_api_mismatch_case() {
    let mut t = title("ext.game", "extslug", Architecture::X64, Status::Working, vec![rule(MatchKind::SteamAppid, "1091500", 100)]);
    t.category = Category::External {
        url: "https://discord.gg/example".to_owned(),
        label_key: "renodx.external.discord".to_owned(),
    };
    t.compatibility.required_api = vec![GraphicsApi::D3D12];
    let m = manifest(vec![t]);
    let mut facts = facts();
    facts.graphics = graphics(vec![GraphicsApi::D3D11], Some(Architecture::X64));
    match resolve(&m, &facts) {
        RenoDxResolution::External { file_install, .. } => assert!(file_install.is_none()),
        other => panic!("expected external, got {other:?}"),
    }
    assert!(resolve_external_install(&m, &facts).is_none());
}

fn resolve_external_install_rejects_non_external_title_case() {
    let m = manifest(vec![title("plain", "plain", Architecture::X64, Status::Working, vec![rule(MatchKind::SteamAppid, "1091500", 100)])]);
    assert!(resolve_external_install(&m, &facts()).is_none());
}

fn blacklist_category_yields_unsupported_case() {
    let m = manifest(vec![categorized("blk", Category::Blacklist { reason: "renodx.reason.broken".to_owned() })]);
    match resolve(&m, &facts()) {
        RenoDxResolution::Unsupported { reason } => {
            assert_eq!(reason.as_deref(), Some("renodx.reason.broken"));
        }
        other => panic!("expected unsupported, got {other:?}"),
    }
    assert!(resolve_external_install(&m, &facts()).is_none());
}

fn native_hdr_category_yields_native_hdr_case() {
    let m = manifest(vec![categorized("nh", Category::NativeHdr)]);
    assert!(matches!(resolve(&m, &facts()), RenoDxResolution::NativeHdr));
    assert!(resolve_external_install(&m, &facts()).is_none());
}

#[test]
fn matcher_installs_a_verified_steam_match() {
    installs_a_verified_steam_match_case();
}

#[test]
fn tests_installs_a_verified_steam_match() {
    installs_a_verified_steam_match_case();
}

#[test]
fn matcher_download_url_overrides_slug_derived_url() {
    download_url_overrides_slug_derived_url_case();
}

#[test]
fn tests_download_url_overrides_slug_derived_url() {
    download_url_overrides_slug_derived_url_case();
}

#[test]
fn matcher_title_slug_matching_a_generic_uses_the_generics_explicit_url() {
    title_slug_matching_a_generic_uses_the_generics_explicit_url_case();
}

#[test]
fn tests_title_slug_matching_a_generic_uses_the_generics_explicit_url() {
    title_slug_matching_a_generic_uses_the_generics_explicit_url_case();
}

#[test]
fn matcher_title_download_url_still_wins_over_a_matching_generic() {
    title_download_url_still_wins_over_a_matching_generic_case();
}

#[test]
fn tests_title_download_url_still_wins_over_a_matching_generic() {
    title_download_url_still_wins_over_a_matching_generic_case();
}

#[test]
fn matcher_title_slug_with_no_matching_generic_falls_back_to_clshortfuse() {
    title_slug_with_no_matching_generic_falls_back_to_clshortfuse_case();
}

#[test]
fn tests_title_slug_with_no_matching_generic_falls_back_to_clshortfuse() {
    title_slug_with_no_matching_generic_falls_back_to_clshortfuse_case();
}

#[test]
fn matcher_construction_status_is_experimental() {
    construction_status_is_experimental_case();
}

#[test]
fn tests_construction_status_is_experimental() {
    construction_status_is_experimental_case();
}

#[test]
fn matcher_no_match_returns_no_match() {
    no_match_returns_no_match_case();
}

#[test]
fn tests_no_match_returns_no_match() {
    no_match_returns_no_match_case();
}

#[test]
fn matcher_curated_title_installs_despite_inconclusive_detection() {
    curated_title_installs_despite_inconclusive_detection_case();
}

#[test]
fn tests_curated_title_installs_despite_inconclusive_detection() {
    curated_title_installs_despite_inconclusive_detection_case();
}

#[test]
fn matcher_confirmed_vulkan_curated_title_installs_via_the_vulkan_layer() {
    confirmed_vulkan_curated_title_installs_via_the_vulkan_layer_case();
}

#[test]
fn tests_confirmed_vulkan_curated_title_installs_via_the_vulkan_layer() {
    confirmed_vulkan_curated_title_installs_via_the_vulkan_layer_case();
}

#[test]
fn matcher_confirmed_opengl_curated_title_is_declined() {
    confirmed_opengl_curated_title_is_declined_case();
}

#[test]
fn tests_confirmed_opengl_curated_title_is_declined() {
    confirmed_opengl_curated_title_is_declined_case();
}

#[test]
fn matcher_matches_by_exe_name_on_a_non_steam_launcher() {
    matches_by_exe_name_on_a_non_steam_launcher_case();
}

#[test]
fn tests_matches_by_exe_name_on_a_non_steam_launcher() {
    matches_by_exe_name_on_a_non_steam_launcher_case();
}

#[test]
fn matcher_proxy_comes_from_the_imported_dll_not_a_blind_default() {
    proxy_comes_from_the_imported_dll_not_a_blind_default_case();
}

#[test]
fn tests_proxy_comes_from_the_imported_dll_not_a_blind_default() {
    proxy_comes_from_the_imported_dll_not_a_blind_default_case();
}

#[test]
fn matcher_proxy_override_wins_over_detection() {
    proxy_override_wins_over_detection_case();
}

#[test]
fn tests_proxy_override_wins_over_detection() {
    proxy_override_wins_over_detection_case();
}

#[test]
fn matcher_engine_generic_fallback_is_untested() {
    engine_generic_fallback_is_untested_case();
}

#[test]
fn tests_engine_generic_fallback_is_untested() {
    engine_generic_fallback_is_untested_case();
}

#[test]
fn matcher_engine_generic_uses_manifest_slug_for_local_identity_with_explicit_url() {
    engine_generic_uses_manifest_slug_for_local_identity_with_explicit_url_case();
}

#[test]
fn tests_engine_generic_uses_manifest_slug_for_local_identity_with_explicit_url() {
    engine_generic_uses_manifest_slug_for_local_identity_with_explicit_url_case();
}

#[test]
fn matcher_engine_generic_installs_on_inconclusive_detection() {
    engine_generic_installs_on_inconclusive_detection_case();
}

#[test]
fn tests_engine_generic_installs_on_inconclusive_detection() {
    engine_generic_installs_on_inconclusive_detection_case();
}

#[test]
fn matcher_engine_generic_installs_vulkan_and_declines_opengl() {
    engine_generic_installs_vulkan_and_declines_opengl_case();
}

#[test]
fn tests_engine_generic_installs_vulkan_and_declines_opengl() {
    engine_generic_installs_vulkan_and_declines_opengl_case();
}

#[test]
fn matcher_external_vulkan_title_offers_a_vulkan_file_install() {
    external_vulkan_title_offers_a_vulkan_file_install_case();
}

#[test]
fn tests_external_vulkan_title_offers_a_vulkan_file_install() {
    external_vulkan_title_offers_a_vulkan_file_install_case();
}

#[test]
fn matcher_external_opengl_title_keeps_link_without_a_file_install() {
    external_opengl_title_keeps_link_without_a_file_install_case();
}

#[test]
fn tests_external_opengl_title_keeps_link_without_a_file_install() {
    external_opengl_title_keeps_link_without_a_file_install_case();
}

#[test]
fn matcher_compatible_external_title_offers_file_install() {
    compatible_external_title_offers_file_install_case();
}

#[test]
fn tests_compatible_external_title_offers_file_install() {
    compatible_external_title_offers_file_install_case();
}

#[test]
fn matcher_file_installable_for_directx_inconclusive_and_vulkan_but_not_opengl() {
    file_installable_for_directx_inconclusive_and_vulkan_but_not_opengl_case();
}

#[test]
fn tests_file_installable_for_directx_inconclusive_and_vulkan_but_not_opengl() {
    file_installable_for_directx_inconclusive_and_vulkan_but_not_opengl_case();
}

#[test]
fn matcher_generic_file_install_plan_routes_host_and_declines_opengl() {
    generic_file_install_plan_routes_host_and_declines_opengl_case();
}

#[test]
fn tests_generic_file_install_plan_routes_host_and_declines_opengl() {
    generic_file_install_plan_routes_host_and_declines_opengl_case();
}

#[test]
fn matcher_matched_slug_is_the_matching_titles_slug_or_none() {
    matched_slug_is_the_matching_titles_slug_or_none_case();
}

#[test]
fn tests_matched_slug_is_the_matching_titles_slug_or_none() {
    matched_slug_is_the_matching_titles_slug_or_none_case();
}

#[test]
fn matcher_external_title_is_link_only_on_required_api_mismatch() {
    external_title_is_link_only_on_required_api_mismatch_case();
}

#[test]
fn tests_external_title_is_link_only_on_required_api_mismatch() {
    external_title_is_link_only_on_required_api_mismatch_case();
}

#[test]
fn matcher_resolve_external_install_rejects_non_external_title() {
    resolve_external_install_rejects_non_external_title_case();
}

#[test]
fn tests_resolve_external_install_rejects_non_external_title() {
    resolve_external_install_rejects_non_external_title_case();
}

#[test]
fn matcher_blacklist_category_yields_unsupported() {
    blacklist_category_yields_unsupported_case();
}

#[test]
fn tests_blacklist_category_yields_unsupported() {
    blacklist_category_yields_unsupported_case();
}

#[test]
fn matcher_native_hdr_category_yields_native_hdr() {
    native_hdr_category_yields_native_hdr_case();
}

#[test]
fn tests_native_hdr_category_yields_native_hdr() {
    native_hdr_category_yields_native_hdr_case();
}
