use renodx_core::reshade::{
    discover_renodx_addon, ini_merge_strategy, ini_remove_dlss_fix_strategy,
    apply_removal, ini_remove_renodx_strategy, is_default_disabled_addons, is_renderpilot_minimal_ini,
    renodx_addon_state, split_ini_list, AddonConfigState, AddonDirEntry, MergeStrategy,
    RenoDxAddonLoadMode,
};
use renodx_core::types::{renodx_ini_defaults, DlssFixIniTweaks, ReshadeIniTweaks};

#[test]
fn ini_merge_strategy_carries_only_the_set_keys() {
    let MergeStrategy::IniSetKeys { sections } = ini_merge_strategy(&renodx_ini_defaults()) else {
        panic!("expected IniSetKeys")
    };
    assert_eq!(sections.len(), 1);
    assert_eq!(sections[0].name, "ADDON");
    assert_eq!(
        sections[0].keys,
        vec![("DisabledAddons".to_owned(), "Generic Depth,Effect Runtime Sync".to_owned())]
    );
}

#[test]
fn ini_merge_strategy_adds_dlss_fix_sections_when_present() {
    let tweaks = ReshadeIniTweaks {
        disabled_addons: vec!["Generic Depth".to_owned()],
        addon_path: None,
        dlss_fix: Some(DlssFixIniTweaks {
            addon_file_name: "renodx-dlssfix.addon64".to_owned(),
            dlss_path: r"C:\Game\nvngx_dlss.dll".to_owned(),
            streamline_path: r"C:\Game\sl.interposer.dll".to_owned(),
        }),
    };
    let MergeStrategy::IniSetKeys { sections } = ini_merge_strategy(&tweaks) else {
        panic!("expected IniSetKeys")
    };
    assert_eq!(sections.len(), 2);
    assert_eq!(sections[0].name, "ADDON");
    assert!(sections[0]
        .keys
        .iter()
        .any(|(k, v)| k == "LoadFromDllMain" && v == "renodx-dlssfix.addon64"));
    assert_eq!(sections[1].name, "RENODX-DLSSFIX");
}

// ---------------------------------------------------------------------------
// The library's own cases
// ---------------------------------------------------------------------------

#[test]
fn removal_strategies_name_exactly_renodx_keys() {
    let MergeStrategy::IniRemoveKeys { sections } = ini_remove_dlss_fix_strategy() else {
        panic!("expected IniRemoveKeys")
    };
    assert_eq!(sections.len(), 2);
    assert_eq!(sections[0].name, "ADDON");
    assert_eq!(sections[0].keys, vec!["LoadFromDllMain".to_owned()]);
    assert_eq!(sections[1].name, "RENODX-DLSSFIX");
    assert!(sections[1].keys.is_empty());

    let MergeStrategy::IniRemoveKeys { sections } = ini_remove_renodx_strategy() else {
        panic!("expected IniRemoveKeys")
    };
    assert_eq!(
        sections[0].keys,
        vec!["DisabledAddons".to_owned(), "AddonPath".to_owned(), "LoadFromDllMain".to_owned()]
    );
    assert!(sections[1].keys.is_empty());
}

#[test]
fn ini_lists_are_trimmed_and_skip_empty_items() {
    assert_eq!(
        split_ini_list(" Generic Depth ,, Effect Runtime Sync,"),
        vec!["Generic Depth".to_owned(), "Effect Runtime Sync".to_owned()]
    );
    assert!(split_ini_list("").is_empty());
    assert!(is_default_disabled_addons("effect runtime sync,GENERIC DEPTH"));
    assert!(!is_default_disabled_addons("Generic Depth"));
    assert!(!is_default_disabled_addons("Generic Depth,Effect Runtime Sync,Other"));
}

#[test]
fn only_renderpilots_own_minimal_ini_is_recognised() {
    assert!(is_renderpilot_minimal_ini(
        "[ADDON]\r\nDisabledAddons=Generic Depth,Effect Runtime Sync\r\n"
    ));
    assert!(is_renderpilot_minimal_ini("; note\n\n[addon]\nAddonPath=\".\"\n"));
    assert!(!is_renderpilot_minimal_ini("[ADDON]\n"));
    assert!(!is_renderpilot_minimal_ini("DisabledAddons=Generic Depth,Effect Runtime Sync\n"));
    assert!(!is_renderpilot_minimal_ini("[GENERAL]\nPreset=x.ini\n"));
    assert!(!is_renderpilot_minimal_ini("[ADDON]\nAddonPath=..\\addons\n"));
    assert!(!is_renderpilot_minimal_ini("[ADDON]\nAddonPath=.\nUserKey=1\n"));
}

fn entry(name: &str, is_file: bool) -> AddonDirEntry {
    AddonDirEntry { name: name.to_owned(), path: format!(r"C:\Game\{name}"), is_file }
}

#[test]
fn discovery_skips_the_dlss_fix_companion_and_directories() {
    let entries = vec![
        entry("renodx-dlssfix.addon64", true),
        entry("renodx-folder.addon64", false),
        entry("ReShade.ini", true),
        entry("RENODX-othertitle.ADDON64", true),
    ];
    assert_eq!(discover_renodx_addon(&entries), Some(3));
    assert_eq!(discover_renodx_addon(&vec![entry("renodx-dlssfix.addon64", true)]), None);
}

#[test]
fn addon_state_reports_disabled_by_config() {
    let state = renodx_addon_state(
        r"C:\Game",
        "renodx-cp2077.addon64",
        true,
        &vec![entry("renodx-cp2077.addon64", true)],
        true,
        &Some(AddonConfigState {
            disabled_addons: vec!["renodx-cp2077.addon64".to_owned()],
            has_addon_section: true,
            load_from_dll_main: None,
        }),
    );
    assert!(state.present_on_disk);
    assert_eq!(state.expected_path, r"C:\Game\renodx-cp2077.addon64");
    assert_eq!(state.enabled_by_config, Some(false));
    assert_eq!(state.load_mode, RenoDxAddonLoadMode::AutoSearch);
}

#[test]
fn addon_state_without_config_searches_automatically() {
    let state = renodx_addon_state(
        r"C:\Game",
        "renodx-cp2077.addon64",
        false,
        &vec![entry("renodx-dlssfix.addon64", true)],
        false,
        &None,
    );
    assert!(!state.present_on_disk);
    assert!(state.discovered_path.is_none());
    assert_eq!(state.enabled_by_config, None);
    assert_eq!(state.load_mode, RenoDxAddonLoadMode::AutoSearch);

    let dll_main = renodx_addon_state(
        r"C:\Game",
        "renodx-cp2077.addon64",
        false,
        &vec![entry("renodx-other.addon64", true)],
        true,
        &Some(AddonConfigState {
            disabled_addons: Vec::new(),
            has_addon_section: false,
            load_from_dll_main: Some("renodx-dlssfix.addon64".to_owned()),
        }),
    );
    assert!(dll_main.present_on_disk);
    assert_eq!(dll_main.discovered_path.as_deref(), Some(r"C:\Game\renodx-other.addon64"));
    assert_eq!(dll_main.enabled_by_config, None);
    assert_eq!(dll_main.load_mode, RenoDxAddonLoadMode::LoadFromDllMain);
}

#[test]
fn ini_remove_dlss_fix_strategy_strips_loadfromdllmain_and_section() {
    let strategy = ini_remove_dlss_fix_strategy();
    let base = "[ADDON]\r\nAddonPath=.\r\nLoadFromDllMain=renodx-dlssfix.addon64\r\n\
                [RENODX-DLSSFIX]\r\nDLSSPath=C:\\d.dll\r\nStreamlinePath=C:\\s.dll\r\n";
    let merged = apply_removal(&strategy, base);
    assert!(merged.contains("AddonPath=."));
    assert!(!merged.contains("LoadFromDllMain"));
    assert!(!merged.contains("RENODX-DLSSFIX"));
}

#[test]
fn ini_remove_renodx_strategy_strips_only_renodx_keys() {
    let strategy = ini_remove_renodx_strategy();
    let base = "; user comment\r\n\
                [GENERAL]\r\nPreset=mine.ini\r\n\r\n\
                [ADDON]\r\nDisabledAddons=Generic Depth,Effect Runtime Sync\r\n\
                AddonPath=.\r\nLoadFromDllMain=renodx-dlssfix.addon64\r\n\
                UserAddonKey=keep-me\r\n\r\n\
                [RENODX-DLSSFIX]\r\nDLSSPath=C:\\d.dll\r\nStreamlinePath=C:\\s.dll\r\n";
    let merged = apply_removal(&strategy, base);
    assert!(merged.contains("; user comment"));
    assert!(merged.contains("[GENERAL]"));
    assert!(merged.contains("Preset=mine.ini"));
    assert!(merged.contains("UserAddonKey=keep-me"));
    assert!(!merged.contains("DisabledAddons"));
    assert!(!merged.contains("AddonPath"));
    assert!(!merged.contains("LoadFromDllMain"));
    assert!(!merged.contains("RENODX-DLSSFIX"));
}

#[test]
fn ini_remove_renodx_strategy_is_a_no_op_on_a_foreign_config() {
    let strategy = ini_remove_renodx_strategy();
    let base = "[GENERAL]\r\nPreset=mine.ini\r\n";
    assert_eq!(apply_removal(&strategy, base), base);
}

#[test]
fn removal_keeps_every_line_it_does_not_target_exactly() {
    let strategy = ini_remove_dlss_fix_strategy();
    let base = "[addon]\nAddonPath=.\nloadfromdllmain = x\n\n[renodx-dlssfix]\nDLSSPath=a\n\n[OTHER]\nk=v";
    assert_eq!(
        apply_removal(&strategy, base),
        "[addon]\nAddonPath=.\n\n\n[OTHER]\nk=v"
    );
}
