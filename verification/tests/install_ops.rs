use renodx_core::errors::ServiceError;
use renodx_core::host_policy::{assess_scan, ReshadeScan};
use renodx_core::install_plan::{
    addon_tracked_source, check_proxy_install, combined_ops, dlss_fix_file_path,
    effective_ini_tweaks, host_ops, ini_op_for_game, ini_tweaks_write_keys, merge_receipts,
    record_sources, vulkan_ops, FileOp, PreparedInstall,
};
use renodx_core::record::{InstallReceipt, InstalledAddon, TrackedSourceRole};
use renodx_core::types::{renodx_ini_defaults, AddonKind, HostKind, ReshadeChannel, ReshadeIniTweaks};

fn prepared() -> PreparedInstall {
    PreparedInstall {
        game_id: "steam:42".to_owned(),
        host_kind: HostKind::Proxy,
        proxy_dll_name: "dxgi.dll".to_owned(),
        addon_file_name: "renodx-game.addon64".to_owned(),
        addon_source_url: "https://example/renodx-game.addon64".to_owned(),
        source_digest: "abc".to_owned(),
        source_etag: Some("\"1\"".to_owned()),
        source_last_modified: None,
        addon_bytes: vec![1, 2, 3],
        reshade_dll_bytes: vec![9, 9],
        reshade_source_url: "https://reshade.me/x.exe".to_owned(),
        reshade_source_etag: None,
        reshade_last_modified: None,
        reshade_digest: "def".to_owned(),
        reshade_channel: Some(ReshadeChannel::Stable),
        ini_tweaks: renodx_ini_defaults(),
    }
}

#[test]
fn a_folder_with_its_own_effects_keeps_its_addons_enabled() {
    let t = renodx_ini_defaults();
    assert!(effective_ini_tweaks(true, &t).disabled_addons.is_empty());
    assert_eq!(effective_ini_tweaks(false, &t).disabled_addons.len(), 2);
    assert!(ini_op_for_game(true, &t).is_none());
    match ini_op_for_game(false, &t) {
        Some(FileOp::UpdateText { name, default, .. }) => {
            assert_eq!(name, "ReShade.ini");
            assert!(default.is_empty());
        }
        other => panic!("unexpected {other:?}"),
    }
    let empty = ReshadeIniTweaks { disabled_addons: Vec::new(), addon_path: None, dlss_fix: None };
    assert!(!ini_tweaks_write_keys(&empty));
    assert!(ini_op_for_game(false, &empty).is_none());
}

#[test]
fn a_combined_plan_lays_down_addon_host_and_ini_in_order() {
    let p = prepared();
    let ops = combined_ops(false, &p, true);
    assert_eq!(ops.len(), 3);
    assert!(matches!(&ops[0], FileOp::Replace { name, bytes } if name == "renodx-game.addon64" && *bytes == vec![1, 2, 3]));
    assert!(matches!(&ops[1], FileOp::Replace { name, bytes } if name == "dxgi.dll" && *bytes == vec![9, 9]));
    assert!(matches!(&ops[2], FileOp::UpdateText { .. }));
    assert_eq!(combined_ops(true, &p, false).len(), 1);
    assert_eq!(host_ops(false, &p, false).len(), 1);
    assert_eq!(host_ops(true, &p, false).len(), 0);
    assert_eq!(vulkan_ops(false, &p).len(), 2);
}

#[test]
fn receipts_concatenate() {
    let a = InstallReceipt { created_files: vec!["a".to_owned()], backed_up_files: Vec::new() };
    let b = InstallReceipt { created_files: vec!["b".to_owned()], backed_up_files: vec!["c".to_owned()] };
    let m = merge_receipts(a, b);
    assert_eq!(m.created_files, vec!["a".to_owned(), "b".to_owned()]);
    assert_eq!(m.backed_up_files, vec!["c".to_owned()]);
}

#[test]
fn a_proxy_install_needs_host_bytes_when_it_writes_the_host() {
    let absent = assess_scan(r"C:\Game", "dxgi.dll", &ReshadeScan { hosts: Vec::new() });
    let mut p = prepared();
    assert!(check_proxy_install(&absent, &p).is_ok());
    p.reshade_dll_bytes.clear();
    match check_proxy_install(&absent, &p) {
        Err(ServiceError::InvalidInput(m)) => assert_eq!(
            m,
            "the active ReShade host needs installation or repair, but no ReShade bytes were provided"
        ),
        other => panic!("unexpected {other:?}"),
    }
}

#[test]
fn a_record_tracks_the_upstream_addon_and_a_written_host() {
    let p = prepared();
    let sources = record_sources(&p, true);
    assert_eq!(sources.len(), 2);
    assert_eq!(sources[0].role, TrackedSourceRole::Addon);
    assert_eq!(sources[1].role, TrackedSourceRole::Host);
    assert_eq!(sources[1].channel.as_deref(), Some("stable"));
    let mut file_install = prepared();
    file_install.addon_source_url.clear();
    assert!(addon_tracked_source(&file_install).is_none());
    assert!(record_sources(&file_install, false).is_empty());
}

#[test]
fn the_dlss_fix_companion_is_found_by_its_reserved_stem() {
    let addon = r"C:\Game\renodx-game.addon64".to_owned();
    let record = InstalledAddon::from_parts(
        "steam:42".to_owned(),
        AddonKind::RenoDx,
        addon.clone(),
        None,
        vec![addon, r"C:\Game\renodx-dlssfix.addon64".to_owned()],
        Vec::new(),
        Vec::new(),
    )
    .expect("record");
    assert_eq!(dlss_fix_file_path(&record).as_deref(), Some(r"C:\Game\renodx-dlssfix.addon64"));
}
