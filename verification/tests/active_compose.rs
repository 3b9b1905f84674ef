use renodx_core::active_install::{
    lower_addon, validate_prepared_shape, ActiveInstallError, InstallSnapshotFacts, PayloadPreimage,
};
use renodx_core::active_update::{
    compose_active_update, ActiveUpdateComposition, ActiveUpdateError, ConfigImage, HostImage,
    ValidatedUpdate,
};
use renodx_core::install_plan::PreparedInstall;
use renodx_core::peer_effects::{
    PeerEffectAccumulator, PeerEffectError, PeerEndpointRole, VerifiedPeerFile,
};
use renodx_core::record::InstalledAddon;
use renodx_core::types::{renodx_ini_defaults, AddonKind, HostKind, ReshadeChannel};
use sha2::{Digest, Sha256};

fn image(identity: &str, bytes: &[u8]) -> VerifiedPeerFile {
    VerifiedPeerFile::new_with_length(
        identity.to_owned(),
        hex::encode(Sha256::digest(bytes)),
        bytes.len() as u64,
    )
}

fn record(version: &str) -> InstalledAddon {
    InstalledAddon {
        game_id: "manual:renodx-active-update".to_owned(),
        kind: AddonKind::RenoDx,
        addon_file: "C:/Game/renodx.addon64".to_owned(),
        addon_version: Some(version.to_owned()),
        created_files: vec!["C:/Game/renodx.addon64".to_owned()],
        backed_up_files: Vec::new(),
        tracked_sources: Vec::new(),
        managed_files: Vec::new(),
        installed_at: Some(10),
        updated_at: Some(20),
    }
}

fn update(addon_now: &[u8], addon_next: &[u8]) -> ValidatedUpdate {
    ValidatedUpdate {
        has_physical_change: true,
        before: record("1"),
        after: record("2"),
        topology: "optiscaler:renodx".to_owned(),
        addon_path: "C:/Game/renodx.addon64".to_owned(),
        addon_before: image("addon", addon_now),
        addon_before_bytes: addon_now.to_vec(),
        addon_bytes: addon_next.to_vec(),
        host: None,
        config: None,
    }
}

#[test]
fn an_update_without_file_or_record_change_is_a_noop() {
    let mut v = update(b"same", b"same");
    v.has_physical_change = false;
    v.after = record("1");
    assert!(matches!(compose_active_update(v), Ok(ActiveUpdateComposition::Noop)));
}

#[test]
fn a_record_only_update_carries_the_new_record() {
    let mut v = update(b"same", b"same");
    v.has_physical_change = false;
    match compose_active_update(v) {
        Ok(ActiveUpdateComposition::Metadata(after)) => {
            assert_eq!(after.addon_version.as_deref(), Some("2"))
        }
        other => panic!("unexpected {other:?}"),
    }
}

#[test]
fn a_changed_addon_and_new_config_form_one_program() {
    let mut v = update(b"old", b"new");
    v.config = Some(ConfigImage {
        path: "C:/Game/ReShade.ini".to_owned(),
        before: None,
        before_bytes: None,
        after: Some(b"[GENERAL]\n".to_vec()),
    });
    match compose_active_update(v) {
        Ok(ActiveUpdateComposition::Physical { record, effects, topology }) => {
            assert_eq!(record.addon_version.as_deref(), Some("2"));
            assert_eq!(topology, "optiscaler:renodx");
            assert_eq!(effects.endpoints.len(), 2);
            assert_eq!(effects.endpoints[0].role, PeerEndpointRole::Disjoint);
            assert_eq!(effects.endpoints[0].path, "C:/Game/renodx.addon64");
            assert_eq!(effects.endpoints[1].role, PeerEndpointRole::ReshadeIni);
            assert_eq!(effects.game_intents[0].before, Some(b"old".to_vec()));
            assert_eq!(effects.game_intents[0].after, Some(b"new".to_vec()));
            assert_eq!(effects.game_intents[1].before, None);
        }
        other => panic!("unexpected {other:?}"),
    }
}

#[test]
fn a_changed_host_is_replaced_as_the_topology_downstream() {
    let mut v = update(b"same", b"same");
    v.host = Some(HostImage {
        path: "C:/Game/dxgi.dll".to_owned(),
        before: image("host", b"reshade-5"),
        before_bytes: b"reshade-5".to_vec(),
        bytes: b"reshade-6".to_vec(),
    });
    match compose_active_update(v) {
        Ok(ActiveUpdateComposition::Physical { effects, .. }) => {
            assert_eq!(effects.endpoints.len(), 1);
            assert_eq!(effects.endpoints[0].role, PeerEndpointRole::TopologyDownstream);
            assert_eq!(effects.payloads[0], Some(b"reshade-6".to_vec()));
        }
        other => panic!("unexpected {other:?}"),
    }
}

#[test]
fn a_config_only_physical_update_is_refused() {
    let mut v = update(b"same", b"same");
    v.config = Some(ConfigImage {
        path: "C:/Game/ReShade.ini".to_owned(),
        before: Some(image("ini", b"a=1\n")),
        before_bytes: Some(b"a=1\n".to_vec()),
        after: Some(b"a=2\n".to_vec()),
    });
    assert_eq!(
        compose_active_update(v).err(),
        Some(ActiveUpdateError::InvalidInput(
            "physical active update has no endpoint transition".to_owned()
        ))
    );
}

#[test]
fn a_config_change_without_contents_is_refused() {
    let mut v = update(b"old", b"new");
    v.config = Some(ConfigImage {
        path: "C:/Game/ReShade.ini".to_owned(),
        before: None,
        before_bytes: None,
        after: None,
    });
    assert_eq!(
        compose_active_update(v).err(),
        Some(ActiveUpdateError::InvalidInput(
            "active config physical change has no postimage".to_owned()
        ))
    );
}

#[test]
fn a_drifted_addon_preimage_is_refused() {
    let mut v = update(b"old", b"new");
    v.addon_before_bytes = b"drifted".to_vec();
    assert_eq!(
        compose_active_update(v).err(),
        Some(ActiveUpdateError::Effects(PeerEffectError::BeforeImageMismatch(
            "C:/Game/renodx.addon64".to_owned()
        )))
    );
}

#[test]
fn a_physical_update_where_nothing_differs_has_no_program() {
    let v = update(b"same", b"same");
    assert_eq!(
        compose_active_update(v).err(),
        Some(ActiveUpdateError::Effects(PeerEffectError::EmptyProgram))
    );
}

fn facts() -> InstallSnapshotFacts {
    InstallSnapshotFacts {
        main_install: true,
        requested_channel: ReshadeChannel::Stable,
        payload_path: "C:/Game/renodx.addon64".to_owned(),
        has_topology: true,
        has_host_path: false,
        has_host_preimage: false,
        has_host_assessment: false,
        has_acquisition_sidecar_preimage: false,
        writes_host: false,
    }
}

fn vulkan_prepared() -> PreparedInstall {
    PreparedInstall {
        game_id: "manual:renodx-vulkan-active-test".to_owned(),
        host_kind: HostKind::Vulkan,
        proxy_dll_name: String::new(),
        addon_file_name: "renodx.addon64".to_owned(),
        addon_source_url: String::new(),
        source_digest: String::new(),
        source_etag: None,
        source_last_modified: None,
        addon_bytes: b"addon".to_vec(),
        reshade_dll_bytes: Vec::new(),
        reshade_source_url: String::new(),
        reshade_source_etag: None,
        reshade_last_modified: None,
        reshade_digest: String::new(),
        reshade_channel: None,
        ini_tweaks: renodx_ini_defaults(),
    }
}

fn invalid(message: &str) -> Result<(), ActiveInstallError> {
    Err(ActiveInstallError::InvalidInput(message.to_owned()))
}

#[test]
fn a_vulkan_install_fits_its_sealed_snapshot() {
    let game = "manual:renodx-vulkan-active-test";
    assert_eq!(validate_prepared_shape(&facts(), game, &vulkan_prepared()), Ok(()));
    let mut upper = facts();
    upper.payload_path = "C:/Game/RENODX.ADDON64".to_owned();
    let mut padded = vulkan_prepared();
    padded.addon_file_name = "  renodx.addon64 ".to_owned();
    assert_eq!(validate_prepared_shape(&upper, game, &padded), Ok(()));
}

#[test]
fn shape_violations_are_reported_in_order() {
    let game = "manual:renodx-vulkan-active-test";
    let mut f = facts();
    f.main_install = false;
    assert_eq!(
        validate_prepared_shape(&f, game, &vulkan_prepared()),
        invalid("active composer accepts only a main RenoDX install feature")
    );
    let mut p = vulkan_prepared();
    p.reshade_channel = Some(ReshadeChannel::Nightly);
    assert_eq!(
        validate_prepared_shape(&facts(), game, &p),
        invalid("prepared ReShade channel differs from the sealed requested channel")
    );
    let mut p = vulkan_prepared();
    p.addon_bytes.clear();
    assert_eq!(
        validate_prepared_shape(&facts(), game, &p),
        invalid("prepared RenoDX add-on bytes are empty")
    );
    assert_eq!(
        validate_prepared_shape(&facts(), "steam:1", &vulkan_prepared()),
        invalid("prepared game differs from the sealed active topology")
    );
    let mut p = vulkan_prepared();
    p.addon_file_name = "other.addon64".to_owned();
    assert_eq!(
        validate_prepared_shape(&facts(), game, &p),
        Err(ActiveInstallError::Path("C:/Game/renodx.addon64".to_owned()))
    );
    let mut f = facts();
    f.writes_host = true;
    assert_eq!(
        validate_prepared_shape(&f, game, &vulkan_prepared()),
        invalid("Vulkan install carries proxy-only sealed host evidence")
    );
    let mut p = vulkan_prepared();
    p.reshade_dll_bytes = vec![1];
    assert_eq!(
        validate_prepared_shape(&facts(), game, &p),
        invalid("Vulkan install carries per-game ReShade host bytes")
    );
}

#[test]
fn a_proxy_install_needs_sealed_host_evidence_and_a_channel() {
    let game = "manual:renodx-vulkan-active-test";
    let mut p = vulkan_prepared();
    p.host_kind = HostKind::Proxy;
    p.proxy_dll_name = "dxgi.dll".to_owned();
    assert_eq!(
        validate_prepared_shape(&facts(), game, &p),
        invalid("proxy install is missing sealed topology or host evidence")
    );
    let mut f = facts();
    f.has_host_path = true;
    f.has_host_preimage = true;
    f.has_host_assessment = true;
    assert_eq!(validate_prepared_shape(&f, game, &p), Ok(()));
    f.writes_host = true;
    assert_eq!(
        validate_prepared_shape(&f, game, &p),
        invalid("owned ReShade host is missing the sealed requested channel")
    );
    p.reshade_channel = Some(ReshadeChannel::Stable);
    assert_eq!(validate_prepared_shape(&f, game, &p), Ok(()));
    p.proxy_dll_name = "   ".to_owned();
    assert_eq!(
        validate_prepared_shape(&f, game, &p),
        invalid("proxy install has no prepared proxy DLL name")
    );
}

#[test]
fn the_addon_payload_is_created_or_replaces_its_retained_file() {
    let path = "C:/Game/renodx.addon64".to_owned();
    let prepared = vulkan_prepared();
    let mut accumulator = PeerEffectAccumulator::new();
    assert_eq!(lower_addon(&path, &PayloadPreimage::Absent, &prepared, &mut accumulator), Ok(()));
    let effects = accumulator.finalize().expect("program");
    assert_eq!(effects.game_intents.len(), 1);
    assert_eq!(effects.game_intents[0].after, Some(b"addon".to_vec()));

    let mut accumulator = PeerEffectAccumulator::new();
    let missing = PayloadPreimage::File { file: None, bytes: Some(b"x".to_vec()) };
    assert_eq!(
        lower_addon(&path, &missing, &prepared, &mut accumulator),
        Err(ActiveInstallError::InvalidInput(
            "present add-on snapshot has no retained file metadata".to_owned()
        ))
    );
    let no_bytes = PayloadPreimage::File { file: Some(image("addon", b"x")), bytes: None };
    assert_eq!(
        lower_addon(&path, &no_bytes, &prepared, &mut accumulator),
        Err(ActiveInstallError::InvalidInput("present add-on snapshot has no retained bytes".to_owned()))
    );
    let present =
        PayloadPreimage::File { file: Some(image("addon", b"x")), bytes: Some(b"x".to_vec()) };
    assert_eq!(lower_addon(&path, &present, &prepared, &mut accumulator), Ok(()));
    let effects = accumulator.finalize().expect("program");
    assert_eq!(effects.game_intents[0].before, Some(b"x".to_vec()));
    assert_eq!(effects.game_intents[0].after, Some(b"addon".to_vec()));
}
