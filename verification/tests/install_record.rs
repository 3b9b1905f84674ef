use renodx_core::record::{
    contains_path, host_sources, infer_legacy_channel_from_url, installed_channel, merge_paths,
    rebuild_after_receipt, rebuild_record_after_dlss_fix, rebuild_with_sources_and_receipt,
    records_equal, replace_host_source, single_host_source, with_host_channel, ChannelReadIssue,
    InstallReceipt, InstalledAddon, TrackedSource, TrackedSourceRole,
};
use renodx_core::errors::ServiceError;
use renodx_core::types::{AddonKind, ReshadeChannel};

fn record_with_sources(sources: Vec<TrackedSource>) -> InstalledAddon {
    let addon = r"C:\Games\Test\renodx-test.addon64".to_owned();
    InstalledAddon::from_parts(
        "steam:42".to_owned(),
        AddonKind::RenoDx,
        addon.clone(),
        None,
        vec![addon],
        Vec::new(),
        sources,
    )
    .expect("record")
}

fn source(role: TrackedSourceRole, url: &str, digest: &str) -> TrackedSource {
    TrackedSource {
        role,
        url: url.to_owned(),
        etag: None,
        digest: digest.to_owned(),
        last_modified: None,
        channel: None,
    }
}

fn host(url: &str) -> TrackedSource {
    source(TrackedSourceRole::Host, url, "digest")
}

fn tagged(mut s: TrackedSource, channel: &str) -> TrackedSource {
    s.channel = Some(channel.to_owned());
    s
}

#[test]
fn typed_channel_wins_over_url_classification() {
    let record = record_with_sources(vec![tagged(
        host("https://nightly.link/crosire/reshade/workflows/build/main/x64.zip"),
        "stable",
    )]);
    assert_eq!(installed_channel(&record), Ok(Some(ReshadeChannel::Stable)));
}

#[test]
fn unknown_channel_is_recoverable_unknown() {
    let record = record_with_sources(vec![tagged(
        host("https://reshade.me/downloads/ReShade_Setup_6.7.3_Addon.exe"),
        "canary",
    )]);
    assert_eq!(installed_channel(&record), Ok(None));
}

#[test]
fn legacy_single_host_source_falls_back_to_url() {
    let stable = record_with_sources(vec![host(
        "https://reshade.me/downloads/ReShade_Setup_6.7.3_Addon.exe",
    )]);
    let nightly = record_with_sources(vec![host(
        "https://nightly.link/crosire/reshade/workflows/build/main/x64.zip",
    )]);
    assert_eq!(installed_channel(&stable), Ok(Some(ReshadeChannel::Stable)));
    assert_eq!(installed_channel(&nightly), Ok(Some(ReshadeChannel::Nightly)));
}

#[test]
fn duplicate_host_sources_are_explicit_conflict() {
    let record = record_with_sources(vec![
        host("https://reshade.me/downloads/ReShade_Setup_6.7.3_Addon.exe"),
        host("https://nightly.link/crosire/reshade/workflows/build/main/x64.zip"),
    ]);
    assert_eq!(installed_channel(&record), Err(ChannelReadIssue::DuplicateHostSources));
}

// ---------------------------------------------------------------------------
// The library's own cases
// ---------------------------------------------------------------------------

#[test]
fn legacy_url_classification_reads_only_the_https_host() {
    assert_eq!(
        infer_legacy_channel_from_url("HTTPS://ReShade.ME:443/downloads/x.exe"),
        Some(ReshadeChannel::Stable)
    );
    assert_eq!(
        infer_legacy_channel_from_url("https://user@nightly.link?x=1"),
        Some(ReshadeChannel::Nightly)
    );
    assert_eq!(infer_legacy_channel_from_url("http://reshade.me/x"), None);
    assert_eq!(infer_legacy_channel_from_url("https://reshade.me.example.com/x"), None);
    assert_eq!(infer_legacy_channel_from_url("https:///reshade.me"), None);
}

#[test]
fn host_sources_ignore_other_roles() {
    let record = record_with_sources(vec![
        source(TrackedSourceRole::Addon, "https://a", "a"),
        host("https://reshade.me/x"),
        source(TrackedSourceRole::DlssFix, "https://d", "d"),
    ]);
    let hosts = host_sources(&record);
    assert_eq!(hosts.len(), 1);
    assert_eq!(hosts[0].url, "https://reshade.me/x");
    assert_eq!(single_host_source(&record).expect("one").expect("some").url, "https://reshade.me/x");
    assert!(single_host_source(&record_with_sources(Vec::new())).expect("ok").is_none());
}

#[test]
fn tagging_a_host_keeps_its_provenance() {
    let mut s = host("https://reshade.me/x");
    s.etag = Some("\"e\"".to_owned());
    let t = with_host_channel(&s, ReshadeChannel::Nightly);
    assert_eq!(t.channel.as_deref(), Some("nightly"));
    assert_eq!(t.etag.as_deref(), Some("\"e\""));
    assert_eq!(t.url, "https://reshade.me/x");
    assert_eq!(t.role, TrackedSourceRole::Host);
}

#[test]
fn a_record_needs_its_addon_file_among_the_created_files() {
    assert!(InstalledAddon::from_parts(
        "steam:42".to_owned(),
        AddonKind::RenoDx,
        "a.addon64".to_owned(),
        None,
        vec!["b".to_owned()],
        Vec::new(),
        Vec::new(),
    )
    .is_none());
    assert!(contains_path(&vec!["x".to_owned(), "y".to_owned()], "y"));
}

#[test]
fn merging_paths_skips_duplicates_and_untrackable_paths() {
    let mut existing = vec!["a".to_owned(), "b".to_owned()];
    merge_paths(&mut existing, &vec!["b".to_owned(), "".to_owned(), "c".to_owned(), "c".to_owned(), "d\0".to_owned()]);
    assert_eq!(existing, vec!["a".to_owned(), "b".to_owned(), "c".to_owned()]);
}

#[test]
fn dlss_fix_rebuild_adds_and_removes_the_companion() {
    let base = record_with_sources(vec![host("https://reshade.me/x")]);
    let receipt = InstallReceipt {
        created_files: vec![r"C:\Games\Test\renodx-dlssfix.addon64".to_owned()],
        backed_up_files: vec![r"C:\Games\Test\ReShade.ini".to_owned()],
    };
    let added = rebuild_record_after_dlss_fix(
        &base,
        &receipt,
        None,
        Some(source(TrackedSourceRole::DlssFix, "https://d", "d")),
    )
    .expect("install rebuild");
    assert_eq!(added.created_files.len(), 2);
    assert_eq!(added.backed_up_files.len(), 1);
    assert_eq!(added.tracked_sources.len(), 2);

    let empty = InstallReceipt { created_files: Vec::new(), backed_up_files: Vec::new() };
    let removed = rebuild_record_after_dlss_fix(
        &added,
        &empty,
        Some((r"C:\Games\Test\renodx-dlssfix.addon64".to_owned(), TrackedSourceRole::DlssFix)),
        None,
    )
    .expect("uninstall rebuild");
    assert_eq!(removed.created_files, vec![r"C:\Games\Test\renodx-test.addon64".to_owned()]);
    assert_eq!(removed.tracked_sources.len(), 1);

    match rebuild_record_after_dlss_fix(
        &base,
        &empty,
        Some((r"C:\Games\Test\renodx-test.addon64".to_owned(), TrackedSourceRole::Host)),
        None,
    ) {
        Err(ServiceError::Failed(m)) => {
            assert_eq!(m, "DLSS-Fix rebuild violated the addon_file invariant")
        }
        other => panic!("unexpected {other:?}"),
    }
}

#[test]
fn replace_host_source_rejects_duplicate_host_sources() {
    let first = source(TrackedSourceRole::Host, "https://a", "a");
    let second = source(TrackedSourceRole::Host, "https://b", "b");
    let record = record_with_sources(vec![first, second]);
    let replacement = source(TrackedSourceRole::Host, "https://c", "c");
    assert!(replace_host_source(&record, &replacement).is_err());
}

#[test]
fn replacing_the_host_source_keeps_every_other_source_and_file() {
    let record = record_with_sources(vec![
        source(TrackedSourceRole::Addon, "https://a", "a"),
        source(TrackedSourceRole::Host, "https://nightly.link/old.zip", "old"),
    ]);
    let replacement = tagged(
        source(TrackedSourceRole::Host, "https://reshade.me/downloads/ReShade_Setup_6.7.3_Addon.exe", "new"),
        "stable",
    );
    let updated = replace_host_source(&record, &replacement).expect("replace");
    assert_eq!(updated.tracked_sources.len(), 2);
    assert_eq!(updated.tracked_sources[0].url, "https://a");
    assert_eq!(updated.tracked_sources[1].digest, "new");
    assert_eq!(updated.tracked_sources[1].channel.as_deref(), Some("stable"));
    assert_eq!(updated.created_files, record.created_files);
    match replace_host_source(&record_with_sources(Vec::new()), &replacement) {
        Err(ServiceError::InvalidInput(m)) => {
            assert_eq!(m, "RenoDX install record has no ReShade host binary artifact")
        }
        other => panic!("unexpected {other:?}"),
    }
}

#[test]
fn rebuild_with_parts_names_the_missing_addon_file_in_its_error() {
    let addon = r"C:\Games\Test\renodx-test.addon64".to_owned();
    let record = record_with_sources(Vec::new());
    let receipt = InstallReceipt { created_files: Vec::new(), backed_up_files: Vec::new() };
    let error = rebuild_after_receipt(
        &record,
        &receipt,
        Some((addon, TrackedSourceRole::Host)),
        None,
        "test rebuild",
    )
    .expect_err("removing the addon file violates the addon_file invariant");
    match error {
        ServiceError::Failed(message) => {
            assert!(
                message.contains("renodx-test.addon64"),
                "expected the offending file name in: {message}"
            );
        }
        other => panic!("expected Failed, got {other:?}"),
    }
}

#[test]
fn rebuild_with_receipt_dedups_paths_and_preserves_timestamps() {
    let record = record_with_sources(Vec::new()).with_timestamps(Some(10), Some(20));
    let receipt = InstallReceipt {
        created_files: vec![
            r"C:\Games\Test\renodx-test.addon64".to_owned(),
            r"C:\Games\Test\dxgi.dll".to_owned(),
        ],
        backed_up_files: vec![r"C:\Games\Test\dxgi.dll".to_owned()],
    };
    let updated =
        rebuild_with_sources_and_receipt(&record, Vec::new(), Some(&receipt), "test rebuild").expect("rebuild");
    assert_eq!(updated.created_files.len(), 2);
    assert_eq!(updated.backed_up_files.len(), 1);
    assert_eq!(updated.installed_at, Some(10));
    assert_eq!(updated.updated_at, Some(20));
    let same = rebuild_with_sources_and_receipt(&record, Vec::new(), None, "test rebuild").expect("rebuild");
    assert!(records_equal(&same, &record));
    assert!(!records_equal(&same, &updated));
}

#[test]
fn rebuild_after_receipt_swaps_the_source_of_a_role() {
    let record = record_with_sources(vec![source(TrackedSourceRole::DlssFix, "https://old", "a")]);
    let receipt = InstallReceipt {
        created_files: vec![r"C:\Games\Test\renodx-dlssfix.addon64".to_owned()],
        backed_up_files: Vec::new(),
    };
    let updated = rebuild_after_receipt(
        &record,
        &receipt,
        Some((r"C:\Games\Test\none.addon64".to_owned(), TrackedSourceRole::DlssFix)),
        Some(source(TrackedSourceRole::DlssFix, "https://new", "b")),
        "test rebuild",
    )
    .expect("rebuild");
    assert_eq!(updated.tracked_sources.len(), 1);
    assert_eq!(updated.tracked_sources[0].url, "https://new");
    assert_eq!(updated.created_files.len(), 2);
}

#[test]
fn replace_host_source_preserves_timestamps() {
    let old = source(TrackedSourceRole::Host, "https://nightly.link/old.zip", "old");
    let mut replacement = source(
        TrackedSourceRole::Host,
        "https://reshade.me/downloads/ReShade_Setup_6.7.3_Addon.exe",
        "new",
    );
    replacement.etag = Some("\"etag\"".to_owned());
    replacement.channel = Some("stable".to_owned());
    let record = record_with_sources(vec![old]).with_timestamps(Some(10), Some(20));

    let updated = replace_host_source(&record, &replacement).expect("replace");

    assert_eq!(updated.tracked_sources, vec![replacement]);
    assert_eq!(updated.installed_at, Some(10));
    assert_eq!(updated.updated_at, Some(20));
}

#[test]
fn a_replaced_host_source_reads_back_its_channel() {
    let record = record_with_sources(vec![host("https://reshade.me/downloads/ReShade_Setup_6.0.exe")]);
    assert_eq!(installed_channel(&record), Ok(Some(ReshadeChannel::Stable)));
    let nightly = with_host_channel(&host("https://example.invalid/build.zip"), ReshadeChannel::Nightly);
    let updated = replace_host_source(&record, &nightly).expect("replace");
    assert_eq!(installed_channel(&updated), Ok(Some(ReshadeChannel::Nightly)));
}
