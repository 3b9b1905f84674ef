//! The ordered file operations of a RenoDX install and the upstream sources its
//! record tracks: the add-on and the ReShade host are replaced without backup,
//! `ReShade.ini` is merged in place.
use vstd::prelude::*;

use crate::errors::{invalid_with, ServiceError};
use crate::host_policy::{action_writes, conflict_message, HostAssessment};
use crate::record::{InstallReceipt, InstalledAddon, TrackedSource, TrackedSourceRole};
use crate::reshade::{merge_strategy_is, MergeStrategy};
use crate::types::{DlssFixIniTweaks, HostKind, ReshadeChannel, ReshadeIniTweaks};

verus! {

/// One file operation of an install plan, relative to its folder.
#[derive(Clone, Debug)]
pub enum FileOp {
    /// Write a file, overwriting an existing one without backup.
    Replace {
        /// File name.
        name: String,
        /// Contents.
        bytes: Vec<u8>,
    },
    /// Write a new file.
    Create {
        /// File name.
        name: String,
        /// Contents.
        bytes: Vec<u8>,
    },
    /// Rewrite a text file in place, starting from `default` when it is missing.
    UpdateText {
        /// File name.
        name: String,
        /// Contents assumed for a missing file.
        default: String,
        /// The rewrite.
        strategy: MergeStrategy,
    },
    /// Delete a file.
    Remove {
        /// File name.
        name: String,
    },
}

/// Everything an install lays down, with payloads already fetched and verified.
#[derive(Clone, Debug)]
pub struct PreparedInstall {
    /// The game.
    pub game_id: String,
    /// How RenoDX hooks into the game.
    pub host_kind: HostKind,
    /// Proxy DLL file name of the ReShade host (empty for Vulkan).
    pub proxy_dll_name: String,
    /// Add-on file name.
    pub addon_file_name: String,
    /// Upstream URL of the add-on (empty for a file install).
    pub addon_source_url: String,
    /// Digest of the add-on bytes.
    pub source_digest: String,
    /// HTTP entity tag of the add-on download.
    pub source_etag: Option<String>,
    /// HTTP `Last-Modified` of the add-on download.
    pub source_last_modified: Option<String>,
    /// Add-on bytes.
    pub addon_bytes: Vec<u8>,
    /// ReShade host DLL bytes (empty when no host is installed).
    pub reshade_dll_bytes: Vec<u8>,
    /// Upstream URL of the ReShade host.
    pub reshade_source_url: String,
    /// HTTP entity tag of the host download.
    pub reshade_source_etag: Option<String>,
    /// HTTP `Last-Modified` of the host download.
    pub reshade_last_modified: Option<String>,
    /// Digest of the installed host DLL.
    pub reshade_digest: String,
    /// Channel of the recorded host.
    pub reshade_channel: Option<ReshadeChannel>,
    /// `ReShade.ini` tweaks the install requires.
    pub ini_tweaks: ReshadeIniTweaks,
}

// ---------------------------------------------------------------------------
// Specification
// ---------------------------------------------------------------------------

/// The configuration file ReShade reads.
pub open spec fn reshade_ini_name() -> Seq<char> {
    "ReShade.ini"@
}

/// Whether `op` writes `bytes` to `name`, replacing what is there.
pub open spec fn is_replace(op: FileOp, name: Seq<char>, bytes: Seq<u8>) -> bool {
    op matches FileOp::Replace { name: n, bytes: b } && n@ == name && b@ == bytes
}

/// Whether `e` is the tweaks `t` as they apply to a folder: a folder that
/// already carries the user's own effect assets keeps its add-ons enabled.
pub open spec fn effective_is(user_assets: bool, t: ReshadeIniTweaks, e: ReshadeIniTweaks) -> bool {
    &&& e.disabled_addons@ == if user_assets {
        Seq::<String>::empty()
    } else {
        t.disabled_addons@
    }
    &&& e.addon_path == t.addon_path
    &&& e.dlss_fix == t.dlss_fix
}

/// Whether tweaks set any key at all.
pub open spec fn writes_keys(t: ReshadeIniTweaks) -> bool {
    t.disabled_addons@.len() > 0 || t.addon_path is Some || t.dlss_fix is Some
}

/// Whether the effective tweaks of a folder set any key.
pub open spec fn effective_writes(user_assets: bool, t: ReshadeIniTweaks) -> bool {
    (!user_assets && t.disabled_addons@.len() > 0) || t.addon_path is Some || t.dlss_fix is Some
}

/// Whether `op` is the in-place `ReShade.ini` merge of the effective tweaks.
pub open spec fn is_ini_merge(op: FileOp, user_assets: bool, t: ReshadeIniTweaks) -> bool {
    op matches FileOp::UpdateText { name, default, strategy } && {
        &&& name@ == reshade_ini_name()
        &&& default@.len() == 0
        &&& exists|e: ReshadeIniTweaks| #[trigger]
            effective_is(user_assets, t, e) && merge_strategy_is(e, strategy)
    }
}

/// The optional `ReShade.ini` operation of a folder.
pub open spec fn ini_op_is(user_assets: bool, t: ReshadeIniTweaks, r: Option<FileOp>) -> bool {
    if effective_writes(user_assets, t) {
        r matches Some(op) && is_ini_merge(op, user_assets, t)
    } else {
        r is None
    }
}

// ---------------------------------------------------------------------------
// Implementation
// ---------------------------------------------------------------------------

/// A copy of a byte buffer.
pub fn copy_bytes(v: &Vec<u8>) -> (r: Vec<u8>)
    ensures
        r@ == v@,
{
    let c = v.clone();
    assert(c@ =~= v@);
    c
}

impl DlssFixIniTweaks {
    /// An exact copy.
    pub fn duplicate(&self) -> (r: Self)
        ensures
            r == *self,
    {
        DlssFixIniTweaks {
            addon_file_name: self.addon_file_name.clone(),
            dlss_path: self.dlss_path.clone(),
            streamline_path: self.streamline_path.clone(),
        }
    }
}

/// The tweaks as they apply to a folder: the default add-on disabling is
/// dropped where the user already keeps effect assets.
pub fn effective_ini_tweaks(has_user_effect_assets: bool, tweaks: &ReshadeIniTweaks) -> (r:
    ReshadeIniTweaks)
    ensures
        effective_is(has_user_effect_assets, *tweaks, r),
{
    let disabled_addons = if has_user_effect_assets {
        Vec::new()
    } else {
        crate::text::clone_strings(&tweaks.disabled_addons)
    };
    let dlss_fix = match &tweaks.dlss_fix {
        Some(d) => Some(d.duplicate()),
        None => None,
    };
    ReshadeIniTweaks {
        disabled_addons,
        addon_path: crate::text::clone_opt(&tweaks.addon_path),
        dlss_fix,
    }
}

/// Whether the tweaks set any `ReShade.ini` key.
pub fn ini_tweaks_write_keys(tweaks: &ReshadeIniTweaks) -> (r: bool)
    ensures
        r == writes_keys(*tweaks),
{
    tweaks.disabled_addons.len() > 0 || tweaks.addon_path.is_some() || tweaks.dlss_fix.is_some()
}

/// The `ReShade.ini` merge of a folder, when its effective tweaks set any key.
pub fn ini_op_for_game(has_user_effect_assets: bool, tweaks: &ReshadeIniTweaks) -> (r: Option<
    FileOp,
>)
    ensures
        ini_op_is(has_user_effect_assets, *tweaks, r),
{
    let effective = effective_ini_tweaks(has_user_effect_assets, tweaks);
    if !ini_tweaks_write_keys(&effective) {
        return None;
    }
    let strategy = crate::reshade::ini_merge_strategy(&effective);
    assert(effective_is(has_user_effect_assets, *tweaks, effective) && merge_strategy_is(
        effective,
        strategy,
    ));
    Some(
        FileOp::UpdateText {
            name: String::from_str("ReShade.ini"),
            default: String::new(),
            strategy,
        },
    )
}

/// The add-on file operation.
pub fn addon_op(prepared: &PreparedInstall) -> (r: FileOp)
    ensures
        is_replace(r, prepared.addon_file_name@, prepared.addon_bytes@),
{
    FileOp::Replace {
        name: prepared.addon_file_name.clone(),
        bytes: copy_bytes(&prepared.addon_bytes),
    }
}

/// The ReShade host DLL operation.
pub fn host_op(prepared: &PreparedInstall) -> (r: FileOp)
    ensures
        is_replace(r, prepared.proxy_dll_name@, prepared.reshade_dll_bytes@),
{
    FileOp::Replace {
        name: prepared.proxy_dll_name.clone(),
        bytes: copy_bytes(&prepared.reshade_dll_bytes),
    }
}

/// The single plan of a folder that holds both the add-on and the host: the
/// add-on, the host when it is written, and the `ReShade.ini` merge when it
/// sets anything.
pub fn combined_ops(has_user_effect_assets: bool, prepared: &PreparedInstall, writes_host: bool) -> (r:
    Vec<FileOp>)
    ensures
        r@.len() == 1 + (if writes_host {
            1int
        } else {
            0int
        }) + (if effective_writes(has_user_effect_assets, prepared.ini_tweaks) {
            1int
        } else {
            0int
        }),
        is_replace(r@[0], prepared.addon_file_name@, prepared.addon_bytes@),
        writes_host ==> is_replace(r@[1], prepared.proxy_dll_name@, prepared.reshade_dll_bytes@),
        effective_writes(has_user_effect_assets, prepared.ini_tweaks) ==> is_ini_merge(
            r@[r@.len() - 1],
            has_user_effect_assets,
            prepared.ini_tweaks,
        ),
{
    let mut ops: Vec<FileOp> = Vec::new();
    ops.push(addon_op(prepared));
    if writes_host {
        ops.push(host_op(prepared));
    }
    if let Some(ini) = ini_op_for_game(has_user_effect_assets, &prepared.ini_tweaks) {
        ops.push(ini);
    }
    ops
}

/// The host-folder plan of an install whose add-on lives elsewhere: the host
/// when it is written, and the `ReShade.ini` merge when it sets anything.
pub fn host_ops(has_user_effect_assets: bool, prepared: &PreparedInstall, writes_host: bool) -> (r:
    Vec<FileOp>)
    ensures
        r@.len() == (if writes_host {
            1int
        } else {
            0int
        }) + (if effective_writes(has_user_effect_assets, prepared.ini_tweaks) {
            1int
        } else {
            0int
        }),
        writes_host ==> is_replace(r@[0], prepared.proxy_dll_name@, prepared.reshade_dll_bytes@),
        effective_writes(has_user_effect_assets, prepared.ini_tweaks) ==> is_ini_merge(
            r@[r@.len() - 1],
            has_user_effect_assets,
            prepared.ini_tweaks,
        ),
{
    let mut ops: Vec<FileOp> = Vec::new();
    if writes_host {
        ops.push(host_op(prepared));
    }
    if let Some(ini) = ini_op_for_game(has_user_effect_assets, &prepared.ini_tweaks) {
        ops.push(ini);
    }
    ops
}

/// The per-game plan of a Vulkan install: the add-on and the `ReShade.ini`
/// merge; the shared layer is installed separately.
pub fn vulkan_ops(has_user_effect_assets: bool, prepared: &PreparedInstall) -> (r: Vec<FileOp>)
    ensures
        r@.len() == 1 + (if effective_writes(has_user_effect_assets, prepared.ini_tweaks) {
            1int
        } else {
            0int
        }),
        is_replace(r@[0], prepared.addon_file_name@, prepared.addon_bytes@),
        effective_writes(has_user_effect_assets, prepared.ini_tweaks) ==> is_ini_merge(
            r@[1],
            has_user_effect_assets,
            prepared.ini_tweaks,
        ),
{
    let mut ops: Vec<FileOp> = Vec::new();
    ops.push(addon_op(prepared));
    if let Some(ini) = ini_op_for_game(has_user_effect_assets, &prepared.ini_tweaks) {
        ops.push(ini);
    }
    ops
}

/// The receipts of two plans as one: created files, then backed-up files, in
/// order.
pub fn merge_receipts(left: InstallReceipt, right: InstallReceipt) -> (r: InstallReceipt)
    ensures
        r.created_files@ == left.created_files@ + right.created_files@,
        r.backed_up_files@ == left.backed_up_files@ + right.backed_up_files@,
{
    let mut left = left;
    let mut right = right;
    left.created_files.append(&mut right.created_files);
    left.backed_up_files.append(&mut right.backed_up_files);
    left
}

/// Refuses a proxy install into an ambiguous folder, or one that must write a
/// host without the host's bytes.
pub fn check_proxy_install(host: &HostAssessment, prepared: &PreparedInstall) -> (r: Result<
    (),
    ServiceError,
>)
    ensures
        match host.conflict_kind {
            Some(kind) => r matches Err(e) && invalid_with(
                e,
                conflict_message(kind, prepared.proxy_dll_name@),
            ),
            None => if !host.conflict && action_writes(host.action)
                && prepared.reshade_dll_bytes@.len() == 0 {
                r matches Err(e) && invalid_with(
                    e,
                    "the active ReShade host needs installation or repair, but no ReShade bytes were provided"@,
                )
            } else {
                r is Ok
            },
        },
{
    match host.ensure_not_conflicting(prepared.proxy_dll_name.as_str()) {
        Ok(()) => {},
        Err(e) => {
            return Err(e);
        },
    }
    if host.writes_host() && prepared.reshade_dll_bytes.len() == 0 {
        return Err(
            crate::errors::invalid(
                "the active ReShade host needs installation or repair, but no ReShade bytes were provided",
            ),
        );
    }
    Ok(())
}

/// The add-on source a record tracks: none for a file install that has neither
/// an upstream URL nor a `Last-Modified` placeholder.
pub open spec fn addon_source_is(p: PreparedInstall, r: Option<TrackedSource>) -> bool {
    if p.addon_source_url@.len() == 0 && p.source_last_modified is None {
        r is None
    } else {
        r matches Some(s) && {
            &&& s.role == TrackedSourceRole::Addon
            &&& s.url@ == p.addon_source_url@
            &&& s.etag == p.source_etag
            &&& s.digest@ == p.source_digest@
            &&& s.last_modified == p.source_last_modified
            &&& s.channel is None
        }
    }
}

/// The upstream add-on entry to track for updates, if any.
pub fn addon_tracked_source(prepared: &PreparedInstall) -> (r: Option<TrackedSource>)
    ensures
        addon_source_is(*prepared, r),
{
    if prepared.addon_source_url.unicode_len() == 0 && prepared.source_last_modified.is_none() {
        return None;
    }
    Some(
        TrackedSource {
            role: TrackedSourceRole::Addon,
            url: prepared.addon_source_url.clone(),
            etag: crate::text::clone_opt(&prepared.source_etag),
            digest: prepared.source_digest.clone(),
            last_modified: crate::text::clone_opt(&prepared.source_last_modified),
            channel: None,
        },
    )
}

/// Whether `s` records the host an install wrote, with its channel.
pub open spec fn host_source_is(p: PreparedInstall, s: TrackedSource) -> bool {
    &&& s.role == TrackedSourceRole::Host
    &&& s.url@ == p.reshade_source_url@
    &&& s.etag == p.reshade_source_etag
    &&& s.digest@ == p.reshade_digest@
    &&& s.last_modified == p.reshade_last_modified
    &&& match p.reshade_channel {
        Some(c) => s.channel matches Some(x) && x@ == crate::types::reshade_channel_key(c),
        None => s.channel is None,
    }
}

/// The sources a proxy install's record tracks: the add-on (when it has an
/// upstream) and the host when this install wrote it; a reused host records none.
pub fn record_sources(prepared: &PreparedInstall, tracks_host: bool) -> (r: Vec<TrackedSource>)
    ensures
        ({
            let a: int = if addon_source_is(*prepared, None) {
                0
            } else {
                1
            };
            &&& r@.len() == a + if tracks_host {
                1int
            } else {
                0int
            }
            &&& a == 1 ==> addon_source_is(*prepared, Some(r@[0]))
            &&& tracks_host ==> host_source_is(*prepared, r@[a])
        }),
{
    let mut sources: Vec<TrackedSource> = Vec::new();
    match addon_tracked_source(prepared) {
        Some(s) => sources.push(s),
        None => {},
    }
    if tracks_host {
        let channel = match prepared.reshade_channel {
            Some(c) => Some(String::from_str(c.as_str())),
            None => None,
        };
        sources.push(
            TrackedSource {
                role: TrackedSourceRole::Host,
                url: prepared.reshade_source_url.clone(),
                etag: crate::text::clone_opt(&prepared.reshade_source_etag),
                digest: prepared.reshade_digest.clone(),
                last_modified: crate::text::clone_opt(&prepared.reshade_last_modified),
                channel,
            },
        );
    }
    sources
}

/// Whether a created file is the DLSS-Fix companion: its name starts with
/// `renodx-dlssfix.`.
pub open spec fn is_dlss_fix_file(p: Seq<char>) -> bool {
    crate::text::starts_with(crate::dlss_fix::file_name_of(p), "renodx-dlssfix."@)
}

/// Index of the first DLSS-Fix file at or after `i`.
pub open spec fn first_dlss_fix(files: Seq<String>, i: int) -> Option<int>
    decreases files.len() - i,
{
    if i < 0 || i >= files.len() {
        None
    } else if is_dlss_fix_file(files[i]@) {
        Some(i)
    } else {
        first_dlss_fix(files, i + 1)
    }
}

/// The path of the DLSS-Fix companion among a record's created files.
pub fn dlss_fix_file_path(record: &InstalledAddon) -> (r: Option<String>)
    ensures
        match first_dlss_fix(record.created_files@, 0) {
            Some(i) => r matches Some(p) && p@ == record.created_files@[i]@,
            None => r is None,
        },
{
    let files = &record.created_files;
    let n = files.len();
    let mut i: usize = 0;
    while i < n
        invariant
            n == files@.len(),
            files@ == record.created_files@,
            i <= n,
            first_dlss_fix(files@, 0) == first_dlss_fix(files@, i as int),
        decreases n - i,
    {
        let name = crate::dlss_fix::file_name(files[i].as_str());
        if crate::text::starts_with_exact(name, "renodx-dlssfix.") {
            assert(is_dlss_fix_file(files@[i as int]@));
            return Some(files[i].clone());
        }
        i = i + 1;
    }
    None
}

} // verus!
