//! The plan of an inactive RenoDX uninstall: every safe per-game file operation
//! for the current record, decided from the record and what was observed on disk.
//!
//! Created files are deleted and backups restored; `ReShade.ini` has its own
//! policy (removed when the install owns the whole stack, otherwise stripped of
//! RenoDX's keys) and its legacy backup is never restored. Managed proxy hosts
//! are released only when their bytes still match the persisted digest. A path
//! that is not a regular file is skipped rather than blocking the rest.
use vstd::prelude::*;

use crate::dlss_fix::file_name_of;
use crate::dlss_fix_binding::{same_lexical_path, same_path, DiskObservation};
use crate::errors::ServiceError;
use crate::peer_effects::{bytes_eq, FileIntent};
use crate::record::{InstalledAddon, ManagedAddonFile, ManagedFileBaseline, ManagedFileMode};
use crate::text::eq_ci;
use crate::uninstall::{any_same_path, claims, ini_file_name, ini_rewrite, opt_seq, planned_rewrite};
use crate::dlss_fix::is_named;
use crate::install_plan::copy_bytes;
use crate::text::str_eq;
use crate::vulkan::{sha256_hex, sha256_hex_of};

verus! {

/// One planned file operation of an uninstall.
#[derive(Clone, Debug, PartialEq, Eq)]
pub enum UninstallOperation {
    /// Delete a file the install created.
    RemoveCreated { path: String },
    /// Put the backup of a replaced file back.
    RestoreBackup { live: String, backup: String },
    /// Delete a managed host the install wrote where nothing stood before.
    RemoveManagedOwned { path: String, installed_sha256: String },
    /// Put the original file back over a managed host the install wrote.
    RestoreManagedOwned { live: String, backup: String, installed_sha256: String, baseline_sha256: String },
    /// Rewrite `ReShade.ini`, provided it still holds `expected_before`.
    RewriteIni { path: String, expected_before: Vec<u8>, bytes: Vec<u8> },
    /// Delete the `ReShade.ini` the install created.
    RemoveIni { path: String },
}

/// What reading one exact path found.
#[derive(Clone, Debug)]
pub enum FileRead {
    /// Nothing is there.
    Missing,
    /// A directory, link or other non-regular entry.
    NotRegular,
    /// The read failed, with this reason.
    Failed(String),
    /// A regular file with these bytes.
    Bytes(Vec<u8>),
}

/// The recorded files an uninstall acts on, before the disk is consulted.
#[derive(Clone, Debug)]
pub struct UninstallCandidates {
    /// Created files to delete: all but `ReShade.ini` and those also backed up.
    pub remove_created: Vec<String>,
    /// Backed-up files to restore: all but `ReShade.ini`.
    pub restore_backed_up: Vec<String>,
    /// The first `ReShade.ini` among the created files.
    pub ini_created: Option<String>,
    /// The first `ReShade.ini` among the backed-up files.
    pub ini_backed_up: Option<String>,
}

/// What was observed of one backed-up file.
#[derive(Clone, Debug)]
pub struct RestoreFacts {
    /// Its backup sidecar, when that path can be derived.
    pub backup: Option<String>,
    /// The live file.
    pub live: DiskObservation,
    /// The sidecar.
    pub sidecar: DiskObservation,
}

/// What was observed of one managed file.
#[derive(Debug)]
pub struct ManagedFacts {
    /// Its file name is one of the proxy slots ReShade can occupy.
    pub proxy_slot: bool,
    /// The live file.
    pub live: FileRead,
    /// Its baseline sidecar path, or why it cannot be derived.
    pub sidecar_path: Result<String, String>,
    /// The sidecar.
    pub sidecar: FileRead,
}

/// What was observed of the `ReShade.ini` the uninstall handles.
#[derive(Clone, Debug)]
pub struct IniFacts {
    /// The file.
    pub observation: DiskObservation,
    /// Its bytes, when it is a regular file that could be read.
    pub bytes: Option<Vec<u8>>,
    /// The record's configuration receipt, when it has one.
    pub receipt: Option<ConfigReceiptFacts>,
}

/// The configuration receipt an install left for the `ReShade.ini` it edited.
#[derive(Clone, Debug)]
pub struct ConfigReceiptFacts {
    /// The `ReShade.ini` the receipt was written for.
    pub ini_path: String,
    /// The receipt's format is one this version can undo.
    pub supported: bool,
    /// The file's current bytes with the receipt's own keys taken out, when
    /// that removal could be planned.
    pub cleaned: Option<Vec<u8>>,
}

/// The bytes the receipt's cleanup gives for the `ReShade.ini` at `path`: only
/// a supported receipt written for that same file applies.
pub open spec fn owned_cleanup(path: Seq<char>, ini: IniFacts) -> Option<Seq<u8>> {
    match ini.receipt {
        Some(r) => if r.supported && same_path(r.ini_path@, path) {
            opt_seq(r.cleaned)
        } else {
            None
        },
        None => None,
    }
}

/// The receipt's cleanup of the `ReShade.ini` at `path`, when the record's
/// receipt is supported and was written for that file.
pub fn owned_receipt_cleanup(path: &str, ini: &IniFacts) -> (r: Option<Vec<u8>>)
    ensures
        opt_seq(r) == owned_cleanup(path@, *ini),
{
    match &ini.receipt {
        Some(receipt) => {
            if receipt.supported && same_lexical_path(receipt.ini_path.as_str(), path) {
                match &receipt.cleaned {
                    Some(bytes) => Some(copy_bytes(bytes)),
                    None => None,
                }
            } else {
                None
            }
        },
        None => None,
    }
}

/// Everything an uninstall plan is decided from besides the record.
#[derive(Debug)]
pub struct UninstallFacts {
    /// The observation of each created file to delete, in candidate order.
    pub created: Vec<DiskObservation>,
    /// The facts of each backed-up file to restore, in candidate order.
    pub restores: Vec<RestoreFacts>,
    /// The facts of each managed file, in record order.
    pub managed: Vec<ManagedFacts>,
    /// The record's host is the shared Vulkan layer or a proxy host this install
    /// wrote.
    pub host_owned: bool,
    /// The `ReShade.ini` found beside the host, the game or the add-on, used when
    /// the record tracks none.
    pub untracked_ini: Option<String>,
    /// The `ReShade.ini` the uninstall handles.
    pub ini: IniFacts,
}

/// How one managed file enters the plan.
pub enum ManagedStep {
    /// It needs no operation.
    Skip,
    /// It needs this operation.
    Op(UninstallOperation),
    /// The plan fails with this message.
    Fail(Seq<char>),
}

// ---------------------------------------------------------------------------
// Specification
// ---------------------------------------------------------------------------

/// Whether a recorded path is a `ReShade.ini`.
pub open spec fn is_ini(p: Seq<char>) -> bool {
    eq_ci(file_name_of(p), ini_file_name())
}

/// The first `ReShade.ini` at or after position `i`.
pub open spec fn first_ini(paths: Seq<String>, i: int) -> Option<int>
    decreases paths.len() - i,
{
    if i < 0 || i >= paths.len() {
        None
    } else if is_ini(paths[i]@) {
        Some(i)
    } else {
        first_ini(paths, i + 1)
    }
}

/// The path at an optional position.
pub open spec fn at(paths: Seq<String>, i: Option<int>) -> Option<String> {
    match i {
        Some(k) => Some(paths[k]),
        None => None,
    }
}

/// The first `k` created files to delete.
pub open spec fn removal_candidates(created: Seq<String>, backed: Seq<String>, k: int) -> Seq<String>
    decreases k,
{
    if k <= 0 || k > created.len() {
        Seq::empty()
    } else if !is_ini(created[k - 1]@) && !claims(backed, created[k - 1]@) {
        removal_candidates(created, backed, k - 1).push(created[k - 1])
    } else {
        removal_candidates(created, backed, k - 1)
    }
}

/// The first `k` backed-up files to restore.
pub open spec fn restore_candidates(backed: Seq<String>, k: int) -> Seq<String>
    decreases k,
{
    if k <= 0 || k > backed.len() {
        Seq::empty()
    } else if !is_ini(backed[k - 1]@) {
        restore_candidates(backed, k - 1).push(backed[k - 1])
    } else {
        restore_candidates(backed, k - 1)
    }
}

/// The candidates of a record.
pub open spec fn candidates_of(rec: InstalledAddon, c: UninstallCandidates) -> bool {
    &&& c.remove_created@ == removals_of(rec)
    &&& c.restore_backed_up@ == restores_of(rec)
    &&& c.ini_created == at(rec.created_files@, first_ini(rec.created_files@, 0))
    &&& c.ini_backed_up == at(rec.backed_up_files@, first_ini(rec.backed_up_files@, 0))
}

/// A path may be deleted: nothing or a regular file is there.
pub open spec fn permits_remove(o: DiskObservation) -> bool {
    o == DiskObservation::Missing || o == DiskObservation::Regular
}

/// A backup may be restored: the live path is empty or regular and the sidecar
/// is a regular file.
pub open spec fn permits_restore(live: DiskObservation, sidecar: DiskObservation) -> bool {
    permits_remove(live) && sidecar == DiskObservation::Regular
}

/// The first `k` deletions of created files.
pub open spec fn removal_ops(paths: Seq<String>, obs: Seq<DiskObservation>, k: int) -> Seq<UninstallOperation>
    decreases k,
{
    if k <= 0 || k > paths.len() {
        Seq::empty()
    } else if permits_remove(obs[k - 1]) {
        removal_ops(paths, obs, k - 1).push(UninstallOperation::RemoveCreated { path: paths[k - 1] })
    } else {
        removal_ops(paths, obs, k - 1)
    }
}

/// The first `k` backup restorations.
pub open spec fn restore_ops(paths: Seq<String>, facts: Seq<RestoreFacts>, k: int) -> Seq<UninstallOperation>
    decreases k,
{
    if k <= 0 || k > paths.len() {
        Seq::empty()
    } else {
        let f = facts[k - 1];
        match f.backup {
            Some(b) => if permits_restore(f.live, f.sidecar) {
                restore_ops(paths, facts, k - 1).push(
                    UninstallOperation::RestoreBackup { live: paths[k - 1], backup: b },
                )
            } else {
                restore_ops(paths, facts, k - 1)
            },
            None => restore_ops(paths, facts, k - 1),
        }
    }
}

/// The message of a path that is not a regular file.
pub open spec fn not_regular_message(path: Seq<char>) -> Seq<char> {
    "RenoDX uninstall participant is not a regular file: "@ + path
}

/// The message of a managed host whose bytes no longer match its digest.
pub open spec fn changed_message(path: Seq<char>) -> Seq<char> {
    "RenoDX managed host changed from its persisted receipt: "@ + path
}

/// What reading a regular file found: its bytes, nothing, or why it failed.
pub open spec fn regular_read(path: Seq<char>, read: FileRead) -> Result<Option<Seq<u8>>, Seq<char>> {
    match read {
        FileRead::Missing => Ok(None),
        FileRead::NotRegular => Err(not_regular_message(path)),
        FileRead::Failed(m) => Err(m@),
        FileRead::Bytes(b) => Ok(Some(b@)),
    }
}

/// What reading a managed file found, its bytes accepted only when they still
/// have the persisted digest.
pub open spec fn exact_read(path: Seq<char>, read: FileRead, sha: Seq<char>) -> Result<Option<Seq<u8>>, Seq<char>> {
    match regular_read(path, read) {
        Ok(Some(b)) => if sha256_hex_of(b) == sha {
            Ok(Some(b))
        } else {
            Err(changed_message(path))
        },
        other => other,
    }
}

/// How a managed file enters the plan.
pub open spec fn managed_step(f: ManagedAddonFile, m: ManagedFacts) -> ManagedStep {
    if f.mode == ManagedFileMode::Reused {
        ManagedStep::Skip
    } else if !m.proxy_slot {
        ManagedStep::Fail("RenoDX inactive uninstall cannot release a non-proxy managed file: "@ + f.path@)
    } else {
        match exact_read(f.path@, m.live, f.installed_sha256@) {
            Err(msg) => ManagedStep::Fail(msg),
            Ok(None) => if f.baseline is Absent {
                ManagedStep::Skip
            } else {
                ManagedStep::Fail(
                    "RenoDX managed host disappeared before its baseline could be restored: "@ + f.path@,
                )
            },
            Ok(Some(_)) => match f.baseline {
                ManagedFileBaseline::Absent => ManagedStep::Op(
                    UninstallOperation::RemoveManagedOwned { path: f.path, installed_sha256: f.installed_sha256 },
                ),
                ManagedFileBaseline::Present { sha256 } => match m.sidecar_path {
                    Err(e) => ManagedStep::Fail(
                        "RenoDX managed host has an invalid baseline sidecar path "@ + f.path@ + ": "@ + e@,
                    ),
                    Ok(bp) => match exact_read(bp@, m.sidecar, sha256@) {
                        Err(msg) => ManagedStep::Fail(msg),
                        Ok(None) => ManagedStep::Fail("RenoDX managed host baseline sidecar is missing: "@ + bp@),
                        Ok(Some(_)) => ManagedStep::Op(
                            UninstallOperation::RestoreManagedOwned {
                                live: f.path,
                                backup: bp,
                                installed_sha256: f.installed_sha256,
                                baseline_sha256: sha256,
                            },
                        ),
                    },
                },
            },
        }
    }
}

/// The operations of the first `k` managed files, or the message of the first
/// failing one.
pub open spec fn managed_plan(files: Seq<ManagedAddonFile>, facts: Seq<ManagedFacts>, k: int) -> Result<
    Seq<UninstallOperation>,
    Seq<char>,
>
    decreases k,
{
    if k <= 0 || k > files.len() {
        Ok(Seq::empty())
    } else {
        match managed_plan(files, facts, k - 1) {
            Err(m) => Err(m),
            Ok(ops) => match managed_step(files[k - 1], facts[k - 1]) {
                ManagedStep::Skip => Ok(ops),
                ManagedStep::Op(o) => Ok(ops.push(o)),
                ManagedStep::Fail(m) => Err(m),
            },
        }
    }
}

/// Some managed file is a proxy host the install wrote where nothing stood.
pub open spec fn writes_managed_host(files: Seq<ManagedAddonFile>, facts: Seq<ManagedFacts>) -> bool {
    exists|i: int|
        0 <= i < files.len() && (#[trigger] files[i]).mode == ManagedFileMode::Owned
            && files[i].baseline is Absent && facts[i].proxy_slot
}

/// The `ReShade.ini` operation of a rewrite at `path`.
pub open spec fn rewrite_ops(path: String, ini: IniFacts) -> Seq<UninstallOperation> {
    if ini.observation == DiskObservation::Regular && ini.bytes is Some {
        match planned_rewrite(ini.bytes.unwrap()@, owned_cleanup(path@, ini)) {
            Some(after) => seq![
                UninstallOperation::RewriteIni {
                    path,
                    expected_before: ini.bytes.unwrap(),
                    bytes: choose|v: Vec<u8>| v@ == after,
                },
            ],
            None => Seq::empty(),
        }
    } else {
        Seq::empty()
    }
}

/// The created files an uninstall deletes.
pub open spec fn removals_of(rec: InstalledAddon) -> Seq<String> {
    removal_candidates(rec.created_files@, rec.backed_up_files@, rec.created_files@.len() as int)
}

/// The backed-up files an uninstall restores.
pub open spec fn restores_of(rec: InstalledAddon) -> Seq<String> {
    restore_candidates(rec.backed_up_files@, rec.backed_up_files@.len() as int)
}

/// The `ReShade.ini` operations: the owned file is removed when the install owns
/// the whole stack and never backed it up, otherwise the tracked or untracked
/// file is stripped of RenoDX's keys.
pub open spec fn ini_ops(rec: InstalledAddon, facts: UninstallFacts) -> Seq<UninstallOperation> {
    let owns_stack = facts.host_owned || writes_managed_host(rec.managed_files@, facts.managed@);
    let in_created = at(rec.created_files@, first_ini(rec.created_files@, 0));
    let in_backed = at(rec.backed_up_files@, first_ini(rec.backed_up_files@, 0));
    let chosen = match in_created {
        Some(p) => Some(p),
        None => in_backed,
    };
    match chosen {
        Some(p) => if in_backed is None && owns_stack {
            if permits_remove(facts.ini.observation) {
                seq![UninstallOperation::RemoveIni { path: p }]
            } else {
                Seq::empty()
            }
        } else {
            rewrite_ops(p, facts.ini)
        },
        None => match facts.untracked_ini {
            Some(p) => rewrite_ops(p, facts.ini),
            None => Seq::empty(),
        },
    }
}

/// The operations an uninstall plans, or the message with which it fails.
pub open spec fn plan_of(rec: InstalledAddon, facts: UninstallFacts) -> Result<Seq<UninstallOperation>, Seq<char>> {
    match managed_plan(rec.managed_files@, facts.managed@, rec.managed_files@.len() as int) {
        Err(m) => Err(m),
        Ok(managed) => Ok(
            removal_ops(removals_of(rec), facts.created@, removals_of(rec).len() as int) + restore_ops(
                restores_of(rec),
                facts.restores@,
                restores_of(rec).len() as int,
            ) + managed + ini_ops(rec, facts),
        ),
    }
}

/// Two operations are the same, bytes compared by content.
pub open spec fn same_operation(a: UninstallOperation, b: UninstallOperation) -> bool {
    match a {
        UninstallOperation::RewriteIni { path: p1, expected_before: e1, bytes: b1 } => b matches UninstallOperation::RewriteIni {
            path: p2,
            expected_before: e2,
            bytes: b2,
        } && p1 == p2 && e1@ == e2@ && b1@ == b2@,
        _ => a == b,
    }
}

/// Two operation lists are the same, position by position.
pub open spec fn same_operations(a: Seq<UninstallOperation>, b: Seq<UninstallOperation>) -> bool {
    a.len() == b.len() && forall|i: int| 0 <= i < a.len() ==> same_operation(#[trigger] a[i], b[i])
}

// ---------------------------------------------------------------------------
// Candidates
// ---------------------------------------------------------------------------

fn is_ini_path(p: &str) -> (r: bool)
    ensures
        r == is_ini(p@),
{
    is_named(p, "ReShade.ini")
}

fn first_ini_path(paths: &Vec<String>) -> (r: Option<String>)
    ensures
        r == at(paths@, first_ini(paths@, 0)),
{
    let n = paths.len();
    let mut i: usize = 0;
    while i < n
        invariant
            n == paths@.len(),
            i <= n,
            first_ini(paths@, 0) == first_ini(paths@, i as int),
        decreases n - i,
    {
        if is_ini_path(paths[i].as_str()) {
            return Some(paths[i].clone());
        }
        i = i + 1;
    }
    None
}

/// The recorded files an uninstall acts on: the created files to delete, the
/// backups to restore and the tracked `ReShade.ini`.
pub fn uninstall_candidates(record: &InstalledAddon) -> (r: UninstallCandidates)
    ensures
        candidates_of(*record, r),
{
    let created = &record.created_files;
    let backed = &record.backed_up_files;
    let n = created.len();
    let mut remove_created: Vec<String> = Vec::new();
    let mut i: usize = 0;
    while i < n
        invariant
            n == created@.len(),
            created == &record.created_files,
            backed == &record.backed_up_files,
            i <= n,
            remove_created@ == removal_candidates(created@, backed@, i as int),
        decreases n - i,
    {
        if !is_ini_path(created[i].as_str()) && !any_same_path(backed, created[i].as_str()) {
            remove_created.push(created[i].clone());
        }
        i = i + 1;
    }
    let m = backed.len();
    let mut restore_backed_up: Vec<String> = Vec::new();
    let mut j: usize = 0;
    while j < m
        invariant
            m == backed@.len(),
            backed == &record.backed_up_files,
            j <= m,
            restore_backed_up@ == restore_candidates(backed@, j as int),
        decreases m - j,
    {
        if !is_ini_path(backed[j].as_str()) {
            restore_backed_up.push(backed[j].clone());
        }
        j = j + 1;
    }
    UninstallCandidates {
        remove_created,
        restore_backed_up,
        ini_created: first_ini_path(created),
        ini_backed_up: first_ini_path(backed),
    }
}

// ---------------------------------------------------------------------------
// Reading what was observed
// ---------------------------------------------------------------------------

/// `r` carries the outcome `s` of a read.
pub open spec fn read_is(r: Result<Option<Vec<u8>>, ServiceError>, s: Result<Option<Seq<u8>>, Seq<char>>) -> bool {
    match s {
        Ok(o) => r matches Ok(x) && opt_seq(x) == o,
        Err(m) => r matches Err(ServiceError::Failed(x)) && x@ == m,
    }
}

fn message(prefix: &str, path: &str) -> (r: String)
    ensures
        r@ == prefix@ + path@,
{
    String::from_str(prefix).concat(path)
}

fn failure(prefix: &str, path: &str) -> (r: ServiceError)
    ensures
        r matches ServiceError::Failed(x) && x@ == prefix@ + path@,
{
    ServiceError::Failed(message(prefix, path))
}

/// The bytes of a regular file as read: `None` when nothing is there; an error
/// for a non-regular entry or a failed read.
pub fn read_regular(path: &str, read: &FileRead) -> (r: Result<Option<Vec<u8>>, ServiceError>)
    ensures
        read_is(r, regular_read(path@, *read)),
{
    match read {
        FileRead::Missing => Ok(None),
        FileRead::NotRegular => Err(failure("RenoDX uninstall participant is not a regular file: ", path)),
        FileRead::Failed(m) => Err(ServiceError::Failed(m.clone())),
        FileRead::Bytes(b) => Ok(Some(copy_bytes(b))),
    }
}

/// The bytes of a managed file as read, accepted only when they still have the
/// persisted digest `sha256`.
pub fn read_exact_managed(path: &str, read: &FileRead, sha256: &str) -> (r: Result<Option<Vec<u8>>, ServiceError>)
    ensures
        read_is(r, exact_read(path@, *read, sha256@)),
{
    match read_regular(path, read) {
        Err(e) => Err(e),
        Ok(None) => Ok(None),
        Ok(Some(bytes)) => {
            let digest = sha256_hex(bytes.as_slice());
            if str_eq(digest.as_str(), sha256) {
                Ok(Some(bytes))
            } else {
                Err(failure("RenoDX managed host changed from its persisted receipt: ", path))
            }
        },
    }
}

// ---------------------------------------------------------------------------
// Planning
// ---------------------------------------------------------------------------

/// `r` is the outcome of the managed step `step`.
pub open spec fn step_result(step: ManagedStep, r: Result<Option<UninstallOperation>, ServiceError>) -> bool {
    match step {
        ManagedStep::Skip => r matches Ok(None),
        ManagedStep::Op(o) => r matches Ok(Some(x)) && x == o,
        ManagedStep::Fail(m) => r matches Err(ServiceError::Failed(x)) && x@ == m,
    }
}

/// How one managed file enters the plan: reused files and already absent
/// owned hosts need nothing; an owned host still holding its persisted bytes is
/// removed, or its original restored from the sidecar.
pub fn managed_operation(file: &ManagedAddonFile, facts: &ManagedFacts) -> (r: Result<
    Option<UninstallOperation>,
    ServiceError,
>)
    ensures
        step_result(managed_step(*file, *facts), r),
{
    if file.mode == ManagedFileMode::Reused {
        return Ok(None);
    }
    if !facts.proxy_slot {
        return Err(
            failure("RenoDX inactive uninstall cannot release a non-proxy managed file: ", file.path.as_str()),
        );
    }
    let live = match read_exact_managed(file.path.as_str(), &facts.live, file.installed_sha256.as_str()) {
        Err(e) => {
            return Err(e);
        },
        Ok(o) => o,
    };
    if live.is_none() {
        return match &file.baseline {
            ManagedFileBaseline::Absent => Ok(None),
            ManagedFileBaseline::Present { .. } => Err(
                failure(
                    "RenoDX managed host disappeared before its baseline could be restored: ",
                    file.path.as_str(),
                ),
            ),
        };
    }
    match &file.baseline {
        ManagedFileBaseline::Absent => Ok(
            Some(
                UninstallOperation::RemoveManagedOwned {
                    path: file.path.clone(),
                    installed_sha256: file.installed_sha256.clone(),
                },
            ),
        ),
        ManagedFileBaseline::Present { sha256 } => {
            let backup = match &facts.sidecar_path {
                Err(e) => {
                    let msg = String::from_str("RenoDX managed host has an invalid baseline sidecar path ").concat(
                        file.path.as_str(),
                    ).concat(": ").concat(e.as_str());
                    return Err(ServiceError::Failed(msg));
                },
                Ok(bp) => bp,
            };
            match read_exact_managed(backup.as_str(), &facts.sidecar, sha256.as_str()) {
                Err(e) => Err(e),
                Ok(None) => Err(failure("RenoDX managed host baseline sidecar is missing: ", backup.as_str())),
                Ok(Some(_)) => Ok(
                    Some(
                        UninstallOperation::RestoreManagedOwned {
                            live: file.path.clone(),
                            backup: backup.clone(),
                            installed_sha256: file.installed_sha256.clone(),
                            baseline_sha256: sha256.clone(),
                        },
                    ),
                ),
            }
        },
    }
}

/// The rewrite of the `ReShade.ini` at `path`, when it is a regular file whose
/// stripped contents differ.
pub fn rewrite_operation(path: &String, ini: &IniFacts) -> (r: Vec<UninstallOperation>)
    ensures
        same_operations(r@, rewrite_ops(*path, *ini)),
{
    let mut out: Vec<UninstallOperation> = Vec::new();
    if ini.observation == DiskObservation::Regular {
        if let Some(bytes) = &ini.bytes {
            let cleaned = owned_receipt_cleanup(path.as_str(), ini);
            if let Some(after) = ini_rewrite(bytes.as_slice(), &cleaned) {
                proof {
                    let ghost target = after@;
                    assert(exists|v: Vec<u8>| v@ == target);
                }
                out.push(
                    UninstallOperation::RewriteIni {
                        path: path.clone(),
                        expected_before: copy_bytes(bytes),
                        bytes: after,
                    },
                );
            }
        }
    }
    out
}

proof fn lemma_same_operations_append(
    a: Seq<UninstallOperation>,
    b: Seq<UninstallOperation>,
    c: Seq<UninstallOperation>,
    d: Seq<UninstallOperation>,
)
    requires
        same_operations(a, b),
        same_operations(c, d),
    ensures
        same_operations(a + c, b + d),
{
    assert forall|i: int| 0 <= i < (a + c).len() implies same_operation(#[trigger] (a + c)[i], (b + d)[i]) by {
        if i < a.len() {
            assert((a + c)[i] == a[i] && (b + d)[i] == b[i]);
        } else {
            assert((a + c)[i] == c[i - a.len()] && (b + d)[i] == d[i - a.len()]);
        }
    }
}

proof fn lemma_same_operations_refl(a: Seq<UninstallOperation>)
    ensures
        same_operations(a, a),
{
    assert forall|i: int| 0 <= i < a.len() implies same_operation(#[trigger] a[i], a[i]) by {
        match a[i] {
            UninstallOperation::RewriteIni { .. } => {},
            _ => {},
        }
    }
}

/// Whether some managed file is a proxy host the install wrote where nothing
/// stood.
fn any_written_managed_host(files: &Vec<ManagedAddonFile>, facts: &Vec<ManagedFacts>) -> (r: bool)
    requires
        facts@.len() == files@.len(),
    ensures
        r == writes_managed_host(files@, facts@),
{
    let n = files.len();
    let mut i: usize = 0;
    while i < n
        invariant
            n == files@.len(),
            n == facts@.len(),
            i <= n,
            forall|j: int|
                0 <= j < i ==> !((#[trigger] files@[j]).mode == ManagedFileMode::Owned && files@[j].baseline is Absent
                    && facts@[j].proxy_slot),
        decreases n - i,
    {
        let absent = match &files[i].baseline {
            ManagedFileBaseline::Absent => true,
            ManagedFileBaseline::Present { .. } => false,
        };
        if files[i].mode == ManagedFileMode::Owned && absent && facts[i].proxy_slot {
            return true;
        }
        i = i + 1;
    }
    false
}

/// Plans every safe per-game operation of an inactive uninstall: the created
/// files whose paths are empty or regular are deleted, backups whose sidecar is a
/// regular file are restored, managed hosts released, and `ReShade.ini` removed or
/// stripped; a managed host that drifted from its persisted digest fails the
/// plan. `facts` holds what was observed of the candidates of
/// `uninstall_candidates`, in order.
pub fn plan_uninstall(record: &InstalledAddon, facts: &UninstallFacts) -> (r: Result<
    Vec<UninstallOperation>,
    ServiceError,
>)
    requires
        facts.created@.len() == removals_of(*record).len(),
        facts.restores@.len() == restores_of(*record).len(),
        facts.managed@.len() == record.managed_files@.len(),
    ensures
        match plan_of(*record, *facts) {
            Ok(ops) => r matches Ok(v) && same_operations(v@, ops),
            Err(m) => r matches Err(ServiceError::Failed(x)) && x@ == m,
        },
{
    let candidates = uninstall_candidates(record);
    let mut operations: Vec<UninstallOperation> = Vec::new();
    // Created files.
    let n = candidates.remove_created.len();
    let mut i: usize = 0;
    while i < n
        invariant
            n == candidates.remove_created@.len(),
            candidates.remove_created@ == removals_of(*record),
            facts.created@.len() == n,
            i <= n,
            operations@ == removal_ops(candidates.remove_created@, facts.created@, i as int),
        decreases n - i,
    {
        let o = facts.created[i];
        if o == DiskObservation::Missing || o == DiskObservation::Regular {
            operations.push(UninstallOperation::RemoveCreated { path: candidates.remove_created[i].clone() });
        }
        i = i + 1;
    }
    let ghost removals = operations@;
    // Backups.
    let m = candidates.restore_backed_up.len();
    let mut j: usize = 0;
    while j < m
        invariant
            m == candidates.restore_backed_up@.len(),
            candidates.restore_backed_up@ == restores_of(*record),
            facts.restores@.len() == m,
            j <= m,
            operations@ == removals + restore_ops(candidates.restore_backed_up@, facts.restores@, j as int),
        decreases m - j,
    {
        let f = &facts.restores[j];
        if let Some(backup) = &f.backup {
            let live_safe = f.live == DiskObservation::Missing || f.live == DiskObservation::Regular;
            if live_safe && f.sidecar == DiskObservation::Regular {
                operations.push(
                    UninstallOperation::RestoreBackup {
                        live: candidates.restore_backed_up[j].clone(),
                        backup: backup.clone(),
                    },
                );
                proof {
                    assert(operations@ =~= removals + restore_ops(
                        candidates.restore_backed_up@,
                        facts.restores@,
                        j + 1,
                    ));
                }
            }
        }
        j = j + 1;
    }
    let ghost before_managed = operations@;
    // Managed files.
    let files = &record.managed_files;
    let k = files.len();
    let mut t: usize = 0;
    while t < k
        invariant
            k == files@.len(),
            files == &record.managed_files,
            facts.managed@.len() == k,
            t <= k,
            managed_plan(files@, facts.managed@, t as int) matches Ok(ms) && operations@ == before_managed + ms,
        decreases k - t,
    {
        let ghost prior = operations@;
        match managed_operation(&files[t], &facts.managed[t]) {
            Err(e) => {
                proof {
                    lemma_managed_plan_stops(files@, facts.managed@, t as int + 1, k as int);
                }
                return Err(e);
            },
            Ok(None) => {},
            Ok(Some(op)) => {
                operations.push(op);
            },
        }
        proof {
            if let Ok(next) = managed_plan(files@, facts.managed@, t + 1) {
                assert(operations@ =~= before_managed + next);
            }
        }
        t = t + 1;
    }
    let ghost through_managed = operations@;
    // ReShade.ini.
    let owns_stack = facts.host_owned || any_written_managed_host(files, &facts.managed);
    let chosen: Option<&String> = match &candidates.ini_created {
        Some(p) => Some(p),
        None => match &candidates.ini_backed_up {
            Some(p) => Some(p),
            None => None,
        },
    };
    let mut ini_ops_vec: Vec<UninstallOperation> = Vec::new();
    match chosen {
        Some(p) => {
            if candidates.ini_backed_up.is_none() && owns_stack {
                let o = facts.ini.observation;
                if o == DiskObservation::Missing || o == DiskObservation::Regular {
                    ini_ops_vec.push(UninstallOperation::RemoveIni { path: p.clone() });
                }
                proof {
                    lemma_same_operations_refl(ini_ops_vec@);
                }
            } else {
                ini_ops_vec = rewrite_operation(p, &facts.ini);
            }
        },
        None => {
            match &facts.untracked_ini {
                Some(p) => {
                    ini_ops_vec = rewrite_operation(p, &facts.ini);
                },
                None => {
                    proof {
                        lemma_same_operations_refl(ini_ops_vec@);
                    }
                },
            }
        },
    }
    let ghost ini_part = ini_ops_vec@;
    assert(same_operations(ini_part, ini_ops(*record, *facts)));
    operations.append(&mut ini_ops_vec);
    proof {
        lemma_same_operations_refl(through_managed);
        lemma_same_operations_append(through_managed, through_managed, ini_part, ini_ops(*record, *facts));
        assert(operations@ =~= through_managed + ini_part);
    }
    Ok(operations)
}

proof fn lemma_managed_plan_stops(files: Seq<ManagedAddonFile>, facts: Seq<ManagedFacts>, j: int, k: int)
    requires
        0 < j <= k <= files.len(),
        managed_plan(files, facts, j) is Err,
    ensures
        managed_plan(files, facts, k) == managed_plan(files, facts, j),
    decreases k - j,
{
    if j < k {
        lemma_managed_plan_stops(files, facts, j, k - 1);
    }
}

// ---------------------------------------------------------------------------
// File intents and the checks before applying
// ---------------------------------------------------------------------------

/// A file change as path, bytes before and bytes after.
pub open spec fn intent_view(i: FileIntent) -> (Seq<char>, Option<Seq<u8>>, Option<Seq<u8>>) {
    (i.live_path@, opt_seq(i.before), opt_seq(i.after))
}

/// The file changes of one operation, from fresh reads of its live path and its
/// sidecar, or the message with which composing them fails.
pub open spec fn intents_of(op: UninstallOperation, live: FileRead, backup: FileRead) -> Result<
    Seq<(Seq<char>, Option<Seq<u8>>, Option<Seq<u8>>)>,
    Seq<char>,
> {
    match op {
        UninstallOperation::RemoveCreated { path } => match regular_read(path@, live) {
            Err(m) => Err(m),
            Ok(b) => Ok(seq![(path@, b, None)]),
        },
        UninstallOperation::RemoveIni { path } => match regular_read(path@, live) {
            Err(m) => Err(m),
            Ok(b) => Ok(seq![(path@, b, None)]),
        },
        UninstallOperation::RestoreBackup { live: l, backup: bk } => match regular_read(l@, live) {
            Err(m) => Err(m),
            Ok(before) => match regular_read(bk@, backup) {
                Err(m) => Err(m),
                Ok(None) => Err("RenoDX uninstall backup disappeared before composition: "@ + bk@),
                Ok(Some(x)) => Ok(seq![(l@, before, Some(x)), (bk@, Some(x), None)]),
            },
        },
        UninstallOperation::RemoveManagedOwned { path, installed_sha256 } => match exact_read(
            path@,
            live,
            installed_sha256@,
        ) {
            Err(m) => Err(m),
            Ok(None) => Err("RenoDX managed host disappeared before composition: "@ + path@),
            Ok(Some(b)) => Ok(seq![(path@, Some(b), None)]),
        },
        UninstallOperation::RestoreManagedOwned { live: l, backup: bk, installed_sha256, baseline_sha256 } => {
            match exact_read(l@, live, installed_sha256@) {
                Err(m) => Err(m),
                Ok(None) => Err("RenoDX managed host disappeared before composition: "@ + l@),
                Ok(Some(before)) => match exact_read(bk@, backup, baseline_sha256@) {
                    Err(m) => Err(m),
                    Ok(None) => Err(
                        "RenoDX managed host baseline sidecar disappeared before composition: "@ + bk@,
                    ),
                    Ok(Some(x)) => Ok(seq![(l@, Some(before), Some(x)), (bk@, Some(x), None)]),
                },
            }
        },
        UninstallOperation::RewriteIni { path, expected_before, bytes } => Ok(
            seq![(path@, Some(expected_before@), Some(bytes@))],
        ),
    }
}

/// `r` carries the file changes `s`.
pub open spec fn intents_are(
    r: Result<Vec<FileIntent>, ServiceError>,
    s: Result<Seq<(Seq<char>, Option<Seq<u8>>, Option<Seq<u8>>)>, Seq<char>>,
) -> bool {
    match s {
        Ok(v) => r matches Ok(x) && x@.len() == v.len() && forall|i: int|
            0 <= i < v.len() ==> intent_view(#[trigger] x@[i]) == v[i],
        Err(m) => r matches Err(ServiceError::Failed(x)) && x@ == m,
    }
}

fn intent(path: &String, before: Option<Vec<u8>>, after: Option<Vec<u8>>) -> (r: FileIntent)
    ensures
        intent_view(r) == (path@, opt_seq(before), opt_seq(after)),
{
    FileIntent { live_path: path.clone(), before, after }
}

fn copy_opt(o: &Option<Vec<u8>>) -> (r: Option<Vec<u8>>)
    ensures
        opt_seq(r) == opt_seq(*o),
{
    match o {
        Some(v) => Some(copy_bytes(v)),
        None => None,
    }
}

/// The file changes one planned operation makes, from fresh reads of its live
/// path and its sidecar: a deletion keeps what is there as its preimage, a
/// restoration consumes the sidecar, and a rewrite keeps the prepared preimage.
pub fn operation_intents(op: &UninstallOperation, live: &FileRead, backup: &FileRead) -> (r: Result<
    Vec<FileIntent>,
    ServiceError,
>)
    ensures
        intents_are(r, intents_of(*op, *live, *backup)),
{
    let mut out: Vec<FileIntent> = Vec::new();
    match op {
        UninstallOperation::RemoveCreated { path } | UninstallOperation::RemoveIni { path } => {
            let before = match read_regular(path.as_str(), live) {
                Err(e) => {
                    return Err(e);
                },
                Ok(b) => b,
            };
            out.push(intent(path, before, None));
        },
        UninstallOperation::RestoreBackup { live: l, backup: bk } => {
            let before = match read_regular(l.as_str(), live) {
                Err(e) => {
                    return Err(e);
                },
                Ok(b) => b,
            };
            let restored = match read_regular(bk.as_str(), backup) {
                Err(e) => {
                    return Err(e);
                },
                Ok(None) => {
                    return Err(failure("RenoDX uninstall backup disappeared before composition: ", bk.as_str()));
                },
                Ok(Some(x)) => x,
            };
            let copy = copy_bytes(&restored);
            out.push(intent(l, before, Some(restored)));
            out.push(intent(bk, Some(copy), None));
        },
        UninstallOperation::RemoveManagedOwned { path, installed_sha256 } => {
            match read_exact_managed(path.as_str(), live, installed_sha256.as_str()) {
                Err(e) => {
                    return Err(e);
                },
                Ok(None) => {
                    return Err(failure("RenoDX managed host disappeared before composition: ", path.as_str()));
                },
                Ok(Some(b)) => {
                    out.push(intent(path, Some(b), None));
                },
            }
        },
        UninstallOperation::RestoreManagedOwned { live: l, backup: bk, installed_sha256, baseline_sha256 } => {
            let before = match read_exact_managed(l.as_str(), live, installed_sha256.as_str()) {
                Err(e) => {
                    return Err(e);
                },
                Ok(None) => {
                    return Err(failure("RenoDX managed host disappeared before composition: ", l.as_str()));
                },
                Ok(Some(b)) => b,
            };
            let restored = match read_exact_managed(bk.as_str(), backup, baseline_sha256.as_str()) {
                Err(e) => {
                    return Err(e);
                },
                Ok(None) => {
                    return Err(
                        failure(
                            "RenoDX managed host baseline sidecar disappeared before composition: ",
                            bk.as_str(),
                        ),
                    );
                },
                Ok(Some(x)) => x,
            };
            let copy = copy_bytes(&restored);
            out.push(intent(l, Some(before), Some(restored)));
            out.push(intent(bk, Some(copy), None));
        },
        UninstallOperation::RewriteIni { path, expected_before, bytes } => {
            out.push(intent(path, Some(copy_bytes(expected_before)), Some(copy_bytes(bytes))));
        },
    }
    Ok(out)
}

/// What applying one operation checks first on fresh reads, or the message
/// with which it refuses: a managed host and its sidecar must still hold their
/// persisted bytes, and `ReShade.ini` must still hold the prepared preimage.
pub open spec fn apply_check(op: UninstallOperation, live: FileRead, backup: FileRead) -> Result<(), Seq<char>> {
    match op {
        UninstallOperation::RemoveManagedOwned { path, installed_sha256 } => match exact_read(
            path@,
            live,
            installed_sha256@,
        ) {
            Err(m) => Err(m),
            Ok(None) => Err("RenoDX managed host disappeared before removal: "@ + path@),
            Ok(Some(_)) => Ok(()),
        },
        UninstallOperation::RestoreManagedOwned { live: l, backup: bk, installed_sha256, baseline_sha256 } => {
            match exact_read(l@, live, installed_sha256@) {
                Err(m) => Err(m),
                Ok(None) => Err("RenoDX managed host disappeared before baseline restoration: "@ + l@),
                Ok(Some(_)) => match exact_read(bk@, backup, baseline_sha256@) {
                    Err(m) => Err(m),
                    Ok(None) => Err(
                        "RenoDX managed host baseline sidecar disappeared before restoration: "@ + bk@,
                    ),
                    Ok(Some(_)) => Ok(()),
                },
            }
        },
        UninstallOperation::RewriteIni { path, expected_before, .. } => match regular_read(path@, live) {
            Err(m) => Err(m),
            Ok(None) => Err("RenoDX ReShade.ini disappeared before rewrite: "@ + path@),
            Ok(Some(current)) => if current != expected_before@ {
                Err("RenoDX ReShade.ini changed after uninstall preparation: "@ + path@)
            } else {
                Ok(())
            },
        },
        _ => Ok(()),
    }
}

/// Checks, on fresh reads, that one planned operation may still be applied.
pub fn check_before_apply(op: &UninstallOperation, live: &FileRead, backup: &FileRead) -> (r: Result<(), ServiceError>)
    ensures
        match apply_check(*op, *live, *backup) {
            Ok(()) => r is Ok,
            Err(m) => r matches Err(ServiceError::Failed(x)) && x@ == m,
        },
{
    match op {
        UninstallOperation::RemoveManagedOwned { path, installed_sha256 } => {
            match read_exact_managed(path.as_str(), live, installed_sha256.as_str()) {
                Err(e) => Err(e),
                Ok(None) => Err(failure("RenoDX managed host disappeared before removal: ", path.as_str())),
                Ok(Some(_)) => Ok(()),
            }
        },
        UninstallOperation::RestoreManagedOwned { live: l, backup: bk, installed_sha256, baseline_sha256 } => {
            match read_exact_managed(l.as_str(), live, installed_sha256.as_str()) {
                Err(e) => Err(e),
                Ok(None) => Err(
                    failure("RenoDX managed host disappeared before baseline restoration: ", l.as_str()),
                ),
                Ok(Some(_)) => match read_exact_managed(bk.as_str(), backup, baseline_sha256.as_str()) {
                    Err(e) => Err(e),
                    Ok(None) => Err(
                        failure(
                            "RenoDX managed host baseline sidecar disappeared before restoration: ",
                            bk.as_str(),
                        ),
                    ),
                    Ok(Some(_)) => Ok(()),
                },
            }
        },
        UninstallOperation::RewriteIni { path, expected_before, .. } => {
            match read_regular(path.as_str(), live) {
                Err(e) => Err(e),
                Ok(None) => Err(failure("RenoDX ReShade.ini disappeared before rewrite: ", path.as_str())),
                Ok(Some(current)) => {
                    if !bytes_eq(current.as_slice(), expected_before.as_slice()) {
                        Err(failure("RenoDX ReShade.ini changed after uninstall preparation: ", path.as_str()))
                    } else {
                        Ok(())
                    }
                },
            }
        },
        _ => Ok(()),
    }
}

/// The paths an operation may mutate.
pub open spec fn affected_of(op: UninstallOperation) -> Seq<String> {
    match op {
        UninstallOperation::RemoveCreated { path } => seq![path],
        UninstallOperation::RemoveIni { path } => seq![path],
        UninstallOperation::RewriteIni { path, .. } => seq![path],
        UninstallOperation::RemoveManagedOwned { path, .. } => seq![path],
        UninstallOperation::RestoreBackup { live, backup } => seq![live, backup],
        UninstallOperation::RestoreManagedOwned { live, backup, .. } => seq![live, backup],
    }
}

impl UninstallOperation {
    /// The paths the operation may mutate: a restoration touches its sidecar too.
    pub fn affected_paths(&self) -> (r: Vec<String>)
        ensures
            r@ == affected_of(*self),
    {
        let mut out: Vec<String> = Vec::new();
        match self {
            UninstallOperation::RemoveCreated { path }
            | UninstallOperation::RemoveIni { path }
            | UninstallOperation::RewriteIni { path, .. }
            | UninstallOperation::RemoveManagedOwned { path, .. } => {
                out.push(path.clone());
            },
            UninstallOperation::RestoreBackup { live, backup }
            | UninstallOperation::RestoreManagedOwned { live, backup, .. } => {
                out.push(live.clone());
                out.push(backup.clone());
            },
        }
        proof {
            assert(out@ =~= affected_of(*self));
        }
        out
    }

    /// A short name of the operation's kind.
    pub fn kind_name(&self) -> (r: &'static str)
        ensures
            r@ == match *self {
                UninstallOperation::RemoveCreated { .. } => "remove-created"@,
                UninstallOperation::RestoreBackup { .. } => "restore-backup"@,
                UninstallOperation::RemoveManagedOwned { .. } => "remove-managed-owned"@,
                UninstallOperation::RestoreManagedOwned { .. } => "restore-managed-owned"@,
                UninstallOperation::RewriteIni { .. } => "rewrite-ini"@,
                UninstallOperation::RemoveIni { .. } => "remove-ini"@,
            },
    {
        match self {
            UninstallOperation::RemoveCreated { .. } => "remove-created",
            UninstallOperation::RestoreBackup { .. } => "restore-backup",
            UninstallOperation::RemoveManagedOwned { .. } => "remove-managed-owned",
            UninstallOperation::RestoreManagedOwned { .. } => "restore-managed-owned",
            UninstallOperation::RewriteIni { .. } => "rewrite-ini",
            UninstallOperation::RemoveIni { .. } => "remove-ini",
        }
    }
}

// ---------------------------------------------------------------------------
// All file intents, and what every plan keeps
// ---------------------------------------------------------------------------

/// The file changes of the first `k` operations, in order, or the message of
/// the first that cannot be composed.
pub open spec fn intents_upto(
    ops: Seq<UninstallOperation>,
    reads: Seq<(FileRead, FileRead)>,
    k: int,
) -> Result<Seq<(Seq<char>, Option<Seq<u8>>, Option<Seq<u8>>)>, Seq<char>>
    decreases k,
{
    if k <= 0 || k > ops.len() {
        Ok(Seq::empty())
    } else {
        match intents_upto(ops, reads, k - 1) {
            Err(m) => Err(m),
            Ok(done) => match intents_of(ops[k - 1], reads[k - 1].0, reads[k - 1].1) {
                Err(m) => Err(m),
                Ok(more) => Ok(done + more),
            },
        }
    }
}

proof fn lemma_intents_stop(ops: Seq<UninstallOperation>, reads: Seq<(FileRead, FileRead)>, j: int, k: int)
    requires
        0 < j <= k <= ops.len(),
        intents_upto(ops, reads, j) is Err,
    ensures
        intents_upto(ops, reads, k) == intents_upto(ops, reads, j),
    decreases k - j,
{
    if j < k {
        lemma_intents_stop(ops, reads, j, k - 1);
    }
}

/// Takes the operations out of a prepared plan and gives their file changes,
/// in operation order, from fresh reads of each operation's live path and
/// sidecar. The plan holds no operations afterwards, whether or not the
/// intents could be composed, so the same operations cannot be applied twice.
pub fn take_file_intents(ops: &mut Vec<UninstallOperation>, reads: &Vec<(FileRead, FileRead)>) -> (r: Result<
    Vec<FileIntent>,
    ServiceError,
>)
    requires
        reads@.len() == old(ops)@.len(),
    ensures
        final(ops)@.len() == 0,
        intents_are(r, intents_upto(old(ops)@, reads@, old(ops)@.len() as int)),
{
    let mut taken: Vec<UninstallOperation> = Vec::new();
    std::mem::swap(&mut taken, ops);
    intents_of_plan(&taken, reads)
}

/// The file changes of the operations `ops`, in order.
fn intents_of_plan(ops: &Vec<UninstallOperation>, reads: &Vec<(FileRead, FileRead)>) -> (r: Result<
    Vec<FileIntent>,
    ServiceError,
>)
    requires
        reads@.len() == ops@.len(),
    ensures
        intents_are(r, intents_upto(ops@, reads@, ops@.len() as int)),
{
    let n = ops.len();
    let mut out: Vec<FileIntent> = Vec::new();
    let mut i: usize = 0;
    while i < n
        invariant
            n == ops@.len(),
            n == reads@.len(),
            i <= n,
            intents_upto(ops@, reads@, i as int) matches Ok(done) && out@.len() == done.len() && forall|t: int|
                0 <= t < done.len() ==> intent_view(#[trigger] out@[t]) == done[t],
        decreases n - i,
    {
        let ghost prior = out@;
        let ghost done = intents_upto(ops@, reads@, i as int)->Ok_0;
        match operation_intents(&ops[i], &reads[i].0, &reads[i].1) {
            Err(e) => {
                proof {
                    lemma_intents_stop(ops@, reads@, i + 1, n as int);
                }
                return Err(e);
            },
            Ok(mut more) => {
                let ghost more_v = more@;
                out.append(&mut more);
                proof {
                    let next = intents_upto(ops@, reads@, i + 1)->Ok_0;
                    assert forall|t: int| 0 <= t < next.len() implies intent_view(#[trigger] out@[t]) == next[t] by {
                        if t < done.len() {
                            assert(out@[t] == prior[t]);
                        } else {
                            assert(out@[t] == more_v[t - done.len()]);
                        }
                    }
                }
            },
        }
        i = i + 1;
    }
    Ok(out)
}

proof fn lemma_removal_candidates_kept(created: Seq<String>, backed: Seq<String>, k: int)
    ensures
        forall|i: int|
            0 <= i < removal_candidates(created, backed, k).len() ==> !is_ini(
                (#[trigger] removal_candidates(created, backed, k)[i])@,
            ) && !claims(backed, removal_candidates(created, backed, k)[i]@),
    decreases k,
{
    if 0 < k <= created.len() {
        lemma_removal_candidates_kept(created, backed, k - 1);
        let prev = removal_candidates(created, backed, k - 1);
        let cur = removal_candidates(created, backed, k);
        assert forall|i: int| 0 <= i < cur.len() implies !is_ini((#[trigger] cur[i])@) && !claims(
            backed,
            cur[i]@,
        ) by {
            if i < prev.len() {
                assert(cur[i] == prev[i]);
            }
        }
    }
}

proof fn lemma_restore_candidates_kept(backed: Seq<String>, k: int)
    ensures
        forall|i: int|
            0 <= i < restore_candidates(backed, k).len() ==> !is_ini(
                (#[trigger] restore_candidates(backed, k)[i])@,
            ),
    decreases k,
{
    if 0 < k <= backed.len() {
        lemma_restore_candidates_kept(backed, k - 1);
        let prev = restore_candidates(backed, k - 1);
        let cur = restore_candidates(backed, k);
        assert forall|i: int| 0 <= i < cur.len() implies !is_ini((#[trigger] cur[i])@) by {
            if i < prev.len() {
                assert(cur[i] == prev[i]);
            }
        }
    }
}

proof fn lemma_removal_ops_from(paths: Seq<String>, obs: Seq<DiskObservation>, k: int)
    ensures
        forall|i: int|
            0 <= i < removal_ops(paths, obs, k).len() ==> exists|j: int|
                0 <= j < paths.len() && #[trigger] removal_ops(paths, obs, k)[i]
                    == (UninstallOperation::RemoveCreated { path: paths[j] }),
    decreases k,
{
    if 0 < k <= paths.len() {
        lemma_removal_ops_from(paths, obs, k - 1);
        let prev = removal_ops(paths, obs, k - 1);
        let cur = removal_ops(paths, obs, k);
        assert forall|i: int| 0 <= i < cur.len() implies exists|j: int|
            0 <= j < paths.len() && #[trigger] cur[i] == (UninstallOperation::RemoveCreated {
                path: paths[j],
            }) by {
            if i < prev.len() {
                assert(cur[i] == prev[i]);
            } else {
                assert(cur[i] == UninstallOperation::RemoveCreated { path: paths[k - 1] });
            }
        }
    }
}

proof fn lemma_restore_ops_from(paths: Seq<String>, facts: Seq<RestoreFacts>, k: int)
    ensures
        forall|i: int|
            0 <= i < restore_ops(paths, facts, k).len() ==> exists|j: int, b: String|
                0 <= j < paths.len() && #[trigger] restore_ops(paths, facts, k)[i]
                    == (UninstallOperation::RestoreBackup { live: paths[j], backup: b }),
    decreases k,
{
    if 0 < k <= paths.len() {
        lemma_restore_ops_from(paths, facts, k - 1);
        let prev = restore_ops(paths, facts, k - 1);
        let cur = restore_ops(paths, facts, k);
        let f = facts[k - 1];
        match f.backup {
            Some(b) => {
                if permits_restore(f.live, f.sidecar) {
                    let op = UninstallOperation::RestoreBackup { live: paths[k - 1], backup: b };
                    assert(cur == prev.push(op));
                    assert forall|i: int| 0 <= i < cur.len() implies exists|j: int, c: String|
                        0 <= j < paths.len() && #[trigger] cur[i] == (UninstallOperation::RestoreBackup {
                            live: paths[j],
                            backup: c,
                        }) by {
                        if i < prev.len() {
                            assert(cur[i] == prev[i]);
                        } else {
                            assert(cur[i] == op);
                            assert(0 <= k - 1 < paths.len() && cur[i] == (UninstallOperation::RestoreBackup {
                                live: paths[k - 1],
                                backup: b,
                            }));
                        }
                    }
                } else {
                    assert(cur == prev);
                }
            },
            None => {
                assert(cur == prev);
            },
        }
    }
}

proof fn lemma_managed_ops_kind(files: Seq<ManagedAddonFile>, facts: Seq<ManagedFacts>, k: int)
    ensures
        managed_plan(files, facts, k) matches Ok(ms) ==> forall|i: int|
            0 <= i < ms.len() ==> (#[trigger] ms[i] is RemoveManagedOwned || ms[i] is RestoreManagedOwned),
    decreases k,
{
    if 0 < k <= files.len() {
        lemma_managed_ops_kind(files, facts, k - 1);
    }
}

/// An uninstall never restores a `ReShade.ini` backup, and never deletes a
/// `ReShade.ini` or a replaced file as a created file: such a file is restored
/// from its backup instead.
pub proof fn lemma_plan_keeps_ini_and_backups(rec: InstalledAddon, facts: UninstallFacts)
    ensures
        plan_of(rec, facts) matches Ok(ops) ==> forall|i: int|
            0 <= i < ops.len() ==> match #[trigger] ops[i] {
                UninstallOperation::RestoreBackup { live, .. } => !is_ini(live@),
                UninstallOperation::RemoveCreated { path } => !is_ini(path@) && !claims(
                    rec.backed_up_files@,
                    path@,
                ),
                _ => true,
            },
{
    if let Ok(ops) = plan_of(rec, facts) {
        let rem_paths = removals_of(rec);
        let res_paths = restores_of(rec);
        let rem = removal_ops(rem_paths, facts.created@, rem_paths.len() as int);
        let res = restore_ops(res_paths, facts.restores@, res_paths.len() as int);
        let managed = managed_plan(rec.managed_files@, facts.managed@, rec.managed_files@.len() as int)->Ok_0;
        let ini = ini_ops(rec, facts);
        lemma_removal_candidates_kept(rec.created_files@, rec.backed_up_files@, rec.created_files@.len() as int);
        lemma_restore_candidates_kept(rec.backed_up_files@, rec.backed_up_files@.len() as int);
        lemma_removal_ops_from(rem_paths, facts.created@, rem_paths.len() as int);
        lemma_restore_ops_from(res_paths, facts.restores@, res_paths.len() as int);
        lemma_managed_ops_kind(rec.managed_files@, facts.managed@, rec.managed_files@.len() as int);
        assert(ops == rem + res + managed + ini);
        assert forall|i: int| 0 <= i < ops.len() implies match #[trigger] ops[i] {
            UninstallOperation::RestoreBackup { live, .. } => !is_ini(live@),
            UninstallOperation::RemoveCreated { path } => !is_ini(path@) && !claims(rec.backed_up_files@, path@),
            _ => true,
        } by {
            if i < rem.len() {
                assert(ops[i] == rem[i]);
                let j = choose|j: int|
                    0 <= j < rem_paths.len() && #[trigger] rem[i] == UninstallOperation::RemoveCreated {
                        path: rem_paths[j],
                    };
                assert(!is_ini(rem_paths[j]@));
            } else if i < rem.len() + res.len() {
                assert(ops[i] == res[i - rem.len()]);
                let (j, b) = choose|j: int, b: String|
                    0 <= j < res_paths.len() && #[trigger] res[i - rem.len()]
                        == UninstallOperation::RestoreBackup { live: res_paths[j], backup: b };
                assert(!is_ini(res_paths[j]@));
            } else if i < rem.len() + res.len() + managed.len() {
                assert(ops[i] == managed[i - rem.len() - res.len()]);
            } else {
                assert(ops[i] == ini[i - rem.len() - res.len() - managed.len()]);
                assert(ini.len() <= 1);
                assert(ini[0] is RemoveIni || ini[0] is RewriteIni);
            }
        }
    }
}

} // verus!
