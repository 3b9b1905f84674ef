//! The shared ReShade Vulkan layer: mapping the platform detector's report into
//! the public report, the mutation gate, and the digest-based update verdict.
use vstd::prelude::*;

use crate::dto::{
    ActionConfirmationScope, ActionDescriptor, ActionDisabledReason, LayerDiagnosticReason,
    VulkanLayerActions, VulkanLayerArchitecture, VulkanLayerDetection, VulkanLayerFacts,
    VulkanLayerReport, VulkanLoaderVisibility,
};
use crate::types::UpdateStatus;
use sha2::{Digest, Sha256};

verus! {

/// The platform detector's state of the shared layer.
#[derive(Clone, Copy, Debug, PartialEq, Eq, Structural)]
pub enum PlatformLayerState {
    /// No layer is registered.
    Absent,
    /// The standard layer is installed and enabled.
    Installed,
    /// The standard layer is registered but disabled.
    InstalledDisabled,
    /// A compatible non-standard layer is visible.
    External,
    /// The visible state is ambiguous or broken.
    Conflict,
    /// Unsupported environment.
    Unsupported,
}

/// The platform detector's layer architecture.
#[derive(Clone, Copy, Debug, PartialEq, Eq, Structural)]
pub enum PlatformLayerArchitecture {
    /// 64-bit.
    X64,
    /// 32-bit.
    X86,
    /// Not known.
    Unknown,
}

/// The platform detector's loader visibility.
#[derive(Clone, Copy, Debug, PartialEq, Eq, Structural)]
pub enum PlatformLoaderVisibility {
    /// Normal.
    Normal,
    /// HKCU not visible to elevated games.
    HkcuNotVisibleWhenElevated,
    /// Ambiguous.
    Ambiguous,
}

/// The platform detector's diagnostics.
#[derive(Clone, Copy, Debug, PartialEq, Eq, Structural)]
pub enum PlatformLayerDiagnostic {
    /// Registry entry missing.
    RegistryMissing,
    /// Registry entry disabled.
    RegistryDisabled,
    /// Duplicate manifests.
    DuplicateLayerManifest,
    /// Ambiguous visibility.
    AmbiguousLoaderVisibility,
    /// DLL missing.
    MissingLayerDll,
    /// DLL unreadable.
    UnreadableDll,
    /// Manifest missing.
    MissingManifest,
    /// Unsupported architecture.
    UnsupportedArchitecture,
    /// HKCU caveat.
    HkcuNotVisibleWhenElevated,
    /// Malformed manifest.
    ManifestMalformed,
    /// Backend validation failed.
    BackendValidationFailed,
    /// Registry scope not writable.
    RegistryScopeNotWritable,
    /// Permission denied.
    PermissionDenied,
    /// Hash mismatch.
    HashMismatch,
    /// Advisory-only digest.
    DbOnlyFallback,
}

/// The platform detector's layer facts.
#[derive(Clone, Debug)]
pub struct PlatformLayerFacts {
    /// Manifest path.
    pub manifest_path: Option<String>,
    /// DLL path.
    pub dll_path: Option<String>,
    /// Version recorded in the manifest.
    pub version: Option<String>,
    /// Architecture.
    pub architecture: PlatformLayerArchitecture,
    /// Loader visibility.
    pub loader_visibility: PlatformLoaderVisibility,
}

/// The platform detector's report of the shared layer.
#[derive(Clone, Debug)]
pub struct PlatformLayerReport {
    /// State.
    pub state: PlatformLayerState,
    /// Facts.
    pub facts: PlatformLayerFacts,
    /// Diagnostics.
    pub diagnostics: Vec<PlatformLayerDiagnostic>,
}

/// Public architecture of a platform architecture.
pub open spec fn arch_spec(a: PlatformLayerArchitecture) -> VulkanLayerArchitecture {
    match a {
        PlatformLayerArchitecture::X64 => VulkanLayerArchitecture::X64,
        PlatformLayerArchitecture::X86 => VulkanLayerArchitecture::X86,
        PlatformLayerArchitecture::Unknown => VulkanLayerArchitecture::Unknown,
    }
}

/// Public visibility of a platform visibility.
pub open spec fn visibility_spec(v: PlatformLoaderVisibility) -> VulkanLoaderVisibility {
    match v {
        PlatformLoaderVisibility::Normal => VulkanLoaderVisibility::Normal,
        PlatformLoaderVisibility::HkcuNotVisibleWhenElevated => VulkanLoaderVisibility::HkcuNotVisibleWhenElevated,
        PlatformLoaderVisibility::Ambiguous => VulkanLoaderVisibility::Ambiguous,
    }
}

/// Public diagnostic of a platform diagnostic.
pub open spec fn diagnostic_spec(d: PlatformLayerDiagnostic) -> LayerDiagnosticReason {
    match d {
        PlatformLayerDiagnostic::RegistryMissing => LayerDiagnosticReason::RegistryMissing,
        PlatformLayerDiagnostic::RegistryDisabled => LayerDiagnosticReason::RegistryDisabled,
        PlatformLayerDiagnostic::DuplicateLayerManifest => LayerDiagnosticReason::DuplicateLayerManifest,
        PlatformLayerDiagnostic::AmbiguousLoaderVisibility => LayerDiagnosticReason::AmbiguousLoaderVisibility,
        PlatformLayerDiagnostic::MissingLayerDll => LayerDiagnosticReason::MissingLayerDll,
        PlatformLayerDiagnostic::UnreadableDll => LayerDiagnosticReason::UnreadableDll,
        PlatformLayerDiagnostic::MissingManifest => LayerDiagnosticReason::MissingManifest,
        PlatformLayerDiagnostic::UnsupportedArchitecture => LayerDiagnosticReason::UnsupportedArchitecture,
        PlatformLayerDiagnostic::HkcuNotVisibleWhenElevated => LayerDiagnosticReason::HkcuNotVisibleWhenElevated,
        PlatformLayerDiagnostic::ManifestMalformed => LayerDiagnosticReason::ManifestMalformed,
        PlatformLayerDiagnostic::BackendValidationFailed => LayerDiagnosticReason::BackendValidationFailed,
        PlatformLayerDiagnostic::RegistryScopeNotWritable => LayerDiagnosticReason::RegistryScopeNotWritable,
        PlatformLayerDiagnostic::PermissionDenied => LayerDiagnosticReason::PermissionDenied,
        PlatformLayerDiagnostic::HashMismatch => LayerDiagnosticReason::HashMismatch,
        PlatformLayerDiagnostic::DbOnlyFallback => LayerDiagnosticReason::DbOnlyFallback,
    }
}

/// Whether a diagnostic makes a conflict unsafe to resolve automatically.
pub open spec fn blocks_resolution(d: LayerDiagnosticReason) -> bool {
    d == LayerDiagnosticReason::DuplicateLayerManifest || d
        == LayerDiagnosticReason::AmbiguousLoaderVisibility || d
        == LayerDiagnosticReason::ExternalLayerDetected
}

/// Whether a conflict with these diagnostics is the standard, mutable shape.
pub open spec fn standard_mutable(diags: Seq<LayerDiagnosticReason>) -> bool {
    forall|i: int| 0 <= i < diags.len() ==> !blocks_resolution(#[trigger] diags[i])
}

/// An enabled action without confirmation.
pub open spec fn plain_action() -> ActionDescriptor {
    ActionDescriptor {
        enabled: true,
        requires_confirmation: false,
        confirmation_scope: None,
        disabled_reason: None,
        target_channel: None,
    }
}

/// An enabled action confirmed for all Vulkan RenoDX games.
pub open spec fn confirmed_action() -> ActionDescriptor {
    ActionDescriptor {
        enabled: true,
        requires_confirmation: true,
        confirmation_scope: Some(ActionConfirmationScope::AllVulkanRenoDxGames),
        disabled_reason: None,
        target_channel: None,
    }
}

/// No actions at all.
pub open spec fn no_actions() -> VulkanLayerActions {
    VulkanLayerActions {
        install: None,
        update: None,
        switch_channel: None,
        remove: None,
        resolve_conflict: None,
    }
}

/// The public actions of a platform state, given the mapped diagnostics.
pub open spec fn actions_for(state: PlatformLayerState, diags: Seq<LayerDiagnosticReason>) -> VulkanLayerActions {
    match state {
        PlatformLayerState::Absent => VulkanLayerActions { install: Some(plain_action()), ..no_actions() },
        PlatformLayerState::Installed => VulkanLayerActions {
            update: Some(confirmed_action()),
            switch_channel: Some(confirmed_action()),
            remove: Some(confirmed_action()),
            ..no_actions()
        },
        PlatformLayerState::InstalledDisabled => VulkanLayerActions {
            update: Some(confirmed_action()),
            remove: Some(confirmed_action()),
            ..no_actions()
        },
        PlatformLayerState::Conflict => VulkanLayerActions {
            resolve_conflict: Some(
                if standard_mutable(diags) {
                    confirmed_action()
                } else {
                    ActionDescriptor {
                        enabled: false,
                        requires_confirmation: false,
                        confirmation_scope: None,
                        disabled_reason: Some(ActionDisabledReason::BlockedByConflict),
                        target_channel: None,
                    }
                },
            ),
            ..no_actions()
        },
        _ => no_actions(),
    }
}

/// The public detection of a platform state.
pub open spec fn detection_for(state: PlatformLayerState) -> VulkanLayerDetection {
    match state {
        PlatformLayerState::Absent => VulkanLayerDetection::NotInstalled,
        PlatformLayerState::Installed => VulkanLayerDetection::Installed,
        PlatformLayerState::InstalledDisabled => VulkanLayerDetection::InstalledDisabled,
        PlatformLayerState::External => VulkanLayerDetection::ExternalReadOnly,
        PlatformLayerState::Conflict => VulkanLayerDetection::Conflict,
        PlatformLayerState::Unsupported => VulkanLayerDetection::Unsupported,
    }
}

/// The public diagnostics: the mapped platform diagnostics, with
/// `ExternalLayerDetected` put first for an external layer when it is missing.
pub open spec fn diagnostics_for(state: PlatformLayerState, mapped: Seq<LayerDiagnosticReason>) -> Seq<LayerDiagnosticReason> {
    if state == PlatformLayerState::External && !mapped.contains(
        LayerDiagnosticReason::ExternalLayerDetected,
    ) {
        seq![LayerDiagnosticReason::ExternalLayerDetected] + mapped
    } else {
        mapped
    }
}

/// The mapping of the platform report into the public report.
pub open spec fn maps_platform(report: PlatformLayerReport, dll_file_version: Option<String>, r: VulkanLayerReport) -> bool {
    let mapped = report.diagnostics@.map_values(|d: PlatformLayerDiagnostic| diagnostic_spec(d));
    &&& r.layer_detection == detection_for(report.state)
    &&& r.layer_facts.manifest_path == report.facts.manifest_path
    &&& r.layer_facts.dll_path == report.facts.dll_path
    &&& r.layer_facts.version == match report.facts.version {
        Some(v) => Some(v),
        None => dll_file_version,
    }
    &&& r.layer_facts.architecture == arch_spec(report.facts.architecture)
    &&& r.layer_facts.loader_visibility == visibility_spec(report.facts.loader_visibility)
    &&& r.diagnostic_reasons@ == diagnostics_for(report.state, mapped)
    &&& r.actions == actions_for(report.state, mapped)
}

/// Public architecture of a platform architecture.
pub fn map_architecture(a: PlatformLayerArchitecture) -> (r: VulkanLayerArchitecture)
    ensures
        r == arch_spec(a),
{
    match a {
        PlatformLayerArchitecture::X64 => VulkanLayerArchitecture::X64,
        PlatformLayerArchitecture::X86 => VulkanLayerArchitecture::X86,
        PlatformLayerArchitecture::Unknown => VulkanLayerArchitecture::Unknown,
    }
}

/// Public visibility of a platform visibility.
pub fn map_visibility(v: PlatformLoaderVisibility) -> (r: VulkanLoaderVisibility)
    ensures
        r == visibility_spec(v),
{
    match v {
        PlatformLoaderVisibility::Normal => VulkanLoaderVisibility::Normal,
        PlatformLoaderVisibility::HkcuNotVisibleWhenElevated => VulkanLoaderVisibility::HkcuNotVisibleWhenElevated,
        PlatformLoaderVisibility::Ambiguous => VulkanLoaderVisibility::Ambiguous,
    }
}

/// Public diagnostic of a platform diagnostic.
pub fn map_diagnostic(d: PlatformLayerDiagnostic) -> (r: LayerDiagnosticReason)
    ensures
        r == diagnostic_spec(d),
{
    match d {
        PlatformLayerDiagnostic::RegistryMissing => LayerDiagnosticReason::RegistryMissing,
        PlatformLayerDiagnostic::RegistryDisabled => LayerDiagnosticReason::RegistryDisabled,
        PlatformLayerDiagnostic::DuplicateLayerManifest => LayerDiagnosticReason::DuplicateLayerManifest,
        PlatformLayerDiagnostic::AmbiguousLoaderVisibility => LayerDiagnosticReason::AmbiguousLoaderVisibility,
        PlatformLayerDiagnostic::MissingLayerDll => LayerDiagnosticReason::MissingLayerDll,
        PlatformLayerDiagnostic::UnreadableDll => LayerDiagnosticReason::UnreadableDll,
        PlatformLayerDiagnostic::MissingManifest => LayerDiagnosticReason::MissingManifest,
        PlatformLayerDiagnostic::UnsupportedArchitecture => LayerDiagnosticReason::UnsupportedArchitecture,
        PlatformLayerDiagnostic::HkcuNotVisibleWhenElevated => LayerDiagnosticReason::HkcuNotVisibleWhenElevated,
        PlatformLayerDiagnostic::ManifestMalformed => LayerDiagnosticReason::ManifestMalformed,
        PlatformLayerDiagnostic::BackendValidationFailed => LayerDiagnosticReason::BackendValidationFailed,
        PlatformLayerDiagnostic::RegistryScopeNotWritable => LayerDiagnosticReason::RegistryScopeNotWritable,
        PlatformLayerDiagnostic::PermissionDenied => LayerDiagnosticReason::PermissionDenied,
        PlatformLayerDiagnostic::HashMismatch => LayerDiagnosticReason::HashMismatch,
        PlatformLayerDiagnostic::DbOnlyFallback => LayerDiagnosticReason::DbOnlyFallback,
    }
}

fn map_diagnostics(ds: &Vec<PlatformLayerDiagnostic>) -> (r: Vec<LayerDiagnosticReason>)
    ensures
        r@ == ds@.map_values(|d: PlatformLayerDiagnostic| diagnostic_spec(d)),
{
    let n = ds.len();
    let mut out: Vec<LayerDiagnosticReason> = Vec::new();
    let mut i: usize = 0;
    while i < n
        invariant
            n == ds@.len(),
            i <= n,
            out@ == ds@.subrange(0, i as int).map_values(|d: PlatformLayerDiagnostic| diagnostic_spec(d)),
        decreases n - i,
    {
        out.push(map_diagnostic(ds[i]));
        proof {
            assert(out@ =~= ds@.subrange(0, i + 1).map_values(|d: PlatformLayerDiagnostic| diagnostic_spec(d)));
        }
        i = i + 1;
    }
    proof {
        assert(ds@.subrange(0, n as int) =~= ds@);
    }
    out
}

fn contains_diagnostic(ds: &Vec<LayerDiagnosticReason>, d: LayerDiagnosticReason) -> (r: bool)
    ensures
        r == ds@.contains(d),
{
    let n = ds.len();
    let mut i: usize = 0;
    while i < n
        invariant
            n == ds@.len(),
            i <= n,
            forall|j: int| 0 <= j < i ==> ds@[j] != d,
        decreases n - i,
    {
        if ds[i] == d {
            proof {
                assert(ds@[i as int] == d);
            }
            return true;
        }
        i = i + 1;
    }
    false
}

fn standard_mutable_diagnostics(ds: &Vec<LayerDiagnosticReason>) -> (r: bool)
    ensures
        r == standard_mutable(ds@),
{
    let n = ds.len();
    let mut i: usize = 0;
    while i < n
        invariant
            n == ds@.len(),
            i <= n,
            forall|j: int| 0 <= j < i ==> !blocks_resolution(#[trigger] ds@[j]),
        decreases n - i,
    {
        let d = ds[i];
        if d == LayerDiagnosticReason::DuplicateLayerManifest || d
            == LayerDiagnosticReason::AmbiguousLoaderVisibility || d
            == LayerDiagnosticReason::ExternalLayerDetected {
            proof {
                assert(blocks_resolution(ds@[i as int]));
            }
            return false;
        }
        i = i + 1;
    }
    true
}

/// Whether a conflict is the standard, safely-resolvable shape: none of its
/// diagnostics is a duplicate manifest, an ambiguous visibility or an external layer.
pub fn conflict_is_standard_mutable(report: &VulkanLayerReport) -> (r: bool)
    ensures
        r == standard_mutable(report.diagnostic_reasons@),
{
    standard_mutable_diagnostics(&report.diagnostic_reasons)
}

fn confirmed() -> (r: ActionDescriptor)
    ensures
        r == confirmed_action(),
{
    ActionDescriptor::enabled().with_confirmation(ActionConfirmationScope::AllVulkanRenoDxGames)
}

/// Maps a platform detector report into the public report. `dll_file_version`
/// is the file version read from the layer DLL, used when the manifest names none.
pub fn map_platform_report(report: PlatformLayerReport, dll_file_version: Option<String>) -> (r: VulkanLayerReport)
    ensures
        maps_platform(report, dll_file_version, r),
{
    let version = match &report.facts.version {
        Some(v) => Some(v.clone()),
        None => dll_file_version,
    };
    let facts = VulkanLayerFacts {
        manifest_path: crate::text::clone_opt(&report.facts.manifest_path),
        dll_path: crate::text::clone_opt(&report.facts.dll_path),
        version,
        architecture: map_architecture(report.facts.architecture),
        loader_visibility: map_visibility(report.facts.loader_visibility),
    };
    let mut diagnostics = map_diagnostics(&report.diagnostics);
    let ghost mapped = diagnostics@;
    let none = VulkanLayerActions {
        install: None,
        update: None,
        switch_channel: None,
        remove: None,
        resolve_conflict: None,
    };
    match report.state {
        PlatformLayerState::Absent => VulkanLayerReport {
            layer_detection: VulkanLayerDetection::NotInstalled,
            layer_facts: facts,
            diagnostic_reasons: diagnostics,
            actions: VulkanLayerActions { install: Some(ActionDescriptor::enabled()), ..none },
        },
        PlatformLayerState::Installed => VulkanLayerReport {
            layer_detection: VulkanLayerDetection::Installed,
            layer_facts: facts,
            diagnostic_reasons: diagnostics,
            actions: VulkanLayerActions {
                update: Some(confirmed()),
                switch_channel: Some(confirmed()),
                remove: Some(confirmed()),
                ..none
            },
        },
        PlatformLayerState::InstalledDisabled => VulkanLayerReport {
            layer_detection: VulkanLayerDetection::InstalledDisabled,
            layer_facts: facts,
            diagnostic_reasons: diagnostics,
            actions: VulkanLayerActions {
                update: Some(confirmed()),
                remove: Some(confirmed()),
                ..none
            },
        },
        PlatformLayerState::External => {
            if !contains_diagnostic(&diagnostics, LayerDiagnosticReason::ExternalLayerDetected) {
                diagnostics.insert(0, LayerDiagnosticReason::ExternalLayerDetected);
                proof {
                    assert(diagnostics@ =~= seq![LayerDiagnosticReason::ExternalLayerDetected]
                        + mapped);
                }
            }
            VulkanLayerReport {
                layer_detection: VulkanLayerDetection::ExternalReadOnly,
                layer_facts: facts,
                diagnostic_reasons: diagnostics,
                actions: none,
            }
        },
        PlatformLayerState::Conflict => {
            let mut out = VulkanLayerReport {
                layer_detection: VulkanLayerDetection::Conflict,
                layer_facts: facts,
                diagnostic_reasons: diagnostics,
                actions: VulkanLayerActions {
                    resolve_conflict: Some(
                        ActionDescriptor::disabled(ActionDisabledReason::BlockedByConflict),
                    ),
                    ..none
                },
            };
            if conflict_is_standard_mutable(&out) {
                out.actions.resolve_conflict = Some(confirmed());
            }
            out
        },
        PlatformLayerState::Unsupported => VulkanLayerReport {
            layer_detection: VulkanLayerDetection::Unsupported,
            layer_facts: facts,
            diagnostic_reasons: diagnostics,
            actions: none,
        },
    }
}

/// Facts about a layer nobody could observe.
fn empty_facts() -> (r: VulkanLayerFacts)
    ensures
        r.manifest_path.is_none(),
        r.dll_path.is_none(),
        r.version.is_none(),
        r.architecture == VulkanLayerArchitecture::Unknown,
        r.loader_visibility == VulkanLoaderVisibility::Normal,
{
    VulkanLayerFacts {
        manifest_path: None,
        dll_path: None,
        version: None,
        architecture: VulkanLayerArchitecture::Unknown,
        loader_visibility: VulkanLoaderVisibility::Normal,
    }
}

/// The report when no shared-layer directory exists: install is the only action.
pub fn not_installed_report() -> (r: VulkanLayerReport)
    ensures
        r.layer_detection == VulkanLayerDetection::NotInstalled,
        r.layer_facts.manifest_path.is_none() && r.layer_facts.dll_path.is_none()
            && r.layer_facts.version.is_none(),
        r.layer_facts.architecture == VulkanLayerArchitecture::Unknown,
        r.layer_facts.loader_visibility == VulkanLoaderVisibility::Normal,
        r.diagnostic_reasons@.len() == 0,
        r.actions == (VulkanLayerActions { install: Some(plain_action()), ..no_actions() }),
{
    VulkanLayerReport {
        layer_detection: VulkanLayerDetection::NotInstalled,
        layer_facts: empty_facts(),
        diagnostic_reasons: Vec::new(),
        actions: VulkanLayerActions {
            install: Some(ActionDescriptor::enabled()),
            update: None,
            switch_channel: None,
            remove: None,
            resolve_conflict: None,
        },
    }
}

/// The report on a platform without shared-layer management: no actions.
pub fn unsupported_report() -> (r: VulkanLayerReport)
    ensures
        r.layer_detection == VulkanLayerDetection::Unsupported,
        r.layer_facts.manifest_path.is_none() && r.layer_facts.dll_path.is_none()
            && r.layer_facts.version.is_none(),
        r.layer_facts.architecture == VulkanLayerArchitecture::Unknown,
        r.layer_facts.loader_visibility == VulkanLoaderVisibility::Normal,
        r.diagnostic_reasons@.len() == 0,
        r.actions == no_actions(),
{
    VulkanLayerReport {
        layer_detection: VulkanLayerDetection::Unsupported,
        layer_facts: empty_facts(),
        diagnostic_reasons: Vec::new(),
        actions: VulkanLayerActions {
            install: None,
            update: None,
            switch_channel: None,
            remove: None,
            resolve_conflict: None,
        },
    }
}

/// Whether a mutating shared-layer operation may proceed.
#[derive(Clone, Copy, Debug, PartialEq, Eq, Structural)]
pub enum LayerMutationGate {
    /// The operation may proceed.
    Proceed,
    /// A non-standard layer is visible read-only.
    ExternalReadOnly,
    /// The conflict is not the standard, safely-resolvable shape.
    UnresolvedConflict,
    /// Layer management is unsupported here.
    Unsupported,
}

/// How a report's detection state gates mutating operations.
pub open spec fn gate_for(report: VulkanLayerReport) -> LayerMutationGate {
    match report.layer_detection {
        VulkanLayerDetection::ExternalReadOnly => LayerMutationGate::ExternalReadOnly,
        VulkanLayerDetection::Conflict => if standard_mutable(report.diagnostic_reasons@) {
            LayerMutationGate::Proceed
        } else {
            LayerMutationGate::UnresolvedConflict
        },
        VulkanLayerDetection::Unsupported => LayerMutationGate::Unsupported,
        _ => LayerMutationGate::Proceed,
    }
}

/// Classifies whether the detection state permits a mutating install/update.
pub fn layer_mutation_gate(report: &VulkanLayerReport) -> (r: LayerMutationGate)
    ensures
        r == gate_for(*report),
{
    match report.detection() {
        VulkanLayerDetection::ExternalReadOnly => LayerMutationGate::ExternalReadOnly,
        VulkanLayerDetection::Conflict => if conflict_is_standard_mutable(report) {
            LayerMutationGate::Proceed
        } else {
            LayerMutationGate::UnresolvedConflict
        },
        VulkanLayerDetection::Unsupported => LayerMutationGate::Unsupported,
        _ => LayerMutationGate::Proceed,
    }
}

/// Update verdict for the shared ReShade Vulkan layer.
#[derive(Clone, Debug)]
pub struct LayerUpdateVerdict {
    /// Current, available, or needs stronger validation.
    pub status: UpdateStatus,
    /// Diagnostics explaining a non-current verdict.
    pub diagnostics: Vec<LayerDiagnosticReason>,
}

/// The verdict of the digest comparison: the on-disk digest is authoritative;
/// the stored digest is only an advisory fallback and never yields `Current`.
pub open spec fn verdict_is(actual: Option<Seq<char>>, db: Option<Seq<char>>, expected: Seq<char>, v: LayerUpdateVerdict) -> bool {
    match actual {
        Some(a) => if a == expected {
            v.status == UpdateStatus::Current && v.diagnostics@ == Seq::<LayerDiagnosticReason>::empty()
        } else {
            v.status == UpdateStatus::Available && v.diagnostics@ == seq![LayerDiagnosticReason::HashMismatch]
        },
        None => match db {
            Some(d) => {
                &&& v.status == if d == expected {
                    UpdateStatus::UnknownNeedsValidation
                } else {
                    UpdateStatus::Available
                }
                &&& v.diagnostics@ == seq![LayerDiagnosticReason::DbOnlyFallback]
            },
            None => v.status == UpdateStatus::Available && v.diagnostics@ == Seq::<LayerDiagnosticReason>::empty(),
        },
    }
}

/// Compares the layer digests: the actual DLL digest wins over the advisory
/// stored one, which is consulted only when the DLL is missing or unreadable.
pub fn resolve_digest_verdict(actual_digest: Option<&str>, db_digest: Option<&str>, expected_digest: &str) -> (r: LayerUpdateVerdict)
    ensures
        verdict_is(
            match actual_digest {
                Some(a) => Some(a@),
                None => None,
            },
            match db_digest {
                Some(d) => Some(d@),
                None => None,
            },
            expected_digest@,
            r,
        ),
{
    if let Some(actual) = actual_digest {
        if crate::text::str_eq(actual, expected_digest) {
            return LayerUpdateVerdict { status: UpdateStatus::Current, diagnostics: Vec::new() };
        }
        let mut d: Vec<LayerDiagnosticReason> = Vec::new();
        d.push(LayerDiagnosticReason::HashMismatch);
        proof {
            assert(d@ =~= seq![LayerDiagnosticReason::HashMismatch]);
        }
        return LayerUpdateVerdict { status: UpdateStatus::Available, diagnostics: d };
    }
    if let Some(db) = db_digest {
        let mut d: Vec<LayerDiagnosticReason> = Vec::new();
        d.push(LayerDiagnosticReason::DbOnlyFallback);
        proof {
            assert(d@ =~= seq![LayerDiagnosticReason::DbOnlyFallback]);
        }
        if crate::text::str_eq(db, expected_digest) {
            return LayerUpdateVerdict {
                status: UpdateStatus::UnknownNeedsValidation,
                diagnostics: d,
            };
        }
        return LayerUpdateVerdict { status: UpdateStatus::Available, diagnostics: d };
    }
    LayerUpdateVerdict { status: UpdateStatus::Available, diagnostics: Vec::new() }
}

/// A stored digest alone never proves the layer current, and a readable DLL
/// whose digest matches always does, whatever the stored digest says.
pub proof fn lemma_actual_digest_is_authoritative(
    actual: Option<Seq<char>>,
    db: Option<Seq<char>>,
    expected: Seq<char>,
    v: LayerUpdateVerdict,
)
    requires
        verdict_is(actual, db, expected, v),
    ensures
        actual.is_none() ==> v.status != UpdateStatus::Current,
        actual == Some(expected) ==> v.status == UpdateStatus::Current,
        v.status == UpdateStatus::Current ==> actual == Some(expected),
{
}

/// An external read-only layer never exposes a mutating action, and a gate
/// only proceeds from a state whose mapped report offers no blocked conflict.
pub proof fn lemma_external_layer_is_read_only(report: PlatformLayerReport, version: Option<String>, r: VulkanLayerReport)
    requires
        maps_platform(report, version, r),
        report.state == PlatformLayerState::External,
    ensures
        r.actions.install.is_none(),
        r.actions.update.is_none(),
        r.actions.switch_channel.is_none(),
        r.actions.remove.is_none(),
        r.actions.resolve_conflict.is_none(),
        r.diagnostic_reasons@.contains(LayerDiagnosticReason::ExternalLayerDetected),
        gate_for(r) == LayerMutationGate::ExternalReadOnly,
{
    let mapped = report.diagnostics@.map_values(|d: PlatformLayerDiagnostic| diagnostic_spec(d));
    if !mapped.contains(LayerDiagnosticReason::ExternalLayerDetected) {
        assert(r.diagnostic_reasons@[0] == LayerDiagnosticReason::ExternalLayerDetected);
    }
}

/// The lower-case hex SHA-256 digest of a byte string.
pub uninterp spec fn sha256_hex_of(bytes: Seq<u8>) -> Seq<char>;

/// A lower-case hexadecimal digit.
pub open spec fn is_lower_hex(c: char) -> bool {
    ('0' <= c && c <= '9') || ('a' <= c && c <= 'f')
}

/// `sha2::Sha256` over the bytes, encoded by `hex::encode`. Trusted: the result
/// is a function of the bytes alone (named `sha256_hex_of`), and `hex::encode`
/// writes two lower-case hex digits per byte of the 32-byte digest.
#[verifier::external_body]
pub(crate) fn sha256_hex(bytes: &[u8]) -> (r: String)
    ensures
        r@ == sha256_hex_of(bytes@),
        r@.len() == 64,
        forall|i: int| 0 <= i < r@.len() ==> is_lower_hex(#[trigger] r@[i]),
{
    let mut hasher = Sha256::new();
    hasher.update(bytes);
    hex::encode(hasher.finalize())
}

/// The digest recorded for the shared layer DLL: lower-case hex SHA-256.
pub fn layer_digest(dll_bytes: &[u8]) -> (r: String)
    ensures
        r@ == sha256_hex_of(dll_bytes@),
        r@.len() == 64,
        forall|i: int| 0 <= i < r@.len() ==> is_lower_hex(#[trigger] r@[i]),
{
    sha256_hex(dll_bytes)
}

/// The update verdict of the shared layer from the DLL bytes on disk (`None`
/// when missing or unreadable), the advisory stored digest and the upstream one.
pub fn layer_update_verdict(dll_bytes: Option<&[u8]>, db_digest: Option<&str>, expected_digest: &str) -> (r: LayerUpdateVerdict)
    ensures
        verdict_is(
            match dll_bytes {
                Some(b) => Some(sha256_hex_of(b@)),
                None => None,
            },
            match db_digest {
                Some(d) => Some(d@),
                None => None,
            },
            expected_digest@,
            r,
        ),
{
    match dll_bytes {
        Some(bytes) => {
            let actual = layer_digest(bytes);
            resolve_digest_verdict(Some(actual.as_str()), db_digest, expected_digest)
        },
        None => resolve_digest_verdict(None, db_digest, expected_digest),
    }
}

// ---------------------------------------------------------------------------
// The report a caller sees, and the layer's standard files
// ---------------------------------------------------------------------------

/// No path, no version, an unknown architecture and normal loader visibility.
pub open spec fn reports_no_facts(f: VulkanLayerFacts) -> bool {
    &&& f.manifest_path is None
    &&& f.dll_path is None
    &&& f.version is None
    &&& f.architecture == VulkanLayerArchitecture::Unknown
    &&& f.loader_visibility == VulkanLoaderVisibility::Normal
}

/// The shared-layer report: unsupported where the platform has no layer
/// management, not installed when the shared ProgramData directory is missing,
/// otherwise the platform detector's report mapped into the public one.
pub fn layer_report(
    supported: bool,
    detected: Option<PlatformLayerReport>,
    dll_file_version: Option<String>,
) -> (r: VulkanLayerReport)
    ensures
        !supported ==> r.layer_detection == VulkanLayerDetection::Unsupported && r.actions
            == no_actions() && r.diagnostic_reasons@.len() == 0 && reports_no_facts(r.layer_facts),
        supported && detected is None ==> r.layer_detection == VulkanLayerDetection::NotInstalled
            && r.actions == (VulkanLayerActions { install: Some(plain_action()), ..no_actions() })
            && r.diagnostic_reasons@.len() == 0 && reports_no_facts(r.layer_facts),
        supported && detected is Some ==> maps_platform(detected.unwrap(), dll_file_version, r),
{
    if !supported {
        return unsupported_report();
    }
    match detected {
        None => not_installed_report(),
        Some(report) => map_platform_report(report, dll_file_version),
    }
}

/// What registering a game executable in `ReShadeApps.ini` came to.
#[derive(Debug)]
pub enum AppRegistration {
    /// The platform has no shared-layer management.
    UnsupportedPlatform,
    /// The ProgramData directory of the shared layer was not found.
    NoProgramData,
    /// The layer registry's answer to the registration, with its error text.
    Registered(Result<(), String>),
}

/// What unregistering a game executable from `ReShadeApps.ini` came to.
#[derive(Debug)]
pub enum AppUnregistration {
    /// The platform has no shared-layer management.
    UnsupportedPlatform,
    /// The ProgramData directory of the shared layer was not found.
    NoProgramData,
    /// Removing the executable from the list failed, with this error text.
    Failed(String),
    /// The executable was removed and other games still use the layer.
    OthersRemain,
    /// The last executable was removed; removing the whole layer gave this.
    LastRemoved(Result<(), String>),
}

/// The outcome of registering a game with the shared layer: the unsupported
/// platform error off Windows, a failure when the ProgramData directory is
/// missing or the registry refused, otherwise success.
pub fn register_app(outcome: AppRegistration) -> (r: Result<(), crate::errors::ServiceError>)
    ensures
        match outcome {
            AppRegistration::UnsupportedPlatform => r matches Err(e) && crate::errors::invalid_with(
                e,
                "RenoDX for Vulkan games is only supported on Windows"@,
            ),
            AppRegistration::NoProgramData => r matches Err(crate::errors::ServiceError::Failed(m))
                && m@ == "no ProgramData directory"@,
            AppRegistration::Registered(Err(e)) => r matches Err(crate::errors::ServiceError::Failed(m))
                && m@ == "failed to register Vulkan layer app: "@ + e@,
            AppRegistration::Registered(Ok(())) => r is Ok,
        },
{
    match outcome {
        AppRegistration::UnsupportedPlatform => Err(crate::errors::vulkan_unsupported_platform()),
        AppRegistration::NoProgramData => Err(crate::errors::failed("no ProgramData directory")),
        AppRegistration::Registered(Err(e)) => Err(
            crate::errors::ServiceError::Failed(
                String::from_str("failed to register Vulkan layer app: ").concat(e.as_str()),
            ),
        ),
        AppRegistration::Registered(Ok(())) => Ok(()),
    }
}

/// The outcome of unregistering a game from the shared layer: the unsupported
/// platform error off Windows; a failure when the ProgramData directory is
/// missing, the list could not be updated, or the layer could not be removed
/// after its last game left; otherwise whether no game uses the layer any more.
pub fn unregister_app(outcome: AppUnregistration) -> (r: Result<bool, crate::errors::ServiceError>)
    ensures
        match outcome {
            AppUnregistration::UnsupportedPlatform => r matches Err(e) && crate::errors::invalid_with(
                e,
                "RenoDX for Vulkan games is only supported on Windows"@,
            ),
            AppUnregistration::NoProgramData => r matches Err(crate::errors::ServiceError::Failed(m))
                && m@ == "no ProgramData directory"@,
            AppUnregistration::Failed(e) => r matches Err(crate::errors::ServiceError::Failed(m))
                && m@ == "failed to unregister Vulkan layer app: "@ + e@,
            AppUnregistration::OthersRemain => r == Ok::<bool, crate::errors::ServiceError>(false),
            AppUnregistration::LastRemoved(Err(e)) => r matches Err(crate::errors::ServiceError::Failed(m))
                && m@ == "failed to remove the shared Vulkan layer: "@ + e@,
            AppUnregistration::LastRemoved(Ok(())) => r == Ok::<bool, crate::errors::ServiceError>(true),
        },
{
    match outcome {
        AppUnregistration::UnsupportedPlatform => Err(crate::errors::vulkan_unsupported_platform()),
        AppUnregistration::NoProgramData => Err(crate::errors::failed("no ProgramData directory")),
        AppUnregistration::Failed(e) => Err(
            crate::errors::ServiceError::Failed(
                String::from_str("failed to unregister Vulkan layer app: ").concat(e.as_str()),
            ),
        ),
        AppUnregistration::OthersRemain => Ok(false),
        AppUnregistration::LastRemoved(Err(e)) => Err(
            crate::errors::ServiceError::Failed(
                String::from_str("failed to remove the shared Vulkan layer: ").concat(e.as_str()),
            ),
        ),
        AppUnregistration::LastRemoved(Ok(())) => Ok(true),
    }
}

/// The shared layer's directory, manifest and DLL paths, from the ProgramData
/// directory when there is one.
pub fn standard_paths(layer_dir: Option<String>) -> (r: Option<(String, String, String)>)
    ensures
        match layer_dir {
            None => r is None,
            Some(d) => r matches Some((dir, manifest, dll)) && dir@ == d@ && manifest@
                == crate::host_policy::join_path(d@, "ReShade64.json"@) && dll@
                == crate::host_policy::join_path(d@, "ReShade64.dll"@),
        },
{
    match layer_dir {
        None => None,
        Some(d) => {
            let manifest = crate::host_policy::join_windows_path(d.as_str(), "ReShade64.json");
            let dll = crate::host_policy::join_windows_path(d.as_str(), "ReShade64.dll");
            Some((d, manifest, dll))
        },
    }
}

} // verus!
