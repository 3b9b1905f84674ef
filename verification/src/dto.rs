//! Backend-authored report shapes the UI renders: action descriptors, the
//! RenoDX update report, and the shared Vulkan layer report.
use vstd::prelude::*;

use crate::types::{ReshadeChannel, UpdateStatus};

verus! {

/// Confirmation scope for a backend-authored action.
#[derive(Clone, Copy, Debug, PartialEq, Eq, Structural)]
pub enum ActionConfirmationScope {
    /// Anti-cheat risk confirmation.
    Anticheat,
    /// The action affects all Vulkan RenoDX games.
    AllVulkanRenoDxGames,
}

/// Public reason an action is disabled.
#[derive(Clone, Copy, Debug, PartialEq, Eq, Structural)]
pub enum ActionDisabledReason {
    /// A conflict must be resolved first.
    BlockedByConflict,
    /// Risk policy blocks the action.
    BlockedByRisk,
    /// Stable is unavailable in the catalogue.
    StableUnavailable,
    /// The visible target is read-only.
    ReadOnly,
    /// Unsupported platform or architecture.
    Unsupported,
    /// More validation is needed first.
    ValidationRequired,
}

/// Backend-authored action descriptor; absence means the UI must not render it.
#[derive(Clone, Copy, Debug, PartialEq, Eq, Structural)]
pub struct ActionDescriptor {
    /// Whether the action can be invoked.
    pub enabled: bool,
    /// Whether confirmation is required first.
    pub requires_confirmation: bool,
    /// Confirmation scope, when required.
    pub confirmation_scope: Option<ActionConfirmationScope>,
    /// Why the action is disabled, when disabled.
    pub disabled_reason: Option<ActionDisabledReason>,
    /// Target channel of a channel-switch action.
    pub target_channel: Option<ReshadeChannel>,
}

impl ActionDescriptor {
    /// An enabled action.
    pub fn enabled() -> (r: Self)
        ensures
            r == (ActionDescriptor {
                enabled: true,
                requires_confirmation: false,
                confirmation_scope: None,
                disabled_reason: None,
                target_channel: None,
            }),
    {
        ActionDescriptor {
            enabled: true,
            requires_confirmation: false,
            confirmation_scope: None,
            disabled_reason: None,
            target_channel: None,
        }
    }

    /// A disabled action with a public reason.
    pub fn disabled(reason: ActionDisabledReason) -> (r: Self)
        ensures
            r == (ActionDescriptor {
                enabled: false,
                requires_confirmation: false,
                confirmation_scope: None,
                disabled_reason: Some(reason),
                target_channel: None,
            }),
    {
        ActionDescriptor {
            enabled: false,
            requires_confirmation: false,
            confirmation_scope: None,
            disabled_reason: Some(reason),
            target_channel: None,
        }
    }

    /// Adds a confirmation requirement.
    pub fn with_confirmation(self, scope: ActionConfirmationScope) -> (r: Self)
        ensures
            r == (ActionDescriptor {
                requires_confirmation: true,
                confirmation_scope: Some(scope),
                ..self
            }),
    {
        let mut d = self;
        d.requires_confirmation = true;
        d.confirmation_scope = Some(scope);
        d
    }

    /// Adds a target channel.
    pub fn with_target_channel(self, channel: ReshadeChannel) -> (r: Self)
        ensures
            r == (ActionDescriptor { target_channel: Some(channel), ..self }),
    {
        let mut d = self;
        d.target_channel = Some(channel);
        d
    }
}

/// Severity order of update verdicts used when combining them: an available
/// update outweighs any uncertainty, which outweighs a current verdict.
pub open spec fn update_weight(s: UpdateStatus) -> int {
    match s {
        UpdateStatus::Current => 0,
        UpdateStatus::Unknown => 1,
        UpdateStatus::UnknownNeedsValidation => 2,
        UpdateStatus::Available => 3,
    }
}

/// The combined verdict of two sources: the weightier of the two.
pub open spec fn combined(a: UpdateStatus, b: UpdateStatus) -> UpdateStatus {
    if update_weight(a) >= update_weight(b) {
        a
    } else {
        b
    }
}

/// Combines two update verdicts into one.
pub fn combine_status(a: UpdateStatus, b: UpdateStatus) -> (r: UpdateStatus)
    ensures
        r == combined(a, b),
{
    let wa: u8 = match a {
        UpdateStatus::Current => 0,
        UpdateStatus::Unknown => 1,
        UpdateStatus::UnknownNeedsValidation => 2,
        UpdateStatus::Available => 3,
    };
    let wb: u8 = match b {
        UpdateStatus::Current => 0,
        UpdateStatus::Unknown => 1,
        UpdateStatus::UnknownNeedsValidation => 2,
        UpdateStatus::Available => 3,
    };
    if wa >= wb {
        a
    } else {
        b
    }
}

/// Closed diagnostics for read-only/conflict shared-layer states.
#[derive(Clone, Copy, Debug, PartialEq, Eq, Structural)]
pub enum LayerDiagnosticReason {
    /// A compatible existing layer is visible but action rights are unavailable.
    ExternalLayerDetected,
    /// More than one matching layer manifest or name is visible.
    DuplicateLayerManifest,
    /// Loader visibility cannot be resolved safely.
    AmbiguousLoaderVisibility,
    /// A manifest points at a DLL that is not present.
    MissingLayerDll,
    /// A manifest points at a DLL that cannot be read.
    UnreadableDll,
    /// A registry entry points to a missing manifest.
    MissingManifest,
    /// The standard manifest is not registered with the loader.
    RegistryMissing,
    /// The loader registry entry is disabled.
    RegistryDisabled,
    /// The visible layer architecture is unsupported.
    UnsupportedArchitecture,
    /// HKCU registration may be skipped for elevated games.
    HkcuNotVisibleWhenElevated,
    /// A layer manifest could not be parsed or trusted.
    ManifestMalformed,
    /// The required registry scope cannot be written.
    RegistryScopeNotWritable,
    /// The operating system denied a required operation.
    PermissionDenied,
    /// Backend validation failed.
    BackendValidationFailed,
    /// The actual DLL digest does not match upstream.
    HashMismatch,
    /// Only an advisory stored digest is available.
    DbOnlyFallback,
}

/// A per-source update report for RenoDX, its ReShade host and the DLSS-Fix companion.
#[derive(Clone, Debug)]
pub struct RenoDxUpdateReport {
    /// Verdict for the add-on payload; `None` when it is not tracked.
    pub addon: Option<UpdateStatus>,
    /// Verdict for the ReShade host; `None` when none can be derived.
    pub host: Option<UpdateStatus>,
    /// Verdict for the DLSS-Fix companion; `None` when not installed.
    pub dlss_fix: Option<UpdateStatus>,
    /// The generic verdict, combining only the add-on and the host.
    pub overall: UpdateStatus,
    /// Shared-Vulkan digest diagnostics.
    pub vulkan_diagnostics: Vec<LayerDiagnosticReason>,
}

/// The overall status, where a missing add-on counts as unknown, a missing host as
/// current, and the DLSS-Fix companion never takes part.
pub open spec fn overall_of(addon: Option<UpdateStatus>, host: Option<UpdateStatus>) -> UpdateStatus {
    combined(
        match addon {
            Some(a) => a,
            None => UpdateStatus::Unknown,
        },
        match host {
            Some(h) => h,
            None => UpdateStatus::Current,
        },
    )
}

impl RenoDxUpdateReport {
    /// Creates a report, combining the add-on and host verdicts into `overall`.
    pub fn new(
        addon: Option<UpdateStatus>,
        host: Option<UpdateStatus>,
        dlss_fix: Option<UpdateStatus>,
    ) -> (r: Self)
        ensures
            r.addon == addon,
            r.host == host,
            r.dlss_fix == dlss_fix,
            r.overall == overall_of(addon, host),
            r.vulkan_diagnostics@.len() == 0,
    {
        let a = match addon {
            Some(a) => a,
            None => UpdateStatus::Unknown,
        };
        let h = match host {
            Some(h) => h,
            None => UpdateStatus::Current,
        };
        let overall = combine_status(a, h);
        RenoDxUpdateReport { addon, host, dlss_fix, overall, vulkan_diagnostics: Vec::new() }
    }

    /// Creates a report carrying shared-Vulkan digest diagnostics.
    pub fn with_vulkan_diagnostics(
        addon: Option<UpdateStatus>,
        host: Option<UpdateStatus>,
        dlss_fix: Option<UpdateStatus>,
        vulkan_diagnostics: Vec<LayerDiagnosticReason>,
    ) -> (r: Self)
        ensures
            r.addon == addon,
            r.host == host,
            r.dlss_fix == dlss_fix,
            r.overall == overall_of(addon, host),
            r.vulkan_diagnostics@ == vulkan_diagnostics@,
    {
        let mut report = Self::new(addon, host, dlss_fix);
        report.vulkan_diagnostics = vulkan_diagnostics;
        report
    }
}

/// Public shared-layer detection state.
#[derive(Clone, Copy, Debug, PartialEq, Eq, Structural)]
pub enum VulkanLayerDetection {
    /// No compatible shared layer is visible.
    NotInstalled,
    /// Exactly one compatible layer is visible and actions are available.
    Installed,
    /// The standard layer is registered but disabled.
    InstalledDisabled,
    /// A compatible layer is visible, but only observation is safe.
    ExternalReadOnly,
    /// The visible state is ambiguous or broken.
    Conflict,
    /// Layer management is unsupported here.
    Unsupported,
}

/// Loader visibility caveats.
#[derive(Clone, Copy, Debug, PartialEq, Eq, Structural)]
pub enum VulkanLoaderVisibility {
    /// Normal loader discovery applies.
    Normal,
    /// HKCU discovery may not apply to elevated games.
    HkcuNotVisibleWhenElevated,
    /// No single clear visibility claim.
    Ambiguous,
}

/// Architecture of the visible shared layer.
#[derive(Clone, Copy, Debug, PartialEq, Eq, Structural)]
pub enum VulkanLayerArchitecture {
    /// 64-bit.
    X64,
    /// 32-bit.
    X86,
    /// Not known.
    Unknown,
}

/// Observable facts about the shared Vulkan layer.
#[derive(Clone, Debug)]
pub struct VulkanLayerFacts {
    /// Path of the visible manifest.
    pub manifest_path: Option<String>,
    /// Path of the layer DLL.
    pub dll_path: Option<String>,
    /// Display version.
    pub version: Option<String>,
    /// Detected architecture.
    pub architecture: VulkanLayerArchitecture,
    /// Loader visibility caveat.
    pub loader_visibility: VulkanLoaderVisibility,
}

/// Backend-authored actions for the shared Vulkan layer.
#[derive(Clone, Copy, Debug, PartialEq, Eq, Structural)]
pub struct VulkanLayerActions {
    /// Install the shared layer.
    pub install: Option<ActionDescriptor>,
    /// Update the shared layer.
    pub update: Option<ActionDescriptor>,
    /// Switch the shared layer channel.
    pub switch_channel: Option<ActionDescriptor>,
    /// Remove the shared layer.
    pub remove: Option<ActionDescriptor>,
    /// Resolve a layer conflict.
    pub resolve_conflict: Option<ActionDescriptor>,
}

/// Public shared Vulkan layer report.
#[derive(Clone, Debug)]
pub struct VulkanLayerReport {
    /// Detection state.
    pub layer_detection: VulkanLayerDetection,
    /// Observable facts.
    pub layer_facts: VulkanLayerFacts,
    /// Diagnostics ordered by display priority.
    pub diagnostic_reasons: Vec<LayerDiagnosticReason>,
    /// Backend-authored actions.
    pub actions: VulkanLayerActions,
}

impl VulkanLayerReport {
    /// The detection state.
    pub fn detection(&self) -> (r: VulkanLayerDetection)
        ensures
            r == self.layer_detection,
    {
        self.layer_detection
    }
}

/// Settings-facing shared Vulkan layer report.
#[derive(Clone, Debug)]
pub struct VulkanLayerManagementReport {
    /// Current shared layer report.
    pub layer: VulkanLayerReport,
    /// Whether the catalogue can provide Stable ReShade.
    pub reshade_stable_supported: bool,
    /// Channel recorded in the advisory shared-artifact record.
    pub recorded_channel: Option<ReshadeChannel>,
    /// Effective channel when none is recorded.
    pub default_channel: ReshadeChannel,
    /// Status of the ReShade update check, if checked.
    pub update_status: Option<UpdateStatus>,
}

} // verus!
