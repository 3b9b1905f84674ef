//! The decisions of the RenoDX install flows: the anti-cheat confirmation gate,
//! the add-on ↔ host bitness invariant, the install plan a resolution yields,
//! the plan of a manual file install, and the availability preview.
use vstd::prelude::*;

use crate::anticheat::{assessment_is, combine, AntiCheatScanReport, RiskAssessment};
use crate::errors::{invalid, invalid_with, ServiceError};
use crate::matcher::{
    resolution_is, selection, title_plan_is, MatchConfidence, RenoDxResolution, ResolvedInstall,
};
use crate::policy::{detected_api, host_for, host_proxy_name, is_generic_risk, title_compatible};
use crate::source::arch_of_file;
use crate::types::{
    AddonKind, Architecture, GraphicsApi, HostKind, IncompatibilityReason, MatchFacts,
    RenoDxManifest, RiskSeverity,
};

verus! {

/// Whether an install may proceed given its risk and the user's confirmation.
#[derive(Clone, Copy, Debug, PartialEq, Eq, Structural)]
pub enum InstallGate {
    /// The install may go ahead.
    Proceed,
    /// The catalogue blocks the install.
    Blocked,
    /// The install needs an explicit confirmation of the ban risk.
    NeedsConfirmation,
}

/// How a severity gates an install: a block always refuses, a warning needs the
/// user's confirmation, anything else proceeds.
pub open spec fn gate_of(severity: RiskSeverity, confirmed: bool) -> InstallGate {
    if severity == RiskSeverity::Block {
        InstallGate::Blocked
    } else if severity == RiskSeverity::Warn && !confirmed {
        InstallGate::NeedsConfirmation
    } else {
        InstallGate::Proceed
    }
}

/// Message of a refused, blocked install.
pub open spec fn blocked_message() -> Seq<char> {
    "RenoDX is blocked for this game and will not be installed"@
}

/// Message of an install that still needs the ban-risk confirmation.
pub open spec fn confirmation_message() -> Seq<char> {
    "RenoDX install requires explicit confirmation of the anti-cheat ban risk"@
}

/// A manifest block always refuses; a warning requires explicit confirmation.
pub fn gate(risk: &RiskAssessment, confirm_anticheat: bool) -> (r: InstallGate)
    ensures
        r == gate_of(risk.severity, confirm_anticheat),
{
    if risk.is_blocked() {
        InstallGate::Blocked
    } else if risk.requires_confirmation() && !confirm_anticheat {
        InstallGate::NeedsConfirmation
    } else {
        InstallGate::Proceed
    }
}

/// The risk gate shared by every install path, as a result.
pub fn enforce_gate(risk: &RiskAssessment, confirm_anticheat: bool) -> (r: Result<(), ServiceError>)
    ensures
        match gate_of(risk.severity, confirm_anticheat) {
            InstallGate::Proceed => r is Ok,
            InstallGate::Blocked => r matches Err(e) && invalid_with(e, blocked_message()),
            InstallGate::NeedsConfirmation => r matches Err(e) && invalid_with(
                e,
                confirmation_message(),
            ),
        },
{
    match gate(risk, confirm_anticheat) {
        InstallGate::Proceed => Ok(()),
        InstallGate::Blocked => Err(
            invalid("RenoDX is blocked for this game and will not be installed"),
        ),
        InstallGate::NeedsConfirmation => Err(
            invalid("RenoDX install requires explicit confirmation of the anti-cheat ban risk"),
        ),
    }
}

/// A blocked install is refused whatever the user confirmed; a warning proceeds
/// exactly when confirmed; an informational risk always proceeds.
pub proof fn lemma_gate_laws(severity: RiskSeverity, confirmed: bool)
    ensures
        severity == RiskSeverity::Block ==> gate_of(severity, confirmed) == InstallGate::Blocked,
        severity == RiskSeverity::Warn ==> (gate_of(severity, confirmed) == InstallGate::Proceed
            <==> confirmed),
        severity == RiskSeverity::Info ==> gate_of(severity, confirmed) == InstallGate::Proceed,
        gate_of(severity, false) == InstallGate::Proceed ==> gate_of(severity, true)
            == InstallGate::Proceed,
{
}

/// Human-readable bitness label of an architecture.
pub open spec fn arch_label_spec(arch: Architecture) -> Seq<char> {
    match arch {
        Architecture::X64 => "64-bit"@,
        Architecture::X86 => "32-bit"@,
    }
}

/// Human-readable bitness label for an architecture-mismatch message.
pub fn arch_label(arch: Architecture) -> (r: &'static str)
    ensures
        r@ == arch_label_spec(arch),
{
    match arch {
        Architecture::X64 => "64-bit",
        Architecture::X86 => "32-bit",
    }
}

/// Stable wire string of an architecture (`x64` / `x86`).
pub open spec fn arch_wire(arch: Architecture) -> Seq<char> {
    match arch {
        Architecture::X64 => "x64"@,
        Architecture::X86 => "x86"@,
    }
}

/// Stable wire string for a game's architecture, for the add-on-arch check.
pub fn arch_str(arch: Architecture) -> (r: String)
    ensures
        r@ == arch_wire(arch),
{
    match arch {
        Architecture::X64 => String::from_str("x64"),
        Architecture::X86 => String::from_str("x86"),
    }
}

/// Message of an add-on whose bitness differs from the install plan's.
pub open spec fn plan_arch_message(file_arch: Architecture, plan_arch: Architecture) -> Seq<char> {
    "this add-on is "@ + arch_label_spec(file_arch) + " but RenoDX for this game needs the "@
        + arch_label_spec(plan_arch) + " build — download the matching add-on"@
}

/// Enforces the add-on ↔ host bitness invariant: a picked add-on must match the
/// architecture of the resolved install plan.
pub fn ensure_addon_arch(file_arch: Architecture, plan_arch: Architecture) -> (r: Result<
    (),
    ServiceError,
>)
    ensures
        r is Ok <==> file_arch == plan_arch,
        r matches Err(e) ==> invalid_with(e, plan_arch_message(file_arch, plan_arch)),
{
    if file_arch != plan_arch {
        let msg = String::from_str("this add-on is ").concat(arch_label(file_arch)).concat(
            " but RenoDX for this game needs the ",
        ).concat(arch_label(plan_arch)).concat(" build — download the matching add-on");
        return Err(ServiceError::InvalidInput(msg));
    }
    Ok(())
}

// ---------------------------------------------------------------------------
// The plan an automatic install acts on
// ---------------------------------------------------------------------------

/// The variant name of a graphics API, as a diagnostic message writes it.
pub open spec fn api_debug(api: GraphicsApi) -> Seq<char> {
    match api {
        GraphicsApi::D3D9 => "D3D9"@,
        GraphicsApi::D3D10 => "D3D10"@,
        GraphicsApi::D3D11 => "D3D11"@,
        GraphicsApi::D3D12 => "D3D12"@,
        GraphicsApi::Vulkan => "Vulkan"@,
        GraphicsApi::OpenGl => "OpenGl"@,
        GraphicsApi::Unknown => "Unknown"@,
    }
}

/// The APIs of a list joined by `, `.
pub open spec fn api_join(apis: Seq<GraphicsApi>) -> Seq<char>
    decreases apis.len(),
{
    if apis.len() == 0 {
        Seq::empty()
    } else if apis.len() == 1 {
        api_debug(apis[0])
    } else {
        api_join(apis.drop_last()) + ", "@ + api_debug(apis.last())
    }
}

/// A reason for an incompatibility, as a diagnostic message writes it.
pub open spec fn incompatibility_debug(reason: IncompatibilityReason) -> Seq<char> {
    match reason {
        IncompatibilityReason::ApiUnsupported { detected } => "ApiUnsupported { detected: "@
            + api_debug(detected) + " }"@,
        IncompatibilityReason::ApiNotAllowed { detected, required } =>
            "ApiNotAllowed { detected: "@ + api_debug(detected) + ", required: ["@ + api_join(
            required@,
        ) + "] }"@,
        IncompatibilityReason::ArchUnknown => "ArchUnknown"@,
    }
}

/// The variant name of a graphics API.
pub fn api_debug_name(api: GraphicsApi) -> (r: &'static str)
    ensures
        r@ == api_debug(api),
{
    match api {
        GraphicsApi::D3D9 => "D3D9",
        GraphicsApi::D3D10 => "D3D10",
        GraphicsApi::D3D11 => "D3D11",
        GraphicsApi::D3D12 => "D3D12",
        GraphicsApi::Vulkan => "Vulkan",
        GraphicsApi::OpenGl => "OpenGl",
        GraphicsApi::Unknown => "Unknown",
    }
}

/// Writes an incompatibility reason for a diagnostic message.
pub fn incompatibility_text(reason: &IncompatibilityReason) -> (r: String)
    ensures
        r@ == incompatibility_debug(*reason),
{
    match reason {
        IncompatibilityReason::ApiUnsupported { detected } => String::from_str(
            "ApiUnsupported { detected: ",
        ).concat(api_debug_name(*detected)).concat(" }"),
        IncompatibilityReason::ApiNotAllowed { detected, required } => {
            let mut list = String::new();
            let n = required.len();
            let mut i: usize = 0;
            while i < n
                invariant
                    n == required@.len(),
                    i <= n,
                    list@ == api_join(required@.subrange(0, i as int)),
                decreases n - i,
            {
                let ghost prefix = required@.subrange(0, i as int);
                let ghost next = required@.subrange(0, i + 1);
                proof {
                    assert(next.drop_last() =~= prefix);
                    assert(next.last() == required@[i as int]);
                }
                if i > 0 {
                    list = list.concat(", ");
                }
                list = list.concat(api_debug_name(required[i]));
                i = i + 1;
            }
            proof {
                assert(required@.subrange(0, n as int) =~= required@);
            }
            String::from_str("ApiNotAllowed { detected: ").concat(api_debug_name(*detected)).concat(
                ", required: [",
            ).concat(list.as_str()).concat("] }")
        },
        IncompatibilityReason::ArchUnknown => String::from_str("ArchUnknown"),
    }
}

/// What an automatic install does with a resolution: act on an installable
/// plan, refuse every other outcome with its message.
pub open spec fn install_outcome_is(res: RenoDxResolution, r: Result<ResolvedInstall, ServiceError>) -> bool {
    match res {
        RenoDxResolution::Installable(plan) => r == Ok::<ResolvedInstall, ServiceError>(*plan),
        RenoDxResolution::External { .. } => r matches Err(e) && invalid_with(
            e,
            "RenoDX for this game is distributed externally; install it manually"@,
        ),
        RenoDxResolution::NativeHdr => r matches Err(e) && invalid_with(
            e,
            "this game has native HDR; RenoDX is not needed"@,
        ),
        RenoDxResolution::Incompatible { reason } => r matches Err(e) && invalid_with(
            e,
            "RenoDX is not compatible with this game: "@ + incompatibility_debug(reason),
        ),
        RenoDxResolution::Unsupported { .. } => r matches Err(e) && invalid_with(
            e,
            "RenoDX is not supported for this game"@,
        ),
        RenoDxResolution::NoMatch => r matches Err(e) && invalid_with(
            e,
            "RenoDX has no profile for this game"@,
        ),
    }
}

/// The install plan of a resolution, or the refusal an automatic install gives.
pub fn installable_plan(resolution: RenoDxResolution) -> (r: Result<ResolvedInstall, ServiceError>)
    ensures
        install_outcome_is(resolution, r),
{
    match resolution {
        RenoDxResolution::Installable(plan) => Ok(*plan),
        RenoDxResolution::External { .. } => Err(
            invalid("RenoDX for this game is distributed externally; install it manually"),
        ),
        RenoDxResolution::NativeHdr => Err(invalid("this game has native HDR; RenoDX is not needed")),
        RenoDxResolution::Incompatible { reason } => {
            let msg = String::from_str("RenoDX is not compatible with this game: ").concat(
                incompatibility_text(&reason).as_str(),
            );
            Err(ServiceError::InvalidInput(msg))
        },
        RenoDxResolution::Unsupported { .. } => Err(invalid("RenoDX is not supported for this game")),
        RenoDxResolution::NoMatch => Err(invalid("RenoDX has no profile for this game")),
    }
}

/// Resolves a game and yields the plan an automatic install acts on.
pub fn plan_install(manifest: &RenoDxManifest, facts: &MatchFacts) -> (r: Result<
    ResolvedInstall,
    ServiceError,
>)
    ensures
        exists|res: RenoDxResolution| #[trigger]
            resolution_is(*manifest, *facts, res) && install_outcome_is(res, r),
{
    let resolution = crate::matcher::resolve(manifest, facts);
    let ghost res = resolution;
    let r = installable_plan(resolution);
    assert(resolution_is(*manifest, *facts, res) && install_outcome_is(res, r));
    r
}

// ---------------------------------------------------------------------------
// A manual install from a user-supplied add-on file
// ---------------------------------------------------------------------------

/// Message of a picked file that is not a RenoDX add-on.
pub open spec fn not_addon_message() -> Seq<char> {
    "the selected file is not a RenoDX add-on (.addon64 / .addon32)"@
}

/// Message of a game whose renderer cannot load a proxy.
pub open spec fn not_direct3d_message() -> Seq<char> {
    "RenoDX cannot be installed for this game: its renderer is not Direct3D"@
}

/// Message of an add-on whose bitness differs from the game's.
pub open spec fn game_arch_message(file_arch: Architecture, game_arch: Architecture) -> Seq<char> {
    "this add-on is "@ + arch_label_spec(file_arch) + " but the game is "@ + arch_label_spec(
        game_arch,
    ) + " — download the matching add-on"@
}

/// The matched title and rule when the game is a compatible external title.
pub open spec fn curated_external(m: RenoDxManifest, facts: MatchFacts) -> Option<(int, int)> {
    match selection(m, facts) {
        Some((ti, ri)) => if m.titles@[ti].category is External && title_compatible(
            m.titles@[ti],
            facts,
        ) {
            Some((ti, ri))
        } else {
            None
        },
        None => None,
    }
}

/// Whether `plan` is the generic "ReShade host + your add-on" plan.
pub open spec fn generic_plan_is(facts: MatchFacts, arch: Architecture, plan: ResolvedInstall) -> bool {
    let host = host_for(detected_api(facts)).unwrap();
    &&& host_for(detected_api(facts)).is_some()
    &&& plan.slug@ == Seq::<char>::empty()
    &&& plan.addon_url@ == Seq::<char>::empty()
    &&& plan.arch == arch
    &&& plan.host_kind == host
    &&& plan.proxy_dll_name@ == host_proxy_name(host, None, facts)
    &&& is_generic_risk(plan.risk)
    &&& plan.confidence == MatchConfidence::Untested
    &&& plan.notes_keys@.len() == 0
}

/// The outcome of planning an install from the add-on file `name`.
pub open spec fn file_install_is(
    m: RenoDxManifest,
    facts: MatchFacts,
    name: Seq<char>,
    r: Result<ResolvedInstall, ServiceError>,
) -> bool {
    match arch_of_file(name) {
        None => r matches Err(e) && invalid_with(e, not_addon_message()),
        Some(fa) => if facts.graphics.architecture is Some && facts.graphics.architecture.unwrap()
            != fa {
            r matches Err(e) && invalid_with(
                e,
                game_arch_message(fa, facts.graphics.architecture.unwrap()),
            )
        } else {
            match curated_external(m, facts) {
                Some((ti, ri)) => {
                    let t = m.titles@[ti];
                    if t.arch == fa {
                        r matches Ok(plan) && title_plan_is(
                            m,
                            t,
                            t.match_rules@[ri].kind,
                            facts,
                            plan,
                        )
                    } else {
                        r matches Err(e) && invalid_with(e, plan_arch_message(fa, t.arch))
                    }
                },
                None => if host_for(detected_api(facts)).is_some() {
                    r matches Ok(plan) && generic_plan_is(facts, fa, plan)
                } else {
                    r matches Err(e) && invalid_with(e, not_direct3d_message())
                },
            }
        },
    }
}

/// Plans an install from a user-downloaded add-on file, for any game whose
/// renderer can load a proxy: the file must be an add-on whose bitness matches
/// the game's and the plan's; a compatible external title yields its curated
/// plan, any other game the generic one.
pub fn plan_file_install(manifest: &RenoDxManifest, facts: &MatchFacts, file_name: &str) -> (r:
    Result<ResolvedInstall, ServiceError>)
    ensures
        file_install_is(*manifest, *facts, file_name@, r),
{
    let file_arch = match crate::source::arch_from_addon_file(file_name) {
        Some(a) => a,
        None => {
            return Err(invalid("the selected file is not a RenoDX add-on (.addon64 / .addon32)"));
        },
    };
    if let Some(game_arch) = facts.graphics.architecture {
        if game_arch != file_arch {
            let msg = String::from_str("this add-on is ").concat(arch_label(file_arch)).concat(
                " but the game is ",
            ).concat(arch_label(game_arch)).concat(" — download the matching add-on");
            return Err(ServiceError::InvalidInput(msg));
        }
    }
    let plan = match crate::matcher::resolve_external_install(manifest, facts) {
        Some(p) => p,
        None => match crate::matcher::generic_file_install_plan(facts, file_arch) {
            Some(p) => p,
            None => {
                return Err(
                    invalid(
                        "RenoDX cannot be installed for this game: its renderer is not Direct3D",
                    ),
                );
            },
        },
    };
    match ensure_addon_arch(file_arch, plan.arch) {
        Ok(()) => Ok(plan),
        Err(e) => Err(e),
    }
}

// ---------------------------------------------------------------------------
// The availability preview
// ---------------------------------------------------------------------------

/// The installability verdict for a game.
#[derive(Clone, Debug)]
pub enum AvailabilityOutcome {
    /// A compatible game matched; the add-on can be installed.
    Installable {
        /// Confidence shown to the user.
        confidence: MatchConfidence,
        /// Ban/stability risk and whether explicit confirmation is required.
        risk: RiskAssessment,
        /// i18n note/requirement keys.
        notes_keys: Vec<String>,
        /// How RenoDX would hook in.
        host_kind: HostKind,
    },
    /// The add-on is distributed off-GitHub.
    External {
        /// Where to send the user.
        url: String,
        /// i18n label key for the link.
        label_key: String,
        /// Present when the game is compatible, enabling "install from file".
        file_install: Option<ExternalFileInstall>,
    },
    /// The game already has native HDR.
    NativeHdr,
    /// A game matched but cannot be installed for it.
    Incompatible {
        /// Why it cannot be installed.
        reason: IncompatibilityReason,
    },
    /// The game is blacklisted / known-broken.
    Blacklisted {
        /// i18n reason key, when the catalogue gives one.
        reason: Option<String>,
    },
    /// No RenoDX profile matched the game.
    Unsupported,
    /// Another add-on tool occupies the game.
    BlockedByOtherAddon {
        /// The other add-on tool.
        other_kind: AddonKind,
        /// Whether the block came from an unmanaged on-disk install.
        unmanaged: bool,
    },
}

/// The manual file-install escape hatch: install the ReShade host and add a
/// user-downloaded add-on.
#[derive(Clone, Debug)]
pub struct ManualFileInstall {
    /// Ban/stability risk and whether explicit confirmation is required.
    pub risk: RiskAssessment,
    /// How RenoDX would hook in.
    pub host_kind: HostKind,
    /// The catalogue add-on stem (`renodx-<slug>`) when a title matched.
    pub expected_addon_name: Option<String>,
    /// The game's architecture (`x64` / `x86`), when detected.
    pub game_arch: Option<String>,
}

/// The file-install offer for a compatible external game.
#[derive(Clone, Debug)]
pub struct ExternalFileInstall {
    /// Confidence shown to the user.
    pub confidence: MatchConfidence,
    /// Ban/stability risk and whether explicit confirmation is required.
    pub risk: RiskAssessment,
    /// i18n note/requirement keys.
    pub notes_keys: Vec<String>,
    /// How RenoDX would hook in.
    pub host_kind: HostKind,
}

/// The availability verdict of a resolution, its risks assessed against a
/// local anti-cheat scan.
pub open spec fn outcome_is(res: RenoDxResolution, scan: AntiCheatScanReport, r: AvailabilityOutcome) -> bool {
    match res {
        RenoDxResolution::Installable(plan) => match r {
            AvailabilityOutcome::Installable { confidence, risk, notes_keys, host_kind } => {
                &&& confidence == plan.confidence
                &&& assessment_is(plan.risk, scan, risk)
                &&& notes_keys@ == plan.notes_keys@
                &&& host_kind == plan.host_kind
            },
            _ => false,
        },
        RenoDxResolution::External { url, label_key, file_install } => match r {
            AvailabilityOutcome::External { url: u, label_key: l, file_install: fi } => {
                &&& u@ == url@
                &&& l@ == label_key@
                &&& fi.is_some() == file_install.is_some()
                &&& fi matches Some(f) ==> {
                    let ext = *file_install.unwrap();
                    &&& f.confidence == ext.confidence
                    &&& assessment_is(ext.risk, scan, f.risk)
                    &&& f.notes_keys@ == ext.notes_keys@
                    &&& f.host_kind == ext.host_kind
                }
            },
            _ => false,
        },
        RenoDxResolution::NativeHdr => r is NativeHdr,
        RenoDxResolution::Incompatible { reason } => r == (AvailabilityOutcome::Incompatible {
            reason,
        }),
        RenoDxResolution::Unsupported { reason } => r == (AvailabilityOutcome::Blacklisted {
            reason,
        }),
        RenoDxResolution::NoMatch => r is Unsupported,
    }
}

/// The availability verdict of a resolution, with each risk merged with the
/// local anti-cheat scan.
pub fn availability_outcome(resolution: RenoDxResolution, scan: &AntiCheatScanReport) -> (r:
    AvailabilityOutcome)
    ensures
        outcome_is(resolution, *scan, r),
{
    match resolution {
        RenoDxResolution::Installable(plan) => AvailabilityOutcome::Installable {
            confidence: plan.confidence,
            risk: combine(&plan.risk, scan),
            notes_keys: plan.notes_keys,
            host_kind: plan.host_kind,
        },
        RenoDxResolution::External { url, label_key, file_install } => {
            let fi = match file_install {
                Some(ext) => Some(
                    ExternalFileInstall {
                        confidence: ext.confidence,
                        risk: combine(&ext.risk, scan),
                        notes_keys: ext.notes_keys,
                        host_kind: ext.host_kind,
                    },
                ),
                None => None,
            };
            AvailabilityOutcome::External { url, label_key, file_install: fi }
        },
        RenoDxResolution::NativeHdr => AvailabilityOutcome::NativeHdr,
        RenoDxResolution::Incompatible { reason } => AvailabilityOutcome::Incompatible { reason },
        RenoDxResolution::Unsupported { reason } => AvailabilityOutcome::Blacklisted { reason },
        RenoDxResolution::NoMatch => AvailabilityOutcome::Unsupported,
    }
}

/// Whether the manual escape hatch is offered: only where there is no automatic
/// or curated-external path and the renderer can load a proxy or the layer.
pub open spec fn manual_offered(res: RenoDxResolution, facts: MatchFacts) -> bool {
    (res is Incompatible || res is NoMatch) && host_for(detected_api(facts)).is_some()
}

/// The manual file-install offer of the availability preview.
pub open spec fn manual_install_is(
    m: RenoDxManifest,
    facts: MatchFacts,
    res: RenoDxResolution,
    scan: AntiCheatScanReport,
    r: Option<ManualFileInstall>,
) -> bool {
    if !manual_offered(res, facts) {
        r is None
    } else {
        r matches Some(offer) && {
            &&& exists|g: crate::types::Risk| is_generic_risk(g) && #[trigger] assessment_is(
                g,
                scan,
                offer.risk,
            )
            &&& offer.host_kind == host_for(detected_api(facts)).unwrap()
            &&& match selection(m, facts) {
                Some((ti, _)) => offer.expected_addon_name matches Some(n) && n@ == "renodx-"@
                    + m.titles@[ti].slug@,
                None => offer.expected_addon_name is None,
            }
            &&& match facts.graphics.architecture {
                Some(a) => offer.game_arch matches Some(s) && s@ == arch_wire(a),
                None => offer.game_arch is None,
            }
        }
    }
}

/// The manual file-install escape hatch for the availability preview: offered
/// only for an unmatched game or an incompatible one whose renderer can still
/// load RenoDX; a blacklisted, native-HDR, installable or external game gets
/// `None`.
pub fn manual_file_install(
    manifest: &RenoDxManifest,
    facts: &MatchFacts,
    resolution: &RenoDxResolution,
    scan: &AntiCheatScanReport,
) -> (r: Option<ManualFileInstall>)
    ensures
        manual_install_is(*manifest, *facts, *resolution, *scan, r),
{
    let offered = match resolution {
        RenoDxResolution::Incompatible { .. } => true,
        RenoDxResolution::NoMatch => true,
        _ => false,
    };
    if !offered {
        return None;
    }
    let host_kind = match crate::policy::host_decision(crate::policy::primary_api(&facts.graphics)) {
        Some(h) => h,
        None => {
            return None;
        },
    };
    let expected_addon_name = match crate::matcher::matched_slug(manifest, facts) {
        Some(slug) => Some(String::from_str("renodx-").concat(slug.as_str())),
        None => None,
    };
    let game_arch = match facts.graphics.architecture {
        Some(a) => Some(arch_str(a)),
        None => None,
    };
    let generic = crate::policy::generic_risk();
    let risk = combine(&generic, scan);
    assert(is_generic_risk(generic) && assessment_is(generic, *scan, risk));
    Some(
        ManualFileInstall {
            risk,
            host_kind,
            expected_addon_name,
            game_arch,
        },
    )
}

} // verus!
