//! The RenoDX catalogue model and the shared vocabulary of the library.
use vstd::prelude::*;

verus! {

/// CPU architecture of an executable or add-on.
#[derive(Clone, Copy, Debug, PartialEq, Eq, Structural)]
pub enum Architecture {
    /// 64-bit.
    X64,
    /// 32-bit.
    X86,
}

/// The add-on file extension for an architecture, as characters.
pub open spec fn addon_extension_spec(arch: Architecture) -> Seq<char> {
    match arch {
        Architecture::X64 => seq!['a', 'd', 'd', 'o', 'n', '6', '4'],
        Architecture::X86 => seq!['a', 'd', 'd', 'o', 'n', '3', '2'],
    }
}

impl Architecture {
    /// The ReShade add-on extension for this architecture (`addon64` / `addon32`).
    pub fn addon_extension(&self) -> (r: &'static str)
        ensures
            r@ == addon_extension_spec(*self),
    {
        match self {
            Architecture::X64 => {
                let r = "addon64";
                proof {
                    reveal_strlit("addon64");
                }
                r
            },
            Architecture::X86 => {
                let r = "addon32";
                proof {
                    reveal_strlit("addon32");
                }
                r
            },
        }
    }
}

/// A graphics API an executable imports.
#[derive(Clone, Copy, Debug, PartialEq, Eq, Structural)]
pub enum GraphicsApi {
    /// Direct3D 9.
    D3D9,
    /// Direct3D 10.
    D3D10,
    /// Direct3D 11.
    D3D11,
    /// Direct3D 12.
    D3D12,
    /// Vulkan.
    Vulkan,
    /// OpenGL.
    OpenGl,
    /// Detection was inconclusive.
    Unknown,
}

/// The launcher that owns a game.
#[derive(Clone, Copy, Debug, PartialEq, Eq, Structural)]
pub enum Launcher {
    /// Steam.
    Steam,
    /// Epic Games.
    Epic,
    /// GOG.
    Gog,
    /// EA App / Origin.
    Ea,
    /// Ubisoft Connect.
    Ubisoft,
    /// A manually added folder.
    Manual,
}

/// Wiki test-map status of a catalogue entry.
#[derive(Clone, Copy, Debug, PartialEq, Eq, Structural)]
pub enum Status {
    /// Verified working.
    Working,
    /// Work in progress.
    Construction,
    /// Not tested.
    Unknown,
}

/// Release channel of a catalogue entry.
#[derive(Clone, Copy, Debug, PartialEq, Eq, Structural)]
pub enum Channel {
    /// Stable.
    Stable,
    /// Beta.
    Beta,
    /// Snapshot.
    Snapshot,
}

/// Kind of a match rule.
#[derive(Clone, Copy, Debug, PartialEq, Eq, Structural)]
pub enum MatchKind {
    /// Steam application id.
    SteamAppid,
    /// Epic catalogue id.
    EpicId,
    /// GOG product id.
    GogId,
    /// SHA-256 of the executable.
    ExeSha256,
    /// Executable file name glob.
    ExeName,
    /// Detected engine name.
    Engine,
    /// Catch-all.
    Generic,
}

/// One tiered match rule of a title.
#[derive(Clone, Debug)]
pub struct MatchRule {
    /// What the rule compares.
    pub kind: MatchKind,
    /// The value compared against.
    pub value: String,
    /// Specificity; higher wins.
    pub tier: u32,
}

/// An engine an engine-generic add-on targets.
#[derive(Clone, Copy, Debug, PartialEq, Eq, Structural)]
pub enum Engine {
    /// Unreal Engine.
    Unreal,
    /// Unreal Engine, extended profile.
    UnrealExtended,
    /// Unity.
    Unity,
}

/// The wire key of an engine.
pub open spec fn engine_key(engine: Engine) -> Seq<char> {
    match engine {
        Engine::Unreal => seq!['u', 'n', 'r', 'e', 'a', 'l'],
        Engine::UnrealExtended => seq![
            'u', 'n', 'r', 'e', 'a', 'l', '_', 'e', 'x', 't', 'e', 'n', 'd', 'e', 'd',
        ],
        Engine::Unity => seq!['u', 'n', 'i', 't', 'y'],
    }
}

impl Engine {
    /// The wire key of the engine (`unreal`, `unreal_extended`, `unity`).
    pub fn as_str(&self) -> (r: &'static str)
        ensures
            r@ == engine_key(*self),
    {
        match self {
            Engine::Unreal => {
                let r = "unreal";
                proof {
                    reveal_strlit("unreal");
                }
                r
            },
            Engine::UnrealExtended => {
                let r = "unreal_extended";
                proof {
                    reveal_strlit("unreal_extended");
                }
                r
            },
            Engine::Unity => {
                let r = "unity";
                proof {
                    reveal_strlit("unity");
                }
                r
            },
        }
    }
}

/// How a matched title is routed.
#[derive(Clone, Debug)]
pub enum Category {
    /// A standard RenoDX install.
    Installable,
    /// The add-on is distributed off-GitHub.
    External {
        /// Link the UI opens.
        url: String,
        /// i18n key of the link label.
        label_key: String,
    },
    /// The game already has native HDR.
    NativeHdr,
    /// RenoDX is known-broken for the game.
    Blacklist {
        /// i18n key explaining why.
        reason: String,
    },
}

/// Constraints that gate whether a title can be installed.
#[derive(Clone, Debug)]
pub struct Compatibility {
    /// Graphics APIs the title supports; empty means no constraint.
    pub required_api: Vec<GraphicsApi>,
    /// Known-conflicting mod ids.
    pub conflicts: Vec<String>,
    /// Provenance of the conflicts list.
    pub source: Option<String>,
}

/// Severity of installing RenoDX into a game.
#[derive(Clone, Copy, Debug, PartialEq, Eq, Structural)]
pub enum RiskSeverity {
    /// Safe to proceed.
    Info,
    /// Requires explicit confirmation.
    Warn,
    /// Refused.
    Block,
}

/// Anti-cheat engine protecting a game.
#[derive(Clone, Copy, Debug, PartialEq, Eq, Structural)]
pub enum AnticheatEngine {
    /// No anti-cheat.
    NoAnticheat,
    /// Unknown anti-cheat status.
    Unknown,
    /// Easy Anti-Cheat.
    Eac,
    /// BattlEye.
    BattlEye,
    /// Another anti-cheat.
    Other,
}

/// Online classification of a game.
#[derive(Clone, Copy, Debug, PartialEq, Eq, Structural)]
pub enum OnlineKind {
    /// Single-player only.
    Singleplayer,
    /// Co-operative multiplayer.
    Coop,
    /// Competitive multiplayer.
    Pvp,
    /// Unknown.
    Unknown,
}

/// Confidence in a risk assessment.
#[derive(Clone, Copy, Debug, PartialEq, Eq, Structural)]
pub enum AssessmentConfidence {
    /// Low.
    Low,
    /// Medium.
    Medium,
    /// High.
    High,
}

/// The curated ban/stability risk of a title.
#[derive(Clone, Debug)]
pub struct Risk {
    /// Anti-cheat engine named by the catalogue.
    pub anticheat_engine: AnticheatEngine,
    /// Online classification.
    pub online: OnlineKind,
    /// Severity.
    pub severity: RiskSeverity,
    /// i18n message key.
    pub message_key: String,
    /// Confidence.
    pub confidence: AssessmentConfidence,
    /// Reference URL of the assessment.
    pub source: Option<String>,
}

/// A matchable game of the catalogue.
#[derive(Clone, Debug)]
pub struct Title {
    /// Stable identifier.
    pub id: String,
    /// Display name.
    pub name: String,
    /// Routing once matched.
    pub category: Category,
    /// Upstream add-on slug.
    pub slug: String,
    /// Add-on architecture.
    pub arch: Architecture,
    /// Wiki status.
    pub status: Status,
    /// Release channel.
    pub channel: Channel,
    /// Minimum app version.
    pub min_app_version: String,
    /// Ordered match rules.
    pub match_rules: Vec<MatchRule>,
    /// Install constraints.
    pub compatibility: Compatibility,
    /// Proxy DLL override.
    pub proxy_dll_override: Option<String>,
    /// i18n note keys.
    pub notes_keys: Vec<String>,
    /// Explicit download URL.
    pub download_url: Option<String>,
    /// Curated risk.
    pub risk: Risk,
}

/// An engine-generic add-on.
#[derive(Clone, Debug)]
pub struct Generic {
    /// Engine targeted.
    pub engine: Engine,
    /// Compatibility status.
    pub status: Status,
    /// Canonical local slug.
    pub slug: Option<String>,
    /// Explicit 64-bit URL.
    pub url64: Option<String>,
    /// Explicit 32-bit URL.
    pub url32: Option<String>,
    /// i18n label key.
    pub label_key: Option<String>,
}

/// Shared title defaults.
#[derive(Clone, Debug)]
pub struct Defaults {
    /// Default minimum app version.
    pub min_app_version: String,
    /// Default channel.
    pub channel: Channel,
}

/// The RenoDX catalogue document.
#[derive(Clone, Debug)]
pub struct RenoDxManifest {
    /// Schema version of the document.
    pub schema_version: u32,
    /// Generation timestamp.
    pub generated_at: String,
    /// Engine-generic fallbacks.
    pub generics: Vec<Generic>,
    /// Shared title defaults.
    pub defaults: Defaults,
    /// Every title of the catalogue.
    pub titles: Vec<Title>,
}

/// ReShade release channel.
#[derive(Clone, Copy, Debug, PartialEq, Eq, Structural)]
pub enum ReshadeChannel {
    /// Official release.
    Stable,
    /// CI nightly build.
    Nightly,
}

/// The wire key of a ReShade channel.
pub open spec fn reshade_channel_key(channel: ReshadeChannel) -> Seq<char> {
    match channel {
        ReshadeChannel::Stable => seq!['s', 't', 'a', 'b', 'l', 'e'],
        ReshadeChannel::Nightly => seq!['n', 'i', 'g', 'h', 't', 'l', 'y'],
    }
}

impl ReshadeChannel {
    /// The wire key (`stable` / `nightly`).
    pub fn as_str(&self) -> (r: &'static str)
        ensures
            r@ == reshade_channel_key(*self),
    {
        match self {
            ReshadeChannel::Stable => {
                let r = "stable";
                proof {
                    reveal_strlit("stable");
                }
                r
            },
            ReshadeChannel::Nightly => {
                let r = "nightly";
                proof {
                    reveal_strlit("nightly");
                }
                r
            },
        }
    }
}

/// The add-on tools the application manages.
#[derive(Clone, Copy, Debug, PartialEq, Eq, Structural)]
pub enum AddonKind {
    /// RenoDX.
    RenoDx,
    /// Luma.
    Luma,
}

/// How RenoDX hooks into a game.
#[derive(Clone, Copy, Debug, PartialEq, Eq, Structural)]
pub enum HostKind {
    /// A per-game ReShade proxy DLL.
    Proxy,
    /// The shared ReShade Vulkan layer.
    Vulkan,
}

/// Update verdict for one tracked source.
#[derive(Clone, Copy, Debug, PartialEq, Eq, Structural)]
pub enum UpdateStatus {
    /// The installed artifact matches upstream.
    Current,
    /// A newer artifact is available.
    Available,
    /// Nothing upstream to compare against.
    Unknown,
    /// Only weak evidence is available; stronger validation is needed.
    UnknownNeedsValidation,
}

/// Graphics facts detected from an executable.
#[derive(Clone, Debug)]
pub struct ExeGraphicsInfo {
    /// Graphics APIs the executable imports.
    pub apis: Vec<GraphicsApi>,
    /// Architecture, when detection could read it.
    pub architecture: Option<Architecture>,
    /// Graphics DLL names the executable imports (lower-case).
    pub graphics_dlls: Vec<String>,
}

/// Facts about an installed game that match rules are evaluated against.
#[derive(Clone, Debug)]
pub struct MatchFacts {
    /// Launcher that owns the game.
    pub launcher: Launcher,
    /// Launcher-specific id.
    pub external_id: Option<String>,
    /// Executable file name.
    pub exe_file_name: Option<String>,
    /// Lower-case SHA-256 hex of the executable.
    pub exe_sha256: Option<String>,
    /// Detected engine identifier.
    pub engine: Option<String>,
    /// Graphics facts of the executable.
    pub graphics: ExeGraphicsInfo,
}

/// Reason a matched game cannot be installed.
#[derive(Clone, Debug)]
pub enum IncompatibilityReason {
    /// The detected API has no host RenoDX can drive.
    ApiUnsupported {
        /// API detected from the executable.
        detected: GraphicsApi,
    },
    /// The detected API is supported but not allowed by the title.
    ApiNotAllowed {
        /// API detected from the executable.
        detected: GraphicsApi,
        /// APIs the title declares.
        required: Vec<GraphicsApi>,
    },
    /// The executable architecture could not be determined.
    ArchUnknown,
}

impl Risk {
    /// An exact copy of the risk.
    pub fn duplicate(&self) -> (r: Self)
        ensures
            r == *self,
    {
        Risk {
            anticheat_engine: self.anticheat_engine,
            online: self.online,
            severity: self.severity,
            message_key: self.message_key.clone(),
            confidence: self.confidence,
            source: crate::text::clone_opt(&self.source),
        }
    }
}

/// An exact copy of a list of graphics APIs.
pub fn copy_apis(v: &Vec<GraphicsApi>) -> (r: Vec<GraphicsApi>)
    ensures
        r@ == v@,
{
    let n = v.len();
    let mut out: Vec<GraphicsApi> = Vec::new();
    let mut i: usize = 0;
    while i < n
        invariant
            n == v@.len(),
            i <= n,
            out@ == v@.subrange(0, i as int),
        decreases n - i,
    {
        out.push(v[i]);
        proof {
            assert(out@ =~= v@.subrange(0, i + 1));
        }
        i = i + 1;
    }
    proof {
        assert(v@.subrange(0, n as int) =~= v@);
    }
    out
}

// ---------------------------------------------------------------------------
// Defaults
// ---------------------------------------------------------------------------

/// Default minimum app version a title requires when it omits its own.
pub open spec fn default_min_app_version_spec() -> Seq<char> {
    "1.0.0"@
}

/// The minimum app version a title requires when it omits its own.
pub fn default_min_app_version() -> (r: String)
    ensures
        r@ == default_min_app_version_spec(),
{
    String::from_str("1.0.0")
}

/// The catalogue's shared title defaults: app version 1.0.0, stable channel.
pub fn manifest_defaults() -> (r: Defaults)
    ensures
        r.min_app_version@ == default_min_app_version_spec(),
        r.channel == Channel::Stable,
{
    Defaults { min_app_version: default_min_app_version(), channel: Channel::Stable }
}

/// The `ReShade.ini` keys of the DLSS-Fix companion.
#[derive(Clone, Debug)]
pub struct DlssFixIniTweaks {
    /// File name of the companion add-on, loaded from `DllMain`.
    pub addon_file_name: String,
    /// Path of the game's DLSS library.
    pub dlss_path: String,
    /// Path of the game's Streamline interposer.
    pub streamline_path: String,
}

/// The `ReShade.ini` settings an install requests.
#[derive(Clone, Debug)]
pub struct ReshadeIniTweaks {
    /// Add-on titles to disable.
    pub disabled_addons: Vec<String>,
    /// Explicit add-on search path.
    pub addon_path: Option<String>,
    /// DLSS-Fix companion keys.
    pub dlss_fix: Option<DlssFixIniTweaks>,
}

/// The add-ons a RenoDX install disables by default.
pub open spec fn default_disabled_addons() -> Seq<Seq<char>> {
    seq!["Generic Depth"@, "Effect Runtime Sync"@]
}

/// The default `ReShade.ini` tweaks of a RenoDX install: two ReShade add-ons
/// disabled, no explicit add-on path, no DLSS-Fix keys.
pub fn renodx_ini_defaults() -> (r: ReshadeIniTweaks)
    ensures
        r.disabled_addons@.map_values(|s: String| s@) == default_disabled_addons(),
        r.addon_path is None,
        r.dlss_fix is None,
{
    let mut disabled: Vec<String> = Vec::new();
    disabled.push(String::from_str("Generic Depth"));
    disabled.push(String::from_str("Effect Runtime Sync"));
    proof {
        assert(disabled@.map_values(|s: String| s@) =~= default_disabled_addons());
    }
    ReshadeIniTweaks { disabled_addons: disabled, addon_path: None, dlss_fix: None }
}

} // verus!
