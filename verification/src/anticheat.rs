//! Anti-cheat risk assessment for a RenoDX install: the catalogue's curated
//! risk merged with a local scan of the game folder. Detection never hard-blocks;
//! it escalates an otherwise-safe title to require confirmation.
use vstd::prelude::*;

use crate::types::{AnticheatEngine, AssessmentConfidence, OnlineKind, Risk, RiskSeverity};

verus! {

/// An anti-cheat engine found by the local scan.
#[derive(Clone, Copy, Debug, PartialEq, Eq, Structural)]
pub enum DetectedAntiCheatEngine {
    /// Easy Anti-Cheat.
    EasyAntiCheat,
    /// BattlEye.
    BattlEye,
    /// Another engine.
    Other,
}

/// The engines a local scan of a game folder found.
#[derive(Clone, Debug)]
pub struct AntiCheatScanReport {
    /// Distinct engines found.
    pub engines: Vec<DetectedAntiCheatEngine>,
}

/// The effective ban/stability risk of installing RenoDX into a game.
#[derive(Clone, Debug)]
pub struct RiskAssessment {
    /// Effective severity.
    pub severity: RiskSeverity,
    /// Effective anti-cheat engine.
    pub anticheat_engine: AnticheatEngine,
    /// Online classification.
    pub online: OnlineKind,
    /// i18n message key.
    pub message_key: String,
    /// Confidence.
    pub confidence: AssessmentConfidence,
    /// Reference URL of the catalogue assessment.
    pub reference_url: Option<String>,
    /// Whether the local scan found an anti-cheat.
    pub detected_locally: bool,
}

impl RiskAssessment {
    /// Whether the install must be refused outright.
    pub fn is_blocked(&self) -> (r: bool)
        ensures
            r == (self.severity == RiskSeverity::Block),
    {
        self.severity == RiskSeverity::Block
    }

    /// Whether the install requires explicit confirmation.
    pub fn requires_confirmation(&self) -> (r: bool)
        ensures
            r == (self.severity == RiskSeverity::Warn),
    {
        self.severity == RiskSeverity::Warn
    }

    /// Whether the install is safe to proceed without a prompt.
    pub fn is_safe(&self) -> (r: bool)
        ensures
            r == (self.severity == RiskSeverity::Info),
    {
        self.severity == RiskSeverity::Info
    }
}

/// The key used when a local scan escalates an otherwise-safe title.
pub open spec fn anticheat_detected_key() -> Seq<char> {
    "renodx.risk.anticheat_detected"@
}

/// The engine a scan reports: Easy Anti-Cheat first, then BattlEye.
pub open spec fn detected_of(engines: Seq<DetectedAntiCheatEngine>) -> Option<AnticheatEngine> {
    if engines.contains(DetectedAntiCheatEngine::EasyAntiCheat) {
        Some(AnticheatEngine::Eac)
    } else if engines.contains(DetectedAntiCheatEngine::BattlEye) {
        Some(AnticheatEngine::BattlEye)
    } else {
        None
    }
}

/// Whether a local detection escalates the catalogue severity.
pub open spec fn escalates(manifest: Risk, scan: AntiCheatScanReport) -> bool {
    detected_of(scan.engines@).is_some() && manifest.severity == RiskSeverity::Info
}

/// The assessment merging a catalogue risk with a scan.
pub open spec fn assessment_is(manifest: Risk, scan: AntiCheatScanReport, r: RiskAssessment) -> bool {
    let detected = detected_of(scan.engines@);
    &&& r.severity == if escalates(manifest, scan) {
        RiskSeverity::Warn
    } else {
        manifest.severity
    }
    &&& r.message_key@ == if escalates(manifest, scan) {
        anticheat_detected_key()
    } else {
        manifest.message_key@
    }
    &&& r.anticheat_engine == if detected.is_some() && (manifest.anticheat_engine
        == AnticheatEngine::NoAnticheat || manifest.anticheat_engine == AnticheatEngine::Unknown) {
        detected.unwrap()
    } else {
        manifest.anticheat_engine
    }
    &&& r.confidence == if detected.is_some() {
        AssessmentConfidence::High
    } else {
        manifest.confidence
    }
    &&& r.online == manifest.online
    &&& r.reference_url == manifest.source
    &&& r.detected_locally == detected.is_some()
}

fn contains_engine(engines: &Vec<DetectedAntiCheatEngine>, e: DetectedAntiCheatEngine) -> (r: bool)
    ensures
        r == engines@.contains(e),
{
    let n = engines.len();
    let mut i: usize = 0;
    while i < n
        invariant
            n == engines@.len(),
            i <= n,
            forall|j: int| 0 <= j < i ==> engines@[j] != e,
        decreases n - i,
    {
        if engines[i] == e {
            proof {
                assert(engines@[i as int] == e);
            }
            return true;
        }
        i = i + 1;
    }
    false
}

/// The anti-cheat engine a scan reports, preferring Easy Anti-Cheat.
pub fn detected_engine(scan: &AntiCheatScanReport) -> (r: Option<AnticheatEngine>)
    ensures
        r == detected_of(scan.engines@),
{
    if contains_engine(&scan.engines, DetectedAntiCheatEngine::EasyAntiCheat) {
        return Some(AnticheatEngine::Eac);
    }
    if contains_engine(&scan.engines, DetectedAntiCheatEngine::BattlEye) {
        return Some(AnticheatEngine::BattlEye);
    }
    None
}

/// Merges a catalogue risk with a local anti-cheat scan report.
pub fn combine(manifest: &Risk, scan: &AntiCheatScanReport) -> (r: RiskAssessment)
    ensures
        assessment_is(*manifest, *scan, r),
{
    let mut severity = manifest.severity;
    let mut engine = manifest.anticheat_engine;
    let mut message_key = manifest.message_key.clone();
    let mut confidence = manifest.confidence;
    let detected = detected_engine(scan);
    let detected_locally = detected.is_some();
    if let Some(found) = detected {
        if severity == RiskSeverity::Info {
            severity = RiskSeverity::Warn;
            message_key = String::from_str("renodx.risk.anticheat_detected");
        }
        if engine == AnticheatEngine::NoAnticheat || engine == AnticheatEngine::Unknown {
            engine = found;
        }
        confidence = AssessmentConfidence::High;
    }
    RiskAssessment {
        severity,
        anticheat_engine: engine,
        online: manifest.online,
        message_key,
        confidence,
        reference_url: crate::text::clone_opt(&manifest.source),
        detected_locally,
    }
}

/// A local scan never lowers the catalogue severity: a block stays a block, a
/// warning stays a warning, and only an otherwise-safe title is escalated.
pub proof fn lemma_scan_never_downgrades(manifest: Risk, scan: AntiCheatScanReport, r: RiskAssessment)
    requires
        assessment_is(manifest, scan, r),
    ensures
        manifest.severity == RiskSeverity::Block ==> r.severity == RiskSeverity::Block,
        manifest.severity == RiskSeverity::Warn ==> r.severity == RiskSeverity::Warn,
        r.severity == RiskSeverity::Info ==> manifest.severity == RiskSeverity::Info
            && !r.detected_locally,
        scan.engines@.len() == 0 ==> r.severity == manifest.severity && r.message_key@
            == manifest.message_key@ && !r.detected_locally,
{
}

/// The assessment names a locally detected engine whenever the catalogue did
/// not name one: with Easy Anti-Cheat found and the catalogue saying "no
/// anti-cheat" or "unknown", the assessment says Easy Anti-Cheat; with only
/// BattlEye found, BattlEye. An engine the catalogue does name is kept, and a
/// local detection never leaves the engine as "none" or "unknown".
pub proof fn lemma_detection_names_the_engine(manifest: Risk, scan: AntiCheatScanReport, r: RiskAssessment)
    requires
        assessment_is(manifest, scan, r),
    ensures
        (manifest.anticheat_engine == AnticheatEngine::NoAnticheat || manifest.anticheat_engine
            == AnticheatEngine::Unknown) && scan.engines@.contains(DetectedAntiCheatEngine::EasyAntiCheat)
            ==> r.anticheat_engine == AnticheatEngine::Eac,
        (manifest.anticheat_engine == AnticheatEngine::NoAnticheat || manifest.anticheat_engine
            == AnticheatEngine::Unknown) && !scan.engines@.contains(DetectedAntiCheatEngine::EasyAntiCheat)
            && scan.engines@.contains(DetectedAntiCheatEngine::BattlEye) ==> r.anticheat_engine
            == AnticheatEngine::BattlEye,
        manifest.anticheat_engine != AnticheatEngine::NoAnticheat && manifest.anticheat_engine
            != AnticheatEngine::Unknown ==> r.anticheat_engine == manifest.anticheat_engine,
        r.detected_locally ==> r.anticheat_engine != AnticheatEngine::NoAnticheat
            && r.anticheat_engine != AnticheatEngine::Unknown,
        !r.detected_locally ==> r.anticheat_engine == manifest.anticheat_engine,
{
}

} // verus!
