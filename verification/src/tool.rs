//! RenoDX as one add-on tool among others: what the catalogue offers it for,
//! which tools exclude it, how a stray on-disk install is recognised, and the
//! progress event of its final phase.
use vstd::prelude::*;

use crate::matcher::{resolution_is, RenoDxResolution};
use crate::text::{ends_with_ci, starts_with_ci};
use crate::types::{AddonKind, MatchFacts, RenoDxManifest};

verus! {

/// Whether a resolution offers RenoDX at all: an install or an external link.
pub open spec fn offers(res: RenoDxResolution) -> bool {
    res is Installable || res is External
}

/// Whether the catalogue offers RenoDX for a game (an install or a link).
pub fn capability(manifest: &RenoDxManifest, facts: &MatchFacts) -> (r: bool)
    ensures
        exists|res: RenoDxResolution| #[trigger]
            resolution_is(*manifest, *facts, res) && r == offers(res),
        forall|res: RenoDxResolution| #[trigger]
            resolution_is(*manifest, *facts, res) ==> r == (res is Installable || res is External),
{
    let resolution = crate::matcher::resolve(manifest, facts);
    let r = match resolution {
        RenoDxResolution::Installable(_) => true,
        RenoDxResolution::External { .. } => true,
        _ => false,
    };
    assert(resolution_is(*manifest, *facts, resolution) && r == offers(resolution));
    proof {
        assert forall|res: RenoDxResolution| #[trigger]
            resolution_is(*manifest, *facts, res) implies r == (res is Installable || res is External) by {
            lemma_resolution_kind_unique(*manifest, *facts, resolution, res);
        }
    }
    r
}

/// Every resolution of a game has the same kind: in particular all of them are
/// installs, or all of them are external links, or none is.
proof fn lemma_resolution_kind_unique(m: RenoDxManifest, facts: MatchFacts, a: RenoDxResolution, b: RenoDxResolution)
    requires
        resolution_is(m, facts, a),
        resolution_is(m, facts, b),
    ensures
        (a is Installable) == (b is Installable),
        (a is External) == (b is External),
{
}

/// The catalogue offers RenoDX for a game exactly when resolving the game gives
/// an install plan or an external link: whatever result `capability` returns,
/// it is `true` for a resolution of either kind and `false` for a native-HDR,
/// incompatible, unsupported or unmatched one.
pub proof fn lemma_capability_means_install_or_link(
    m: RenoDxManifest,
    facts: MatchFacts,
    r: bool,
    res: RenoDxResolution,
)
    requires
        exists|x: RenoDxResolution| #[trigger] resolution_is(m, facts, x) && r == offers(x),
        resolution_is(m, facts, res),
    ensures
        r == (res is Installable || res is External),
        !r ==> (res is NativeHdr || res is Incompatible || res is Unsupported || res is NoMatch),
{
    let x = choose|x: RenoDxResolution| #[trigger] resolution_is(m, facts, x) && r == offers(x);
    lemma_resolution_kind_unique(m, facts, x, res);
}

/// The tools that cannot share a game with RenoDX.
pub fn exclusive_peers() -> (r: Vec<AddonKind>)
    ensures
        r@ == seq![AddonKind::Luma],
{
    let mut v: Vec<AddonKind> = Vec::new();
    v.push(AddonKind::Luma);
    assert(v@ =~= seq![AddonKind::Luma]);
    v
}

/// The refusal when Luma occupies a game: its files on disk, or its record.
pub open spec fn block_message(unmanaged: bool) -> Seq<char> {
    if unmanaged {
        "Luma Framework files are present for this game; remove them before installing RenoDX"@
    } else {
        "Luma Framework is installed for this game; uninstall it before installing RenoDX"@
    }
}

/// The refusal when Luma occupies a game.
pub fn exclusive_block_message(unmanaged: bool) -> (r: &'static str)
    ensures
        r@ == block_message(unmanaged),
{
    if unmanaged {
        "Luma Framework files are present for this game; remove them before installing RenoDX"
    } else {
        "Luma Framework is installed for this game; uninstall it before installing RenoDX"
    }
}

/// Whether a file name is a `renodx-*.addon64|32` add-on, in any letter case.
pub open spec fn addon_name_ci(name: Seq<char>) -> bool {
    starts_with_ci(name, "renodx-"@) && (ends_with_ci(name, ".addon64"@) || ends_with_ci(
        name,
        ".addon32"@,
    ))
}

/// Whether a folder listing holds a RenoDX add-on that no record manages.
pub fn unmanaged_present(file_names: &Vec<String>) -> (r: bool)
    ensures
        r == exists|i: int| 0 <= i < file_names@.len() && #[trigger] addon_name_ci(file_names@[i]@),
{
    let n = file_names.len();
    let mut i: usize = 0;
    while i < n
        invariant
            n == file_names@.len(),
            i <= n,
            forall|j: int| 0 <= j < i ==> !#[trigger] addon_name_ci(file_names@[j]@),
        decreases n - i,
    {
        let name = file_names[i].as_str();
        if crate::text::starts_with_ignore_case(name, "renodx-") && (
        crate::text::ends_with_ignore_case(name, ".addon64")
            || crate::text::ends_with_ignore_case(name, ".addon32")) {
            assert(addon_name_ci(file_names@[i as int]@));
            return true;
        }
        i = i + 1;
    }
    false
}

/// Progress of a download, or of a phase without a size.
#[derive(Clone, Copy, Debug, PartialEq, Eq)]
pub struct DownloadProgress {
    /// Bytes received so far.
    pub downloaded_bytes: u64,
    /// Total bytes, 0 when unknown.
    pub total_bytes: u64,
    /// i18n key of the phase, when it is not a download.
    pub phase: Option<&'static str>,
}

/// i18n key of the phase after every download, while files are written.
pub open spec fn finalizing_key() -> Seq<char> {
    "renodx.phase.finalizing"@
}

/// i18n key of the phase after every download.
pub fn finalizing_phase() -> (r: &'static str)
    ensures
        r@ == finalizing_key(),
{
    "renodx.phase.finalizing"
}

/// The indeterminate progress event of the finalizing phase: no byte counts,
/// so the interface shows a spinner and the phase's label.
pub fn finalizing_progress() -> (r: DownloadProgress)
    ensures
        r.downloaded_bytes == 0,
        r.total_bytes == 0,
        r.phase matches Some(p) && p@ == finalizing_key(),
{
    DownloadProgress { downloaded_bytes: 0, total_bytes: 0, phase: Some(finalizing_phase()) }
}

} // verus!
