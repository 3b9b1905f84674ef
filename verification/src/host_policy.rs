//! Which ReShade host a RenoDX install may use or write, decided from a scan of
//! the game folder: reuse a healthy active host, (re)install into the proxy slot
//! the game loads, or refuse where the folder is ambiguous.
use vstd::prelude::*;

use crate::errors::{invalid, invalid_with, ServiceError};

verus! {

/// Whether a detected ReShade build can load add-ons.
#[derive(Clone, Copy, Debug, PartialEq, Eq, Structural)]
pub enum ReshadeAddonSupport {
    /// The add-on build of ReShade.
    Full,
    /// Add-on support could not be determined.
    Unknown,
    /// A build without add-on support.
    NotSupported,
}

/// How sure the scan is that a file is ReShade.
#[derive(Clone, Copy, Debug, PartialEq, Eq, Structural)]
pub enum ReshadeIdentity {
    /// Only the file name suggests ReShade.
    Weak,
    /// Strong hints point at ReShade.
    Probable,
    /// The file is ReShade.
    Confirmed,
}

/// Whether the game loads the slot a host sits in.
#[derive(Clone, Copy, Debug, PartialEq, Eq, Structural)]
pub enum SlotActivity {
    /// The game loads this slot.
    Active,
    /// The game does not load this slot.
    Inactive,
}

/// Why a slot was judged active or inactive.
#[derive(Clone, Copy, Debug, PartialEq, Eq, Structural)]
pub enum ActiveSlotReason {
    /// The executable's imports matched the slot.
    DetectedByMatcher,
}

/// Activity of a host's slot and the reason for it.
#[derive(Clone, Copy, Debug, PartialEq, Eq, Structural)]
pub struct ActiveSlotState {
    /// Whether the slot is loaded.
    pub state: SlotActivity,
    /// Why.
    pub reason: ActiveSlotReason,
}

/// A ReShade host found (or not) in a game folder.
#[derive(Clone, Debug)]
pub enum ReshadeHost {
    /// No host is present.
    Absent,
    /// A host file is present.
    Present {
        /// Full path of the host file.
        path: String,
        /// The proxy slot (file name) it occupies.
        slot: String,
        /// Its version, when readable.
        version: Option<String>,
        /// Whether it can load add-ons.
        addon_support: ReshadeAddonSupport,
        /// How sure the scan is that it is ReShade.
        identity: ReshadeIdentity,
        /// Whether the game loads its slot.
        active: ActiveSlotState,
    },
}

/// What an install does about the ReShade host.
#[derive(Clone, Copy, Debug, PartialEq, Eq, Structural)]
pub enum ReshadeHostAction {
    /// The present host is reused as it is.
    UpToDate,
    /// A host is written into the slot.
    UpdateHost,
    /// The present host is replaced to repair it.
    RepairHost,
    /// The present host lacks add-on support and is replaced.
    ReinstallWithAddonSupport,
    /// The folder is ambiguous; nothing is written.
    Conflict,
}

/// The hosts a scan of a game folder found, in scan order.
#[derive(Clone, Debug)]
pub struct ReshadeScan {
    /// The hosts found.
    pub hosts: Vec<ReshadeHost>,
}

/// Why a host assessment refuses to write.
#[derive(Clone, Copy, Debug, PartialEq, Eq, Structural)]
pub enum HostConflictKind {
    /// More than one ReShade host is present.
    MultipleHosts,
    /// The host sits in a slot the game does not load.
    InactiveSlot,
    /// The slot is held by a file that is not clearly ReShade.
    WeakIdentity,
}

/// The host decision of an install or update.
#[derive(Clone, Debug)]
pub struct HostAssessment {
    /// The host the decision is about.
    pub host: ReshadeHost,
    /// Whether the folder is ambiguous.
    pub conflict: bool,
    /// What to do about the host.
    pub action: ReshadeHostAction,
    /// Where the host is or will be written.
    pub target_path: String,
    /// The proxy slot of the host.
    pub slot: String,
    /// Why the folder is ambiguous, when it is.
    pub conflict_kind: Option<HostConflictKind>,
}

// ---------------------------------------------------------------------------
// Specification
// ---------------------------------------------------------------------------

/// Order of identities, weakest first.
pub open spec fn identity_rank(i: ReshadeIdentity) -> int {
    match i {
        ReshadeIdentity::Weak => 0,
        ReshadeIdentity::Probable => 1,
        ReshadeIdentity::Confirmed => 2,
    }
}

/// Whether an action writes a host file.
pub open spec fn action_writes(a: ReshadeHostAction) -> bool {
    a is UpdateHost || a is RepairHost || a is ReinstallWithAddonSupport
}

/// The action for a host: write into an empty slot; refuse an inactive or
/// weakly identified host; otherwise reuse, repair or reinstall by add-on support.
pub open spec fn action_of(host: ReshadeHost) -> ReshadeHostAction {
    match host {
        ReshadeHost::Absent => ReshadeHostAction::UpdateHost,
        ReshadeHost::Present { addon_support, identity, active, .. } => if active.state
            != SlotActivity::Active || identity_rank(identity) < 1 {
            ReshadeHostAction::Conflict
        } else {
            match addon_support {
                ReshadeAddonSupport::Full => ReshadeHostAction::UpToDate,
                ReshadeAddonSupport::Unknown => ReshadeHostAction::RepairHost,
                ReshadeAddonSupport::NotSupported => ReshadeHostAction::ReinstallWithAddonSupport,
            }
        },
    }
}

/// Whether a host is present in a slot the game loads.
pub open spec fn is_active_host(h: ReshadeHost) -> bool {
    h matches ReshadeHost::Present { active, .. } && active.state == SlotActivity::Active
}

/// Whether a host is present and at least probably ReShade.
pub open spec fn is_reshade(h: ReshadeHost) -> bool {
    h matches ReshadeHost::Present { identity, .. } && identity_rank(identity) >= 1
}

/// Index of the first active host at or after `i`.
pub open spec fn first_active(hosts: Seq<ReshadeHost>, i: int) -> Option<int>
    decreases hosts.len() - i,
{
    if i < 0 || i >= hosts.len() {
        None
    } else if is_active_host(hosts[i]) {
        Some(i)
    } else {
        first_active(hosts, i + 1)
    }
}

/// The host a decision is about: the first active one, else the first one,
/// else none.
pub open spec fn primary_of(hosts: Seq<ReshadeHost>) -> ReshadeHost {
    match first_active(hosts, 0) {
        Some(i) => hosts[i],
        None => if hosts.len() > 0 {
            hosts[0]
        } else {
            ReshadeHost::Absent
        },
    }
}

/// Number of hosts among the first `k` that are at least probably ReShade.
pub open spec fn reshade_count(hosts: Seq<ReshadeHost>, k: int) -> nat
    decreases k,
{
    if k <= 0 || hosts.len() == 0 {
        0
    } else if k > hosts.len() {
        reshade_count(hosts, hosts.len() as int)
    } else {
        reshade_count(hosts, k - 1) + if is_reshade(hosts[k - 1]) {
            1nat
        } else {
            0nat
        }
    }
}

/// Whether more than one ReShade host is present.
pub open spec fn multiple_hosts(hosts: Seq<ReshadeHost>) -> bool {
    reshade_count(hosts, hosts.len() as int) > 1
}

/// Why the folder is ambiguous, if it is.
pub open spec fn conflict_of(hosts: Seq<ReshadeHost>) -> Option<HostConflictKind> {
    if multiple_hosts(hosts) {
        Some(HostConflictKind::MultipleHosts)
    } else {
        match primary_of(hosts) {
            ReshadeHost::Present { identity, active, .. } => if active.state
                != SlotActivity::Active {
                Some(HostConflictKind::InactiveSlot)
            } else if identity_rank(identity) < 1 {
                Some(HostConflictKind::WeakIdentity)
            } else {
                None
            },
            ReshadeHost::Absent => None,
        }
    }
}

/// `name` placed in the folder `dir`, Windows style.
pub open spec fn join_path(dir: Seq<char>, name: Seq<char>) -> Seq<char> {
    if dir.len() == 0 {
        name
    } else if dir.last() == '\\' || dir.last() == '/' {
        dir + name
    } else {
        dir + "\\"@ + name
    }
}

/// The host assessment of a scan.
pub open spec fn assessment_is(
    game_dir: Seq<char>,
    proxy: Seq<char>,
    scan: ReshadeScan,
    r: HostAssessment,
) -> bool {
    let host = primary_of(scan.hosts@);
    &&& r.host == host
    &&& r.action == action_of(host)
    &&& r.conflict_kind == conflict_of(scan.hosts@)
    &&& r.conflict == conflict_of(scan.hosts@).is_some()
    &&& match host {
        ReshadeHost::Present { path, slot, .. } => r.target_path@ == path@ && r.slot@ == slot@,
        ReshadeHost::Absent => r.target_path@ == join_path(game_dir, proxy) && r.slot@ == proxy,
    }
}

/// The refusal message of a conflict.
pub open spec fn conflict_message(kind: HostConflictKind, proxy: Seq<char>) -> Seq<char> {
    match kind {
        HostConflictKind::MultipleHosts =>
            "multiple ReShade hosts were found; resolve the active proxy slot before installing or updating"@,
        HostConflictKind::InactiveSlot =>
            "ReShade is present, but not in the proxy slot this game will load; refusing to place a second host automatically"@,
        HostConflictKind::WeakIdentity => "the '"@ + proxy
            + "' slot RenoDX needs is occupied by a non-ReShade file; remove or relocate it before installing"@,
    }
}

// ---------------------------------------------------------------------------
// Implementation
// ---------------------------------------------------------------------------

impl ReshadeHostAction {
    /// Whether the action writes a host file.
    pub fn writes_host(&self) -> (r: bool)
        ensures
            r == action_writes(*self),
    {
        match self {
            ReshadeHostAction::UpdateHost => true,
            ReshadeHostAction::RepairHost => true,
            ReshadeHostAction::ReinstallWithAddonSupport => true,
            ReshadeHostAction::UpToDate => false,
            ReshadeHostAction::Conflict => false,
        }
    }
}

fn probable_or_better(identity: ReshadeIdentity) -> (r: bool)
    ensures
        r == (identity_rank(identity) >= 1),
{
    match identity {
        ReshadeIdentity::Weak => false,
        _ => true,
    }
}

/// The action an install takes for a host.
pub fn host_action(host: &ReshadeHost) -> (r: ReshadeHostAction)
    ensures
        r == action_of(*host),
{
    match host {
        ReshadeHost::Absent => ReshadeHostAction::UpdateHost,
        ReshadeHost::Present { addon_support, identity, active, .. } => {
            if active.state != SlotActivity::Active || !probable_or_better(*identity) {
                ReshadeHostAction::Conflict
            } else {
                match addon_support {
                    ReshadeAddonSupport::Full => ReshadeHostAction::UpToDate,
                    ReshadeAddonSupport::Unknown => ReshadeHostAction::RepairHost,
                    ReshadeAddonSupport::NotSupported => ReshadeHostAction::ReinstallWithAddonSupport,
                }
            }
        },
    }
}

fn copy_host(h: &ReshadeHost) -> (r: ReshadeHost)
    ensures
        r == *h,
{
    match h {
        ReshadeHost::Absent => ReshadeHost::Absent,
        ReshadeHost::Present { path, slot, version, addon_support, identity, active } => {
            ReshadeHost::Present {
                path: path.clone(),
                slot: slot.clone(),
                version: crate::text::clone_opt(version),
                addon_support: *addon_support,
                identity: *identity,
                active: *active,
            }
        },
    }
}

fn host_is_active(h: &ReshadeHost) -> (r: bool)
    ensures
        r == is_active_host(*h),
{
    match h {
        ReshadeHost::Present { active, .. } => active.state == SlotActivity::Active,
        ReshadeHost::Absent => false,
    }
}

fn host_is_reshade(h: &ReshadeHost) -> (r: bool)
    ensures
        r == is_reshade(*h),
{
    match h {
        ReshadeHost::Present { identity, .. } => probable_or_better(*identity),
        ReshadeHost::Absent => false,
    }
}

impl ReshadeScan {
    /// The host a decision is about: the first active host, else the first
    /// host, else `Absent`.
    pub fn primary_host(&self) -> (r: ReshadeHost)
        ensures
            r == primary_of(self.hosts@),
    {
        let n = self.hosts.len();
        let mut i: usize = 0;
        while i < n
            invariant
                n == self.hosts@.len(),
                i <= n,
                first_active(self.hosts@, 0) == first_active(self.hosts@, i as int),
            decreases n - i,
        {
            if host_is_active(&self.hosts[i]) {
                return copy_host(&self.hosts[i]);
            }
            i = i + 1;
        }
        if n > 0 {
            copy_host(&self.hosts[0])
        } else {
            ReshadeHost::Absent
        }
    }

    /// Whether more than one host that is at least probably ReShade is present.
    pub fn has_multiple_reshade_hosts(&self) -> (r: bool)
        ensures
            r == multiple_hosts(self.hosts@),
    {
        let n = self.hosts.len();
        let mut count: usize = 0;
        let mut i: usize = 0;
        while i < n
            invariant
                n == self.hosts@.len(),
                i <= n,
                count == reshade_count(self.hosts@, i as int),
                count <= i,
            decreases n - i,
        {
            if host_is_reshade(&self.hosts[i]) {
                count = count + 1;
            }
            i = i + 1;
        }
        count > 1
    }
}

/// `name` placed in the folder `dir`, Windows style.
pub fn join_windows_path(dir: &str, name: &str) -> (r: String)
    ensures
        r@ == join_path(dir@, name@),
{
    let n = dir.unicode_len();
    if n == 0 {
        return String::from_str(name);
    }
    let last = dir.get_char(n - 1);
    if last == '\\' || last == '/' {
        String::from_str(dir).concat(name)
    } else {
        String::from_str(dir).concat("\\").concat(name)
    }
}

/// Assesses a scan of the game folder for an install into the proxy slot
/// `proxy_dll_name`.
pub fn assess_scan(game_dir: &str, proxy_dll_name: &str, scan: &ReshadeScan) -> (r: HostAssessment)
    ensures
        assessment_is(game_dir@, proxy_dll_name@, *scan, r),
{
    let multiple = scan.has_multiple_reshade_hosts();
    let host = scan.primary_host();
    let action = host_action(&host);
    let conflict_kind = if multiple {
        Some(HostConflictKind::MultipleHosts)
    } else {
        match &host {
            ReshadeHost::Present { identity, active, .. } => {
                if active.state != SlotActivity::Active {
                    Some(HostConflictKind::InactiveSlot)
                } else if !probable_or_better(*identity) {
                    Some(HostConflictKind::WeakIdentity)
                } else {
                    None
                }
            },
            ReshadeHost::Absent => None,
        }
    };
    let (target_path, slot) = match &host {
        ReshadeHost::Present { path, slot, .. } => (path.clone(), slot.clone()),
        ReshadeHost::Absent => (
            join_windows_path(game_dir, proxy_dll_name),
            String::from_str(proxy_dll_name),
        ),
    };
    HostAssessment {
        host,
        conflict: conflict_kind.is_some(),
        action,
        target_path,
        slot,
        conflict_kind,
    }
}

impl HostAssessment {
    /// Whether the install writes a host file: never when the folder is ambiguous.
    pub fn writes_host(&self) -> (r: bool)
        ensures
            r == (!self.conflict && action_writes(self.action)),
    {
        !self.conflict && self.action.writes_host()
    }

    /// Refuses an ambiguous folder with a message naming the conflict.
    pub fn ensure_not_conflicting(&self, proxy_dll_name: &str) -> (r: Result<(), ServiceError>)
        ensures
            match self.conflict_kind {
                None => r is Ok,
                Some(kind) => r matches Err(e) && invalid_with(
                    e,
                    conflict_message(kind, proxy_dll_name@),
                ),
            },
    {
        match self.conflict_kind {
            None => Ok(()),
            Some(HostConflictKind::MultipleHosts) => Err(
                invalid(
                    "multiple ReShade hosts were found; resolve the active proxy slot before installing or updating",
                ),
            ),
            Some(HostConflictKind::InactiveSlot) => Err(
                invalid(
                    "ReShade is present, but not in the proxy slot this game will load; refusing to place a second host automatically",
                ),
            ),
            Some(HostConflictKind::WeakIdentity) => {
                let msg = String::from_str("the '").concat(proxy_dll_name).concat(
                    "' slot RenoDX needs is occupied by a non-ReShade file; remove or relocate it before installing",
                );
                Err(ServiceError::InvalidInput(msg))
            },
        }
    }
}

/// An assessment never both writes a host and refuses: a write happens only
/// where the folder is unambiguous, and every ambiguous folder is refused; an
/// empty folder is written into the requested slot.
pub proof fn lemma_assessment_writes_only_unambiguous(
    game_dir: Seq<char>,
    proxy: Seq<char>,
    scan: ReshadeScan,
    r: HostAssessment,
)
    requires
        assessment_is(game_dir, proxy, scan, r),
    ensures
        (!r.conflict && action_writes(r.action)) ==> r.conflict_kind is None,
        r.conflict <==> r.conflict_kind is Some,
        scan.hosts@.len() == 0 ==> !r.conflict && r.action == ReshadeHostAction::UpdateHost
            && r.slot@ == proxy,
        r.action == ReshadeHostAction::Conflict ==> r.conflict,
{
    if scan.hosts@.len() == 0 {
        assert(first_active(scan.hosts@, 0).is_none());
        assert(reshade_count(scan.hosts@, 0) == 0);
    }
}

} // verus!
