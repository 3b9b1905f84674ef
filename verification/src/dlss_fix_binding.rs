//! The one authoritative projection of DLSS-Fix ownership in an install record:
//! the created files give deletion authority, the tracked source is advisory,
//! and only the canonical companion beside the main add-on can be bound.
use vstd::prelude::*;

use crate::dlss_fix::{file_name_of, is_sep};
use crate::host_policy::join_path;
use crate::record::{managed_paths, InstalledAddon, TrackedSource, TrackedSourceRole};
use crate::source::{arch_of_file, dlss_fix_candidate, dlss_fix_slug, file_name};
use crate::text::lower_char;
use crate::types::Architecture;

verus! {

/// What a look at one exact path on disk found.
#[derive(Clone, Copy, Debug, PartialEq, Eq, Structural)]
pub enum DiskObservation {
    /// Nothing is there.
    Missing,
    /// A regular file.
    Regular,
    /// A directory, link or other non-regular entry.
    NonRegular,
    /// The path could not be read.
    Unreadable,
}

/// How a record's DLSS-Fix evidence binds to the companion target.
#[derive(Clone, Copy, Debug, PartialEq, Eq, Structural)]
pub enum DlssFixBindingState {
    /// No evidence at all.
    NoCompanion,
    /// Only a tracked source.
    SourceOnly,
    /// Only the owned target file.
    OwnedOnly,
    /// Owned target and tracked source.
    Bound,
    /// Contradictory or unsafe evidence.
    Invalid,
}

/// The DLSS-Fix ownership of a record.
#[derive(Clone, Debug)]
pub struct DlssFixBinding {
    /// How the evidence binds.
    pub state: DlssFixBindingState,
    /// The canonical companion path beside the main add-on.
    pub target: String,
    /// The architecture of the main add-on.
    pub arch: Option<Architecture>,
    /// What is on disk at the target.
    pub observation: DiskObservation,
    /// The first tracked DLSS-Fix source.
    pub source: Option<TrackedSource>,
    /// Every recorded path with the reserved companion stem, once each.
    pub isolation_paths: Vec<String>,
    /// Whether any companion path or source is recorded.
    pub has_evidence: bool,
    /// Whether the main add-on itself sits on the companion target.
    pub main_payload_collision: bool,
}

// ---------------------------------------------------------------------------
// Specification
// ---------------------------------------------------------------------------

/// A character of a path's comparison key: separators unified, ASCII letters
/// lower-cased.
pub open spec fn key_char(c: char) -> char {
    if c == '\\' {
        '/'
    } else {
        lower_char(c)
    }
}

/// The comparison key of a Windows path.
pub open spec fn path_key(p: Seq<char>) -> Seq<char> {
    p.map_values(|c: char| key_char(c))
}

/// Whether two paths name the same file lexically.
pub open spec fn same_path(a: Seq<char>, b: Seq<char>) -> bool {
    path_key(a) == path_key(b)
}

/// Index of the last separator among the first `k` characters, else -1.
pub open spec fn last_sep(p: Seq<char>, k: int) -> int
    decreases k,
{
    if k <= 0 || k > p.len() {
        -1
    } else if is_sep(p[k - 1]) {
        k - 1
    } else {
        last_sep(p, k - 1)
    }
}

/// The folder of a path: everything before its last separator.
pub open spec fn parent_of(p: Seq<char>) -> Seq<char> {
    let s = last_sep(p, p.len() as int);
    if s < 0 {
        Seq::empty()
    } else {
        p.subrange(0, s)
    }
}

/// The companion target beside the main add-on.
pub open spec fn target_of(addon_file: Seq<char>) -> Seq<char> {
    match arch_of_file(addon_file) {
        Some(a) => join_path(parent_of(addon_file), file_name(dlss_fix_slug(), a)),
        None => join_path(parent_of(addon_file), "renodx-dlssfix.invalid"@),
    }
}

/// Whether a recorded path has the reserved companion stem.
pub open spec fn is_candidate(p: Seq<char>) -> bool {
    dlss_fix_candidate(file_name_of(p))
}

/// The candidates among the first `k` paths, in order.
pub open spec fn candidates_upto(s: Seq<String>, k: int) -> Seq<String>
    decreases k,
{
    if k <= 0 || s.len() == 0 {
        Seq::empty()
    } else if k > s.len() {
        candidates_upto(s, s.len() as int)
    } else if is_candidate(s[k - 1]@) {
        candidates_upto(s, k - 1).push(s[k - 1])
    } else {
        candidates_upto(s, k - 1)
    }
}

/// The candidates of a path list, in order.
pub open spec fn candidates(s: Seq<String>) -> Seq<String> {
    candidates_upto(s, s.len() as int)
}

/// Whether some path of `s` has the key of `p`.
pub open spec fn has_key(s: Seq<String>, p: Seq<char>) -> bool {
    exists|i: int| 0 <= i < s.len() && #[trigger] same_path(s[i]@, p)
}

/// The first `k` paths with later duplicates (by key) dropped.
pub open spec fn dedup_upto(s: Seq<String>, k: int) -> Seq<String>
    decreases k,
{
    if k <= 0 || s.len() == 0 {
        Seq::empty()
    } else if k > s.len() {
        dedup_upto(s, s.len() as int)
    } else {
        let prev = dedup_upto(s, k - 1);
        if has_key(prev, s[k - 1]@) {
            prev
        } else {
            prev.push(s[k - 1])
        }
    }
}

/// How many of the first `k` paths are the target.
pub open spec fn count_same(s: Seq<String>, t: Seq<char>, k: int) -> nat
    decreases k,
{
    if k <= 0 || s.len() == 0 {
        0
    } else if k > s.len() {
        count_same(s, t, s.len() as int)
    } else {
        count_same(s, t, k - 1) + if same_path(s[k - 1]@, t) {
            1nat
        } else {
            0nat
        }
    }
}

/// The DLSS-Fix sources of a record, in order.
pub open spec fn dlss_sources_upto(s: Seq<TrackedSource>, k: int) -> Seq<TrackedSource>
    decreases k,
{
    if k <= 0 || s.len() == 0 {
        Seq::empty()
    } else if k > s.len() {
        dlss_sources_upto(s, s.len() as int)
    } else if s[k - 1].role == TrackedSourceRole::DlssFix {
        dlss_sources_upto(s, k - 1).push(s[k - 1])
    } else {
        dlss_sources_upto(s, k - 1)
    }
}

/// The binding of a record whose companion target was observed as `obs`.
pub open spec fn binding_is(rec: InstalledAddon, obs: DiskObservation, b: DlssFixBinding) -> bool {
    let target = target_of(rec.addon_file@);
    let owned = candidates(rec.created_files@);
    let aux = candidates(rec.backed_up_files@ + managed_paths(rec.managed_files@));
    let srcs = dlss_sources_upto(rec.tracked_sources@, rec.tracked_sources@.len() as int);
    let exact = count_same(owned, target, owned.len() as int);
    let wrong = exists|i: int| 0 <= i < owned.len() && !#[trigger] same_path(owned[i]@, target);
    let collision = same_path(rec.addon_file@, target);
    let arch = arch_of_file(rec.addon_file@);
    let invalid = arch is None || srcs.len() > 1 || exact > 1 || wrong || aux.len() > 0
        || collision || obs == DiskObservation::NonRegular || obs == DiskObservation::Unreadable;
    let isolation = owned + aux;
    &&& b.target@ == target
    &&& b.arch == arch
    &&& b.observation == obs
    &&& b.source == if srcs.len() > 0 {
        Some(srcs[0])
    } else {
        None
    }
    &&& b.isolation_paths@ == dedup_upto(isolation, isolation.len() as int)
    &&& b.has_evidence == (b.isolation_paths@.len() > 0 || srcs.len() > 0)
    &&& b.main_payload_collision == collision
    &&& b.state == if invalid {
        DlssFixBindingState::Invalid
    } else if srcs.len() == 0 && exact == 0 {
        DlssFixBindingState::NoCompanion
    } else if exact == 0 {
        DlssFixBindingState::SourceOnly
    } else if srcs.len() == 0 {
        DlssFixBindingState::OwnedOnly
    } else {
        DlssFixBindingState::Bound
    }
}

// ---------------------------------------------------------------------------
// Implementation
// ---------------------------------------------------------------------------

/// Whether two paths name the same file lexically: separators unified and
/// ASCII letters compared case-insensitively.
pub fn same_lexical_path(left: &str, right: &str) -> (r: bool)
    ensures
        r == same_path(left@, right@),
{
    let n = left.unicode_len();
    let m = right.unicode_len();
    if n != m {
        proof {
            assert(path_key(left@).len() != path_key(right@).len());
        }
        return false;
    }
    let mut i: usize = 0;
    while i < n
        invariant
            n == left@.len(),
            m == right@.len(),
            n == m,
            i <= n,
            forall|j: int| 0 <= j < i ==> key_char(left@[j]) == key_char(right@[j]),
        decreases n - i,
    {
        let a = left.get_char(i);
        let b = right.get_char(i);
        let ka = if a == '\\' {
            '/'
        } else {
            crate::text::ascii_lower(a)
        };
        let kb = if b == '\\' {
            '/'
        } else {
            crate::text::ascii_lower(b)
        };
        if ka != kb {
            proof {
                assert(path_key(left@)[i as int] != path_key(right@)[i as int]);
            }
            return false;
        }
        i = i + 1;
    }
    proof {
        assert(path_key(left@) =~= path_key(right@));
    }
    true
}

/// The folder of a path.
pub fn parent_path(p: &str) -> (r: &str)
    ensures
        r@ == parent_of(p@),
{
    let n = p.unicode_len();
    let mut k: usize = n;
    while k > 0
        invariant
            k <= n,
            n == p@.len(),
            last_sep(p@, n as int) == last_sep(p@, k as int),
        ensures
            k > 0 ==> last_sep(p@, n as int) == k - 1,
            k == 0 ==> last_sep(p@, n as int) == -1,
        decreases k,
    {
        let c = p.get_char(k - 1);
        if c == '/' || c == '\\' {
            break;
        }
        k = k - 1;
    }
    if k == 0 {
        p.substring_char(0, 0)
    } else {
        p.substring_char(0, k - 1)
    }
}

fn candidate_paths(s: &Vec<String>) -> (r: Vec<String>)
    ensures
        r@ == candidates(s@),
{
    let n = s.len();
    let mut out: Vec<String> = Vec::new();
    let mut i: usize = 0;
    while i < n
        invariant
            n == s@.len(),
            i <= n,
            out@ == candidates_upto(s@, i as int),
        decreases n - i,
    {
        let name = crate::dlss_fix::file_name(s[i].as_str());
        if crate::source::is_dlss_fix_candidate_file_name(name) {
            out.push(s[i].clone());
        }
        i = i + 1;
    }
    out
}

fn contains_key(s: &Vec<String>, p: &str) -> (r: bool)
    ensures
        r == has_key(s@, p@),
{
    let n = s.len();
    let mut i: usize = 0;
    while i < n
        invariant
            n == s@.len(),
            i <= n,
            forall|j: int| 0 <= j < i ==> !#[trigger] same_path(s@[j]@, p@),
        decreases n - i,
    {
        if same_lexical_path(s[i].as_str(), p) {
            return true;
        }
        i = i + 1;
    }
    false
}

fn dedup_paths(s: &Vec<String>) -> (r: Vec<String>)
    ensures
        r@ == dedup_upto(s@, s@.len() as int),
{
    let n = s.len();
    let mut out: Vec<String> = Vec::new();
    let mut i: usize = 0;
    while i < n
        invariant
            n == s@.len(),
            i <= n,
            out@ == dedup_upto(s@, i as int),
        decreases n - i,
    {
        if !contains_key(&out, s[i].as_str()) {
            out.push(s[i].clone());
        }
        i = i + 1;
    }
    out
}

fn count_target(s: &Vec<String>, t: &str) -> (r: usize)
    ensures
        r == count_same(s@, t@, s@.len() as int),
{
    let n = s.len();
    let mut c: usize = 0;
    let mut i: usize = 0;
    while i < n
        invariant
            n == s@.len(),
            i <= n,
            c == count_same(s@, t@, i as int),
            c <= i,
        decreases n - i,
    {
        if same_lexical_path(s[i].as_str(), t) {
            c = c + 1;
        }
        i = i + 1;
    }
    c
}

fn any_other(s: &Vec<String>, t: &str) -> (r: bool)
    ensures
        r == exists|i: int| 0 <= i < s@.len() && !#[trigger] same_path(s@[i]@, t@),
{
    let n = s.len();
    let mut i: usize = 0;
    while i < n
        invariant
            n == s@.len(),
            i <= n,
            forall|j: int| 0 <= j < i ==> #[trigger] same_path(s@[j]@, t@),
        decreases n - i,
    {
        if !same_lexical_path(s[i].as_str(), t) {
            return true;
        }
        i = i + 1;
    }
    false
}

fn dlss_sources(s: &Vec<TrackedSource>) -> (r: Vec<TrackedSource>)
    ensures
        r@ == dlss_sources_upto(s@, s@.len() as int),
{
    let n = s.len();
    let mut out: Vec<TrackedSource> = Vec::new();
    let mut i: usize = 0;
    while i < n
        invariant
            n == s@.len(),
            i <= n,
            out@ == dlss_sources_upto(s@, i as int),
        decreases n - i,
    {
        if s[i].role == TrackedSourceRole::DlssFix {
            out.push(s[i].duplicate());
        }
        i = i + 1;
    }
    out
}

/// The companion target beside a main add-on.
pub fn companion_target(addon_file: &str) -> (r: String)
    ensures
        r@ == target_of(addon_file@),
{
    let parent = parent_path(addon_file);
    match crate::source::arch_from_addon_file(addon_file) {
        Some(arch) => {
            let name = crate::source::dlss_fix_file_name(arch);
            crate::host_policy::join_windows_path(parent, name.as_str())
        },
        None => crate::host_policy::join_windows_path(parent, "renodx-dlssfix.invalid"),
    }
}

/// Resolves the one possible companion of a record: the canonical name beside
/// the main add-on with its architecture, observed on disk as `observation`.
/// A recorded path, a source or a physical file never authorizes deletion by
/// itself; contradictory evidence makes the binding invalid.
pub fn resolve(record: &InstalledAddon, observation: DiskObservation) -> (r: DlssFixBinding)
    ensures
        binding_is(*record, observation, r),
{
    let arch = crate::source::arch_from_addon_file(record.addon_file.as_str());
    let target = companion_target(record.addon_file.as_str());
    let mut srcs = dlss_sources(&record.tracked_sources);
    let duplicate_sources = srcs.len() > 1;
    let owned = candidate_paths(&record.created_files);
    let mut all_aux = crate::text::clone_strings(&record.backed_up_files);
    let mut managed = crate::record::managed_path_list(&record.managed_files);
    all_aux.append(&mut managed);
    let aux = candidate_paths(&all_aux);
    let mut isolation_all = crate::text::clone_strings(&owned);
    let mut aux_copy = crate::text::clone_strings(&aux);
    isolation_all.append(&mut aux_copy);
    let isolation_paths = dedup_paths(&isolation_all);
    let exact_count = count_target(&owned, target.as_str());
    let wrong_managed_path = any_other(&owned, target.as_str());
    let main_payload_collision = same_lexical_path(record.addon_file.as_str(), target.as_str());
    let invalid = arch.is_none() || duplicate_sources || exact_count > 1 || wrong_managed_path
        || aux.len() > 0 || main_payload_collision || observation == DiskObservation::NonRegular
        || observation == DiskObservation::Unreadable;
    let has_source = srcs.len() > 0;
    let state = if invalid {
        DlssFixBindingState::Invalid
    } else if !has_source && exact_count == 0 {
        DlssFixBindingState::NoCompanion
    } else if exact_count == 0 {
        DlssFixBindingState::SourceOnly
    } else if !has_source {
        DlssFixBindingState::OwnedOnly
    } else {
        DlssFixBindingState::Bound
    };
    let source = if has_source {
        Some(srcs.remove(0))
    } else {
        None
    };
    let has_evidence = isolation_paths.len() > 0 || has_source;
    DlssFixBinding {
        state,
        target,
        arch,
        observation,
        source,
        isolation_paths,
        has_evidence,
        main_payload_collision,
    }
}

impl DlssFixBinding {
    /// Whether a legacy record made the main add-on the companion target.
    pub fn main_payload_collides(&self) -> (r: bool)
        ensures
            r == self.main_payload_collision,
    {
        self.main_payload_collision
    }
}

} // verus!
