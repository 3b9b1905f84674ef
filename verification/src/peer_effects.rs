//! Lowering of RenoDX file effects into one ordered endpoint program.
//!
//! Effects are collected one bundle at a time from sealed preimages and already
//! prepared bytes; a bundle whose path repeats, matches or nests with an earlier
//! one is refused. The finished program lists the add-on first, then the host,
//! then the configuration, each group ordered by normalized path, with payloads
//! and file intents aligned with the endpoints by position.
use vstd::prelude::*;

use crate::dlss_fix_binding::{key_char, path_key, same_lexical_path, same_path};
use crate::text::{
    lemma_seq_less_asym, lemma_seq_less_common_prefix, lemma_seq_less_total, lemma_seq_less_trans,
    seq_less, str_eq,
};
use crate::vulkan::{sha256_hex, sha256_hex_of};

verus! {

/// Which part of an install a file effect belongs to.
#[derive(Clone, Copy, Debug, PartialEq, Eq, Structural)]
pub enum PeerEffectGroup {
    /// The RenoDX add-on file.
    Addon,
    /// The ReShade host and its sidecar.
    Host,
    /// `ReShade.ini`.
    Config,
}

/// How the mutation executor treats an endpoint.
#[derive(Clone, Copy, Debug, PartialEq, Eq, Structural)]
pub enum PeerEndpointRole {
    /// A file no other participant's topology depends on.
    Disjoint,
    /// The host the game's proxy topology loads.
    TopologyDownstream,
    /// The game's `ReShade.ini`.
    ReshadeIni,
}

/// A sealed observation of a file: its identity, content digest and length.
#[derive(Clone, Debug, PartialEq, Eq)]
pub struct VerifiedPeerFile {
    /// Identity of the observed file.
    pub identity: String,
    /// Lower-case hex SHA-256 of its contents.
    pub sha256: String,
    /// Its length in bytes.
    pub length: u64,
}

/// What an endpoint must hold before the program runs.
#[derive(Clone, Debug, PartialEq, Eq)]
pub enum EndpointExpectation {
    /// No file.
    Absent,
    /// Exactly the sealed file.
    File(VerifiedPeerFile),
}

/// What an endpoint holds after the program ran: a file with these contents.
#[derive(Clone, Debug, PartialEq, Eq)]
pub struct EndpointPostcondition {
    /// Lower-case hex SHA-256 of the contents.
    pub sha256: String,
    /// Length of the contents in bytes.
    pub length: u64,
}

/// One planned endpoint with its bytes.
#[derive(Clone, Debug, PartialEq, Eq)]
pub struct EndpointSpec {
    /// The file.
    pub path: String,
    /// How the executor treats it.
    pub role: PeerEndpointRole,
    /// What it must hold beforehand.
    pub before: EndpointExpectation,
    /// Its current bytes, when it exists.
    pub before_bytes: Option<Vec<u8>>,
    /// What it holds afterwards.
    pub after: EndpointPostcondition,
    /// The bytes to write.
    pub payload: Option<Vec<u8>>,
}

/// The unit in which effects are collected.
#[derive(Clone, Debug, PartialEq, Eq)]
pub enum EndpointBundle {
    /// One endpoint.
    Single {
        /// Its group.
        group: PeerEffectGroup,
        /// The endpoint.
        endpoint: EndpointSpec,
    },
    /// The retained foreign host is published to its sidecar before the new
    /// ReShade host is written over it: the only ordered pair an install emits.
    HostAcquisition {
        /// The sidecar receiving the foreign host.
        sidecar: EndpointSpec,
        /// The live host path.
        live: EndpointSpec,
    },
}

/// One endpoint of the finished program.
#[derive(Clone, Debug, PartialEq, Eq)]
pub struct ExactEndpoint {
    /// The file.
    pub path: String,
    /// How the executor treats it.
    pub role: PeerEndpointRole,
    /// What it must hold beforehand.
    pub before: EndpointExpectation,
    /// What it holds afterwards.
    pub after: EndpointPostcondition,
}

/// One file change of the finished program, as bytes before and after.
#[derive(Clone, Debug, PartialEq, Eq)]
pub struct FileIntent {
    /// The file.
    pub live_path: String,
    /// Its bytes before, when it exists.
    pub before: Option<Vec<u8>>,
    /// Its bytes after, when it remains.
    pub after: Option<Vec<u8>>,
}

/// Why effects cannot be lowered.
#[derive(Clone, Debug, PartialEq, Eq)]
pub enum PeerEffectError {
    /// No effect was collected.
    EmptyProgram,
    /// More than one endpoint claims the host role.
    InvalidHostCardinality(usize),
    /// The same effect was collected twice.
    DuplicatePath(String),
    /// Two effects name the same path.
    ConflictingPath(String),
    /// An effect touches a path nested with one of an earlier effect.
    OverlappingBundle(String, String),
    /// The bytes given as an endpoint's current contents are not the sealed file.
    BeforeImageMismatch(String),
    /// A host acquisition names the same path for the host and its sidecar.
    SamePairPath(String),
    /// A host acquisition names nested paths for the host and its sidecar.
    OverlappingPaths(String, String),
}

/// The collected effects of one composition.
pub struct PeerEffectAccumulator {
    bundles: Vec<EndpointBundle>,
}

/// The lowered program: endpoints, the payload of each and the file intent of
/// each, aligned by position.
#[derive(Debug)]
pub struct PeerEffects {
    /// The endpoints in program order.
    pub endpoints: Vec<ExactEndpoint>,
    /// The bytes written to each endpoint.
    pub payloads: Vec<Option<Vec<u8>>>,
    /// Each endpoint as a file change.
    pub game_intents: Vec<FileIntent>,
}

impl View for PeerEffectAccumulator {
    type V = Seq<EndpointBundle>;

    closed spec fn view(&self) -> Seq<EndpointBundle> {
        self.bundles@
    }
}

// ---------------------------------------------------------------------------
// Specification
// ---------------------------------------------------------------------------

/// The position of a group in the program.
pub open spec fn rank(g: PeerEffectGroup) -> int {
    match g {
        PeerEffectGroup::Addon => 0,
        PeerEffectGroup::Host => 1,
        PeerEffectGroup::Config => 2,
    }
}

/// The endpoint role of a group's single effects.
pub open spec fn role_of(g: PeerEffectGroup) -> PeerEndpointRole {
    match g {
        PeerEffectGroup::Addon => PeerEndpointRole::Disjoint,
        PeerEffectGroup::Host => PeerEndpointRole::TopologyDownstream,
        PeerEffectGroup::Config => PeerEndpointRole::ReshadeIni,
    }
}

/// The group of a bundle.
pub open spec fn group_of(b: EndpointBundle) -> PeerEffectGroup {
    match b {
        EndpointBundle::Single { group, .. } => group,
        EndpointBundle::HostAcquisition { .. } => PeerEffectGroup::Host,
    }
}

/// The path a bundle is known by: its endpoint, or the live host of a pair.
pub open spec fn logical_of(b: EndpointBundle) -> Seq<char> {
    match b {
        EndpointBundle::Single { endpoint, .. } => endpoint.path@,
        EndpointBundle::HostAcquisition { live, .. } => live.path@,
    }
}

/// The endpoints of a bundle in program order.
pub open spec fn endpoints_of(b: EndpointBundle) -> Seq<EndpointSpec> {
    match b {
        EndpointBundle::Single { endpoint, .. } => seq![endpoint],
        EndpointBundle::HostAcquisition { sidecar, live } => seq![sidecar, live],
    }
}

/// `p` names a folder that contains `q` (both normalized keys).
pub open spec fn dir_prefix(p: Seq<char>, q: Seq<char>) -> bool {
    &&& p.len() < q.len()
    &&& q.subrange(0, p.len() as int) == p
    &&& q[p.len() as int] == '/'
}

/// Two paths name the same file or one lies inside the other.
pub open spec fn paths_overlap(a: Seq<char>, b: Seq<char>) -> bool {
    let ka = path_key(a);
    let kb = path_key(b);
    ka == kb || dir_prefix(ka, kb) || dir_prefix(kb, ka)
}

/// Some endpoint of `b` overlaps the path `p`.
pub open spec fn touches(b: EndpointBundle, p: Seq<char>) -> bool {
    match b {
        EndpointBundle::Single { endpoint, .. } => paths_overlap(endpoint.path@, p),
        EndpointBundle::HostAcquisition { sidecar, live } => paths_overlap(sidecar.path@, p)
            || paths_overlap(live.path@, p),
    }
}

/// Some endpoint of `a` overlaps some endpoint of `b`.
pub open spec fn bundles_overlap(a: EndpointBundle, b: EndpointBundle) -> bool {
    match b {
        EndpointBundle::Single { endpoint, .. } => touches(a, endpoint.path@),
        EndpointBundle::HostAcquisition { sidecar, live } => touches(a, sidecar.path@) || touches(
            a,
            live.path@,
        ),
    }
}

/// The contents of optional bytes.
pub open spec fn opt_bytes(o: Option<Vec<u8>>) -> Option<Seq<u8>> {
    match o {
        Some(v) => Some(v@),
        None => None,
    }
}

/// Two sealed files are the same observation.
pub open spec fn same_file(a: VerifiedPeerFile, b: VerifiedPeerFile) -> bool {
    a.identity@ == b.identity@ && a.sha256@ == b.sha256@ && a.length == b.length
}

/// Two expectations are the same.
pub open spec fn same_expectation(a: EndpointExpectation, b: EndpointExpectation) -> bool {
    match a {
        EndpointExpectation::Absent => b is Absent,
        EndpointExpectation::File(x) => match b {
            EndpointExpectation::File(y) => same_file(x, y),
            EndpointExpectation::Absent => false,
        },
    }
}

/// Two endpoints are the same.
pub open spec fn same_endpoint(a: EndpointSpec, b: EndpointSpec) -> bool {
    &&& a.path@ == b.path@
    &&& a.role == b.role
    &&& same_expectation(a.before, b.before)
    &&& opt_bytes(a.before_bytes) == opt_bytes(b.before_bytes)
    &&& a.after.sha256@ == b.after.sha256@
    &&& a.after.length == b.after.length
    &&& opt_bytes(a.payload) == opt_bytes(b.payload)
}

/// Two bundles are the same effect.
pub open spec fn same_bundle(a: EndpointBundle, b: EndpointBundle) -> bool {
    match a {
        EndpointBundle::Single { group: g1, endpoint: e1 } => match b {
            EndpointBundle::Single { group: g2, endpoint: e2 } => g1 == g2 && same_endpoint(e1, e2),
            EndpointBundle::HostAcquisition { .. } => false,
        },
        EndpointBundle::HostAcquisition { sidecar: s1, live: l1 } => match b {
            EndpointBundle::HostAcquisition { sidecar: s2, live: l2 } => same_endpoint(s1, s2)
                && same_endpoint(l1, l2),
            EndpointBundle::Single { .. } => false,
        },
    }
}

/// The collected bundles name pairwise different paths, and no later bundle
/// touches a path nested with an earlier one.
pub open spec fn effects_wf(s: Seq<EndpointBundle>) -> bool {
    forall|i: int, j: int|
        0 <= i < j < s.len() ==> !same_path(logical_of(#[trigger] s[i]), logical_of(#[trigger] s[j]))
            && !bundles_overlap(s[i], s[j])
}

/// `b` is already among the collected bundles.
pub open spec fn has_duplicate(s: Seq<EndpointBundle>, b: EndpointBundle) -> bool {
    exists|i: int| 0 <= i < s.len() && same_bundle(#[trigger] s[i], b)
}

/// A collected bundle is known by the same path as `b`.
pub open spec fn has_conflict(s: Seq<EndpointBundle>, b: EndpointBundle) -> bool {
    exists|i: int| 0 <= i < s.len() && same_path(logical_of(#[trigger] s[i]), logical_of(b))
}

/// The first collected bundle from position `k` on that overlaps `b`, or -1.
pub open spec fn overlap_from(s: Seq<EndpointBundle>, b: EndpointBundle, k: int) -> int
    decreases s.len() - k,
{
    if k < 0 || k >= s.len() {
        -1
    } else if bundles_overlap(s[k], b) {
        k
    } else {
        overlap_from(s, b, k + 1)
    }
}

/// Whether collecting `b` is refused.
pub open spec fn rejected(s: Seq<EndpointBundle>, b: EndpointBundle) -> bool {
    has_duplicate(s, b) || has_conflict(s, b) || overlap_from(s, b, 0) >= 0
}

/// The error with which collecting `b` is refused.
pub open spec fn rejection_is(s: Seq<EndpointBundle>, b: EndpointBundle, e: PeerEffectError) -> bool {
    if has_duplicate(s, b) {
        e matches PeerEffectError::DuplicatePath(p) && p@ == logical_of(b)
    } else if has_conflict(s, b) {
        e matches PeerEffectError::ConflictingPath(p) && p@ == logical_of(b)
    } else {
        let i = overlap_from(s, b, 0);
        &&& 0 <= i < s.len()
        &&& e matches PeerEffectError::OverlappingBundle(p, q) && p@ == logical_of(s[i]) && q@
            == logical_of(b)
    }
}

/// Collecting `b` into `s` gave `t` and `r`.
pub open spec fn pushed(
    s: Seq<EndpointBundle>,
    t: Seq<EndpointBundle>,
    b: EndpointBundle,
    r: Result<(), PeerEffectError>,
) -> bool {
    &&& (r is Ok <==> !rejected(s, b))
    &&& (r is Ok ==> t == s.push(b))
    &&& (r is Err ==> t == s)
    &&& (r matches Err(e) ==> rejection_is(s, b, e))
}

/// Whether `bytes` are exactly the contents of the sealed file.
pub open spec fn matches_image(image: VerifiedPeerFile, bytes: Seq<u8>) -> bool {
    image.length == bytes.len() && image.sha256@ == sha256_hex_of(bytes)
}

/// The postcondition describes a file holding `bytes`.
pub open spec fn describes(after: EndpointPostcondition, bytes: Seq<u8>) -> bool {
    after.sha256@ == sha256_hex_of(bytes) && after.length == bytes.len()
}

/// `e` creates `path` with `bytes` in the role of `group`.
pub open spec fn creates(e: EndpointSpec, role: PeerEndpointRole, path: Seq<char>, bytes: Seq<u8>) -> bool {
    &&& e.path@ == path
    &&& e.role == role
    &&& e.before is Absent
    &&& e.before_bytes is None
    &&& describes(e.after, bytes)
    &&& opt_bytes(e.payload) == Some(bytes)
}

/// `e` replaces the sealed `before` at `path` (now `before_bytes`) with `bytes`.
pub open spec fn replaces(
    e: EndpointSpec,
    role: PeerEndpointRole,
    path: Seq<char>,
    before: VerifiedPeerFile,
    before_bytes: Seq<u8>,
    bytes: Seq<u8>,
) -> bool {
    &&& e.path@ == path
    &&& e.role == role
    &&& e.before == EndpointExpectation::File(before)
    &&& opt_bytes(e.before_bytes) == Some(before_bytes)
    &&& describes(e.after, bytes)
    &&& opt_bytes(e.payload) == Some(bytes)
}

/// `b` is the single effect that creates `path` with `bytes` in `group`.
pub open spec fn is_create(b: EndpointBundle, group: PeerEffectGroup, path: Seq<char>, bytes: Seq<u8>) -> bool {
    b matches EndpointBundle::Single { group: g, endpoint: e } && g == group && creates(
        e,
        role_of(group),
        path,
        bytes,
    )
}

/// `b` is the single effect that replaces the sealed `before` at `path`.
pub open spec fn is_replace(
    b: EndpointBundle,
    group: PeerEffectGroup,
    path: Seq<char>,
    before: VerifiedPeerFile,
    before_bytes: Seq<u8>,
    bytes: Seq<u8>,
) -> bool {
    b matches EndpointBundle::Single { group: g, endpoint: e } && g == group && replaces(
        e,
        role_of(group),
        path,
        before,
        before_bytes,
        bytes,
    )
}

/// `b` moves the foreign host at `live` to `sidecar` and writes `prepared` over it.
pub open spec fn is_acquisition(
    b: EndpointBundle,
    live: Seq<char>,
    sidecar: Seq<char>,
    live_before: VerifiedPeerFile,
    original: Seq<u8>,
    prepared: Seq<u8>,
) -> bool {
    b matches EndpointBundle::HostAcquisition { sidecar: s, live: l } && creates(
        s,
        PeerEndpointRole::Disjoint,
        sidecar,
        original,
    ) && replaces(l, PeerEndpointRole::TopologyDownstream, live, live_before, original, prepared)
}

/// Number of host endpoints of a bundle.
pub open spec fn bundle_hosts(b: EndpointBundle) -> nat {
    match b {
        EndpointBundle::Single { endpoint, .. } => if endpoint.role
            == PeerEndpointRole::TopologyDownstream {
            1
        } else {
            0
        },
        EndpointBundle::HostAcquisition { sidecar, live } => (if sidecar.role
            == PeerEndpointRole::TopologyDownstream {
            1nat
        } else {
            0nat
        }) + (if live.role == PeerEndpointRole::TopologyDownstream {
            1nat
        } else {
            0nat
        }),
    }
}

/// Number of host endpoints among the collected bundles.
pub open spec fn host_count(s: Seq<EndpointBundle>) -> nat
    decreases s.len(),
{
    if s.len() == 0 {
        0
    } else {
        host_count(s.drop_last()) + bundle_hosts(s.last())
    }
}

/// A count as a `usize`, saturated at its maximum.
pub open spec fn capped(n: nat) -> usize {
    if n > usize::MAX {
        usize::MAX
    } else {
        n as usize
    }
}

/// `a` comes before `b` in a program: by group, then by normalized path.
pub open spec fn bundle_lt(a: EndpointBundle, b: EndpointBundle) -> bool {
    ||| rank(group_of(a)) < rank(group_of(b))
    ||| rank(group_of(a)) == rank(group_of(b)) && seq_less(
        path_key(logical_of(a)),
        path_key(logical_of(b)),
    )
}

/// The bundles are in strict program order.
pub open spec fn in_program_order(s: Seq<EndpointBundle>) -> bool {
    forall|i: int, j: int| 0 <= i < j < s.len() ==> bundle_lt(#[trigger] s[i], #[trigger] s[j])
}

/// `t` holds the bundles of `s` in program order.
pub open spec fn orders(s: Seq<EndpointBundle>, t: Seq<EndpointBundle>) -> bool {
    t.to_multiset() == s.to_multiset() && in_program_order(t)
}

/// The endpoints of the bundles, in order.
pub open spec fn flatten(s: Seq<EndpointBundle>) -> Seq<EndpointSpec>
    decreases s.len(),
{
    if s.len() == 0 {
        Seq::empty()
    } else {
        flatten(s.drop_last()) + endpoints_of(s.last())
    }
}

/// `x`, `p` and `it` are the endpoint, payload and file intent of `e`.
pub open spec fn lowers(e: EndpointSpec, x: ExactEndpoint, p: Option<Vec<u8>>, it: FileIntent) -> bool {
    &&& x.path == e.path
    &&& x.role == e.role
    &&& x.before == e.before
    &&& x.after == e.after
    &&& p == e.payload
    &&& it.live_path == e.path
    &&& it.before == e.before_bytes
    &&& opt_bytes(it.after) == opt_bytes(e.payload)
}

/// The three sequences lower `specs` position by position.
pub open spec fn lowered_parts(
    specs: Seq<EndpointSpec>,
    xs: Seq<ExactEndpoint>,
    ps: Seq<Option<Vec<u8>>>,
    its: Seq<FileIntent>,
) -> bool {
    &&& xs.len() == specs.len()
    &&& ps.len() == specs.len()
    &&& its.len() == specs.len()
    &&& forall|k: int| 0 <= k < specs.len() ==> lowers(#[trigger] specs[k], xs[k], ps[k], its[k])
}

/// `e` is the program of the collected bundles `s`.
pub open spec fn program_of(s: Seq<EndpointBundle>, e: PeerEffects) -> bool {
    exists|t: Seq<EndpointBundle>|
        #[trigger] orders(s, t) && lowered_parts(flatten(t), e.endpoints@, e.payloads@, e.game_intents@)
}

/// A file effect to collect, as plain values.
pub enum PlannedEffect {
    /// Create `path` with `bytes`.
    Create { group: PeerEffectGroup, path: Seq<char>, bytes: Seq<u8> },
    /// Replace the sealed `before` at `path`, whose bytes are `before_bytes`,
    /// with `bytes`.
    Replace {
        group: PeerEffectGroup,
        path: Seq<char>,
        before: VerifiedPeerFile,
        before_bytes: Seq<u8>,
        bytes: Seq<u8>,
    },
}

/// Collecting the creation of `path` with `bytes` into `s0` gave `s` and `r`.
pub open spec fn create_step(
    s0: Seq<EndpointBundle>,
    group: PeerEffectGroup,
    path: Seq<char>,
    bytes: Seq<u8>,
    s: Seq<EndpointBundle>,
    r: Result<(), PeerEffectError>,
) -> bool {
    exists|b: EndpointBundle| #[trigger] is_create(b, group, path, bytes) && pushed(s0, s, b, r)
}

/// Collecting the replacement of the sealed `before` at `path` into `s0` gave
/// `s` and `r`.
pub open spec fn replace_step(
    s0: Seq<EndpointBundle>,
    group: PeerEffectGroup,
    path: Seq<char>,
    before: VerifiedPeerFile,
    before_bytes: Seq<u8>,
    bytes: Seq<u8>,
    s: Seq<EndpointBundle>,
    r: Result<(), PeerEffectError>,
) -> bool {
    if !matches_image(before, before_bytes) {
        s == s0 && (r matches Err(PeerEffectError::BeforeImageMismatch(x)) && x@ == path)
    } else {
        exists|b: EndpointBundle|
            #[trigger] is_replace(b, group, path, before, before_bytes, bytes) && pushed(s0, s, b, r)
    }
}

/// Collecting the planned effect `p` into `s0` gave `s` and `r`.
pub open spec fn step_is(
    s0: Seq<EndpointBundle>,
    p: PlannedEffect,
    s: Seq<EndpointBundle>,
    r: Result<(), PeerEffectError>,
) -> bool {
    match p {
        PlannedEffect::Create { group, path, bytes } => create_step(s0, group, path, bytes, s, r),
        PlannedEffect::Replace { group, path, before, before_bytes, bytes } => replace_step(
            s0,
            group,
            path,
            before,
            before_bytes,
            bytes,
            s,
            r,
        ),
    }
}

/// `states` are the accumulator contents before each collected effect of `ps`,
/// starting empty, and `results` the outcome of each successful collection; the
/// collection ended with `s` and `r`.
pub open spec fn collected_by(
    ps: Seq<PlannedEffect>,
    states: Seq<Seq<EndpointBundle>>,
    results: Seq<Result<(), PeerEffectError>>,
    s: Seq<EndpointBundle>,
    r: Result<(), PeerEffectError>,
) -> bool {
    let k = states.len() - 1;
    &&& 1 <= states.len() <= ps.len() + 1
    &&& results.len() == k
    &&& states[0] == Seq::<EndpointBundle>::empty()
    &&& forall|i: int|
        #![trigger results[i]]
        0 <= i < k ==> results[i] is Ok && step_is(states[i], ps[i], states[i + 1], results[i])
    &&& if r is Ok {
        k == ps.len() && s == states[k]
    } else {
        k < ps.len() && step_is(states[k], ps[k], s, r)
    }
}

/// Collecting the planned effects in order into an empty accumulator, stopping
/// at the first refusal, gave `s` and `r`.
pub open spec fn collects(ps: Seq<PlannedEffect>, s: Seq<EndpointBundle>, r: Result<(), PeerEffectError>) -> bool {
    exists|states: Seq<Seq<EndpointBundle>>, results: Seq<Result<(), PeerEffectError>>|
        #[trigger] collected_by(ps, states, results, s, r)
}

// ---------------------------------------------------------------------------
// Comparisons
// ---------------------------------------------------------------------------

/// The comparison-key character of `c`.
fn key_of(c: char) -> (r: char)
    ensures
        r == key_char(c),
{
    if c == '\\' {
        '/'
    } else {
        crate::text::ascii_lower(c)
    }
}

/// Whether the key of `p` names a folder containing the key of `q`.
fn key_dir_prefix(p: &str, q: &str) -> (r: bool)
    ensures
        r == dir_prefix(path_key(p@), path_key(q@)),
{
    let n = p.unicode_len();
    let m = q.unicode_len();
    if n >= m {
        return false;
    }
    let mut i: usize = 0;
    while i < n
        invariant
            n == p@.len(),
            m == q@.len(),
            n < m,
            i <= n,
            forall|j: int| 0 <= j < i ==> key_char(p@[j]) == key_char(q@[j]),
        decreases n - i,
    {
        if key_of(p.get_char(i)) != key_of(q.get_char(i)) {
            proof {
                assert(path_key(q@).subrange(0, n as int)[i as int] != path_key(p@)[i as int]);
            }
            return false;
        }
        i = i + 1;
    }
    proof {
        assert(path_key(q@).subrange(0, n as int) =~= path_key(p@));
    }
    key_of(q.get_char(n)) == '/'
}

/// Whether two paths name the same file or one lies inside the other.
pub fn overlapping_paths(a: &str, b: &str) -> (r: bool)
    ensures
        r == paths_overlap(a@, b@),
{
    same_lexical_path(a, b) || key_dir_prefix(a, b) || key_dir_prefix(b, a)
}

/// Exact equality of two byte strings.
pub fn bytes_eq(a: &[u8], b: &[u8]) -> (r: bool)
    ensures
        r == (a@ == b@),
{
    let n = a.len();
    if n != b.len() {
        return false;
    }
    let mut i: usize = 0;
    while i < n
        invariant
            n == a@.len(),
            n == b@.len(),
            i <= n,
            forall|j: int| 0 <= j < i ==> a@[j] == b@[j],
        decreases n - i,
    {
        if a[i] != b[i] {
            return false;
        }
        i = i + 1;
    }
    proof {
        assert(a@ =~= b@);
    }
    true
}

fn opt_bytes_eq(a: &Option<Vec<u8>>, b: &Option<Vec<u8>>) -> (r: bool)
    ensures
        r == (opt_bytes(*a) == opt_bytes(*b)),
{
    match (a, b) {
        (Some(x), Some(y)) => bytes_eq(x.as_slice(), y.as_slice()),
        (None, None) => true,
        _ => false,
    }
}

fn file_eq(a: &VerifiedPeerFile, b: &VerifiedPeerFile) -> (r: bool)
    ensures
        r == same_file(*a, *b),
{
    str_eq(a.identity.as_str(), b.identity.as_str()) && str_eq(a.sha256.as_str(), b.sha256.as_str())
        && a.length == b.length
}

fn expectation_eq(a: &EndpointExpectation, b: &EndpointExpectation) -> (r: bool)
    ensures
        r == same_expectation(*a, *b),
{
    match (a, b) {
        (EndpointExpectation::Absent, EndpointExpectation::Absent) => true,
        (EndpointExpectation::File(x), EndpointExpectation::File(y)) => file_eq(x, y),
        _ => false,
    }
}

fn endpoint_eq(a: &EndpointSpec, b: &EndpointSpec) -> (r: bool)
    ensures
        r == same_endpoint(*a, *b),
{
    str_eq(a.path.as_str(), b.path.as_str()) && a.role == b.role && expectation_eq(&a.before, &b.before)
        && opt_bytes_eq(&a.before_bytes, &b.before_bytes) && str_eq(
        a.after.sha256.as_str(),
        b.after.sha256.as_str(),
    ) && a.after.length == b.after.length && opt_bytes_eq(&a.payload, &b.payload)
}

fn bundle_eq(a: &EndpointBundle, b: &EndpointBundle) -> (r: bool)
    ensures
        r == same_bundle(*a, *b),
{
    match (a, b) {
        (
            EndpointBundle::Single { group: g1, endpoint: e1 },
            EndpointBundle::Single { group: g2, endpoint: e2 },
        ) => *g1 == *g2 && endpoint_eq(e1, e2),
        (
            EndpointBundle::HostAcquisition { sidecar: s1, live: l1 },
            EndpointBundle::HostAcquisition { sidecar: s2, live: l2 },
        ) => endpoint_eq(s1, s2) && endpoint_eq(l1, l2),
        _ => false,
    }
}

fn touches_path(b: &EndpointBundle, p: &str) -> (r: bool)
    ensures
        r == touches(*b, p@),
{
    match b {
        EndpointBundle::Single { endpoint, .. } => overlapping_paths(endpoint.path.as_str(), p),
        EndpointBundle::HostAcquisition { sidecar, live } => overlapping_paths(
            sidecar.path.as_str(),
            p,
        ) || overlapping_paths(live.path.as_str(), p),
    }
}

fn overlapping_bundles(a: &EndpointBundle, b: &EndpointBundle) -> (r: bool)
    ensures
        r == bundles_overlap(*a, *b),
{
    match b {
        EndpointBundle::Single { endpoint, .. } => touches_path(a, endpoint.path.as_str()),
        EndpointBundle::HostAcquisition { sidecar, live } => touches_path(a, sidecar.path.as_str())
            || touches_path(a, live.path.as_str()),
    }
}

impl EndpointBundle {
    /// The group of the bundle.
    pub fn group(&self) -> (r: PeerEffectGroup)
        ensures
            r == group_of(*self),
    {
        match self {
            EndpointBundle::Single { group, .. } => *group,
            EndpointBundle::HostAcquisition { .. } => PeerEffectGroup::Host,
        }
    }

    /// The path the bundle is known by.
    pub fn logical_path(&self) -> (r: &String)
        ensures
            r@ == logical_of(*self),
    {
        match self {
            EndpointBundle::Single { endpoint, .. } => &endpoint.path,
            EndpointBundle::HostAcquisition { live, .. } => &live.path,
        }
    }

    /// Number of endpoints in the bundle.
    pub fn len(&self) -> (r: usize)
        ensures
            r == endpoints_of(*self).len(),
    {
        match self {
            EndpointBundle::Single { .. } => 1,
            EndpointBundle::HostAcquisition { .. } => 2,
        }
    }
}

impl VerifiedPeerFile {
    /// A sealed observation from its parts.
    pub fn new_with_length(identity: String, sha256: String, length: u64) -> (r: Self)
        ensures
            r.identity == identity,
            r.sha256 == sha256,
            r.length == length,
    {
        VerifiedPeerFile { identity, sha256, length }
    }

    /// An exact copy.
    pub fn duplicate(&self) -> (r: Self)
        ensures
            r == *self,
    {
        VerifiedPeerFile {
            identity: self.identity.clone(),
            sha256: self.sha256.clone(),
            length: self.length,
        }
    }

    /// Whether `bytes` are exactly the sealed contents.
    pub fn matches_content_bytes(&self, bytes: &[u8]) -> (r: bool)
        ensures
            r == matches_image(*self, bytes@),
    {
        if self.length != bytes.len() as u64 {
            return false;
        }
        let digest = sha256_hex(bytes);
        str_eq(self.sha256.as_str(), digest.as_str())
    }
}

/// The postcondition of an endpoint that ends up holding `bytes`.
pub fn postcondition_for(bytes: &[u8]) -> (r: EndpointPostcondition)
    ensures
        describes(r, bytes@),
{
    EndpointPostcondition { sha256: sha256_hex(bytes), length: bytes.len() as u64 }
}

/// The program position of a group.
pub fn group_rank(group: PeerEffectGroup) -> (r: u8)
    ensures
        r == rank(group),
{
    match group {
        PeerEffectGroup::Addon => 0,
        PeerEffectGroup::Host => 1,
        PeerEffectGroup::Config => 2,
    }
}

/// The endpoint role of a group's single effects.
pub fn role_for(group: PeerEffectGroup) -> (r: PeerEndpointRole)
    ensures
        r == role_of(group),
{
    match group {
        PeerEffectGroup::Addon => PeerEndpointRole::Disjoint,
        PeerEffectGroup::Host => PeerEndpointRole::TopologyDownstream,
        PeerEffectGroup::Config => PeerEndpointRole::ReshadeIni,
    }
}

/// Fails unless `bytes` are exactly the sealed contents of the file at `path`.
pub fn ensure_bytes_match_image(path: &String, bytes: &[u8], image: &VerifiedPeerFile) -> (r: Result<
    (),
    PeerEffectError,
>)
    ensures
        r is Ok <==> matches_image(*image, bytes@),
        r matches Err(e) ==> e == PeerEffectError::BeforeImageMismatch(*path),
{
    if !image.matches_content_bytes(bytes) {
        return Err(PeerEffectError::BeforeImageMismatch(path.clone()));
    }
    Ok(())
}

/// Fails when a host and its sidecar name the same or nested paths.
pub fn ensure_distinct_pair_paths(live_path: &String, sidecar_path: &String) -> (r: Result<
    (),
    PeerEffectError,
>)
    ensures
        r is Ok <==> !paths_overlap(live_path@, sidecar_path@),
        same_path(live_path@, sidecar_path@) ==> r == Err::<(), PeerEffectError>(
            PeerEffectError::SamePairPath(*live_path),
        ),
        !same_path(live_path@, sidecar_path@) && paths_overlap(live_path@, sidecar_path@) ==> r == Err::<
            (),
            PeerEffectError,
        >(PeerEffectError::OverlappingPaths(*live_path, *sidecar_path)),
{
    if same_lexical_path(live_path.as_str(), sidecar_path.as_str()) {
        return Err(PeerEffectError::SamePairPath(live_path.clone()));
    }
    if overlapping_paths(live_path.as_str(), sidecar_path.as_str()) {
        return Err(PeerEffectError::OverlappingPaths(live_path.clone(), sidecar_path.clone()));
    }
    Ok(())
}

// ---------------------------------------------------------------------------
// Collecting effects
// ---------------------------------------------------------------------------

impl PeerEffectAccumulator {
    /// An accumulator with no effect.
    pub fn new() -> (r: Self)
        ensures
            r@ == Seq::<EndpointBundle>::empty(),
            effects_wf(r@),
    {
        PeerEffectAccumulator { bundles: Vec::new() }
    }

    /// Collects a bundle unless it repeats, matches or nests with an earlier one.
    fn push(&mut self, bundle: EndpointBundle) -> (r: Result<(), PeerEffectError>)
        requires
            effects_wf(old(self)@),
        ensures
            effects_wf(final(self)@),
            pushed(old(self)@, final(self)@, bundle, r),
    {
        let n = self.bundles.len();
        let mut i: usize = 0;
        while i < n
            invariant
                n == self.bundles@.len(),
                i <= n,
                self.bundles@ == old(self).bundles@,
                effects_wf(self@),
                forall|j: int| 0 <= j < i ==> !same_bundle(#[trigger] self.bundles@[j], bundle),
            decreases n - i,
        {
            if bundle_eq(&self.bundles[i], &bundle) {
                return Err(PeerEffectError::DuplicatePath(bundle.logical_path().clone()));
            }
            i = i + 1;
        }
        assert(!has_duplicate(self@, bundle));
        let mut i: usize = 0;
        while i < n
            invariant
                n == self.bundles@.len(),
                i <= n,
                self.bundles@ == old(self).bundles@,
                effects_wf(self@),
                !has_duplicate(self@, bundle),
                forall|j: int|
                    0 <= j < i ==> !same_path(logical_of(#[trigger] self.bundles@[j]), logical_of(bundle)),
            decreases n - i,
        {
            if same_lexical_path(self.bundles[i].logical_path().as_str(), bundle.logical_path().as_str()) {
                return Err(PeerEffectError::ConflictingPath(bundle.logical_path().clone()));
            }
            i = i + 1;
        }
        assert(!has_conflict(self@, bundle));
        let mut i: usize = 0;
        while i < n
            invariant
                n == self.bundles@.len(),
                i <= n,
                self.bundles@ == old(self).bundles@,
                effects_wf(self@),
                !has_duplicate(self@, bundle),
                !has_conflict(self@, bundle),
                overlap_from(self.bundles@, bundle, 0) == overlap_from(self.bundles@, bundle, i as int),
                forall|j: int| 0 <= j < i ==> !bundles_overlap(#[trigger] self.bundles@[j], bundle),
            decreases n - i,
        {
            if overlapping_bundles(&self.bundles[i], &bundle) {
                return Err(
                    PeerEffectError::OverlappingBundle(
                        self.bundles[i].logical_path().clone(),
                        bundle.logical_path().clone(),
                    ),
                );
            }
            i = i + 1;
        }
        let ghost before = self.bundles@;
        self.bundles.push(bundle);
        proof {
            let s = self.bundles@;
            assert forall|a: int, c: int| 0 <= a < c < s.len() implies !same_path(
                logical_of(#[trigger] s[a]),
                logical_of(#[trigger] s[c]),
            ) && !bundles_overlap(s[a], s[c]) by {
                if c == n {
                    assert(s[a] == before[a]);
                }
            }
        }
        Ok(())
    }

    /// Collects the creation of `path` with `bytes` in `group`.
    pub fn create(&mut self, group: PeerEffectGroup, path: String, bytes: Vec<u8>) -> (r: Result<
        (),
        PeerEffectError,
    >)
        requires
            effects_wf(old(self)@),
        ensures
            effects_wf(final(self)@),
            exists|b: EndpointBundle|
                is_create(b, group, path@, bytes@) && pushed(old(self)@, final(self)@, b, r),
    {
        let role = role_for(group);
        let after = postcondition_for(bytes.as_slice());
        let ghost content = bytes@;
        let bundle = EndpointBundle::Single {
            group,
            endpoint: EndpointSpec {
                path,
                role,
                before: EndpointExpectation::Absent,
                before_bytes: None,
                after,
                payload: Some(bytes),
            },
        };
        assert(is_create(bundle, group, path@, content));
        self.push(bundle)
    }

    /// Collects the replacement of the sealed file `before` at `path`, whose
    /// current bytes are `before_bytes`, with `bytes`.
    pub fn replace(
        &mut self,
        group: PeerEffectGroup,
        path: String,
        before: &VerifiedPeerFile,
        before_bytes: Vec<u8>,
        bytes: Vec<u8>,
    ) -> (r: Result<(), PeerEffectError>)
        requires
            effects_wf(old(self)@),
        ensures
            effects_wf(final(self)@),
            !matches_image(*before, before_bytes@) ==> final(self)@ == old(self)@ && r
                == Err::<(), PeerEffectError>(PeerEffectError::BeforeImageMismatch(path)),
            matches_image(*before, before_bytes@) ==> exists|b: EndpointBundle|
                is_replace(b, group, path@, *before, before_bytes@, bytes@) && pushed(
                    old(self)@,
                    final(self)@,
                    b,
                    r,
                ),
    {
        match ensure_bytes_match_image(&path, before_bytes.as_slice(), before) {
            Err(e) => {
                return Err(e);
            },
            Ok(()) => {},
        }
        let role = role_for(group);
        let after = postcondition_for(bytes.as_slice());
        let ghost content = bytes@;
        let ghost prior = before_bytes@;
        let bundle = EndpointBundle::Single {
            group,
            endpoint: EndpointSpec {
                path,
                role,
                before: EndpointExpectation::File(before.duplicate()),
                before_bytes: Some(before_bytes),
                after,
                payload: Some(bytes),
            },
        };
        assert(is_replace(bundle, group, path@, *before, prior, content));
        self.push(bundle)
    }

    /// Collects the acquisition of the foreign host at `live_path`: its current
    /// bytes `original_bytes` go to `sidecar_path`, and `prepared_bytes` are
    /// written over it.
    pub fn acquire_host(
        &mut self,
        live_path: String,
        sidecar_path: String,
        live_before: &VerifiedPeerFile,
        original_bytes: Vec<u8>,
        prepared_bytes: Vec<u8>,
    ) -> (r: Result<(), PeerEffectError>)
        requires
            effects_wf(old(self)@),
        ensures
            effects_wf(final(self)@),
            same_path(live_path@, sidecar_path@) ==> final(self)@ == old(self)@ && r == Err::<
                (),
                PeerEffectError,
            >(PeerEffectError::SamePairPath(live_path)),
            !same_path(live_path@, sidecar_path@) && paths_overlap(live_path@, sidecar_path@)
                ==> final(self)@ == old(self)@ && r == Err::<(), PeerEffectError>(
                PeerEffectError::OverlappingPaths(live_path, sidecar_path),
            ),
            !paths_overlap(live_path@, sidecar_path@) && !matches_image(*live_before, original_bytes@)
                ==> final(self)@ == old(self)@ && r == Err::<(), PeerEffectError>(
                PeerEffectError::BeforeImageMismatch(live_path),
            ),
            !paths_overlap(live_path@, sidecar_path@) && matches_image(*live_before, original_bytes@)
                ==> exists|b: EndpointBundle|
                is_acquisition(
                    b,
                    live_path@,
                    sidecar_path@,
                    *live_before,
                    original_bytes@,
                    prepared_bytes@,
                ) && pushed(old(self)@, final(self)@, b, r),
    {
        match ensure_distinct_pair_paths(&live_path, &sidecar_path) {
            Err(e) => {
                return Err(e);
            },
            Ok(()) => {},
        }
        match ensure_bytes_match_image(&live_path, original_bytes.as_slice(), live_before) {
            Err(e) => {
                return Err(e);
            },
            Ok(()) => {},
        }
        let live_before_bytes = crate::install_plan::copy_bytes(&original_bytes);
        let sidecar_after = postcondition_for(original_bytes.as_slice());
        let live_after = postcondition_for(prepared_bytes.as_slice());
        let ghost original = original_bytes@;
        let ghost prepared = prepared_bytes@;
        let bundle = EndpointBundle::HostAcquisition {
            sidecar: EndpointSpec {
                path: sidecar_path,
                role: PeerEndpointRole::Disjoint,
                before: EndpointExpectation::Absent,
                before_bytes: None,
                after: sidecar_after,
                payload: Some(original_bytes),
            },
            live: EndpointSpec {
                path: live_path,
                role: PeerEndpointRole::TopologyDownstream,
                before: EndpointExpectation::File(live_before.duplicate()),
                before_bytes: Some(live_before_bytes),
                after: live_after,
                payload: Some(prepared_bytes),
            },
        };
        assert(is_acquisition(bundle, live_path@, sidecar_path@, *live_before, original, prepared));
        self.push(bundle)
    }
}

// ---------------------------------------------------------------------------
// Program order
// ---------------------------------------------------------------------------

/// Program order is asymmetric.
pub proof fn lemma_bundle_lt_asym(a: EndpointBundle, b: EndpointBundle)
    ensures
        !(bundle_lt(a, b) && bundle_lt(b, a)),
{
    lemma_seq_less_asym(path_key(logical_of(a)), path_key(logical_of(b)));
}

/// Program order is transitive.
pub proof fn lemma_bundle_lt_trans(a: EndpointBundle, b: EndpointBundle, c: EndpointBundle)
    requires
        bundle_lt(a, b),
        bundle_lt(b, c),
    ensures
        bundle_lt(a, c),
{
    if rank(group_of(a)) == rank(group_of(b)) && rank(group_of(b)) == rank(group_of(c)) {
        lemma_seq_less_trans(
            path_key(logical_of(a)),
            path_key(logical_of(b)),
            path_key(logical_of(c)),
        );
    }
}

/// Bundles known by different paths are ordered one way or the other.
pub proof fn lemma_bundle_lt_total(a: EndpointBundle, b: EndpointBundle)
    requires
        !same_path(logical_of(a), logical_of(b)),
    ensures
        bundle_lt(a, b) || bundle_lt(b, a),
{
    lemma_seq_less_total(path_key(logical_of(a)), path_key(logical_of(b)));
}

/// Strict comparison of the normalized keys of two paths.
fn key_less(a: &str, b: &str) -> (r: bool)
    ensures
        r == seq_less(path_key(a@), path_key(b@)),
{
    let n = a.unicode_len();
    let m = b.unicode_len();
    let ghost ka = path_key(a@);
    let ghost kb = path_key(b@);
    let mut i: usize = 0;
    while i < n && i < m && key_of(a.get_char(i)) == key_of(b.get_char(i))
        invariant
            n == a@.len(),
            m == b@.len(),
            ka == path_key(a@),
            kb == path_key(b@),
            i <= n,
            i <= m,
            forall|k: int| 0 <= k < i ==> ka[k] == kb[k],
        decreases n - i,
    {
        i = i + 1;
    }
    proof {
        lemma_seq_less_common_prefix(ka, kb, i as int);
        let ra = ka.subrange(i as int, n as int);
        let rb = kb.subrange(i as int, m as int);
        if i < n && i < m {
            assert(ra[0] == ka[i as int]);
            assert(rb[0] == kb[i as int]);
        }
    }
    if i == n {
        i < m
    } else if i == m {
        false
    } else {
        let x = key_of(a.get_char(i));
        let y = key_of(b.get_char(i));
        (x as u32) < (y as u32)
    }
}

/// Whether `a` comes before `b` in a program.
pub fn bundle_less(a: &EndpointBundle, b: &EndpointBundle) -> (r: bool)
    ensures
        r == bundle_lt(*a, *b),
{
    let ra = group_rank(a.group());
    let rb = group_rank(b.group());
    if ra != rb {
        return ra < rb;
    }
    key_less(a.logical_path().as_str(), b.logical_path().as_str())
}

/// `a + h` as a `usize`, saturated.
fn add_capped(a: usize, h: usize) -> (r: usize)
    ensures
        r as int == if a + h > usize::MAX {
            usize::MAX as int
        } else {
            a + h
        },
{
    if a > usize::MAX - h {
        usize::MAX
    } else {
        a + h
    }
}

/// Number of host endpoints among the bundles, saturated.
fn count_hosts(bundles: &Vec<EndpointBundle>) -> (r: usize)
    ensures
        r == capped(host_count(bundles@)),
{
    let n = bundles.len();
    let mut count: usize = 0;
    let mut i: usize = 0;
    while i < n
        invariant
            n == bundles@.len(),
            i <= n,
            count == capped(host_count(bundles@.subrange(0, i as int))),
        decreases n - i,
    {
        let h: usize = match &bundles[i] {
            EndpointBundle::Single { endpoint, .. } => if endpoint.role
                == PeerEndpointRole::TopologyDownstream {
                1
            } else {
                0
            },
            EndpointBundle::HostAcquisition { sidecar, live } => {
                let a: usize = if sidecar.role == PeerEndpointRole::TopologyDownstream {
                    1
                } else {
                    0
                };
                let b: usize = if live.role == PeerEndpointRole::TopologyDownstream {
                    1
                } else {
                    0
                };
                a + b
            },
        };
        proof {
            let next = bundles@.subrange(0, i + 1);
            assert(next.drop_last() =~= bundles@.subrange(0, i as int));
            assert(next.last() == bundles@[i as int]);
            assert(h == bundle_hosts(bundles@[i as int]));
        }
        count = add_capped(count, h);
        i = i + 1;
    }
    proof {
        assert(bundles@.subrange(0, n as int) =~= bundles@);
    }
    count
}

/// The bundles in program order.
fn sort_bundles(v: Vec<EndpointBundle>) -> (r: Vec<EndpointBundle>)
    requires
        effects_wf(v@),
    ensures
        orders(v@, r@),
{
    broadcast use vstd::seq_lib::group_to_multiset_ensures;

    let ghost orig = v@;
    let ghost total = v@.len();
    let mut rest = v;
    let mut sorted: Vec<EndpointBundle> = Vec::new();
    proof {
        assert(orig.subrange(total as int, total as int) =~= Seq::<EndpointBundle>::empty());
        assert(rest@ =~= orig.subrange(0, total as int));
    }
    while rest.len() > 0
        invariant
            effects_wf(orig),
            total == orig.len(),
            rest@.len() <= total,
            rest@ == orig.subrange(0, rest@.len() as int),
            sorted@.to_multiset() == orig.subrange(rest@.len() as int, total as int).to_multiset(),
            in_program_order(sorted@),
            forall|t: int|
                0 <= t < sorted@.len() ==> exists|j: int|
                    rest@.len() <= j < total && orig[j] == #[trigger] sorted@[t],
        decreases rest@.len(),
    {
        let ghost k = rest@.len() as int;
        let b = rest.pop().unwrap();
        assert(b == orig[k - 1]);
        let n = sorted.len();
        let mut i: usize = 0;
        while i < n && bundle_less(&sorted[i], &b)
            invariant
                n == sorted@.len(),
                i <= n,
                forall|t: int| 0 <= t < i ==> bundle_lt(#[trigger] sorted@[t], b),
            decreases n - i,
        {
            i = i + 1;
        }
        let ghost old_sorted = sorted@;
        proof {
            if i < n {
                let j = choose|j: int| k <= j < total && orig[j] == #[trigger] old_sorted[i as int];
                assert(!same_path(logical_of(orig[k - 1]), logical_of(orig[j])));
                lemma_bundle_lt_total(b, old_sorted[i as int]);
                assert(bundle_lt(b, old_sorted[i as int]));
                assert forall|t: int| i < t < n implies bundle_lt(b, #[trigger] old_sorted[t]) by {
                    lemma_bundle_lt_trans(b, old_sorted[i as int], old_sorted[t]);
                }
            }
        }
        sorted.insert(i, b);
        proof {
            let s2 = sorted@;
            assert(s2 == old_sorted.insert(i as int, b));
            assert forall|p: int, q: int| 0 <= p < q < s2.len() implies bundle_lt(
                #[trigger] s2[p],
                #[trigger] s2[q],
            ) by {
                if q < i {
                    assert(s2[p] == old_sorted[p] && s2[q] == old_sorted[q]);
                } else if q == i {
                    assert(s2[p] == old_sorted[p]);
                } else if p < i {
                    assert(s2[p] == old_sorted[p] && s2[q] == old_sorted[q - 1]);
                    assert(bundle_lt(old_sorted[p], b));
                    lemma_bundle_lt_trans(old_sorted[p], b, old_sorted[q - 1]);
                } else if p == i {
                    assert(s2[q] == old_sorted[q - 1]);
                } else {
                    assert(s2[p] == old_sorted[p - 1] && s2[q] == old_sorted[q - 1]);
                }
            }
            assert forall|t: int| 0 <= t < s2.len() implies exists|j: int|
                k - 1 <= j < total && orig[j] == #[trigger] s2[t] by {
                if t < i {
                    assert(s2[t] == old_sorted[t]);
                    let j = choose|j: int| k <= j < total && orig[j] == #[trigger] old_sorted[t];
                    assert(orig[j] == s2[t]);
                } else if t == i {
                    assert(orig[k - 1] == s2[t]);
                } else {
                    assert(s2[t] == old_sorted[t - 1]);
                    let j = choose|j: int| k <= j < total && orig[j] == #[trigger] old_sorted[t - 1];
                    assert(orig[j] == s2[t]);
                }
            }
            let tail = orig.subrange(k - 1, total as int);
            assert(tail =~= orig.subrange(k, total as int).insert(0, orig[k - 1]));
            vstd::seq_lib::to_multiset_insert(old_sorted, i as int, b);
            vstd::seq_lib::to_multiset_insert(orig.subrange(k, total as int), 0, b);
            assert(s2.to_multiset() == old_sorted.to_multiset().insert(b));
            assert(tail.to_multiset() == orig.subrange(k, total as int).to_multiset().insert(b));
            assert(rest@ =~= orig.subrange(0, k - 1));
        }
    }
    proof {
        assert(orig.subrange(0, total as int) =~= orig);
    }
    sorted
}

/// A copy of optional bytes.
fn copy_opt_bytes(o: &Option<Vec<u8>>) -> (r: Option<Vec<u8>>)
    ensures
        opt_bytes(r) == opt_bytes(*o),
{
    match o {
        Some(v) => Some(crate::install_plan::copy_bytes(v)),
        None => None,
    }
}

/// Appends the endpoint, payload and file intent of `spec`.
fn emit(
    spec: EndpointSpec,
    endpoints: &mut Vec<ExactEndpoint>,
    payloads: &mut Vec<Option<Vec<u8>>>,
    intents: &mut Vec<FileIntent>,
)
    ensures
        final(endpoints)@.len() == old(endpoints)@.len() + 1,
        final(payloads)@.len() == old(payloads)@.len() + 1,
        final(intents)@.len() == old(intents)@.len() + 1,
        final(endpoints)@.drop_last() == old(endpoints)@,
        final(payloads)@.drop_last() == old(payloads)@,
        final(intents)@.drop_last() == old(intents)@,
        lowers(spec, final(endpoints)@.last(), final(payloads)@.last(), final(intents)@.last()),
{
    let ghost e = spec;
    let EndpointSpec { path, role, before, before_bytes, after, payload } = spec;
    intents.push(FileIntent { live_path: path.clone(), before: before_bytes, after: copy_opt_bytes(&payload) });
    endpoints.push(ExactEndpoint { path, role, before, after });
    payloads.push(payload);
    proof {
        assert(final(endpoints)@.drop_last() =~= old(endpoints)@);
        assert(final(payloads)@.drop_last() =~= old(payloads)@);
        assert(final(intents)@.drop_last() =~= old(intents)@);
    }
}

/// Lowers bundles, in their order, into endpoints, payloads and file intents.
fn lower(bundles: Vec<EndpointBundle>) -> (r: PeerEffects)
    ensures
        lowered_parts(flatten(bundles@), r.endpoints@, r.payloads@, r.game_intents@),
{
    let ghost t = bundles@;
    let mut rest = bundles;
    let mut endpoints: Vec<ExactEndpoint> = Vec::new();
    let mut payloads: Vec<Option<Vec<u8>>> = Vec::new();
    let mut intents: Vec<FileIntent> = Vec::new();
    let ghost mut c: int = 0;
    proof {
        assert(t.subrange(0, 0) =~= Seq::<EndpointBundle>::empty());
        assert(t.subrange(0, t.len() as int) =~= t);
    }
    while rest.len() > 0
        invariant
            0 <= c <= t.len(),
            rest@ == t.subrange(c, t.len() as int),
            lowered_parts(flatten(t.subrange(0, c)), endpoints@, payloads@, intents@),
        decreases rest@.len(),
    {
        let b = rest.remove(0);
        let ghost xs0 = endpoints@;
        let ghost ps0 = payloads@;
        let ghost is0 = intents@;
        let ghost done = flatten(t.subrange(0, c));
        assert(b == t[c]);
        match b {
            EndpointBundle::Single { endpoint, .. } => {
                emit(endpoint, &mut endpoints, &mut payloads, &mut intents);
            },
            EndpointBundle::HostAcquisition { sidecar, live } => {
                emit(sidecar, &mut endpoints, &mut payloads, &mut intents);
                let ghost xs1 = endpoints@;
                let ghost ps1 = payloads@;
                let ghost is1 = intents@;
                emit(live, &mut endpoints, &mut payloads, &mut intents);
                proof {
                    assert(endpoints@[xs0.len() as int] == xs1.last());
                    assert(payloads@[ps0.len() as int] == ps1.last());
                    assert(intents@[is0.len() as int] == is1.last());
                }
            },
        }
        proof {
            let next = t.subrange(0, c + 1);
            assert(next.drop_last() =~= t.subrange(0, c));
            assert(next.last() == t[c]);
            let specs = flatten(next);
            assert(specs == done + endpoints_of(t[c]));
            assert forall|k: int| 0 <= k < specs.len() implies lowers(
                #[trigger] specs[k],
                endpoints@[k],
                payloads@[k],
                intents@[k],
            ) by {
                if k < done.len() {
                    assert(specs[k] == done[k]);
                    assert(endpoints@[k] == xs0[k]);
                    assert(payloads@[k] == ps0[k]);
                    assert(intents@[k] == is0[k]);
                }
            }
            c = c + 1;
            assert(rest@ =~= t.subrange(c, t.len() as int));
        }
    }
    proof {
        assert(c == t.len());
        assert(t.subrange(0, c) =~= t);
    }
    PeerEffects { endpoints, payloads, game_intents: intents }
}

/// Two bundle sequences in program order with the same bundles are equal.
pub proof fn lemma_program_order_unique(x: Seq<EndpointBundle>, y: Seq<EndpointBundle>)
    requires
        in_program_order(x),
        in_program_order(y),
        x.to_multiset() == y.to_multiset(),
    ensures
        x == y,
    decreases x.len(),
{
    broadcast use vstd::seq_lib::group_to_multiset_ensures;

    if x.len() == 0 {
        assert(y.to_multiset().len() == 0);
        assert(y =~= x);
    } else {
        vstd::seq_lib::to_multiset_len(x);
        vstd::seq_lib::to_multiset_len(y);
        assert(y.len() == x.len());
        assert(x.contains(x[0]));
        assert(x.to_multiset().count(x[0]) > 0);
        assert(y.contains(x[0]));
        assert(y.contains(y[0]));
        assert(y.to_multiset().count(y[0]) > 0);
        assert(x.contains(y[0]));
        let j = choose|j: int| 0 <= j < y.len() && y[j] == x[0];
        let i = choose|i: int| 0 <= i < x.len() && x[i] == y[0];
        if x[0] != y[0] {
            assert(i > 0 && j > 0);
            assert(bundle_lt(x[0], x[i]));
            assert(bundle_lt(y[0], y[j]));
            lemma_bundle_lt_asym(x[0], y[0]);
        }
        let x1 = x.drop_first();
        let y1 = y.drop_first();
        assert(x.remove(0) =~= x1);
        assert(y.remove(0) =~= y1);
        assert(x1.to_multiset() == x.to_multiset().remove(x[0]));
        assert(y1.to_multiset() == y.to_multiset().remove(y[0]));
        assert forall|p: int, q: int| 0 <= p < q < x1.len() implies bundle_lt(
            #[trigger] x1[p],
            #[trigger] x1[q],
        ) by {
            assert(x1[p] == x[p + 1] && x1[q] == x[q + 1]);
        }
        assert forall|p: int, q: int| 0 <= p < q < y1.len() implies bundle_lt(
            #[trigger] y1[p],
            #[trigger] y1[q],
        ) by {
            assert(y1[p] == y[p + 1] && y1[q] == y[q + 1]);
        }
        lemma_program_order_unique(x1, y1);
        assert(x =~= y) by {
            assert forall|k: int| 0 <= k < x.len() implies x[k] == y[k] by {
                if k > 0 {
                    assert(x[k] == x1[k - 1] && y[k] == y1[k - 1]);
                }
            }
        }
    }
}

/// The lowered program does not depend on the order in which the effects were
/// collected: the same effects give the same endpoints and payloads, and file
/// intents with the same paths and bytes.
pub proof fn lemma_program_ignores_collection_order(
    s1: Seq<EndpointBundle>,
    s2: Seq<EndpointBundle>,
    e1: PeerEffects,
    e2: PeerEffects,
)
    requires
        s1.to_multiset() == s2.to_multiset(),
        program_of(s1, e1),
        program_of(s2, e2),
    ensures
        e1.endpoints@ == e2.endpoints@,
        e1.payloads@ == e2.payloads@,
        e1.game_intents@.len() == e2.game_intents@.len(),
        forall|k: int|
            0 <= k < e1.game_intents@.len() ==> {
                &&& (#[trigger] e1.game_intents@[k]).live_path == e2.game_intents@[k].live_path
                &&& e1.game_intents@[k].before == e2.game_intents@[k].before
                &&& opt_bytes(e1.game_intents@[k].after) == opt_bytes(e2.game_intents@[k].after)
            },
{
    let t1 = choose|t: Seq<EndpointBundle>|
        #[trigger] orders(s1, t) && lowered_parts(
            flatten(t),
            e1.endpoints@,
            e1.payloads@,
            e1.game_intents@,
        );
    let t2 = choose|t: Seq<EndpointBundle>|
        #[trigger] orders(s2, t) && lowered_parts(
            flatten(t),
            e2.endpoints@,
            e2.payloads@,
            e2.game_intents@,
        );
    lemma_program_order_unique(t1, t2);
    let specs = flatten(t1);
    assert forall|k: int| 0 <= k < specs.len() implies e1.endpoints@[k] == e2.endpoints@[k] && e1.payloads@[k]
        == e2.payloads@[k] by {
        assert(lowers(specs[k], e1.endpoints@[k], e1.payloads@[k], e1.game_intents@[k]));
        assert(lowers(specs[k], e2.endpoints@[k], e2.payloads@[k], e2.game_intents@[k]));
    }
    assert(e1.endpoints@ =~= e2.endpoints@);
    assert(e1.payloads@ =~= e2.payloads@);
    assert forall|k: int| 0 <= k < e1.game_intents@.len() implies {
        &&& (#[trigger] e1.game_intents@[k]).live_path == e2.game_intents@[k].live_path
        &&& e1.game_intents@[k].before == e2.game_intents@[k].before
        &&& opt_bytes(e1.game_intents@[k].after) == opt_bytes(e2.game_intents@[k].after)
    } by {
        assert(lowers(specs[k], e1.endpoints@[k], e1.payloads@[k], e1.game_intents@[k]));
        assert(lowers(specs[k], e2.endpoints@[k], e2.payloads@[k], e2.game_intents@[k]));
    }
}

impl PeerEffectAccumulator {
    /// Lowers the collected effects into one program: refused when nothing was
    /// collected or more than one endpoint claims the host; otherwise ordered by
    /// group, then by normalized path.
    pub fn finalize(self) -> (r: Result<PeerEffects, PeerEffectError>)
        requires
            effects_wf(self@),
        ensures
            self@.len() == 0 ==> r == Err::<PeerEffects, PeerEffectError>(PeerEffectError::EmptyProgram),
            self@.len() > 0 && host_count(self@) > 1 ==> (r matches Err(
                PeerEffectError::InvalidHostCardinality(n),
            ) && n == capped(host_count(self@))),
            self@.len() > 0 && host_count(self@) <= 1 ==> (r matches Ok(e) && program_of(self@, e)),
    {
        let ghost s = self@;
        let PeerEffectAccumulator { bundles } = self;
        if bundles.len() == 0 {
            return Err(PeerEffectError::EmptyProgram);
        }
        let hosts = count_hosts(&bundles);
        if hosts > 1 {
            return Err(PeerEffectError::InvalidHostCardinality(hosts));
        }
        let sorted = sort_bundles(bundles);
        let ghost t = sorted@;
        let effects = lower(sorted);
        assert(orders(s, t));
        Ok(effects)
    }
}

// ---------------------------------------------------------------------------
// Collecting planned effects
// ---------------------------------------------------------------------------

/// Nothing planned collects nothing.
pub proof fn lemma_collects_empty()
    ensures
        collects(Seq::<PlannedEffect>::empty(), Seq::<EndpointBundle>::empty(), Ok(())),
{
    let states = seq![Seq::<EndpointBundle>::empty()];
    let results = Seq::<Result<(), PeerEffectError>>::empty();
    assert(collected_by(
        Seq::<PlannedEffect>::empty(),
        states,
        results,
        Seq::<EndpointBundle>::empty(),
        Ok(()),
    ));
}

/// A collection that went well so far continues with the next effect.
pub proof fn lemma_collects_step(
    ps: Seq<PlannedEffect>,
    p: PlannedEffect,
    s0: Seq<EndpointBundle>,
    r0: Result<(), PeerEffectError>,
    s: Seq<EndpointBundle>,
    r: Result<(), PeerEffectError>,
)
    requires
        collects(ps, s0, r0),
        r0 is Ok,
        step_is(s0, p, s, r),
    ensures
        collects(ps.push(p), s, r),
{
    let (states, results) = choose|
        states: Seq<Seq<EndpointBundle>>,
        results: Seq<Result<(), PeerEffectError>>,
    | #[trigger] collected_by(ps, states, results, s0, r0);
    let qs = ps.push(p);
    let k = states.len() - 1;
    assert(k == ps.len());
    assert(qs[k] == p);
    if r is Ok {
        let next = states.push(s);
        let nres = results.push(r);
        assert forall|i: int| #![trigger nres[i]] 0 <= i < next.len() - 1 implies nres[i] is Ok && step_is(
            next[i],
            qs[i],
            next[i + 1],
            nres[i],
        ) by {
            if i < k {
                assert(qs[i] == ps[i]);
                assert(next[i] == states[i] && next[i + 1] == states[i + 1] && nres[i] == results[i]);
                assert(results[i] is Ok && step_is(states[i], ps[i], states[i + 1], results[i]));
            } else {
                assert(next[i] == s0 && next[i + 1] == s && nres[i] == r);
            }
        }
        assert(collected_by(qs, next, nres, s, r));
    } else {
        assert forall|i: int| #![trigger results[i]] 0 <= i < states.len() - 1 implies results[i] is Ok
            && step_is(states[i], qs[i], states[i + 1], results[i]) by {
            assert(qs[i] == ps[i]);
            assert(results[i] is Ok && step_is(states[i], ps[i], states[i + 1], results[i]));
        }
        assert(collected_by(qs, states, results, s, r));
    }
}

/// A refused collection stays refused whatever was planned after it.
pub proof fn lemma_collects_stops_at_refusal(
    ps: Seq<PlannedEffect>,
    extra: Seq<PlannedEffect>,
    s: Seq<EndpointBundle>,
    e: PeerEffectError,
)
    requires
        collects(ps, s, Err(e)),
    ensures
        collects(ps + extra, s, Err(e)),
{
    let r: Result<(), PeerEffectError> = Err(e);
    let (states, results) = choose|
        states: Seq<Seq<EndpointBundle>>,
        results: Seq<Result<(), PeerEffectError>>,
    | #[trigger] collected_by(ps, states, results, s, r);
    let qs = ps + extra;
    let k = states.len() - 1;
    assert forall|i: int| #![trigger results[i]] 0 <= i < k implies results[i] is Ok && step_is(
        states[i],
        qs[i],
        states[i + 1],
        results[i],
    ) by {
        assert(qs[i] == ps[i]);
        assert(results[i] is Ok && step_is(states[i], ps[i], states[i + 1], results[i]));
    }
    assert(qs[k] == ps[k]);
    assert(collected_by(qs, states, results, s, r));
}

/// Replacing as `replace` does is a collection step of the planned replacement.
pub proof fn lemma_step_replace(
    s0: Seq<EndpointBundle>,
    s: Seq<EndpointBundle>,
    r: Result<(), PeerEffectError>,
    group: PeerEffectGroup,
    path: String,
    before: VerifiedPeerFile,
    before_bytes: Seq<u8>,
    bytes: Seq<u8>,
)
    requires
        !matches_image(before, before_bytes) ==> s == s0 && r == Err::<(), PeerEffectError>(
            PeerEffectError::BeforeImageMismatch(path),
        ),
        matches_image(before, before_bytes) ==> exists|b: EndpointBundle|
            is_replace(b, group, path@, before, before_bytes, bytes) && pushed(s0, s, b, r),
    ensures
        step_is(
            s0,
            PlannedEffect::Replace { group, path: path@, before, before_bytes, bytes },
            s,
            r,
        ),
{
    if matches_image(before, before_bytes) {
        let b = choose|b: EndpointBundle|
            is_replace(b, group, path@, before, before_bytes, bytes) && pushed(s0, s, b, r);
        assert(is_replace(b, group, path@, before, before_bytes, bytes));
    }
}

/// Creating as `create` does is a collection step of the planned creation.
pub proof fn lemma_step_create(
    s0: Seq<EndpointBundle>,
    s: Seq<EndpointBundle>,
    r: Result<(), PeerEffectError>,
    group: PeerEffectGroup,
    path: Seq<char>,
    bytes: Seq<u8>,
)
    requires
        exists|b: EndpointBundle| is_create(b, group, path, bytes) && pushed(s0, s, b, r),
    ensures
        step_is(s0, PlannedEffect::Create { group, path, bytes }, s, r),
{
    let b = choose|b: EndpointBundle| is_create(b, group, path, bytes) && pushed(s0, s, b, r);
    assert(is_create(b, group, path, bytes));
}

} // verus!
