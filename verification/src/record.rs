//! The persisted record of a RenoDX install, what the install created, backed up
//! and downloaded, and the ReShade channel it was installed from.
use vstd::prelude::*;

use crate::text::{eq_ci, opt_view, starts_with_ci, str_eq, views};
use crate::types::{AddonKind, ReshadeChannel};

verus! {

/// What a tracked upstream artifact is for.
#[derive(Clone, Copy, Debug, PartialEq, Eq, Structural)]
pub enum TrackedSourceRole {
    /// The ReShade host.
    Host,
    /// The RenoDX add-on.
    Addon,
    /// The DLSS-Fix companion add-on.
    DlssFix,
}

/// An upstream artifact an install downloaded, with its provenance.
#[derive(Clone, Debug, PartialEq, Eq)]
pub struct TrackedSource {
    /// What the artifact is for.
    pub role: TrackedSourceRole,
    /// Where it was downloaded from.
    pub url: String,
    /// The HTTP entity tag of the download.
    pub etag: Option<String>,
    /// Digest of the downloaded bytes.
    pub digest: String,
    /// The HTTP `Last-Modified` of the download.
    pub last_modified: Option<String>,
    /// The ReShade channel a host was installed from.
    pub channel: Option<String>,
}

/// The record of one add-on install for a game.
#[derive(Clone, Debug)]
pub struct InstalledAddon {
    /// The game.
    pub game_id: String,
    /// Which add-on tool installed it.
    pub kind: AddonKind,
    /// Path of the installed add-on file.
    pub addon_file: String,
    /// Version of the add-on, when known.
    pub addon_version: Option<String>,
    /// Files the install created.
    pub created_files: Vec<String>,
    /// Files the install backed up before replacing them.
    pub backed_up_files: Vec<String>,
    /// Upstream artifacts the install downloaded.
    pub tracked_sources: Vec<TrackedSource>,
    /// Files the install manages through another tool's coordinated projection.
    pub managed_files: Vec<ManagedAddonFile>,
    /// When the install was first recorded, as storage stamped it.
    pub installed_at: Option<i64>,
    /// When the record last changed, as storage stamped it.
    pub updated_at: Option<i64>,
}

/// Whether a managed file belongs to the install or was reused from the game.
#[derive(Clone, Copy, Debug, PartialEq, Eq, Structural)]
pub enum ManagedFileMode {
    /// The install wrote it.
    Owned,
    /// The install reuses a file that was already there.
    Reused,
}

/// What stood at a managed path before the install.
#[derive(Clone, Debug, PartialEq, Eq)]
pub enum ManagedFileBaseline {
    /// Nothing.
    Absent,
    /// A file with this lower-case hex SHA-256, kept in the path's sidecar.
    Present {
        /// Digest of the original file.
        sha256: String,
    },
}

/// One managed file of an install.
#[derive(Clone, Debug, PartialEq, Eq)]
pub struct ManagedAddonFile {
    /// The file.
    pub path: String,
    /// Whether the install owns it.
    pub mode: ManagedFileMode,
    /// What stood there before.
    pub baseline: ManagedFileBaseline,
    /// Lower-case hex SHA-256 of what the install wrote.
    pub installed_sha256: String,
}

/// The paths of managed files.
pub open spec fn managed_paths(files: Seq<ManagedAddonFile>) -> Seq<String> {
    files.map_values(|f: ManagedAddonFile| f.path)
}

impl ManagedAddonFile {
    /// A file the install wrote over `baseline`.
    pub fn owned(path: String, baseline: ManagedFileBaseline, installed_sha256: String) -> (r: Self)
        ensures
            r.path == path,
            r.mode == ManagedFileMode::Owned,
            r.baseline == baseline,
            r.installed_sha256 == installed_sha256,
    {
        ManagedAddonFile { path, mode: ManagedFileMode::Owned, baseline, installed_sha256 }
    }

    /// An exact copy.
    pub fn duplicate(&self) -> (r: Self)
        ensures
            r == *self,
    {
        let baseline = match &self.baseline {
            ManagedFileBaseline::Absent => ManagedFileBaseline::Absent,
            ManagedFileBaseline::Present { sha256 } => ManagedFileBaseline::Present { sha256: sha256.clone() },
        };
        ManagedAddonFile {
            path: self.path.clone(),
            mode: self.mode,
            baseline,
            installed_sha256: self.installed_sha256.clone(),
        }
    }
}

/// The paths of a list of managed files, in order.
pub fn managed_path_list(files: &Vec<ManagedAddonFile>) -> (r: Vec<String>)
    ensures
        r@ == managed_paths(files@),
{
    let n = files.len();
    let mut out: Vec<String> = Vec::new();
    let mut i: usize = 0;
    while i < n
        invariant
            n == files@.len(),
            i <= n,
            out@ == managed_paths(files@.subrange(0, i as int)),
        decreases n - i,
    {
        out.push(files[i].path.clone());
        proof {
            assert(managed_paths(files@.subrange(0, i + 1)) =~= managed_paths(files@.subrange(0, i as int)).push(
                files@[i as int].path,
            ));
        }
        i = i + 1;
    }
    proof {
        assert(files@.subrange(0, n as int) =~= files@);
    }
    out
}

/// A copy of a list of managed files.
pub fn clone_managed(files: &Vec<ManagedAddonFile>) -> (r: Vec<ManagedAddonFile>)
    ensures
        r@ == files@,
{
    let n = files.len();
    let mut out: Vec<ManagedAddonFile> = Vec::new();
    let mut i: usize = 0;
    while i < n
        invariant
            n == files@.len(),
            i <= n,
            out@ == files@.subrange(0, i as int),
        decreases n - i,
    {
        out.push(files[i].duplicate());
        proof {
            assert(out@ =~= files@.subrange(0, i + 1));
        }
        i = i + 1;
    }
    proof {
        assert(files@.subrange(0, n as int) =~= files@);
    }
    out
}

/// Why the channel of an install record cannot be read.
#[derive(Clone, Copy, Debug, PartialEq, Eq, Structural)]
pub enum ChannelReadIssue {
    /// The record tracks more than one ReShade host.
    DuplicateHostSources,
}

/// A record is well formed when the add-on file is among the created files.
pub open spec fn record_wf(created: Seq<String>, addon_file: Seq<char>) -> bool {
    exists|i: int| 0 <= i < created.len() && #[trigger] created[i]@ == addon_file
}

impl TrackedSource {
    /// An exact copy of the source.
    pub fn duplicate(&self) -> (r: Self)
        ensures
            r == *self,
    {
        TrackedSource {
            role: self.role,
            url: self.url.clone(),
            etag: crate::text::clone_opt(&self.etag),
            digest: self.digest.clone(),
            last_modified: crate::text::clone_opt(&self.last_modified),
            channel: crate::text::clone_opt(&self.channel),
        }
    }
}

/// Whether `path` is among `paths`.
pub fn contains_path(paths: &Vec<String>, path: &str) -> (r: bool)
    ensures
        r == exists|i: int| 0 <= i < paths@.len() && #[trigger] paths@[i]@ == path@,
{
    let n = paths.len();
    let mut i: usize = 0;
    while i < n
        invariant
            n == paths@.len(),
            i <= n,
            forall|j: int| 0 <= j < i ==> #[trigger] paths@[j]@ != path@,
        decreases n - i,
    {
        if crate::text::str_eq(paths[i].as_str(), path) {
            return true;
        }
        i = i + 1;
    }
    false
}

impl InstalledAddon {
    /// Builds a record from its parts; `None` when the add-on file is not among
    /// the created files.
    pub fn from_parts(
        game_id: String,
        kind: AddonKind,
        addon_file: String,
        addon_version: Option<String>,
        created_files: Vec<String>,
        backed_up_files: Vec<String>,
        tracked_sources: Vec<TrackedSource>,
    ) -> (r: Option<InstalledAddon>)
        ensures
            r is Some <==> record_wf(created_files@, addon_file@),
            r matches Some(rec) ==> {
                &&& rec.game_id == game_id
                &&& rec.kind == kind
                &&& rec.addon_file == addon_file
                &&& rec.addon_version == addon_version
                &&& rec.created_files@ == created_files@
                &&& rec.backed_up_files@ == backed_up_files@
                &&& rec.tracked_sources@ == tracked_sources@
                &&& rec.managed_files@.len() == 0
                &&& rec.installed_at is None
                &&& rec.updated_at is None
            },
    {
        if !contains_path(&created_files, addon_file.as_str()) {
            return None;
        }
        Some(
            InstalledAddon {
                game_id,
                kind,
                addon_file,
                addon_version,
                created_files,
                backed_up_files,
                tracked_sources,
                managed_files: Vec::new(),
                installed_at: None,
                updated_at: None,
            },
        )
    }

    /// The record with the timestamps storage stamped on it.
    pub fn with_timestamps(self, installed_at: Option<i64>, updated_at: Option<i64>) -> (r: Self)
        ensures
            r == (InstalledAddon { installed_at, updated_at, ..self }),
    {
        InstalledAddon { installed_at, updated_at, ..self }
    }
}

// ---------------------------------------------------------------------------
// The ReShade channel of a record
// ---------------------------------------------------------------------------

/// The host sources among the first `k` tracked sources, in order.
pub open spec fn hosts_upto(s: Seq<TrackedSource>, k: int) -> Seq<TrackedSource>
    decreases k,
{
    if k <= 0 || s.len() == 0 {
        Seq::empty()
    } else if k > s.len() {
        hosts_upto(s, s.len() as int)
    } else if s[k - 1].role == TrackedSourceRole::Host {
        hosts_upto(s, k - 1).push(s[k - 1])
    } else {
        hosts_upto(s, k - 1)
    }
}

/// The host sources of a record's tracked sources, in order.
pub open spec fn host_sources_of(s: Seq<TrackedSource>) -> Seq<TrackedSource> {
    hosts_upto(s, s.len() as int)
}

/// The record's host sources, in order.
pub fn host_sources(record: &InstalledAddon) -> (r: Vec<TrackedSource>)
    ensures
        r@ == host_sources_of(record.tracked_sources@),
{
    let sources = &record.tracked_sources;
    let n = sources.len();
    let mut out: Vec<TrackedSource> = Vec::new();
    let mut i: usize = 0;
    while i < n
        invariant
            n == sources@.len(),
            i <= n,
            out@ == hosts_upto(sources@, i as int),
        decreases n - i,
    {
        if sources[i].role == TrackedSourceRole::Host {
            out.push(sources[i].duplicate());
        }
        i = i + 1;
    }
    out
}

/// The record's single host source: none, one, or a conflict.
pub fn single_host_source(record: &InstalledAddon) -> (r: Result<
    Option<TrackedSource>,
    ChannelReadIssue,
>)
    ensures
        ({
            let hs = host_sources_of(record.tracked_sources@);
            &&& hs.len() == 0 ==> r == Ok::<Option<TrackedSource>, ChannelReadIssue>(None)
            &&& hs.len() == 1 ==> r == Ok::<Option<TrackedSource>, ChannelReadIssue>(Some(hs[0]))
            &&& hs.len() > 1 ==> r == Err::<Option<TrackedSource>, ChannelReadIssue>(
                ChannelReadIssue::DuplicateHostSources,
            )
        }),
{
    let mut sources = host_sources(record);
    if sources.len() == 0 {
        Ok(None)
    } else if sources.len() == 1 {
        Ok(Some(sources.remove(0)))
    } else {
        Err(ChannelReadIssue::DuplicateHostSources)
    }
}

/// Whether a character ends the authority of a URL.
pub open spec fn ends_authority(c: char) -> bool {
    c == '/' || c == '?' || c == '#'
}

/// Index of the first authority terminator at or after `i`, else the length.
pub open spec fn authority_end(s: Seq<char>, i: int) -> int
    decreases s.len() - i,
{
    if i < 0 || i >= s.len() {
        s.len() as int
    } else if ends_authority(s[i]) {
        i
    } else {
        authority_end(s, i + 1)
    }
}

/// Index just after the last `@` among the first `k` characters, else 0.
pub open spec fn after_last_at(s: Seq<char>, k: int) -> int
    decreases k,
{
    if k <= 0 || k > s.len() {
        0
    } else if s[k - 1] == '@' {
        k
    } else {
        after_last_at(s, k - 1)
    }
}

/// Index of the first `:` at or after `i`, else the length.
pub open spec fn first_colon(s: Seq<char>, i: int) -> int
    decreases s.len() - i,
{
    if i < 0 || i >= s.len() {
        s.len() as int
    } else if s[i] == ':' {
        i
    } else {
        first_colon(s, i + 1)
    }
}

/// The host of an `https://` URL: the authority without user info and port;
/// `None` for another scheme or an empty host.
pub open spec fn https_host(url: Seq<char>) -> Option<Seq<char>> {
    if !starts_with_ci(url, "https://"@) {
        None
    } else {
        let rest = url.subrange(8, url.len() as int);
        let authority = rest.subrange(0, authority_end(rest, 0));
        let host_port = authority.subrange(
            after_last_at(authority, authority.len() as int),
            authority.len() as int,
        );
        let host = host_port.subrange(0, first_colon(host_port, 0));
        if host.len() == 0 {
            None
        } else {
            Some(host)
        }
    }
}

proof fn lemma_authority_end_bounds(s: Seq<char>, i: int)
    requires
        0 <= i <= s.len(),
    ensures
        i <= authority_end(s, i) <= s.len(),
    decreases s.len() - i,
{
    if i < s.len() && !ends_authority(s[i]) {
        lemma_authority_end_bounds(s, i + 1);
    }
}

proof fn lemma_first_colon_bounds(s: Seq<char>, i: int)
    requires
        0 <= i <= s.len(),
    ensures
        i <= first_colon(s, i) <= s.len(),
    decreases s.len() - i,
{
    if i < s.len() && s[i] != ':' {
        lemma_first_colon_bounds(s, i + 1);
    }
}

proof fn lemma_after_last_at_bounds(s: Seq<char>, k: int)
    requires
        0 <= k <= s.len(),
    ensures
        0 <= after_last_at(s, k) <= k,
    decreases k,
{
    if k > 0 && s[k - 1] != '@' {
        lemma_after_last_at_bounds(s, k - 1);
    }
}

/// The host of an `https://` URL.
pub fn https_url_host(url: &str) -> (r: Option<String>)
    ensures
        r matches Some(h) ==> https_host(url@) == Some(h@),
        r is None ==> https_host(url@) is None,
{
    if !crate::text::starts_with_ignore_case(url, "https://") {
        return None;
    }
    proof {
        reveal_strlit("https://");
    }
    let n = url.unicode_len();
    let rest = url.substring_char(8, n);
    let rn = rest.unicode_len();
    let mut end: usize = 0;
    while end < rn
        invariant
            rn == rest@.len(),
            end <= rn,
            authority_end(rest@, 0) == authority_end(rest@, end as int),
        ensures
            authority_end(rest@, 0) == end,
        decreases rn - end,
    {
        let c = rest.get_char(end);
        if c == '/' || c == '?' || c == '#' {
            break;
        }
        end = end + 1;
    }
    proof {
        lemma_authority_end_bounds(rest@, end as int);
    }
    let authority = rest.substring_char(0, end);
    let mut start: usize = end;
    while start > 0
        invariant
            start <= end,
            end == authority@.len(),
            after_last_at(authority@, end as int) == after_last_at(authority@, start as int),
        ensures
            after_last_at(authority@, end as int) == start,
        decreases start,
    {
        if authority.get_char(start - 1) == '@' {
            break;
        }
        start = start - 1;
    }
    proof {
        lemma_after_last_at_bounds(authority@, start as int);
    }
    let host_port = authority.substring_char(start, end);
    let hn = host_port.unicode_len();
    let mut colon: usize = 0;
    while colon < hn
        invariant
            hn == host_port@.len(),
            colon <= hn,
            first_colon(host_port@, 0) == first_colon(host_port@, colon as int),
        ensures
            first_colon(host_port@, 0) == colon,
        decreases hn - colon,
    {
        if host_port.get_char(colon) == ':' {
            break;
        }
        colon = colon + 1;
    }
    proof {
        lemma_first_colon_bounds(host_port@, colon as int);
    }
    if colon == 0 {
        return None;
    }
    Some(String::from_str(host_port.substring_char(0, colon)))
}

/// The channel a legacy host URL implies: `reshade.me` serves stable releases,
/// `nightly.link` the CI builds.
pub open spec fn legacy_channel_of(url: Seq<char>) -> Option<ReshadeChannel> {
    match https_host(url) {
        Some(h) => if eq_ci(h, "reshade.me"@) {
            Some(ReshadeChannel::Stable)
        } else if eq_ci(h, "nightly.link"@) {
            Some(ReshadeChannel::Nightly)
        } else {
            None
        },
        None => None,
    }
}

/// Infers the channel of a record written before channels were tagged, from
/// the host of its HTTPS download URL.
pub fn infer_legacy_channel_from_url(url: &str) -> (r: Option<ReshadeChannel>)
    ensures
        r == legacy_channel_of(url@),
{
    let host = match https_url_host(url) {
        Some(h) => h,
        None => {
            return None;
        },
    };
    if crate::text::eq_ignore_ascii_case(host.as_str(), "reshade.me") {
        Some(ReshadeChannel::Stable)
    } else if crate::text::eq_ignore_ascii_case(host.as_str(), "nightly.link") {
        Some(ReshadeChannel::Nightly)
    } else {
        None
    }
}

/// The channel a host source records or implies.
pub open spec fn source_channel(source: TrackedSource) -> Option<ReshadeChannel> {
    match source.channel {
        Some(c) => if c@ == "stable"@ {
            Some(ReshadeChannel::Stable)
        } else if c@ == "nightly"@ {
            Some(ReshadeChannel::Nightly)
        } else {
            None
        },
        None => legacy_channel_of(source.url@),
    }
}

/// The ReShade channel a record was installed from: the typed channel tag of
/// its single host source wins; an unknown tag reads as unknown; an untagged
/// legacy source is classified by its URL.
pub fn installed_channel(record: &InstalledAddon) -> (r: Result<
    Option<ReshadeChannel>,
    ChannelReadIssue,
>)
    ensures
        ({
            let hs = host_sources_of(record.tracked_sources@);
            &&& hs.len() == 0 ==> r == Ok::<Option<ReshadeChannel>, ChannelReadIssue>(None)
            &&& hs.len() == 1 ==> r == Ok::<Option<ReshadeChannel>, ChannelReadIssue>(
                source_channel(hs[0]),
            )
            &&& hs.len() > 1 ==> r == Err::<Option<ReshadeChannel>, ChannelReadIssue>(
                ChannelReadIssue::DuplicateHostSources,
            )
        }),
{
    let source = match single_host_source(record) {
        Ok(Some(s)) => s,
        Ok(None) => {
            return Ok(None);
        },
        Err(e) => {
            return Err(e);
        },
    };
    match &source.channel {
        Some(channel) => {
            if crate::text::str_eq(channel.as_str(), "stable") {
                Ok(Some(ReshadeChannel::Stable))
            } else if crate::text::str_eq(channel.as_str(), "nightly") {
                Ok(Some(ReshadeChannel::Nightly))
            } else {
                Ok(None)
            }
        },
        None => Ok(infer_legacy_channel_from_url(source.url.as_str())),
    }
}

/// A copy of a host source tagged with the channel it came from.
pub fn with_host_channel(source: &TrackedSource, channel: ReshadeChannel) -> (r: TrackedSource)
    ensures
        r.role == source.role,
        r.url@ == source.url@,
        r.etag == source.etag,
        r.digest@ == source.digest@,
        r.last_modified == source.last_modified,
        r.channel matches Some(c) && c@ == crate::types::reshade_channel_key(channel),
{
    TrackedSource {
        role: source.role,
        url: source.url.clone(),
        etag: crate::text::clone_opt(&source.etag),
        digest: source.digest.clone(),
        last_modified: crate::text::clone_opt(&source.last_modified),
        channel: Some(String::from_str(channel.as_str())),
    }
}

/// The tracked sources with every host source replaced by `replacement`.
pub open spec fn with_host_replaced(s: Seq<TrackedSource>, replacement: TrackedSource) -> Seq<
    TrackedSource,
> {
    s.map_values(
        |x: TrackedSource|
            if x.role == TrackedSourceRole::Host {
                replacement
            } else {
                x
            },
    )
}

proof fn lemma_hosts_of_replaced(s: Seq<TrackedSource>, replacement: TrackedSource, k: int)
    requires
        replacement.role == TrackedSourceRole::Host,
        0 <= k <= s.len(),
    ensures
        hosts_upto(with_host_replaced(s, replacement), k).len() == hosts_upto(s, k).len(),
        forall|i: int|
            0 <= i < hosts_upto(with_host_replaced(s, replacement), k).len() ==> #[trigger] hosts_upto(
                with_host_replaced(s, replacement),
                k,
            )[i] == replacement,
    decreases k,
{
    if k > 0 {
        lemma_hosts_of_replaced(s, replacement, k - 1);
        let t = with_host_replaced(s, replacement);
        assert(t[k - 1] == if s[k - 1].role == TrackedSourceRole::Host {
            replacement
        } else {
            s[k - 1]
        });
        let prev = hosts_upto(t, k - 1);
        let cur = hosts_upto(t, k);
        assert forall|i: int| 0 <= i < cur.len() implies #[trigger] cur[i] == replacement by {
            if i < prev.len() {
                assert(cur[i] == prev[i]);
            }
        }
    }
}

/// A record whose single host source is replaced by a source tagged with a
/// channel reads that channel back as its installed channel.
pub proof fn lemma_replaced_host_channel_reads_back(
    sources: Seq<TrackedSource>,
    replacement: TrackedSource,
    channel: ReshadeChannel,
)
    requires
        host_sources_of(sources).len() == 1,
        replacement.role == TrackedSourceRole::Host,
        replacement.channel matches Some(c) && c@ == crate::types::reshade_channel_key(channel),
    ensures
        host_sources_of(with_host_replaced(sources, replacement)).len() == 1,
        source_channel(host_sources_of(with_host_replaced(sources, replacement))[0]) == Some(channel),
{
    lemma_hosts_of_replaced(sources, replacement, sources.len() as int);
    assert(with_host_replaced(sources, replacement).len() == sources.len());
    let hs = host_sources_of(with_host_replaced(sources, replacement));
    assert(hs[0] == replacement);
    reveal_strlit("stable");
    reveal_strlit("nightly");
    match channel {
        ReshadeChannel::Stable => {
            assert(crate::types::reshade_channel_key(channel) =~= "stable"@);
        },
        ReshadeChannel::Nightly => {
            assert(crate::types::reshade_channel_key(channel) =~= "nightly"@);
            assert(!(crate::types::reshade_channel_key(channel) =~= "stable"@));
        },
    }
}

/// Replaces the record's single host source, keeping everything else; a record
/// with no host source or with several is refused.
pub fn replace_host_source(record: &InstalledAddon, replacement: &TrackedSource) -> (r: Result<
    InstalledAddon,
    crate::errors::ServiceError,
>)
    ensures
        ({
            let n = host_sources_of(record.tracked_sources@).len();
            &&& n == 0 ==> (r matches Err(e) && crate::errors::invalid_with(
                e,
                "RenoDX install record has no ReShade host binary artifact"@,
            ))
            &&& n > 1 ==> (r matches Err(e) && crate::errors::invalid_with(
                e,
                "RenoDX install record has multiple ReShade host sources"@,
            ))
            &&& n == 1 ==> (r matches Ok(rec) && {
                &&& rec.tracked_sources@ == with_host_replaced(
                    record.tracked_sources@,
                    *replacement,
                )
                &&& rec.game_id == record.game_id
                &&& rec.kind == record.kind
                &&& rec.addon_file == record.addon_file
                &&& rec.addon_version == record.addon_version
                &&& rec.created_files@ == record.created_files@
                &&& rec.backed_up_files@ == record.backed_up_files@
                &&& rec.managed_files@ == record.managed_files@
                &&& rec.installed_at == record.installed_at
                &&& rec.updated_at == record.updated_at
            })
        }),
{
    let src = &record.tracked_sources;
    let n = src.len();
    let mut out: Vec<TrackedSource> = Vec::new();
    let mut replaced = false;
    let mut i: usize = 0;
    while i < n
        invariant
            n == src@.len(),
            src == &record.tracked_sources,
            i <= n,
            out@ == with_host_replaced(src@.subrange(0, i as int), *replacement),
            replaced <==> hosts_upto(src@, i as int).len() == 1,
            hosts_upto(src@, i as int).len() <= 1,
        decreases n - i,
    {
        if src[i].role == TrackedSourceRole::Host {
            if replaced {
                proof {
                    lemma_hosts_monotone(src@, i + 1, n as int);
                }
                return Err(crate::errors::duplicate_host_sources());
            }
            out.push(replacement.duplicate());
            replaced = true;
        } else {
            out.push(src[i].duplicate());
        }
        proof {
            assert(src@.subrange(0, i + 1) =~= src@.subrange(0, i as int).push(src@[i as int]));
            assert(with_host_replaced(src@.subrange(0, i + 1), *replacement) =~= with_host_replaced(
                src@.subrange(0, i as int),
                *replacement,
            ).push(
                if src@[i as int].role == TrackedSourceRole::Host {
                    *replacement
                } else {
                    src@[i as int]
                },
            ));
        }
        i = i + 1;
    }
    proof {
        assert(src@.subrange(0, n as int) =~= src@);
    }
    if !replaced {
        return Err(crate::errors::invalid("RenoDX install record has no ReShade host binary artifact"));
    }
    Ok(
        InstalledAddon {
            game_id: record.game_id.clone(),
            kind: record.kind,
            addon_file: record.addon_file.clone(),
            addon_version: crate::text::clone_opt(&record.addon_version),
            created_files: crate::text::clone_strings(&record.created_files),
            backed_up_files: crate::text::clone_strings(&record.backed_up_files),
            tracked_sources: out,
            managed_files: clone_managed(&record.managed_files),
            installed_at: record.installed_at,
            updated_at: record.updated_at,
        },
    )
}

proof fn lemma_hosts_monotone(s: Seq<TrackedSource>, j: int, k: int)
    requires
        0 <= j <= k <= s.len(),
    ensures
        hosts_upto(s, j).len() <= hosts_upto(s, k).len(),
    decreases k - j,
{
    if j < k {
        lemma_hosts_monotone(s, j, k - 1);
    }
}

// ---------------------------------------------------------------------------
// Rebuilding a record after a companion install or removal
// ---------------------------------------------------------------------------

/// The files one install plan created and backed up.
#[derive(Clone, Debug)]
pub struct InstallReceipt {
    /// Files the plan created.
    pub created_files: Vec<String>,
    /// Files the plan backed up.
    pub backed_up_files: Vec<String>,
}

/// Whether a path can be tracked: non-empty and free of NUL.
pub open spec fn trackable(p: Seq<char>) -> bool {
    p.len() > 0 && !p.contains('\0')
}

/// Whether some path of `s` is `p`.
pub open spec fn has_path(s: Seq<String>, p: Seq<char>) -> bool {
    exists|i: int| 0 <= i < s.len() && #[trigger] s[i]@ == p
}

/// `existing` with the trackable paths among the first `k` of `files` appended,
/// each only when not yet present.
pub open spec fn merge_upto(existing: Seq<String>, files: Seq<String>, k: int) -> Seq<String>
    decreases k,
{
    if k <= 0 || files.len() == 0 {
        existing
    } else if k > files.len() {
        merge_upto(existing, files, files.len() as int)
    } else {
        let prev = merge_upto(existing, files, k - 1);
        let f = files[k - 1];
        if trackable(f@) && !has_path(prev, f@) {
            prev.push(f)
        } else {
            prev
        }
    }
}

/// `existing` with the trackable paths of `files` appended once each.
pub open spec fn merged(existing: Seq<String>, files: Seq<String>) -> Seq<String> {
    merge_upto(existing, files, files.len() as int)
}

fn is_trackable(p: &str) -> (r: bool)
    ensures
        r == trackable(p@),
{
    let n = p.unicode_len();
    if n == 0 {
        return false;
    }
    let mut i: usize = 0;
    while i < n
        invariant
            n == p@.len(),
            i <= n,
            forall|j: int| 0 <= j < i ==> p@[j] != '\0',
        decreases n - i,
    {
        if p.get_char(i) == '\0' {
            assert(p@[i as int] == '\0');
            return false;
        }
        i = i + 1;
    }
    true
}

/// Appends each trackable path of `files` to `existing` unless already there.
pub fn merge_paths(existing: &mut Vec<String>, files: &Vec<String>)
    ensures
        final(existing)@ == merged(old(existing)@, files@),
{
    let n = files.len();
    let ghost start = existing@;
    let mut i: usize = 0;
    while i < n
        invariant
            n == files@.len(),
            i <= n,
            existing@ == merge_upto(start, files@, i as int),
        decreases n - i,
    {
        let f = &files[i];
        if is_trackable(f.as_str()) && !contains_path(existing, f.as_str()) {
            existing.push(f.clone());
        }
        i = i + 1;
    }
}

/// After a merge the old paths come first, unchanged, and every trackable path
/// of `files` is present.
pub proof fn lemma_merge_keeps_and_covers(existing: Seq<String>, files: Seq<String>, k: int)
    requires
        0 <= k <= files.len(),
    ensures
        merge_upto(existing, files, k).len() >= existing.len(),
        merge_upto(existing, files, k).subrange(0, existing.len() as int) == existing,
        forall|j: int|
            0 <= j < k && trackable(#[trigger] files[j]@) ==> has_path(
                merge_upto(existing, files, k),
                files[j]@,
            ),
    decreases k,
{
    if k > 0 {
        lemma_merge_keeps_and_covers(existing, files, k - 1);
        let prev = merge_upto(existing, files, k - 1);
        let cur = merge_upto(existing, files, k);
        assert forall|j: int| 0 <= j < k && trackable(#[trigger] files[j]@) implies has_path(
            cur,
            files[j]@,
        ) by {
            if j < k - 1 {
                let w = choose|i: int| 0 <= i < prev.len() && #[trigger] prev[i]@ == files[j]@;
                assert(cur[w] == prev[w]);
            } else {
                if has_path(prev, files[j]@) {
                    let w = choose|i: int| 0 <= i < prev.len() && #[trigger] prev[i]@ == files[j]@;
                    assert(cur[w] == prev[w]);
                } else {
                    assert(cur[prev.len() as int] == files[j]);
                }
            }
        }
        assert(cur.subrange(0, existing.len() as int) =~= existing);
    }
}

/// The paths of `s` among the first `k` other than `p`, in order.
pub open spec fn without_path_upto(s: Seq<String>, p: Seq<char>, k: int) -> Seq<String>
    decreases k,
{
    if k <= 0 || s.len() == 0 {
        Seq::empty()
    } else if k > s.len() {
        without_path_upto(s, p, s.len() as int)
    } else if s[k - 1]@ == p {
        without_path_upto(s, p, k - 1)
    } else {
        without_path_upto(s, p, k - 1).push(s[k - 1])
    }
}

/// The tracked sources among the first `k` whose role is not `role`, in order.
pub open spec fn without_role_upto(s: Seq<TrackedSource>, role: TrackedSourceRole, k: int) -> Seq<
    TrackedSource,
>
    decreases k,
{
    if k <= 0 || s.len() == 0 {
        Seq::empty()
    } else if k > s.len() {
        without_role_upto(s, role, s.len() as int)
    } else if s[k - 1].role == role {
        without_role_upto(s, role, k - 1)
    } else {
        without_role_upto(s, role, k - 1).push(s[k - 1])
    }
}

fn without_path(paths: &Vec<String>, p: &str) -> (r: Vec<String>)
    ensures
        r@ == without_path_upto(paths@, p@, paths@.len() as int),
{
    let n = paths.len();
    let mut out: Vec<String> = Vec::new();
    let mut i: usize = 0;
    while i < n
        invariant
            n == paths@.len(),
            i <= n,
            out@ == without_path_upto(paths@, p@, i as int),
        decreases n - i,
    {
        if !crate::text::str_eq(paths[i].as_str(), p) {
            out.push(paths[i].clone());
        }
        i = i + 1;
    }
    out
}

fn without_role(sources: &Vec<TrackedSource>, role: TrackedSourceRole) -> (r: Vec<TrackedSource>)
    ensures
        r@ == without_role_upto(sources@, role, sources@.len() as int),
{
    let n = sources.len();
    let mut out: Vec<TrackedSource> = Vec::new();
    let mut i: usize = 0;
    while i < n
        invariant
            n == sources@.len(),
            i <= n,
            out@ == without_role_upto(sources@, role, i as int),
        decreases n - i,
    {
        if sources[i].role != role {
            out.push(sources[i].duplicate());
        }
        i = i + 1;
    }
    out
}

/// The created files of a rebuild: the record's, less a removed path, merged
/// with the receipt's.
pub open spec fn rebuilt_created(
    record: InstalledAddon,
    receipt: InstallReceipt,
    removal: Option<(String, TrackedSourceRole)>,
) -> Seq<String> {
    let kept = match removal {
        Some((p, _)) => without_path_upto(
            record.created_files@,
            p@,
            record.created_files@.len() as int,
        ),
        None => record.created_files@,
    };
    merged(kept, receipt.created_files@)
}

/// The tracked sources of a rebuild: the record's, less a removed role, plus a
/// new source.
pub open spec fn rebuilt_sources(
    record: InstalledAddon,
    removal: Option<(String, TrackedSourceRole)>,
    new_source: Option<TrackedSource>,
) -> Seq<TrackedSource> {
    let kept = match removal {
        Some((_, role)) => without_role_upto(
            record.tracked_sources@,
            role,
            record.tracked_sources@.len() as int,
        ),
        None => record.tracked_sources@,
    };
    match new_source {
        Some(s) => kept.push(s),
        None => kept,
    }
}

/// Rebuilds a record after a DLSS-Fix plan: folds in the receipt's files, and
/// removes a file path and source role (an uninstall) or adds a tracked source
/// (an install). The add-on file is carried through; a rebuild that would lose
/// it from the created files is refused.
pub fn rebuild_record_after_dlss_fix(
    record: &InstalledAddon,
    receipt: &InstallReceipt,
    removal: Option<(String, TrackedSourceRole)>,
    new_source: Option<TrackedSource>,
) -> (r: Result<InstalledAddon, crate::errors::ServiceError>)
    ensures
        ({
            let created = rebuilt_created(*record, *receipt, removal);
            match r {
                Ok(rec) => {
                    &&& record_wf(created, record.addon_file@)
                    &&& rec.game_id == record.game_id
                    &&& rec.kind == record.kind
                    &&& rec.addon_file == record.addon_file
                    &&& rec.addon_version == record.addon_version
                    &&& rec.created_files@ == created
                    &&& rec.backed_up_files@ == merged(
                        record.backed_up_files@,
                        receipt.backed_up_files@,
                    )
                    &&& rec.tracked_sources@ == rebuilt_sources(*record, removal, new_source)
                },
                Err(e) => !record_wf(created, record.addon_file@) && (e matches
                    crate::errors::ServiceError::Failed(m)
                    && m@ == "DLSS-Fix rebuild violated the addon_file invariant"@),
            }
        }),
{
    let mut created = match &removal {
        Some((p, _)) => without_path(&record.created_files, p.as_str()),
        None => crate::text::clone_strings(&record.created_files),
    };
    merge_paths(&mut created, &receipt.created_files);
    let mut backed_up = crate::text::clone_strings(&record.backed_up_files);
    merge_paths(&mut backed_up, &receipt.backed_up_files);
    let mut sources = match &removal {
        Some((_, role)) => without_role(&record.tracked_sources, *role),
        None => {
            let n = record.tracked_sources.len();
            let mut out: Vec<TrackedSource> = Vec::new();
            let mut i: usize = 0;
            while i < n
                invariant
                    n == record.tracked_sources@.len(),
                    i <= n,
                    out@ == record.tracked_sources@.subrange(0, i as int),
                decreases n - i,
            {
                out.push(record.tracked_sources[i].duplicate());
                i = i + 1;
            }
            proof {
                assert(record.tracked_sources@.subrange(0, n as int) =~= record.tracked_sources@);
            }
            out
        },
    };
    if let Some(source) = new_source {
        sources.push(source);
    }
    match InstalledAddon::from_parts(
        record.game_id.clone(),
        record.kind,
        record.addon_file.clone(),
        crate::text::clone_opt(&record.addon_version),
        created,
        backed_up,
        sources,
    ) {
        Some(rec) => Ok(rec),
        None => Err(crate::errors::failed("DLSS-Fix rebuild violated the addon_file invariant")),
    }
}

/// The message of a rebuild that would drop the add-on file from the created
/// files, naming the file.
pub open spec fn lost_addon_message(label: Seq<char>, addon_file: Seq<char>) -> Seq<char> {
    label + " would drop the add-on file "@ + addon_file + " from the created files"@
}

/// `r` rebuilds `record` with these parts, or refuses a record that would lose
/// its add-on file.
pub open spec fn rebuilt_with(
    record: InstalledAddon,
    created: Seq<String>,
    backed_up: Seq<String>,
    sources: Seq<TrackedSource>,
    label: Seq<char>,
    r: Result<InstalledAddon, crate::errors::ServiceError>,
) -> bool {
    match r {
        Ok(rec) => {
            &&& record_wf(created, record.addon_file@)
            &&& rec.game_id == record.game_id
            &&& rec.kind == record.kind
            &&& rec.addon_file == record.addon_file
            &&& rec.addon_version == record.addon_version
            &&& rec.created_files@ == created
            &&& rec.backed_up_files@ == backed_up
            &&& rec.tracked_sources@ == sources
            &&& rec.installed_at == record.installed_at
            &&& rec.updated_at == record.updated_at
        },
        Err(e) => !record_wf(created, record.addon_file@) && (e matches crate::errors::ServiceError::Failed(m)
            && m@ == lost_addon_message(label, record.addon_file@)),
    }
}

/// Rebuilds a record from new created files, backups and sources, keeping its
/// game, kind, add-on file, version and timestamps; refused, naming the add-on file, when
/// the add-on file is not among the created files.
pub fn rebuild_with_parts(
    record: &InstalledAddon,
    created: Vec<String>,
    backed_up: Vec<String>,
    sources: Vec<TrackedSource>,
    label: &str,
) -> (r: Result<InstalledAddon, crate::errors::ServiceError>)
    ensures
        rebuilt_with(*record, created@, backed_up@, sources@, label@, r),
{
    let ghost c = created@;
    let ghost b = backed_up@;
    let ghost t = sources@;
    match InstalledAddon::from_parts(
        record.game_id.clone(),
        record.kind,
        record.addon_file.clone(),
        crate::text::clone_opt(&record.addon_version),
        created,
        backed_up,
        sources,
    ) {
        Some(rec) => Ok(rec.with_timestamps(record.installed_at, record.updated_at)),
        None => {
            let msg = String::from_str(label).concat(" would drop the add-on file ").concat(
                record.addon_file.as_str(),
            ).concat(" from the created files");
            Err(crate::errors::ServiceError::Failed(msg))
        },
    }
}

/// Rebuilds a record with new sources, folding in the files of a receipt.
pub fn rebuild_with_sources_and_receipt(
    record: &InstalledAddon,
    sources: Vec<TrackedSource>,
    receipt: Option<&InstallReceipt>,
    label: &str,
) -> (r: Result<InstalledAddon, crate::errors::ServiceError>)
    ensures
        ({
            let (created, backed) = match receipt {
                Some(rc) => (
                    merged(record.created_files@, rc.created_files@),
                    merged(record.backed_up_files@, rc.backed_up_files@),
                ),
                None => (record.created_files@, record.backed_up_files@),
            };
            rebuilt_with(*record, created, backed, sources@, label@, r)
        }),
{
    let mut created = crate::text::clone_strings(&record.created_files);
    let mut backed_up = crate::text::clone_strings(&record.backed_up_files);
    if let Some(rc) = receipt {
        merge_paths(&mut created, &rc.created_files);
        merge_paths(&mut backed_up, &rc.backed_up_files);
    }
    rebuild_with_parts(record, created, backed_up, sources, label)
}

/// Rebuilds a record after a receipt: folds in the receipt's files, drops a
/// removed created path and the sources of its role, and adds a new source.
pub fn rebuild_after_receipt(
    record: &InstalledAddon,
    receipt: &InstallReceipt,
    removal: Option<(String, TrackedSourceRole)>,
    new_source: Option<TrackedSource>,
    label: &str,
) -> (r: Result<InstalledAddon, crate::errors::ServiceError>)
    ensures
        rebuilt_with(
            *record,
            rebuilt_created(*record, *receipt, removal),
            merged(record.backed_up_files@, receipt.backed_up_files@),
            rebuilt_sources(*record, removal, new_source),
            label@,
            r,
        ),
{
    let mut created = match &removal {
        Some((p, _)) => without_path(&record.created_files, p.as_str()),
        None => crate::text::clone_strings(&record.created_files),
    };
    merge_paths(&mut created, &receipt.created_files);
    let mut backed_up = crate::text::clone_strings(&record.backed_up_files);
    merge_paths(&mut backed_up, &receipt.backed_up_files);
    let mut sources = match &removal {
        Some((_, role)) => without_role(&record.tracked_sources, *role),
        None => copy_sources(&record.tracked_sources),
    };
    if let Some(source) = new_source {
        sources.push(source);
    }
    rebuild_with_parts(record, created, backed_up, sources, label)
}

fn copy_sources(sources: &Vec<TrackedSource>) -> (r: Vec<TrackedSource>)
    ensures
        r@ == sources@,
{
    let n = sources.len();
    let mut out: Vec<TrackedSource> = Vec::new();
    let mut i: usize = 0;
    while i < n
        invariant
            n == sources@.len(),
            i <= n,
            out@ == sources@.subrange(0, i as int),
        decreases n - i,
    {
        out.push(sources[i].duplicate());
        proof {
            assert(out@ =~= sources@.subrange(0, i + 1));
        }
        i = i + 1;
    }
    proof {
        assert(sources@.subrange(0, n as int) =~= sources@);
    }
    out
}

// ---------------------------------------------------------------------------
// Equality of records
// ---------------------------------------------------------------------------

/// Two tracked sources hold the same values.
pub open spec fn same_source(a: TrackedSource, b: TrackedSource) -> bool {
    &&& a.role == b.role
    &&& a.url@ == b.url@
    &&& opt_view(a.etag) == opt_view(b.etag)
    &&& a.digest@ == b.digest@
    &&& opt_view(a.last_modified) == opt_view(b.last_modified)
    &&& opt_view(a.channel) == opt_view(b.channel)
}

/// Two lists of tracked sources hold the same values, in order.
pub open spec fn same_sources(a: Seq<TrackedSource>, b: Seq<TrackedSource>) -> bool {
    a.len() == b.len() && forall|i: int| 0 <= i < a.len() ==> same_source(#[trigger] a[i], b[i])
}

/// Two managed files hold the same values.
pub open spec fn same_managed(a: ManagedAddonFile, b: ManagedAddonFile) -> bool {
    &&& a.path@ == b.path@
    &&& a.mode == b.mode
    &&& match a.baseline {
        ManagedFileBaseline::Absent => b.baseline is Absent,
        ManagedFileBaseline::Present { sha256: x } => b.baseline matches ManagedFileBaseline::Present {
            sha256: y,
        } && x@ == y@,
    }
    &&& a.installed_sha256@ == b.installed_sha256@
}

/// Two lists of managed files hold the same values, in order.
pub open spec fn same_managed_list(a: Seq<ManagedAddonFile>, b: Seq<ManagedAddonFile>) -> bool {
    a.len() == b.len() && forall|i: int| 0 <= i < a.len() ==> same_managed(#[trigger] a[i], b[i])
}

/// Two install records hold the same values.
pub open spec fn same_record(a: InstalledAddon, b: InstalledAddon) -> bool {
    &&& a.game_id@ == b.game_id@
    &&& a.kind == b.kind
    &&& a.addon_file@ == b.addon_file@
    &&& opt_view(a.addon_version) == opt_view(b.addon_version)
    &&& views(a.created_files@) == views(b.created_files@)
    &&& views(a.backed_up_files@) == views(b.backed_up_files@)
    &&& same_sources(a.tracked_sources@, b.tracked_sources@)
    &&& same_managed_list(a.managed_files@, b.managed_files@)
    &&& a.installed_at == b.installed_at
    &&& a.updated_at == b.updated_at
}

fn opt_str_eq(a: &Option<String>, b: &Option<String>) -> (r: bool)
    ensures
        r == (opt_view(*a) == opt_view(*b)),
{
    match (a, b) {
        (Some(x), Some(y)) => str_eq(x.as_str(), y.as_str()),
        (None, None) => true,
        _ => false,
    }
}

fn strings_eq(a: &Vec<String>, b: &Vec<String>) -> (r: bool)
    ensures
        r == (views(a@) == views(b@)),
{
    let n = a.len();
    if n != b.len() {
        proof {
            assert(views(a@).len() != views(b@).len());
        }
        return false;
    }
    let mut i: usize = 0;
    while i < n
        invariant
            n == a@.len(),
            n == b@.len(),
            i <= n,
            forall|j: int| 0 <= j < i ==> a@[j]@ == b@[j]@,
        decreases n - i,
    {
        if !str_eq(a[i].as_str(), b[i].as_str()) {
            proof {
                assert(views(a@)[i as int] != views(b@)[i as int]);
            }
            return false;
        }
        i = i + 1;
    }
    proof {
        assert(views(a@) =~= views(b@));
    }
    true
}

fn source_eq(a: &TrackedSource, b: &TrackedSource) -> (r: bool)
    ensures
        r == same_source(*a, *b),
{
    a.role == b.role && str_eq(a.url.as_str(), b.url.as_str()) && opt_str_eq(&a.etag, &b.etag) && str_eq(
        a.digest.as_str(),
        b.digest.as_str(),
    ) && opt_str_eq(&a.last_modified, &b.last_modified) && opt_str_eq(&a.channel, &b.channel)
}

fn sources_eq(a: &Vec<TrackedSource>, b: &Vec<TrackedSource>) -> (r: bool)
    ensures
        r == same_sources(a@, b@),
{
    let n = a.len();
    if n != b.len() {
        return false;
    }
    let mut i: usize = 0;
    while i < n
        invariant
            n == a@.len(),
            n == b@.len(),
            i <= n,
            forall|j: int| 0 <= j < i ==> same_source(#[trigger] a@[j], b@[j]),
        decreases n - i,
    {
        if !source_eq(&a[i], &b[i]) {
            return false;
        }
        i = i + 1;
    }
    true
}

/// Whether two install records hold the same values.
pub fn records_equal(a: &InstalledAddon, b: &InstalledAddon) -> (r: bool)
    ensures
        r == same_record(*a, *b),
{
    str_eq(a.game_id.as_str(), b.game_id.as_str()) && a.kind == b.kind && str_eq(
        a.addon_file.as_str(),
        b.addon_file.as_str(),
    ) && opt_str_eq(&a.addon_version, &b.addon_version) && strings_eq(&a.created_files, &b.created_files)
        && strings_eq(&a.backed_up_files, &b.backed_up_files) && sources_eq(
        &a.tracked_sources,
        &b.tracked_sources,
    ) && managed_list_eq(&a.managed_files, &b.managed_files) && a.installed_at == b.installed_at
        && a.updated_at == b.updated_at
}

fn managed_eq(a: &ManagedAddonFile, b: &ManagedAddonFile) -> (r: bool)
    ensures
        r == same_managed(*a, *b),
{
    let baseline = match (&a.baseline, &b.baseline) {
        (ManagedFileBaseline::Absent, ManagedFileBaseline::Absent) => true,
        (ManagedFileBaseline::Present { sha256: x }, ManagedFileBaseline::Present { sha256: y }) => str_eq(
            x.as_str(),
            y.as_str(),
        ),
        _ => false,
    };
    str_eq(a.path.as_str(), b.path.as_str()) && a.mode == b.mode && baseline && str_eq(
        a.installed_sha256.as_str(),
        b.installed_sha256.as_str(),
    )
}

fn managed_list_eq(a: &Vec<ManagedAddonFile>, b: &Vec<ManagedAddonFile>) -> (r: bool)
    ensures
        r == same_managed_list(a@, b@),
{
    let n = a.len();
    if n != b.len() {
        return false;
    }
    let mut i: usize = 0;
    while i < n
        invariant
            n == a@.len(),
            n == b@.len(),
            i <= n,
            forall|j: int| 0 <= j < i ==> same_managed(#[trigger] a@[j], b@[j]),
        decreases n - i,
    {
        if !managed_eq(&a[i], &b[i]) {
            return false;
        }
        i = i + 1;
    }
    true
}

} // verus!
