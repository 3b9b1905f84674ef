//! Deterministic, explainable resolution of an installed game to a RenoDX
//! outcome: the best-matching catalogue title by tier, channel and id, routed by
//! its category and gated by compatibility, or an engine-generic fallback.
use vstd::prelude::*;

use crate::glob::glob_ci;
use crate::policy::{
    detected_api, generic_risk, host_for, host_proxy_name, incompatibility_is, is_generic_risk,
    title_compatible,
};
use crate::source::{generic_slug, generic_url, slug_url};
use crate::text::{eq_ci, opt_view, seq_less, trim_seq};
use crate::types::{
    Architecture, Category, Channel, Engine, Generic, HostKind, IncompatibilityReason,
    Launcher, MatchFacts, MatchKind, MatchRule, RenoDxManifest, Risk, Status, Title,
};

verus! {

/// How confident we are that an install will work.
#[derive(Clone, Copy, Debug, PartialEq, Eq, Structural)]
pub enum MatchConfidence {
    /// Listed and verified working.
    Verified,
    /// Listed but work-in-progress.
    Experimental,
    /// Listed-but-untested, or matched only by engine.
    Untested,
}

/// A matched, compatible game resolved to everything an install needs.
#[derive(Clone, Debug)]
pub struct ResolvedInstall {
    /// Upstream add-on slug.
    pub slug: String,
    /// Upstream add-on download URL.
    pub addon_url: String,
    /// Architecture of the add-on / executable.
    pub arch: Architecture,
    /// How RenoDX hooks into the game.
    pub host_kind: HostKind,
    /// Proxy DLL name (empty for the Vulkan layer).
    pub proxy_dll_name: String,
    /// Risk to gate the install on.
    pub risk: Risk,
    /// Confidence shown to the user.
    pub confidence: MatchConfidence,
    /// i18n note keys.
    pub notes_keys: Vec<String>,
}

/// What a file-installable external title offers beside its link.
#[derive(Clone, Debug)]
pub struct ExternalInstall {
    /// Architecture of the add-on / executable.
    pub arch: Architecture,
    /// Proxy DLL name.
    pub proxy_dll_name: String,
    /// Confidence shown to the user.
    pub confidence: MatchConfidence,
    /// Raw risk to gate the install on.
    pub risk: Risk,
    /// i18n note keys.
    pub notes_keys: Vec<String>,
    /// How RenoDX would hook into the game.
    pub host_kind: HostKind,
}

/// Outcome of resolving a game against the catalogue.
#[derive(Clone, Debug)]
pub enum RenoDxResolution {
    /// A compatible game matched; the install plan is ready.
    Installable(Box<ResolvedInstall>),
    /// The add-on is distributed off-GitHub.
    External {
        /// Where to send the user.
        url: String,
        /// i18n label key of the link.
        label_key: String,
        /// Present when the game is compatible.
        file_install: Option<Box<ExternalInstall>>,
    },
    /// The game already has native HDR.
    NativeHdr,
    /// A title matched but cannot be installed for this game.
    Incompatible {
        /// Why it cannot be installed.
        reason: IncompatibilityReason,
    },
    /// The game is blacklisted.
    Unsupported {
        /// i18n reason key, when the catalogue gives one.
        reason: Option<String>,
    },
    /// Nothing matched the game.
    NoMatch,
}

// ---------------------------------------------------------------------------
// Specification
// ---------------------------------------------------------------------------

/// Whether the facts carry a launcher id equal to `value`, both trimmed.
pub open spec fn external_id_is(facts: MatchFacts, value: Seq<char>) -> bool {
    match facts.external_id {
        Some(id) => trim_seq(id@) == trim_seq(value),
        None => false,
    }
}

/// Whether one rule matches the facts.
pub open spec fn rule_matches_spec(kind: MatchKind, value: Seq<char>, facts: MatchFacts) -> bool {
    match kind {
        MatchKind::SteamAppid => facts.launcher == Launcher::Steam && external_id_is(facts, value),
        MatchKind::EpicId => facts.launcher == Launcher::Epic && external_id_is(facts, value),
        MatchKind::GogId => facts.launcher == Launcher::Gog && external_id_is(facts, value),
        MatchKind::ExeSha256 => match facts.exe_sha256 {
            Some(h) => eq_ci(h@, trim_seq(value)),
            None => false,
        },
        MatchKind::ExeName => match facts.exe_file_name {
            Some(n) => glob_ci(vstd::utf8::encode_utf8(value), vstd::utf8::encode_utf8(n@)),
            None => false,
        },
        MatchKind::Engine => match facts.engine {
            Some(e) => eq_ci(e@, trim_seq(value)),
            None => false,
        },
        MatchKind::Generic => true,
    }
}

/// Whether `rule` matches the facts.
pub open spec fn rule_hit(rule: MatchRule, facts: MatchFacts) -> bool {
    rule_matches_spec(rule.kind, rule.value@, facts)
}

/// Among `rules[..k]`, the last matching rule of greatest tier.
pub open spec fn best_rule_upto(rules: Seq<MatchRule>, facts: MatchFacts, k: int) -> Option<int>
    decreases k,
{
    if k <= 0 {
        None
    } else {
        let prev = best_rule_upto(rules, facts, k - 1);
        if rule_hit(rules[k - 1], facts) && (prev.is_none() || rules[k - 1].tier
            >= rules[prev.unwrap()].tier) {
            Some(k - 1)
        } else {
            prev
        }
    }
}

/// The matching rule of greatest tier of a title (the last one on ties).
pub open spec fn best_rule(title: Title, facts: MatchFacts) -> Option<int> {
    best_rule_upto(title.match_rules@, facts, title.match_rules@.len() as int)
}

/// Rank of a channel in the tie-break: more stable wins.
pub open spec fn channel_rank_spec(channel: Channel) -> u8 {
    match channel {
        Channel::Stable => 0,
        Channel::Beta => 1,
        Channel::Snapshot => 2,
    }
}

/// Whether candidate `a` (title, rule tier) ranks at least as high as `b`:
/// higher tier, then more stable channel, then smaller id.
pub open spec fn key_at_least(a: Title, a_tier: u32, b: Title, b_tier: u32) -> bool {
    a_tier > b_tier || (a_tier == b_tier && (channel_rank_spec(a.channel) < channel_rank_spec(
        b.channel,
    ) || (channel_rank_spec(a.channel) == channel_rank_spec(b.channel) && !seq_less(
        b.id@,
        a.id@,
    ))))
}

/// Among `titles[..k]`, the best (title, rule) pair; the last one on full ties.
pub open spec fn select_upto(titles: Seq<Title>, facts: MatchFacts, k: int) -> Option<(int, int)>
    decreases k,
{
    if k <= 0 {
        None
    } else {
        let prev = select_upto(titles, facts, k - 1);
        let t = titles[k - 1];
        match best_rule(t, facts) {
            None => prev,
            Some(ri) => match prev {
                None => Some((k - 1, ri)),
                Some((pi, pr)) => if key_at_least(
                    t,
                    t.match_rules@[ri].tier,
                    titles[pi],
                    titles[pi].match_rules@[pr].tier,
                ) {
                    Some((k - 1, ri))
                } else {
                    prev
                },
            },
        }
    }
}

/// The selected (title index, rule index) for the facts.
pub open spec fn selection(m: RenoDxManifest, facts: MatchFacts) -> Option<(int, int)> {
    select_upto(m.titles@, facts, m.titles@.len() as int)
}

/// Confidence from a catalogue status.
pub open spec fn status_confidence(status: Status) -> MatchConfidence {
    match status {
        Status::Working => MatchConfidence::Verified,
        Status::Construction => MatchConfidence::Experimental,
        Status::Unknown => MatchConfidence::Untested,
    }
}

/// Confidence of a title match: an engine or catch-all match is always untested.
pub open spec fn match_confidence(status: Status, kind: MatchKind) -> MatchConfidence {
    if kind == MatchKind::Engine || kind == MatchKind::Generic {
        MatchConfidence::Untested
    } else {
        status_confidence(status)
    }
}

/// The engine a detected engine name denotes (case-insensitive, trimmed).
pub open spec fn engine_of(value: Seq<char>) -> Option<Engine> {
    let t = trim_seq(value);
    if eq_ci(t, "unreal"@) {
        Some(Engine::Unreal)
    } else if eq_ci(t, "unreal_extended"@) || eq_ci(t, "unreal-extended"@) {
        Some(Engine::UnrealExtended)
    } else if eq_ci(t, "unity"@) {
        Some(Engine::Unity)
    } else {
        None
    }
}

/// Index of the first generic at or after `i` satisfying the engine.
pub open spec fn first_generic_for_engine(gs: Seq<Generic>, e: Engine, i: int) -> Option<int>
    decreases gs.len() - i,
{
    if i < 0 || i >= gs.len() {
        None
    } else if gs[i].engine == e {
        Some(i)
    } else {
        first_generic_for_engine(gs, e, i + 1)
    }
}

/// Index of the first generic at or after `i` whose slug is `slug`.
pub open spec fn first_generic_for_slug(gs: Seq<Generic>, slug: Seq<char>, i: int) -> Option<int>
    decreases gs.len() - i,
{
    if i < 0 || i >= gs.len() {
        None
    } else if opt_view(gs[i].slug) == Some(slug) {
        Some(i)
    } else {
        first_generic_for_slug(gs, slug, i + 1)
    }
}

/// A title's add-on URL: its explicit download URL, else the URL of the first
/// generic sharing its slug, else the URL derived from its slug.
pub open spec fn title_url(m: RenoDxManifest, t: Title) -> Seq<char> {
    match t.download_url {
        Some(u) => u@,
        None => match first_generic_for_slug(m.generics@, t.slug@, 0) {
            Some(gi) => match generic_url(m.generics@[gi], t.arch) {
                Some(u) => u,
                None => slug_url(t.slug@, t.arch),
            },
            None => slug_url(t.slug@, t.arch),
        },
    }
}

/// Whether `plan` is the install plan of title `t` matched by a rule of `kind`.
pub open spec fn title_plan_is(m: RenoDxManifest, t: Title, kind: MatchKind, facts: MatchFacts, plan: ResolvedInstall) -> bool {
    let host = host_for(detected_api(facts)).unwrap();
    &&& plan.slug@ == t.slug@
    &&& plan.addon_url@ == title_url(m, t)
    &&& plan.arch == t.arch
    &&& plan.host_kind == host
    &&& plan.proxy_dll_name@ == host_proxy_name(host, opt_view(t.proxy_dll_override), facts)
    &&& plan.risk == t.risk
    &&& plan.confidence == match_confidence(t.status, kind)
    &&& plan.notes_keys@ == t.notes_keys@
}

/// The projection of an install plan offered beside an external link.
pub open spec fn external_of(plan: ResolvedInstall, ext: ExternalInstall) -> bool {
    &&& ext.arch == plan.arch
    &&& ext.proxy_dll_name@ == plan.proxy_dll_name@
    &&& ext.confidence == plan.confidence
    &&& ext.risk == plan.risk
    &&& ext.notes_keys@ == plan.notes_keys@
    &&& ext.host_kind == plan.host_kind
}

/// The resolution of a matched title.
pub open spec fn title_resolution_is(m: RenoDxManifest, t: Title, kind: MatchKind, facts: MatchFacts, r: RenoDxResolution) -> bool {
    match t.category {
        Category::Blacklist { reason } => match r {
            RenoDxResolution::Unsupported { reason: Some(x) } => x@ == reason@,
            _ => false,
        },
        Category::NativeHdr => r is NativeHdr,
        Category::External { url, label_key } => match r {
            RenoDxResolution::External { url: u, label_key: l, file_install } => {
                &&& u@ == url@
                &&& l@ == label_key@
                &&& file_install.is_some() == title_compatible(t, facts)
                &&& match file_install {
                    Some(ext) => exists|plan: ResolvedInstall|
                        title_plan_is(m, t, kind, facts, plan) && external_of(plan, *ext),
                    None => true,
                }
            },
            _ => false,
        },
        Category::Installable => if title_compatible(t, facts) {
            match r {
                RenoDxResolution::Installable(plan) => title_plan_is(m, t, kind, facts, *plan),
                _ => false,
            }
        } else {
            match r {
                RenoDxResolution::Incompatible { reason } => incompatibility_is(
                    t,
                    facts,
                    reason,
                ),
                _ => false,
            }
        },
    }
}

/// The resolution of the engine-generic fallback.
pub open spec fn generic_resolution_is(m: RenoDxManifest, facts: MatchFacts, r: RenoDxResolution) -> bool {
    let engine = match facts.engine {
        Some(e) => engine_of(e@),
        None => None,
    };
    match engine {
        None => r is NoMatch,
        Some(e) => match first_generic_for_engine(m.generics@, e, 0) {
            None => r is NoMatch,
            Some(gi) => {
                let g = m.generics@[gi];
                let api = detected_api(facts);
                match host_for(api) {
                    None => r == (RenoDxResolution::Incompatible {
                        reason: IncompatibilityReason::ApiUnsupported { detected: api },
                    }),
                    Some(host) => match facts.graphics.architecture {
                        None => r == (RenoDxResolution::Incompatible {
                            reason: IncompatibilityReason::ArchUnknown,
                        }),
                        Some(arch) => match generic_url(g, arch) {
                            None => r is NoMatch,
                            Some(url) => match r {
                                RenoDxResolution::Installable(plan) => {
                                    &&& plan.slug@ == generic_slug(g)
                                    &&& plan.addon_url@ == url
                                    &&& plan.arch == arch
                                    &&& plan.host_kind == host
                                    &&& plan.proxy_dll_name@ == host_proxy_name(host, None, facts)
                                    &&& is_generic_risk(plan.risk)
                                    &&& plan.confidence == status_confidence(g.status)
                                    &&& plan.notes_keys@ == match g.label_key {
                                        Some(k) => seq![k],
                                        None => Seq::<String>::empty(),
                                    }
                                },
                                _ => false,
                            },
                        },
                    },
                }
            },
        },
    }
}

/// The resolution of a game against the catalogue.
pub open spec fn resolution_is(m: RenoDxManifest, facts: MatchFacts, r: RenoDxResolution) -> bool {
    match selection(m, facts) {
        Some((ti, ri)) => title_resolution_is(
            m,
            m.titles@[ti],
            m.titles@[ti].match_rules@[ri].kind,
            facts,
            r,
        ),
        None => generic_resolution_is(m, facts, r),
    }
}

// ---------------------------------------------------------------------------
// Implementation
// ---------------------------------------------------------------------------

fn external_id_eq(facts: &MatchFacts, value: &str) -> (r: bool)
    ensures
        r == external_id_is(*facts, value@),
{
    match &facts.external_id {
        Some(id) => crate::text::str_eq(crate::text::trim(id.as_str()), crate::text::trim(value)),
        None => false,
    }
}

/// Whether one match rule matches the facts.
pub fn rule_matches(kind: MatchKind, value: &str, facts: &MatchFacts) -> (r: bool)
    ensures
        r == rule_matches_spec(kind, value@, *facts),
{
    match kind {
        MatchKind::SteamAppid => facts.launcher == Launcher::Steam && external_id_eq(facts, value),
        MatchKind::EpicId => facts.launcher == Launcher::Epic && external_id_eq(facts, value),
        MatchKind::GogId => facts.launcher == Launcher::Gog && external_id_eq(facts, value),
        MatchKind::ExeSha256 => match &facts.exe_sha256 {
            Some(hash) => crate::text::eq_ignore_ascii_case(hash.as_str(), crate::text::trim(value)),
            None => false,
        },
        MatchKind::ExeName => match &facts.exe_file_name {
            Some(name) => crate::glob::glob_matches_ci(value, name.as_str()),
            None => false,
        },
        MatchKind::Engine => match &facts.engine {
            Some(engine) => crate::text::eq_ignore_ascii_case(
                engine.as_str(),
                crate::text::trim(value),
            ),
            None => false,
        },
        MatchKind::Generic => true,
    }
}

/// The index of the matching rule of greatest tier (the last one on ties).
pub fn best_matching_rule(title: &Title, facts: &MatchFacts) -> (r: Option<usize>)
    ensures
        match r {
            Some(i) => best_rule(*title, *facts) == Some(i as int),
            None => best_rule(*title, *facts).is_none(),
        },
{
    let rules = &title.match_rules;
    let n = rules.len();
    let mut best: Option<usize> = None;
    let mut k: usize = 0;
    while k < n
        invariant
            n == rules@.len(),
            rules == &title.match_rules,
            k <= n,
            match best {
                Some(i) => best_rule_upto(rules@, *facts, k as int) == Some(i as int) && i < k,
                None => best_rule_upto(rules@, *facts, k as int).is_none(),
            },
        decreases n - k,
    {
        let rule = &rules[k];
        if rule_matches(rule.kind, rule.value.as_str(), facts) {
            match best {
                None => {
                    best = Some(k);
                },
                Some(i) => {
                    if rule.tier >= rules[i].tier {
                        best = Some(k);
                    }
                },
            }
        }
        k = k + 1;
    }
    best
}

/// Rank of a channel in the selection tie-break.
pub fn channel_rank(channel: Channel) -> (r: u8)
    ensures
        r == channel_rank_spec(channel),
{
    match channel {
        Channel::Stable => 0,
        Channel::Beta => 1,
        Channel::Snapshot => 2,
    }
}

fn key_at_least_exec(a: &Title, a_tier: u32, b: &Title, b_tier: u32) -> (r: bool)
    ensures
        r == key_at_least(*a, a_tier, *b, b_tier),
{
    if a_tier != b_tier {
        return a_tier > b_tier;
    }
    let ra = channel_rank(a.channel);
    let rb = channel_rank(b.channel);
    if ra != rb {
        return ra < rb;
    }
    !crate::text::str_less(b.id.as_str(), a.id.as_str())
}

/// Selects the best (title, rule) for the facts: highest rule tier, then
/// more-stable channel, then lexicographically smallest title id.
pub fn select_title(manifest: &RenoDxManifest, facts: &MatchFacts) -> (r: Option<(usize, usize)>)
    ensures
        match r {
            Some((ti, ri)) => selection(*manifest, *facts) == Some((ti as int, ri as int)) && ti
                < manifest.titles@.len() && ri < manifest.titles@[ti as int].match_rules@.len(),
            None => selection(*manifest, *facts).is_none(),
        },
{
    let titles = &manifest.titles;
    let n = titles.len();
    let mut best: Option<(usize, usize)> = None;
    let mut k: usize = 0;
    while k < n
        invariant
            n == titles@.len(),
            titles == &manifest.titles,
            k <= n,
            match best {
                Some((ti, ri)) => select_upto(titles@, *facts, k as int) == Some(
                    (ti as int, ri as int),
                ) && ti < k && ri < titles@[ti as int].match_rules@.len(),
                None => select_upto(titles@, *facts, k as int).is_none(),
            },
        decreases n - k,
    {
        let title = &titles[k];
        match best_matching_rule(title, facts) {
            None => {},
            Some(ri) => {
                proof {
                    lemma_best_rule_in_range(title.match_rules@, *facts, title.match_rules@.len() as int);
                }
                match best {
                    None => {
                        best = Some((k, ri));
                    },
                    Some((pi, pr)) => {
                        let prev = &titles[pi];
                        if key_at_least_exec(
                            title,
                            title.match_rules[ri].tier,
                            prev,
                            prev.match_rules[pr].tier,
                        ) {
                            best = Some((k, ri));
                        }
                    },
                }
            },
        }
        k = k + 1;
    }
    best
}

proof fn lemma_best_rule_in_range(rules: Seq<MatchRule>, facts: MatchFacts, k: int)
    requires
        0 <= k <= rules.len(),
    ensures
        match best_rule_upto(rules, facts, k) {
            Some(i) => 0 <= i < k,
            None => true,
        },
    decreases k,
{
    if k > 0 {
        lemma_best_rule_in_range(rules, facts, k - 1);
    }
}

/// Confidence from a catalogue status.
pub fn confidence_for_status(status: Status) -> (r: MatchConfidence)
    ensures
        r == status_confidence(status),
{
    match status {
        Status::Working => MatchConfidence::Verified,
        Status::Construction => MatchConfidence::Experimental,
        Status::Unknown => MatchConfidence::Untested,
    }
}

/// Confidence of a match, downgraded to untested for engine and catch-all rules.
pub fn confidence_for(status: Status, kind: MatchKind) -> (r: MatchConfidence)
    ensures
        r == match_confidence(status, kind),
{
    match kind {
        MatchKind::Engine | MatchKind::Generic => MatchConfidence::Untested,
        _ => confidence_for_status(status),
    }
}

/// The engine a detected engine name denotes.
pub fn parse_engine(value: &str) -> (r: Option<Engine>)
    ensures
        r == engine_of(value@),
{
    let t = crate::text::trim(value);
    if crate::text::eq_ignore_ascii_case(t, "unreal") {
        Some(Engine::Unreal)
    } else if crate::text::eq_ignore_ascii_case(t, "unreal_extended")
        || crate::text::eq_ignore_ascii_case(t, "unreal-extended") {
        Some(Engine::UnrealExtended)
    } else if crate::text::eq_ignore_ascii_case(t, "unity") {
        Some(Engine::Unity)
    } else {
        None
    }
}

fn find_generic_for_slug(gs: &Vec<Generic>, slug: &str) -> (r: Option<usize>)
    ensures
        match r {
            Some(i) => first_generic_for_slug(gs@, slug@, 0) == Some(i as int) && i < gs@.len(),
            None => first_generic_for_slug(gs@, slug@, 0).is_none(),
        },
{
    let n = gs.len();
    let mut i: usize = 0;
    while i < n
        invariant
            n == gs@.len(),
            i <= n,
            first_generic_for_slug(gs@, slug@, 0) == first_generic_for_slug(gs@, slug@, i as int),
        decreases n - i,
    {
        let hit = match &gs[i].slug {
            Some(s) => crate::text::str_eq(s.as_str(), slug),
            None => false,
        };
        if hit {
            return Some(i);
        }
        i = i + 1;
    }
    None
}

fn find_generic_for_engine(gs: &Vec<Generic>, e: Engine) -> (r: Option<usize>)
    ensures
        match r {
            Some(i) => first_generic_for_engine(gs@, e, 0) == Some(i as int) && i < gs@.len(),
            None => first_generic_for_engine(gs@, e, 0).is_none(),
        },
{
    let n = gs.len();
    let mut i: usize = 0;
    while i < n
        invariant
            n == gs@.len(),
            i <= n,
            first_generic_for_engine(gs@, e, 0) == first_generic_for_engine(gs@, e, i as int),
        decreases n - i,
    {
        if gs[i].engine == e {
            return Some(i);
        }
        i = i + 1;
    }
    None
}

/// A title's upstream add-on URL: an explicit download URL wins; otherwise the
/// URL of the first engine generic with the title's slug; otherwise the URL
/// derived from the slug.
pub fn title_addon_url(manifest: &RenoDxManifest, title: &Title) -> (r: String)
    ensures
        r@ == title_url(*manifest, *title),
{
    if let Some(url) = &title.download_url {
        return url.clone();
    }
    if let Some(gi) = find_generic_for_slug(&manifest.generics, title.slug.as_str()) {
        if let Some(url) = crate::source::generic_addon_url(&manifest.generics[gi], title.arch) {
            return url;
        }
    }
    crate::source::addon_url(title.slug.as_str(), title.arch)
}

/// Builds the install plan of a matched title, or the reason it is incompatible.
fn build_install_plan(
    manifest: &RenoDxManifest,
    title: &Title,
    kind: MatchKind,
    facts: &MatchFacts,
) -> (r: Result<ResolvedInstall, IncompatibilityReason>)
    ensures
        r.is_ok() == title_compatible(*title, *facts),
        r matches Ok(plan) ==> title_plan_is(*manifest, *title, kind, *facts, plan),
        r matches Err(reason) ==> incompatibility_is(*title, *facts, reason),
{
    let (host_kind, proxy_dll_name) = crate::policy::check_title_compatibility(title, facts)?;
    Ok(
        ResolvedInstall {
            slug: title.slug.clone(),
            addon_url: title_addon_url(manifest, title),
            arch: title.arch,
            host_kind,
            proxy_dll_name,
            risk: title.risk.duplicate(),
            confidence: confidence_for(title.status, kind),
            notes_keys: crate::text::clone_strings(&title.notes_keys),
        },
    )
}

impl ResolvedInstall {
    /// Projects the user-facing fields of a plan for a file-installable external title.
    pub fn into_external_install(self) -> (r: ExternalInstall)
        ensures
            external_of(self, r),
    {
        ExternalInstall {
            arch: self.arch,
            proxy_dll_name: self.proxy_dll_name,
            confidence: self.confidence,
            risk: self.risk,
            notes_keys: self.notes_keys,
            host_kind: self.host_kind,
        }
    }
}

fn resolve_title(
    manifest: &RenoDxManifest,
    title: &Title,
    kind: MatchKind,
    facts: &MatchFacts,
) -> (r: RenoDxResolution)
    ensures
        title_resolution_is(*manifest, *title, kind, *facts, r),
{
    match &title.category {
        Category::Blacklist { reason } => RenoDxResolution::Unsupported {
            reason: Some(reason.clone()),
        },
        Category::NativeHdr => RenoDxResolution::NativeHdr,
        Category::External { url, label_key } => {
            let file_install = match build_install_plan(manifest, title, kind, facts) {
                Ok(plan) => {
                    let ghost p = plan;
                    let ext = plan.into_external_install();
                    proof {
                        assert(title_plan_is(*manifest, *title, kind, *facts, p) && external_of(
                            p,
                            ext,
                        ));
                    }
                    Some(Box::new(ext))
                },
                Err(_) => None,
            };
            RenoDxResolution::External {
                url: url.clone(),
                label_key: label_key.clone(),
                file_install,
            }
        },
        Category::Installable => match build_install_plan(manifest, title, kind, facts) {
            Ok(plan) => RenoDxResolution::Installable(Box::new(plan)),
            Err(reason) => RenoDxResolution::Incompatible { reason },
        },
    }
}

/// Engine-generic fallback when no per-game title matched.
fn resolve_generic(manifest: &RenoDxManifest, facts: &MatchFacts) -> (r: RenoDxResolution)
    ensures
        generic_resolution_is(*manifest, *facts, r),
{
    let engine = match &facts.engine {
        Some(e) => parse_engine(e.as_str()),
        None => None,
    };
    let engine = match engine {
        Some(e) => e,
        None => {
            return RenoDxResolution::NoMatch;
        },
    };
    let gi = match find_generic_for_engine(&manifest.generics, engine) {
        Some(i) => i,
        None => {
            return RenoDxResolution::NoMatch;
        },
    };
    let generic = &manifest.generics[gi];
    let api = crate::policy::primary_api(&facts.graphics);
    let host_kind = match crate::policy::host_decision(api) {
        Some(k) => k,
        None => {
            return RenoDxResolution::Incompatible {
                reason: IncompatibilityReason::ApiUnsupported { detected: api },
            };
        },
    };
    let arch = match facts.graphics.architecture {
        Some(a) => a,
        None => {
            return RenoDxResolution::Incompatible { reason: IncompatibilityReason::ArchUnknown };
        },
    };
    let addon_url = match crate::source::generic_addon_url(generic, arch) {
        Some(u) => u,
        None => {
            return RenoDxResolution::NoMatch;
        },
    };
    let proxy_dll_name = match host_kind {
        HostKind::Proxy => crate::policy::resolve_proxy_dll(None, &facts.graphics),
        HostKind::Vulkan => String::new(),
    };
    let mut notes_keys: Vec<String> = Vec::new();
    if let Some(k) = &generic.label_key {
        notes_keys.push(k.clone());
    }
    proof {
        if generic.label_key.is_some() {
            assert(notes_keys@ =~= seq![generic.label_key.unwrap()]);
        } else {
            assert(notes_keys@ =~= Seq::<String>::empty());
        }
    }
    RenoDxResolution::Installable(
        Box::new(
            ResolvedInstall {
                slug: crate::source::generic_local_slug(generic),
                addon_url,
                arch,
                host_kind,
                proxy_dll_name,
                risk: generic_risk(),
                confidence: confidence_for_status(generic.status),
                notes_keys,
            },
        ),
    )
}

/// Resolves a game to a RenoDX outcome against a validated catalogue.
pub fn resolve(manifest: &RenoDxManifest, facts: &MatchFacts) -> (r: RenoDxResolution)
    ensures
        resolution_is(*manifest, *facts, r),
{
    match select_title(manifest, facts) {
        Some((ti, ri)) => {
            let title = &manifest.titles[ti];
            let kind = title.match_rules[ri].kind;
            resolve_title(manifest, title, kind, facts)
        },
        None => resolve_generic(manifest, facts),
    }
}

/// Resolves a game to the install plan of an external file install, or `None`
/// when the game is not a compatible external title.
pub fn resolve_external_install(manifest: &RenoDxManifest, facts: &MatchFacts) -> (r: Option<
    ResolvedInstall,
>)
    ensures
        match selection(*manifest, *facts) {
            Some((ti, ri)) => {
                let t = manifest.titles@[ti];
                match r {
                    Some(plan) => t.category is External && title_compatible(t, *facts)
                        && title_plan_is(*manifest, t, t.match_rules@[ri].kind, *facts, plan),
                    None => !(t.category is External) || !title_compatible(t, *facts),
                }
            },
            None => r.is_none(),
        },
{
    let (ti, ri) = select_title(manifest, facts)?;
    let title = &manifest.titles[ti];
    match &title.category {
        Category::External { .. } => {},
        _ => {
            return None;
        },
    }
    match build_install_plan(manifest, title, title.match_rules[ri].kind, facts) {
        Ok(plan) => Some(plan),
        Err(_) => None,
    }
}

/// Whether RenoDX can be installed from a user-supplied add-on file: true for a
/// DirectX or inconclusive renderer and for confirmed Vulkan, false for OpenGL.
pub fn file_installable(facts: &MatchFacts) -> (r: bool)
    ensures
        r == host_for(detected_api(*facts)).is_some(),
{
    crate::policy::host_decision(crate::policy::primary_api(&facts.graphics)).is_some()
}

/// The catalogue slug of the matching title, if any.
pub fn matched_slug(manifest: &RenoDxManifest, facts: &MatchFacts) -> (r: Option<String>)
    ensures
        match selection(*manifest, *facts) {
            Some((ti, _)) => r is Some && r.unwrap()@ == manifest.titles@[ti].slug@,
            None => r.is_none(),
        },
{
    match select_title(manifest, facts) {
        Some((ti, _)) => Some(manifest.titles[ti].slug.clone()),
        None => None,
    }
}

/// A generic plan for a manual file install when no catalogue title matched;
/// `None` when the renderer is confirmed OpenGL.
pub fn generic_file_install_plan(facts: &MatchFacts, arch: Architecture) -> (r: Option<
    ResolvedInstall,
>)
    ensures
        r.is_some() == host_for(detected_api(*facts)).is_some(),
        r matches Some(plan) ==> {
            let host = host_for(detected_api(*facts)).unwrap();
            &&& plan.slug@ == Seq::<char>::empty()
            &&& plan.addon_url@ == Seq::<char>::empty()
            &&& plan.arch == arch
            &&& plan.host_kind == host
            &&& plan.proxy_dll_name@ == host_proxy_name(host, None, *facts)
            &&& is_generic_risk(plan.risk)
            &&& plan.confidence == MatchConfidence::Untested
            &&& plan.notes_keys@.len() == 0
        },
{
    let host_kind = crate::policy::host_decision(crate::policy::primary_api(&facts.graphics))?;
    let proxy_dll_name = match host_kind {
        HostKind::Proxy => crate::policy::resolve_proxy_dll(None, &facts.graphics),
        HostKind::Vulkan => String::new(),
    };
    Some(
        ResolvedInstall {
            slug: String::new(),
            addon_url: String::new(),
            arch,
            host_kind,
            proxy_dll_name,
            risk: generic_risk(),
            confidence: MatchConfidence::Untested,
            notes_keys: Vec::new(),
        },
    )
}

// ---------------------------------------------------------------------------
// The selection is the best match
// ---------------------------------------------------------------------------

proof fn lemma_key_reflexive(a: Title, t: u32)
    ensures
        key_at_least(a, t, a, t),
{
    crate::text::lemma_seq_less_asym(a.id@, a.id@);
}

proof fn lemma_key_total(a: Title, ta: u32, b: Title, tb: u32)
    ensures
        key_at_least(a, ta, b, tb) || key_at_least(b, tb, a, ta),
{
    crate::text::lemma_seq_less_asym(a.id@, b.id@);
}

proof fn lemma_key_transitive(a: Title, ta: u32, b: Title, tb: u32, c: Title, tc: u32)
    requires
        key_at_least(a, ta, b, tb),
        key_at_least(b, tb, c, tc),
    ensures
        key_at_least(a, ta, c, tc),
{
    if ta == tb && tb == tc && channel_rank_spec(a.channel) == channel_rank_spec(b.channel)
        && channel_rank_spec(b.channel) == channel_rank_spec(c.channel) {
        if seq_less(c.id@, a.id@) {
            crate::text::lemma_seq_less_total(b.id@, a.id@);
            if seq_less(a.id@, b.id@) {
                crate::text::lemma_seq_less_trans(c.id@, a.id@, b.id@);
            }
        }
    }
}

proof fn lemma_best_rule_max(rules: Seq<MatchRule>, facts: MatchFacts, k: int)
    requires
        0 <= k <= rules.len(),
    ensures
        match best_rule_upto(rules, facts, k) {
            Some(i) => 0 <= i < k && rule_hit(rules[i], facts) && forall|j: int|
                0 <= j < k && #[trigger] rule_hit(rules[j], facts) ==> rules[j].tier <= rules[i].tier,
            None => forall|j: int| 0 <= j < k ==> !#[trigger] rule_hit(rules[j], facts),
        },
    decreases k,
{
    if k > 0 {
        lemma_best_rule_max(rules, facts, k - 1);
    }
}

/// Whether title `i` with rule tier `ti` ranks at least as high as every
/// matching title among the first `k`.
pub open spec fn outranks_upto(titles: Seq<Title>, facts: MatchFacts, i: int, ti: u32, k: int) -> bool {
    forall|j: int|
        0 <= j < k && #[trigger] best_rule(titles[j], facts) is Some ==> key_at_least(
            titles[i],
            ti,
            titles[j],
            titles[j].match_rules@[best_rule(titles[j], facts).unwrap()].tier,
        )
}

proof fn lemma_select_upto_best(titles: Seq<Title>, facts: MatchFacts, k: int)
    requires
        0 <= k <= titles.len(),
    ensures
        match select_upto(titles, facts, k) {
            Some((i, r)) => 0 <= i < k && best_rule(titles[i], facts) == Some(r)
                && outranks_upto(titles, facts, i, titles[i].match_rules@[r].tier, k),
            None => forall|j: int| 0 <= j < k ==> #[trigger] best_rule(titles[j], facts) is None,
        },
    decreases k,
{
    if k > 0 {
        lemma_select_upto_best(titles, facts, k - 1);
        let t = titles[k - 1];
        let prev = select_upto(titles, facts, k - 1);
        match best_rule(t, facts) {
            None => {
                match prev {
                    Some((pi, pr)) => {
                        assert(outranks_upto(
                            titles,
                            facts,
                            pi,
                            titles[pi].match_rules@[pr].tier,
                            k,
                        ));
                    },
                    None => {},
                }
            },
            Some(ri) => {
                let tier = t.match_rules@[ri].tier;
                lemma_key_reflexive(t, tier);
                match prev {
                    None => {
                        assert(outranks_upto(titles, facts, k - 1, tier, k));
                    },
                    Some((pi, pr)) => {
                        let ptier = titles[pi].match_rules@[pr].tier;
                        if key_at_least(t, tier, titles[pi], ptier) {
                            assert forall|j: int|
                                0 <= j < k && #[trigger] best_rule(titles[j], facts) is Some implies key_at_least(
                                t,
                                tier,
                                titles[j],
                                titles[j].match_rules@[best_rule(titles[j], facts).unwrap()].tier,
                            ) by {
                                if j < k - 1 {
                                    lemma_key_transitive(
                                        t,
                                        tier,
                                        titles[pi],
                                        ptier,
                                        titles[j],
                                        titles[j].match_rules@[best_rule(
                                            titles[j],
                                            facts,
                                        ).unwrap()].tier,
                                    );
                                }
                            }
                        } else {
                            lemma_key_total(t, tier, titles[pi], ptier);
                            assert(outranks_upto(titles, facts, pi, ptier, k));
                        }
                    },
                }
            },
        }
    }
}

/// The selected title is the best match: its rule is its own best matching
/// rule, and it ranks at least as high (tier, then channel, then id) as every
/// other title with a matching rule; nothing is selected only when no title
/// has a matching rule.
pub proof fn lemma_selection_is_best(m: RenoDxManifest, facts: MatchFacts)
    ensures
        match selection(m, facts) {
            Some((i, r)) => {
                &&& 0 <= i < m.titles@.len()
                &&& best_rule(m.titles@[i], facts) == Some(r)
                &&& rule_hit(m.titles@[i].match_rules@[r], facts)
                &&& forall|k: int|
                    0 <= k < m.titles@[i].match_rules@.len() && #[trigger] rule_hit(
                        m.titles@[i].match_rules@[k],
                        facts,
                    ) ==> m.titles@[i].match_rules@[k].tier <= m.titles@[i].match_rules@[r].tier
                &&& outranks_upto(
                    m.titles@,
                    facts,
                    i,
                    m.titles@[i].match_rules@[r].tier,
                    m.titles@.len() as int,
                )
            },
            None => forall|j: int|
                0 <= j < m.titles@.len() ==> #[trigger] best_rule(m.titles@[j], facts) is None,
        },
{
    lemma_select_upto_best(m.titles@, facts, m.titles@.len() as int);
    match selection(m, facts) {
        Some((i, r)) => {
            let rules = m.titles@[i].match_rules@;
            lemma_best_rule_max(rules, facts, rules.len() as int);
        },
        None => {},
    }
}

/// Among matching titles of equal rule tier the more stable channel wins: if
/// another title matches with a rule of the same tier as the selected one and
/// is on Stable, the selected title is on Stable too; if it is on Beta, the
/// selected title is not on Snapshot. A title with a higher-tier rule always
/// outranks, whatever its channel.
pub proof fn lemma_selection_prefers_stable_channels(m: RenoDxManifest, facts: MatchFacts)
    ensures
        match selection(m, facts) {
            Some((i, r)) => forall|j: int|
                0 <= j < m.titles@.len() && #[trigger] best_rule(m.titles@[j], facts) is Some ==> {
                    let tier_i = m.titles@[i].match_rules@[r].tier;
                    let tier_j = m.titles@[j].match_rules@[best_rule(m.titles@[j], facts).unwrap()].tier;
                    &&& tier_j <= tier_i
                    &&& tier_j == tier_i && m.titles@[j].channel == Channel::Stable
                        ==> m.titles@[i].channel == Channel::Stable
                    &&& tier_j == tier_i && m.titles@[j].channel == Channel::Beta
                        ==> m.titles@[i].channel != Channel::Snapshot
                },
            None => true,
        },
{
    lemma_selection_is_best(m, facts);
}

} // verus!
