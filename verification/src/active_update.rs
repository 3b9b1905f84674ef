//! Composition of an active RenoDX update from validated evidence: nothing to
//! do, a change of the record alone, or a physical program over the add-on, the
//! ReShade host and `ReShade.ini`.
use vstd::prelude::*;

use crate::peer_effects::{
    bytes_eq, capped, collects, host_count, lemma_collects_empty, lemma_collects_step,
    lemma_collects_stops_at_refusal, lemma_step_create, lemma_step_replace, matches_image, program_of, EndpointBundle, PeerEffectAccumulator,
    PeerEffectError, PeerEffectGroup, PeerEffects, PeerEndpointRole, PlannedEffect, VerifiedPeerFile,
};
use crate::record::{records_equal, same_record, InstalledAddon};
use crate::text::{opt_view, views};

verus! {

/// The sealed host image of an update and the host bytes it prepared.
#[derive(Debug)]
pub struct HostImage {
    /// The live host path.
    pub path: String,
    /// The sealed host file.
    pub before: VerifiedPeerFile,
    /// Its current bytes.
    pub before_bytes: Vec<u8>,
    /// The prepared host bytes.
    pub bytes: Vec<u8>,
}

/// The sealed `ReShade.ini` of an update and its rewritten contents.
#[derive(Debug)]
pub struct ConfigImage {
    /// The configuration file.
    pub path: String,
    /// The sealed file, when it exists.
    pub before: Option<VerifiedPeerFile>,
    /// Its current bytes, when it exists.
    pub before_bytes: Option<Vec<u8>>,
    /// Its contents after the update.
    pub after: Option<Vec<u8>>,
}

/// The evidence of an active update after validation.
#[derive(Debug)]
pub struct ValidatedUpdate {
    /// Some file must change.
    pub has_physical_change: bool,
    /// The install record before the update.
    pub before: InstalledAddon,
    /// The install record after the update.
    pub after: InstalledAddon,
    /// Identity of the sealed game proxy topology the program is exact for.
    pub topology: String,
    /// Path of the add-on payload.
    pub addon_path: String,
    /// The sealed add-on file.
    pub addon_before: VerifiedPeerFile,
    /// Its current bytes.
    pub addon_before_bytes: Vec<u8>,
    /// The prepared add-on bytes.
    pub addon_bytes: Vec<u8>,
    /// The host, when the update touches it.
    pub host: Option<HostImage>,
    /// `ReShade.ini`, when the update touches it.
    pub config: Option<ConfigImage>,
}

/// What an active update does.
#[derive(Debug)]
pub enum ActiveUpdateComposition {
    /// Nothing changes.
    Noop,
    /// Only the record changes.
    Metadata(InstalledAddon),
    /// Files change.
    Physical {
        /// The record after the update.
        record: InstalledAddon,
        /// The endpoint program.
        effects: PeerEffects,
        /// Identity of the sealed topology the program is exact for.
        topology: String,
    },
}

/// Why an active update cannot be composed.
#[derive(Clone, Debug, PartialEq, Eq)]
pub enum ActiveUpdateError {
    /// The input is inconsistent.
    InvalidInput(String),
    /// The effects could not be collected or lowered.
    Effects(PeerEffectError),
}

/// Message of a configuration change without contents.
pub open spec fn no_postimage_message() -> Seq<char> {
    "active config physical change has no postimage"@
}

/// Message of a physical update that changes neither the add-on nor the host.
pub open spec fn no_transition_message() -> Seq<char> {
    "physical active update has no endpoint transition"@
}

/// The add-on effect of an update: replaced when the prepared bytes differ
/// from its sealed image.
pub open spec fn addon_part(v: ValidatedUpdate) -> Seq<PlannedEffect> {
    if !matches_image(v.addon_before, v.addon_bytes@) {
        seq![
            PlannedEffect::Replace {
                group: PeerEffectGroup::Addon,
                path: v.addon_path@,
                before: v.addon_before,
                before_bytes: v.addon_before_bytes@,
                bytes: v.addon_bytes@,
            },
        ]
    } else {
        Seq::empty()
    }
}

/// The host effect of an update: replaced when the prepared bytes differ from
/// its sealed image.
pub open spec fn host_part(v: ValidatedUpdate) -> Seq<PlannedEffect> {
    match v.host {
        Some(h) => if !matches_image(h.before, h.bytes@) {
            seq![
                PlannedEffect::Replace {
                    group: PeerEffectGroup::Host,
                    path: h.path@,
                    before: h.before,
                    before_bytes: h.before_bytes@,
                    bytes: h.bytes@,
                },
            ]
        } else {
            Seq::empty()
        },
        None => Seq::empty(),
    }
}

/// The add-on and host effects of an update, in collection order.
pub open spec fn core_plan(v: ValidatedUpdate) -> Seq<PlannedEffect> {
    addon_part(v) + host_part(v)
}

/// The configuration effect: a new file is created, an existing one with other
/// bytes is replaced.
pub open spec fn config_plan(c: ConfigImage, after: Seq<u8>) -> Seq<PlannedEffect> {
    match c.before {
        Some(b) => match c.before_bytes {
            Some(bb) => if bb@ != after {
                seq![
                    PlannedEffect::Replace {
                        group: PeerEffectGroup::Config,
                        path: c.path@,
                        before: b,
                        before_bytes: bb@,
                        bytes: after,
                    },
                ]
            } else {
                Seq::empty()
            },
            None => Seq::empty(),
        },
        None => seq![PlannedEffect::Create { group: PeerEffectGroup::Config, path: c.path@, bytes: after }],
    }
}

/// The configuration changes but its contents are missing.
pub open spec fn missing_postimage(v: ValidatedUpdate) -> bool {
    v.config matches Some(c) && c.after is None
}

/// The configuration effect of an update with contents.
pub open spec fn config_part(v: ValidatedUpdate) -> Seq<PlannedEffect> {
    match v.config {
        Some(c) => match c.after {
            Some(a) => config_plan(c, a@),
            None => Seq::empty(),
        },
        None => Seq::empty(),
    }
}

/// All effects of an update, in collection order.
pub open spec fn full_plan(v: ValidatedUpdate) -> Seq<PlannedEffect> {
    core_plan(v) + config_part(v)
}

/// The program changes the add-on or the host.
pub open spec fn has_transition(e: PeerEffects) -> bool {
    exists|k: int|
        0 <= k < e.endpoints@.len() && ((#[trigger] e.endpoints@[k]).role == PeerEndpointRole::Disjoint
            || e.endpoints@[k].role == PeerEndpointRole::TopologyDownstream)
}

/// `r` is the outcome of lowering the collected bundles `s` of update `v`,
/// whose collection ended with `ri`.
pub open spec fn physical_outcome(
    v: ValidatedUpdate,
    s: Seq<EndpointBundle>,
    ri: Result<(), PeerEffectError>,
    r: Result<ActiveUpdateComposition, ActiveUpdateError>,
) -> bool {
    &&& (ri matches Err(e) ==> r == Err::<ActiveUpdateComposition, ActiveUpdateError>(
        ActiveUpdateError::Effects(e),
    ))
    &&& (ri is Ok && s.len() == 0 ==> r == Err::<ActiveUpdateComposition, ActiveUpdateError>(
        ActiveUpdateError::Effects(PeerEffectError::EmptyProgram),
    ))
    &&& (ri is Ok && s.len() > 0 && host_count(s) > 1 ==> (r matches Err(
        ActiveUpdateError::Effects(PeerEffectError::InvalidHostCardinality(n)),
    ) && n == capped(host_count(s))))
    &&& (ri is Ok && s.len() > 0 && host_count(s) <= 1 ==> exists|e: PeerEffects|
        #[trigger] program_of(s, e) && (has_transition(e) ==> (r matches Ok(
            ActiveUpdateComposition::Physical { record, effects, topology },
        ) && record == v.after && effects == e && topology == v.topology)) && (!has_transition(e) ==> (
        r matches Err(ActiveUpdateError::InvalidInput(m)) && m@ == no_transition_message())))
}

/// Whether the program changes the add-on or the host.
fn changes_addon_or_host(effects: &PeerEffects) -> (r: bool)
    ensures
        r == has_transition(*effects),
{
    let n = effects.endpoints.len();
    let mut i: usize = 0;
    while i < n
        invariant
            n == effects.endpoints@.len(),
            i <= n,
            forall|k: int|
                0 <= k < i ==> (#[trigger] effects.endpoints@[k]).role != PeerEndpointRole::Disjoint
                    && effects.endpoints@[k].role != PeerEndpointRole::TopologyDownstream,
        decreases n - i,
    {
        let role = effects.endpoints[i].role;
        if role == PeerEndpointRole::Disjoint || role == PeerEndpointRole::TopologyDownstream {
            return true;
        }
        i = i + 1;
    }
    false
}

/// Composes one active update from validated evidence and prepared bytes.
pub fn compose_active_update(v: ValidatedUpdate) -> (r: Result<ActiveUpdateComposition, ActiveUpdateError>)
    ensures
        !v.has_physical_change && same_record(v.before, v.after) ==> (r matches Ok(
            ActiveUpdateComposition::Noop,
        )),
        !v.has_physical_change && !same_record(v.before, v.after) ==> (r matches Ok(
            ActiveUpdateComposition::Metadata(rec),
        ) && rec == v.after),
        v.has_physical_change && missing_postimage(v) ==> exists|s: Seq<EndpointBundle>, ri: Result<(), PeerEffectError>|
            #[trigger] collects(core_plan(v), s, ri) && (ri matches Err(e) ==> r == Err::<
                ActiveUpdateComposition,
                ActiveUpdateError,
            >(ActiveUpdateError::Effects(e))) && (ri is Ok ==> (r matches Err(
                ActiveUpdateError::InvalidInput(m),
            ) && m@ == no_postimage_message())),
        v.has_physical_change && !missing_postimage(v) ==> exists|s: Seq<EndpointBundle>, ri: Result<(), PeerEffectError>|
            #[trigger] collects(full_plan(v), s, ri) && physical_outcome(v, s, ri, r),
{
    let ghost gv = v;
    if !v.has_physical_change {
        if records_equal(&v.before, &v.after) {
            return Ok(ActiveUpdateComposition::Noop);
        }
        return Ok(ActiveUpdateComposition::Metadata(v.after));
    }
    proof {
        reveal_strlit("active config physical change has no postimage");
        reveal_strlit("physical active update has no endpoint transition");
        assert(core_plan(gv) =~= addon_part(gv) + host_part(gv));
        assert(full_plan(gv) =~= addon_part(gv) + host_part(gv) + config_part(gv));
        assert(addon_part(gv) + (host_part(gv) + config_part(gv)) =~= full_plan(gv));
        if missing_postimage(gv) {
            assert(config_part(gv) =~= Seq::<PlannedEffect>::empty());
            assert(full_plan(gv) =~= core_plan(gv));
        }
    }
    let ValidatedUpdate {
        after,
        topology,
        addon_path,
        addon_before,
        addon_before_bytes,
        addon_bytes,
        host,
        config,
        ..
    } = v;
    let mut accumulator = PeerEffectAccumulator::new();
    let ghost mut ps: Seq<PlannedEffect> = Seq::empty();
    let ghost mut rp: Result<(), PeerEffectError> = Ok(());
    proof {
        lemma_collects_empty();
    }
    // The add-on.
    if !addon_before.matches_content_bytes(addon_bytes.as_slice()) {
        let ghost s0 = accumulator@;
        let ghost p = PlannedEffect::Replace {
            group: PeerEffectGroup::Addon,
            path: addon_path@,
            before: addon_before,
            before_bytes: addon_before_bytes@,
            bytes: addon_bytes@,
        };
        let ghost gpath = addon_path;
        let ghost gbb = addon_before_bytes@;
        let ghost gb = addon_bytes@;
        let ri = accumulator.replace(
            PeerEffectGroup::Addon,
            addon_path,
            &addon_before,
            addon_before_bytes,
            addon_bytes,
        );
        proof {
            lemma_step_replace(s0, accumulator@, ri, PeerEffectGroup::Addon, gpath, addon_before, gbb, gb);
            lemma_collects_step(ps, p, s0, rp, accumulator@, ri);
            ps = ps.push(p);
            rp = ri;
            assert(ps =~= addon_part(gv));
        }
        if let Err(e) = ri {
            proof {
                lemma_collects_stops_at_refusal(ps, host_part(gv) + config_part(gv), accumulator@, e);
                lemma_collects_stops_at_refusal(ps, host_part(gv), accumulator@, e);
            }
            return Err(ActiveUpdateError::Effects(e));
        }
    } else {
        proof {
            assert(ps =~= addon_part(gv));
        }
    }
    // The host.
    let ghost ps_addon = ps;
    match host {
        Some(h) => {
            let HostImage { path, before, before_bytes, bytes } = h;
            if !before.matches_content_bytes(bytes.as_slice()) {
                let ghost s0 = accumulator@;
                let ghost p = PlannedEffect::Replace {
                    group: PeerEffectGroup::Host,
                    path: path@,
                    before: before,
                    before_bytes: before_bytes@,
                    bytes: bytes@,
                };
                let ghost gpath = path;
                let ghost gbb = before_bytes@;
                let ghost gb = bytes@;
                let ri = accumulator.replace(PeerEffectGroup::Host, path, &before, before_bytes, bytes);
                proof {
                    lemma_step_replace(s0, accumulator@, ri, PeerEffectGroup::Host, gpath, before, gbb, gb);
                    lemma_collects_step(ps, p, s0, rp, accumulator@, ri);
                    ps = ps.push(p);
                    rp = ri;
                    assert(ps =~= core_plan(gv));
                }
                if let Err(e) = ri {
                    proof {
                        lemma_collects_stops_at_refusal(ps, config_part(gv), accumulator@, e);
                        assert(ps + Seq::<PlannedEffect>::empty() =~= ps);
                    }
                    return Err(ActiveUpdateError::Effects(e));
                }
            } else {
                proof {
                    assert(ps =~= core_plan(gv));
                }
            }
        },
        None => {
            proof {
                assert(ps =~= core_plan(gv));
            }
        },
    }
    // The configuration.
    match config {
        Some(c) => {
            let ConfigImage { path, before, before_bytes, after: post } = c;
            let post = match post {
                Some(a) => a,
                None => {
                    return Err(
                        ActiveUpdateError::InvalidInput(
                            String::from_str("active config physical change has no postimage"),
                        ),
                    );
                },
            };
            match (before, before_bytes) {
                (Some(b), Some(bb)) => {
                    if !bytes_eq(bb.as_slice(), post.as_slice()) {
                        let ghost s0 = accumulator@;
                        let ghost p = PlannedEffect::Replace {
                            group: PeerEffectGroup::Config,
                            path: path@,
                            before: b,
                            before_bytes: bb@,
                            bytes: post@,
                        };
                        let ghost gpath = path;
                        let ghost gbb = bb@;
                        let ghost gb = post@;
                        let ri = accumulator.replace(PeerEffectGroup::Config, path, &b, bb, post);
                        proof {
                            lemma_step_replace(s0, accumulator@, ri, PeerEffectGroup::Config, gpath, b, gbb, gb);
                            lemma_collects_step(ps, p, s0, rp, accumulator@, ri);
                            ps = ps.push(p);
                            rp = ri;
                            assert(ps =~= full_plan(gv));
                        }
                        if let Err(e) = ri {
                            return Err(ActiveUpdateError::Effects(e));
                        }
                    } else {
                        proof {
                            assert(ps =~= full_plan(gv));
                        }
                    }
                },
                (None, _) => {
                    let ghost s0 = accumulator@;
                    let ghost p = PlannedEffect::Create {
                        group: PeerEffectGroup::Config,
                        path: path@,
                        bytes: post@,
                    };
                    let ghost gp = path@;
                    let ghost gb = post@;
                    let ri = accumulator.create(PeerEffectGroup::Config, path, post);
                    proof {
                        lemma_step_create(s0, accumulator@, ri, PeerEffectGroup::Config, gp, gb);
                        lemma_collects_step(ps, p, s0, rp, accumulator@, ri);
                        ps = ps.push(p);
                        rp = ri;
                        assert(ps =~= full_plan(gv));
                    }
                    if let Err(e) = ri {
                        return Err(ActiveUpdateError::Effects(e));
                    }
                },
                _ => {
                    proof {
                        assert(ps =~= full_plan(gv));
                    }
                },
            }
        },
        None => {
            proof {
                assert(ps =~= full_plan(gv));
            }
        },
    }
    let ghost s = accumulator@;
    assert(collects(full_plan(gv), s, rp));
    match accumulator.finalize() {
        Err(e) => Err(ActiveUpdateError::Effects(e)),
        Ok(effects) => {
            if !changes_addon_or_host(&effects) {
                proof {
                    assert(program_of(s, effects));
                }
                return Err(
                    ActiveUpdateError::InvalidInput(
                        String::from_str("physical active update has no endpoint transition"),
                    ),
                );
            }
            proof {
                assert(program_of(s, effects));
            }
            Ok(ActiveUpdateComposition::Physical { record: after, effects, topology })
        },
    }
}

/// Without a physical change nothing the new record says is dropped: the
/// update is a no-op only when the new record holds the same values as the old
/// one in every field (each tracked source keeping its role, URL, ETag,
/// digest, Last-Modified and channel), and any source whose ETag or
/// Last-Modified changed makes it a metadata update carrying the new record.
pub proof fn lemma_metadata_changes_are_never_dropped(
    v: ValidatedUpdate,
    r: Result<ActiveUpdateComposition, ActiveUpdateError>,
)
    requires
        !v.has_physical_change,
        same_record(v.before, v.after) ==> (r matches Ok(ActiveUpdateComposition::Noop)),
        !same_record(v.before, v.after) ==> (r matches Ok(ActiveUpdateComposition::Metadata(rec))
            && rec == v.after),
    ensures
        r matches Ok(ActiveUpdateComposition::Noop) ==> {
            let a = v.before;
            let b = v.after;
            &&& a.game_id@ == b.game_id@
            &&& a.kind == b.kind
            &&& a.addon_file@ == b.addon_file@
            &&& opt_view(a.addon_version) == opt_view(b.addon_version)
            &&& views(a.created_files@) == views(b.created_files@)
            &&& views(a.backed_up_files@) == views(b.backed_up_files@)
            &&& a.installed_at == b.installed_at
            &&& a.updated_at == b.updated_at
            &&& a.managed_files@.len() == b.managed_files@.len()
            &&& a.tracked_sources@.len() == b.tracked_sources@.len()
            &&& forall|i: int|
                0 <= i < a.tracked_sources@.len() ==> {
                    let x = #[trigger] a.tracked_sources@[i];
                    let y = b.tracked_sources@[i];
                    &&& x.role == y.role
                    &&& x.url@ == y.url@
                    &&& opt_view(x.etag) == opt_view(y.etag)
                    &&& x.digest@ == y.digest@
                    &&& opt_view(x.last_modified) == opt_view(y.last_modified)
                    &&& opt_view(x.channel) == opt_view(y.channel)
                }
        },
        (exists|i: int|
            0 <= i < v.before.tracked_sources@.len() && i < v.after.tracked_sources@.len() && (opt_view(
                (#[trigger] v.before.tracked_sources@[i]).etag,
            ) != opt_view(v.after.tracked_sources@[i].etag) || opt_view(
                v.before.tracked_sources@[i].last_modified,
            ) != opt_view(v.after.tracked_sources@[i].last_modified))) ==> (r matches Ok(
            ActiveUpdateComposition::Metadata(rec),
        ) && rec == v.after),
{
    if r matches Ok(ActiveUpdateComposition::Noop) {
        assert(same_record(v.before, v.after));
        assert forall|i: int| 0 <= i < v.before.tracked_sources@.len() implies {
            let x = #[trigger] v.before.tracked_sources@[i];
            let y = v.after.tracked_sources@[i];
            &&& x.role == y.role
            &&& x.url@ == y.url@
            &&& opt_view(x.etag) == opt_view(y.etag)
            &&& x.digest@ == y.digest@
            &&& opt_view(x.last_modified) == opt_view(y.last_modified)
            &&& opt_view(x.channel) == opt_view(y.channel)
        } by {
            assert(crate::record::same_source(v.before.tracked_sources@[i], v.after.tracked_sources@[i]));
        }
    }
    if exists|i: int|
        0 <= i < v.before.tracked_sources@.len() && i < v.after.tracked_sources@.len() && (opt_view(
            (#[trigger] v.before.tracked_sources@[i]).etag,
        ) != opt_view(v.after.tracked_sources@[i].etag) || opt_view(
            v.before.tracked_sources@[i].last_modified,
        ) != opt_view(v.after.tracked_sources@[i].last_modified)) {
        let i = choose|i: int|
            0 <= i < v.before.tracked_sources@.len() && i < v.after.tracked_sources@.len() && (opt_view(
                (#[trigger] v.before.tracked_sources@[i]).etag,
            ) != opt_view(v.after.tracked_sources@[i].etag) || opt_view(
                v.before.tracked_sources@[i].last_modified,
            ) != opt_view(v.after.tracked_sources@[i].last_modified));
        if same_record(v.before, v.after) {
            assert(crate::record::same_source(v.before.tracked_sources@[i], v.after.tracked_sources@[i]));
        }
    }
}

} // verus!
