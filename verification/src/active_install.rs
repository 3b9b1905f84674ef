//! The shape check of an active RenoDX install: the prepared payload must fit
//! the evidence sealed around the prepare window before any endpoint is lowered.
use vstd::prelude::*;

use crate::dlss_fix::{file_name_of, is_named};
use crate::install_plan::PreparedInstall;
use crate::peer_effects::{
    effects_wf, is_create, is_replace, matches_image, pushed, PeerEffectAccumulator, PeerEffectError,
    PeerEffectGroup, VerifiedPeerFile,
};
use crate::text::{eq_ci, trim, trim_seq};
use crate::types::{HostKind, ReshadeChannel};

verus! {

/// What the sealed snapshot of an active install holds, as plain facts.
#[derive(Clone, Debug)]
pub struct InstallSnapshotFacts {
    /// The sealed feature is the main RenoDX install.
    pub main_install: bool,
    /// The ReShade channel the user requested.
    pub requested_channel: ReshadeChannel,
    /// Where the add-on payload goes.
    pub payload_path: String,
    /// A game proxy topology was sealed.
    pub has_topology: bool,
    /// A host path was sealed.
    pub has_host_path: bool,
    /// A host preimage was sealed.
    pub has_host_preimage: bool,
    /// A host assessment was sealed.
    pub has_host_assessment: bool,
    /// A preimage of the acquisition sidecar was sealed.
    pub has_acquisition_sidecar_preimage: bool,
    /// The install writes the ReShade host.
    pub writes_host: bool,
}

/// Why an active install cannot be composed.
#[derive(Clone, Debug, PartialEq, Eq)]
pub enum ActiveInstallError {
    /// The input is inconsistent.
    InvalidInput(String),
    /// The payload path does not name the prepared add-on.
    Path(String),
    /// The effects could not be collected.
    Effects(PeerEffectError),
}

/// What the snapshot retained of the add-on payload path.
#[derive(Clone, Debug)]
pub enum PayloadPreimage {
    /// No file was there.
    Absent,
    /// A file was there, with what was retained of it.
    File {
        /// Its sealed observation, when retained.
        file: Option<VerifiedPeerFile>,
        /// Its bytes, when retained.
        bytes: Option<Vec<u8>>,
    },
}

/// The verdict of the shape check.
pub enum ShapeVerdict {
    /// The prepared install fits the snapshot.
    Fits,
    /// It does not, for this reason.
    Invalid(Seq<char>),
    /// The payload path does not name the prepared add-on file.
    PayloadPath,
}

/// The payload path names the prepared add-on file, in any letter case.
pub open spec fn payload_named(payload_path: Seq<char>, addon_file_name: Seq<char>) -> bool {
    let expected = trim_seq(addon_file_name);
    expected.len() > 0 && eq_ci(file_name_of(payload_path), expected)
}

/// The first way in which the prepared install does not fit the snapshot whose
/// topology belongs to `topology_game`.
pub open spec fn shape_verdict(s: InstallSnapshotFacts, topology_game: Seq<char>, p: PreparedInstall) -> ShapeVerdict {
    if !s.main_install {
        ShapeVerdict::Invalid("active composer accepts only a main RenoDX install feature"@)
    } else if p.reshade_channel is Some && p.reshade_channel != Some(s.requested_channel) {
        ShapeVerdict::Invalid("prepared ReShade channel differs from the sealed requested channel"@)
    } else if p.addon_bytes@.len() == 0 {
        ShapeVerdict::Invalid("prepared RenoDX add-on bytes are empty"@)
    } else if p.game_id@ != topology_game {
        ShapeVerdict::Invalid("prepared game differs from the sealed active topology"@)
    } else if !payload_named(s.payload_path@, p.addon_file_name@) {
        ShapeVerdict::PayloadPath
    } else {
        match p.host_kind {
            HostKind::Proxy => if !s.has_topology || !s.has_host_path || !s.has_host_preimage
                || !s.has_host_assessment {
                ShapeVerdict::Invalid("proxy install is missing sealed topology or host evidence"@)
            } else if trim_seq(p.proxy_dll_name@).len() == 0 {
                ShapeVerdict::Invalid("proxy install has no prepared proxy DLL name"@)
            } else if s.writes_host && p.reshade_channel != Some(s.requested_channel) {
                ShapeVerdict::Invalid("owned ReShade host is missing the sealed requested channel"@)
            } else {
                ShapeVerdict::Fits
            },
            HostKind::Vulkan => if s.has_host_path || s.has_host_preimage || s.has_host_assessment
                || s.has_acquisition_sidecar_preimage || s.writes_host {
                ShapeVerdict::Invalid("Vulkan install carries proxy-only sealed host evidence"@)
            } else if p.proxy_dll_name@.len() > 0 || p.reshade_dll_bytes@.len() > 0 {
                ShapeVerdict::Invalid("Vulkan install carries per-game ReShade host bytes"@)
            } else {
                ShapeVerdict::Fits
            },
        }
    }
}

/// `r` is the outcome of the shape check with verdict `v` on a payload path.
pub open spec fn shape_outcome(v: ShapeVerdict, payload_path: Seq<char>, r: Result<(), ActiveInstallError>) -> bool {
    match v {
        ShapeVerdict::Fits => r is Ok,
        ShapeVerdict::Invalid(m) => r matches Err(ActiveInstallError::InvalidInput(x)) && x@ == m,
        ShapeVerdict::PayloadPath => r matches Err(ActiveInstallError::Path(x)) && x@ == payload_path,
    }
}

fn invalid_input(message: &str) -> (r: Result<(), ActiveInstallError>)
    ensures
        r matches Err(ActiveInstallError::InvalidInput(x)) && x@ == message@,
{
    Err(ActiveInstallError::InvalidInput(String::from_str(message)))
}

fn same_channel(a: Option<ReshadeChannel>, b: ReshadeChannel) -> (r: bool)
    ensures
        r == (a == Some(b)),
{
    match a {
        Some(c) => c == b,
        None => false,
    }
}

/// Checks that the prepared install fits the sealed snapshot whose topology
/// belongs to `topology_game`, before anything is lowered.
pub fn validate_prepared_shape(snapshot: &InstallSnapshotFacts, topology_game: &str, prepared: &PreparedInstall) -> (r:
    Result<(), ActiveInstallError>)
    ensures
        shape_outcome(shape_verdict(*snapshot, topology_game@, *prepared), snapshot.payload_path@, r),
{
    proof {
        reveal_strlit("active composer accepts only a main RenoDX install feature");
        reveal_strlit("prepared ReShade channel differs from the sealed requested channel");
        reveal_strlit("prepared RenoDX add-on bytes are empty");
        reveal_strlit("prepared game differs from the sealed active topology");
        reveal_strlit("proxy install is missing sealed topology or host evidence");
        reveal_strlit("proxy install has no prepared proxy DLL name");
        reveal_strlit("owned ReShade host is missing the sealed requested channel");
        reveal_strlit("Vulkan install carries proxy-only sealed host evidence");
        reveal_strlit("Vulkan install carries per-game ReShade host bytes");
    }
    if !snapshot.main_install {
        return invalid_input("active composer accepts only a main RenoDX install feature");
    }
    if prepared.reshade_channel.is_some() && !same_channel(prepared.reshade_channel, snapshot.requested_channel) {
        return invalid_input("prepared ReShade channel differs from the sealed requested channel");
    }
    if prepared.addon_bytes.len() == 0 {
        return invalid_input("prepared RenoDX add-on bytes are empty");
    }
    if !crate::text::str_eq(prepared.game_id.as_str(), topology_game) {
        return invalid_input("prepared game differs from the sealed active topology");
    }
    let expected_name = trim(prepared.addon_file_name.as_str());
    if expected_name.unicode_len() == 0 || !is_named(snapshot.payload_path.as_str(), expected_name) {
        return Err(ActiveInstallError::Path(snapshot.payload_path.clone()));
    }
    match prepared.host_kind {
        HostKind::Proxy => {
            if !snapshot.has_topology || !snapshot.has_host_path || !snapshot.has_host_preimage
                || !snapshot.has_host_assessment {
                return invalid_input("proxy install is missing sealed topology or host evidence");
            }
            if trim(prepared.proxy_dll_name.as_str()).unicode_len() == 0 {
                return invalid_input("proxy install has no prepared proxy DLL name");
            }
            if snapshot.writes_host && !same_channel(prepared.reshade_channel, snapshot.requested_channel) {
                return invalid_input("owned ReShade host is missing the sealed requested channel");
            }
        },
        HostKind::Vulkan => {
            if snapshot.has_host_path || snapshot.has_host_preimage || snapshot.has_host_assessment
                || snapshot.has_acquisition_sidecar_preimage || snapshot.writes_host {
                return invalid_input("Vulkan install carries proxy-only sealed host evidence");
            }
            if prepared.proxy_dll_name.unicode_len() > 0 || prepared.reshade_dll_bytes.len() > 0 {
                return invalid_input("Vulkan install carries per-game ReShade host bytes");
            }
        },
    }
    Ok(())
}

/// The active-install error of a failed collection.
pub open spec fn lifted(r: Result<(), PeerEffectError>) -> Result<(), ActiveInstallError> {
    match r {
        Ok(()) => Ok(()),
        Err(e) => Err(ActiveInstallError::Effects(e)),
    }
}

/// Lowers the add-on payload: created where the path was empty, otherwise a
/// replacement of the retained file with the prepared bytes.
pub fn lower_addon(
    payload_path: &String,
    preimage: &PayloadPreimage,
    prepared: &PreparedInstall,
    accumulator: &mut PeerEffectAccumulator,
) -> (r: Result<(), ActiveInstallError>)
    requires
        effects_wf(old(accumulator)@),
    ensures
        effects_wf(final(accumulator)@),
        preimage is Absent ==> exists|b, ri|
            is_create(b, PeerEffectGroup::Addon, payload_path@, prepared.addon_bytes@) && pushed(
                old(accumulator)@,
                final(accumulator)@,
                b,
                ri,
            ) && r == lifted(ri),
        preimage matches PayloadPreimage::File { file: None, .. } ==> final(accumulator)@ == old(
            accumulator,
        )@ && (r matches Err(ActiveInstallError::InvalidInput(m)) && m@
            == "present add-on snapshot has no retained file metadata"@),
        preimage matches PayloadPreimage::File { file: Some(_), bytes: None } ==> final(accumulator)@
            == old(accumulator)@ && (r matches Err(ActiveInstallError::InvalidInput(m)) && m@
            == "present add-on snapshot has no retained bytes"@),
        preimage matches PayloadPreimage::File { file: Some(f), bytes: Some(b) } ==> {
            &&& !matches_image(*f, b@) ==> final(accumulator)@ == old(accumulator)@ && r == Err::<
                (),
                ActiveInstallError,
            >(ActiveInstallError::Effects(PeerEffectError::BeforeImageMismatch(*payload_path)))
            &&& matches_image(*f, b@) ==> exists|bundle, ri|
                is_replace(
                    bundle,
                    PeerEffectGroup::Addon,
                    payload_path@,
                    *f,
                    b@,
                    prepared.addon_bytes@,
                ) && pushed(old(accumulator)@, final(accumulator)@, bundle, ri) && r == lifted(ri)
        },
{
    match preimage {
        PayloadPreimage::Absent => {
            let ri = accumulator.create(
                PeerEffectGroup::Addon,
                payload_path.clone(),
                crate::install_plan::copy_bytes(&prepared.addon_bytes),
            );
            match ri {
                Ok(()) => Ok(()),
                Err(e) => Err(ActiveInstallError::Effects(e)),
            }
        },
        PayloadPreimage::File { file, bytes } => {
            let before = match file {
                Some(f) => f,
                None => {
                    return Err(
                        ActiveInstallError::InvalidInput(
                            String::from_str("present add-on snapshot has no retained file metadata"),
                        ),
                    );
                },
            };
            let before_bytes = match bytes {
                Some(b) => b,
                None => {
                    return Err(
                        ActiveInstallError::InvalidInput(
                            String::from_str("present add-on snapshot has no retained bytes"),
                        ),
                    );
                },
            };
            let ri = accumulator.replace(
                PeerEffectGroup::Addon,
                payload_path.clone(),
                before,
                crate::install_plan::copy_bytes(before_bytes),
                crate::install_plan::copy_bytes(&prepared.addon_bytes),
            );
            match ri {
                Ok(()) => Ok(()),
                Err(e) => Err(ActiveInstallError::Effects(e)),
            }
        },
    }
}

} // verus!
