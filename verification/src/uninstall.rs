//! What a RenoDX uninstall does to `ReShade.ini`: remove a file the install
//! created, otherwise strip RenoDX's own keys and section, leaving the user's
//! other settings as they are.
use vstd::prelude::*;

use crate::dlss_fix::{file_name_of, is_named};
use crate::dlss_fix_binding::{same_lexical_path, same_path};
use crate::peer_effects::bytes_eq;
use crate::record::InstalledAddon;
use crate::reshade::{renodx_stripped, strip_renodx};
use crate::text::eq_ci;
use vstd::utf8::{decode_utf8, encode_utf8, valid_utf8};

verus! {

/// What an active uninstall does to `ReShade.ini`.
#[derive(Clone, Debug, PartialEq, Eq)]
pub enum IniUninstallAction {
    /// Delete the file the install created.
    Remove,
    /// Write these contents over it.
    Replace(Vec<u8>),
}

/// Why an active uninstall cannot be composed.
#[derive(Clone, Debug, PartialEq, Eq)]
pub enum ActiveUninstallError {
    /// The record or the snapshot is inconsistent.
    Invalid(String),
}

/// `std::str::from_utf8`: the text the bytes encode, or `None` when they are not
/// valid UTF-8. Trusted: `Some` exactly for valid UTF-8, holding the characters
/// the bytes encode.
#[verifier::external_body]
fn decode_text(bytes: &[u8]) -> (r: Option<&str>)
    ensures
        r is Some <==> valid_utf8(bytes@),
        r matches Some(s) ==> s@ == decode_utf8(bytes@),
{
    std::str::from_utf8(bytes).ok()
}

/// The name of the configuration file ReShade reads.
pub open spec fn ini_file_name() -> Seq<char> {
    "ReShade.ini"@
}

/// Some recorded path names `ini` exactly.
pub open spec fn claims(paths: Seq<String>, ini: Seq<char>) -> bool {
    exists|i: int| 0 <= i < paths.len() && same_path(#[trigger] paths[i]@, ini)
}

/// Some recorded path names a `ReShade.ini` other than `ini`.
pub open spec fn claims_other_ini(paths: Seq<String>, ini: Seq<char>) -> bool {
    exists|i: int|
        0 <= i < paths.len() && eq_ci(file_name_of(#[trigger] paths[i]@), ini_file_name()) && !same_path(
            paths[i]@,
            ini,
        )
}

/// The configuration bytes before the text cleanup: the receipt cleanup's
/// result where it applies, else the current bytes.
pub open spec fn config_bytes(current: Seq<u8>, receipt_cleaned: Option<Seq<u8>>) -> Seq<u8> {
    match receipt_cleaned {
        Some(b) => b,
        None => current,
    }
}

/// The contents an uninstall leaves in a surviving `ReShade.ini`: RenoDX's keys
/// and section stripped from the text, or the bytes untouched when they are not
/// UTF-8.
pub open spec fn uninstall_transform(current: Seq<u8>, receipt_cleaned: Option<Seq<u8>>) -> Seq<u8> {
    let c = config_bytes(current, receipt_cleaned);
    if valid_utf8(c) {
        encode_utf8(renodx_stripped(decode_utf8(c)))
    } else {
        c
    }
}

/// The optional bytes as a sequence.
pub open spec fn opt_seq(o: Option<Vec<u8>>) -> Option<Seq<u8>> {
    match o {
        Some(v) => Some(v@),
        None => None,
    }
}

/// `r` is what an active uninstall does to `ReShade.ini` at `ini`, given which
/// recorded paths claim it, its current bytes and the receipt cleanup.
pub open spec fn ini_outcome(
    created: bool,
    backed: bool,
    other_claim: bool,
    current: Option<Seq<u8>>,
    receipt_cleaned: Option<Seq<u8>>,
    r: Result<Option<IniUninstallAction>, ActiveUninstallError>,
) -> bool {
    if other_claim || (backed && !created) {
        r matches Err(ActiveUninstallError::Invalid(m)) && m@ == "ReShade.ini claim is not exact and coherent"@
    } else if (created || backed) && current is None {
        r matches Err(ActiveUninstallError::Invalid(m)) && m@ == "claimed ReShade.ini is missing"@
    } else if created && !backed {
        r matches Ok(Some(IniUninstallAction::Remove))
    } else if created && backed {
        r matches Ok(Some(IniUninstallAction::Replace(b))) && b@ == uninstall_transform(
            current.unwrap(),
            receipt_cleaned,
        )
    } else {
        match current {
            None => r matches Ok(None),
            Some(c) => if uninstall_transform(c, receipt_cleaned) != c {
                r matches Ok(Some(IniUninstallAction::Replace(b))) && b@ == uninstall_transform(
                    c,
                    receipt_cleaned,
                )
            } else {
                r matches Ok(None)
            },
        }
    }
}

/// Whether some path names `ini` exactly.
pub(crate) fn any_same_path(paths: &Vec<String>, ini: &str) -> (r: bool)
    ensures
        r == claims(paths@, ini@),
{
    let n = paths.len();
    let mut i: usize = 0;
    while i < n
        invariant
            n == paths@.len(),
            i <= n,
            forall|j: int| 0 <= j < i ==> !same_path(#[trigger] paths@[j]@, ini@),
        decreases n - i,
    {
        if same_lexical_path(paths[i].as_str(), ini) {
            return true;
        }
        i = i + 1;
    }
    false
}

/// Whether some path names a `ReShade.ini` other than `ini`.
fn any_other_ini(paths: &Vec<String>, ini: &str) -> (r: bool)
    ensures
        r == claims_other_ini(paths@, ini@),
{
    proof {
        reveal_strlit("ReShade.ini");
    }
    let n = paths.len();
    let mut i: usize = 0;
    while i < n
        invariant
            n == paths@.len(),
            i <= n,
            forall|j: int|
                0 <= j < i ==> !(eq_ci(file_name_of(#[trigger] paths@[j]@), ini_file_name()) && !same_path(
                    paths@[j]@,
                    ini@,
                )),
        decreases n - i,
    {
        if is_named(paths[i].as_str(), "ReShade.ini") && !same_lexical_path(paths[i].as_str(), ini) {
            return true;
        }
        i = i + 1;
    }
    false
}

/// The contents an uninstall leaves in a surviving `ReShade.ini`.
pub fn transform_ini(current: &[u8], receipt_cleaned: &Option<Vec<u8>>) -> (r: Vec<u8>)
    ensures
        r@ == uninstall_transform(current@, opt_seq(*receipt_cleaned)),
{
    let config: &[u8] = match receipt_cleaned {
        Some(b) => b.as_slice(),
        None => current,
    };
    match decode_text(config) {
        Some(text) => {
            let stripped = strip_renodx(text);
            stripped.as_str().as_bytes_vec()
        },
        None => vstd::slice::slice_to_vec(config),
    }
}

/// Decides what an active uninstall does to the `ReShade.ini` at `ini_path`: a
/// file only the install created is removed; one it created over a backup is
/// rewritten; an untracked one is rewritten only when stripping RenoDX's keys
/// changes it. A claim on another `ReShade.ini`, or a backup the install did not
/// also create, is refused, as is a claimed file that is missing.
pub fn compose_ini(
    ini_path: &str,
    record: &InstalledAddon,
    current: &Option<Vec<u8>>,
    receipt_cleaned: &Option<Vec<u8>>,
) -> (r: Result<Option<IniUninstallAction>, ActiveUninstallError>)
    ensures
        ini_outcome(
            claims(record.created_files@, ini_path@),
            claims(record.backed_up_files@, ini_path@),
            claims_other_ini(record.created_files@, ini_path@) || claims_other_ini(
                record.backed_up_files@,
                ini_path@,
            ),
            opt_seq(*current),
            opt_seq(*receipt_cleaned),
            r,
        ),
{
    proof {
        reveal_strlit("ReShade.ini claim is not exact and coherent");
        reveal_strlit("claimed ReShade.ini is missing");
    }
    let created = any_same_path(&record.created_files, ini_path);
    let backed = any_same_path(&record.backed_up_files, ini_path);
    let other_claim = any_other_ini(&record.created_files, ini_path) || any_other_ini(
        &record.backed_up_files,
        ini_path,
    );
    if other_claim || (backed && !created) {
        return Err(
            ActiveUninstallError::Invalid(String::from_str("ReShade.ini claim is not exact and coherent")),
        );
    }
    let transformed: Option<Vec<u8>> = match current {
        Some(bytes) => Some(transform_ini(bytes.as_slice(), receipt_cleaned)),
        None => None,
    };
    let should_remove = created && !backed;
    let should_replace = (created && backed) || (!created && !backed && match (current, &transformed) {
        (Some(c), Some(t)) => !bytes_eq(c.as_slice(), t.as_slice()),
        _ => false,
    });
    if (created || backed) && current.is_none() {
        return Err(ActiveUninstallError::Invalid(String::from_str("claimed ReShade.ini is missing")));
    }
    if !should_remove && !should_replace {
        return Ok(None);
    }
    if should_remove {
        return Ok(Some(IniUninstallAction::Remove));
    }
    match transformed {
        Some(after) => Ok(Some(IniUninstallAction::Replace(after))),
        None => Err(ActiveUninstallError::Invalid(String::from_str("ReShade.ini transform has no bytes"))),
    }
}

/// The rewrite an inactive uninstall plans for a regular `ReShade.ini` holding
/// `existing`: RenoDX's keys and section stripped from the text after the
/// receipt cleanup, planned only when that changes the file; a file that is not
/// UTF-8 is never rewritten.
pub open spec fn planned_rewrite(existing: Seq<u8>, receipt_cleaned: Option<Seq<u8>>) -> Option<Seq<u8>> {
    let c = config_bytes(existing, receipt_cleaned);
    if !valid_utf8(c) {
        None
    } else {
        let stripped = encode_utf8(renodx_stripped(decode_utf8(c)));
        if stripped != existing {
            Some(stripped)
        } else {
            None
        }
    }
}

/// Plans the rewrite of a regular `ReShade.ini` holding `existing`; `None` when
/// nothing is to be written.
pub fn ini_rewrite(existing: &[u8], receipt_cleaned: &Option<Vec<u8>>) -> (r: Option<Vec<u8>>)
    ensures
        opt_seq(r) == planned_rewrite(existing@, opt_seq(*receipt_cleaned)),
{
    let config: &[u8] = match receipt_cleaned {
        Some(b) => b.as_slice(),
        None => existing,
    };
    let text = match decode_text(config) {
        Some(t) => t,
        None => {
            return None;
        },
    };
    let stripped = strip_renodx(text).as_str().as_bytes_vec();
    if bytes_eq(stripped.as_slice(), existing) {
        None
    } else {
        Some(stripped)
    }
}

} // verus!
