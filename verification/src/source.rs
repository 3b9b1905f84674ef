//! Upstream download sources and on-disk names of RenoDX add-ons.
use vstd::prelude::*;

use crate::text::{ends_with_ci, starts_with_ci};
use crate::types::{addon_extension_spec, engine_key, Architecture, Generic};

verus! {

/// Upstream host serving the per-game RenoDX add-ons.
pub open spec fn renodx_base() -> Seq<char> {
    "https://github.com/clshortfuse/renodx/releases/download/snapshot"@
}

/// Reserved slug of the DLSS-Fix companion.
pub open spec fn dlss_fix_slug() -> Seq<char> {
    "dlssfix"@
}

/// `renodx-<slug>`, with `manual` standing in for an empty slug.
pub open spec fn file_stem(slug: Seq<char>) -> Seq<char> {
    "renodx-"@ + if slug.len() == 0 {
        "manual"@
    } else {
        slug
    }
}

/// `renodx-<slug>.addon64` / `.addon32`.
pub open spec fn file_name(slug: Seq<char>, arch: Architecture) -> Seq<char> {
    file_stem(slug) + "."@ + addon_extension_spec(arch)
}

/// The clshortfuse URL derived from a slug.
pub open spec fn slug_url(slug: Seq<char>, arch: Architecture) -> Seq<char> {
    renodx_base() + "/"@ + file_name(slug, arch)
}

/// Whether a file name carries the reserved DLSS-Fix stem followed by a dot.
pub open spec fn dlss_fix_candidate(name: Seq<char>) -> bool {
    starts_with_ci(name, file_stem(dlss_fix_slug()) + "."@)
}

/// Whether a lower-case name is a `renodx-*.addon64|32` file name.
pub open spec fn renodx_addon_name(lower: Seq<char>) -> bool {
    crate::text::starts_with(lower, "renodx-"@) && (crate::text::ends_with(lower, ".addon64"@)
        || crate::text::ends_with(lower, ".addon32"@))
}

/// The architecture an add-on file name's extension names.
pub open spec fn arch_of_file(name: Seq<char>) -> Option<Architecture> {
    if ends_with_ci(name, ".addon64"@) {
        Some(Architecture::X64)
    } else if ends_with_ci(name, ".addon32"@) {
        Some(Architecture::X86)
    } else {
        None
    }
}

/// The local slug of an engine generic: its slug, else its engine key.
pub open spec fn generic_slug(generic: Generic) -> Seq<char> {
    match generic.slug {
        Some(s) => s@,
        None => engine_key(generic.engine),
    }
}

/// The URL of an engine generic: the explicit per-arch URL, else the slug URL.
pub open spec fn generic_url(generic: Generic, arch: Architecture) -> Option<Seq<char>> {
    let explicit = match arch {
        Architecture::X64 => generic.url64,
        Architecture::X86 => generic.url32,
    };
    match explicit {
        Some(u) => Some(u@),
        None => match generic.slug {
            Some(s) => Some(slug_url(s@, arch)),
            None => None,
        },
    }
}

/// On-disk add-on file stem (`renodx-<slug>`, `renodx-manual` for no slug).
pub fn addon_file_stem(slug: &str) -> (r: String)
    ensures
        r@ == file_stem(slug@),
{
    let n = slug.unicode_len();
    let prefix = String::from_str("renodx-");
    if n == 0 {
        prefix.concat("manual")
    } else {
        prefix.concat(slug)
    }
}

/// On-disk add-on file name for a slug and architecture.
pub fn addon_file_name(slug: &str, arch: Architecture) -> (r: String)
    ensures
        r@ == file_name(slug@, arch),
{
    let stem = addon_file_stem(slug);
    let r = stem.concat(".").concat(arch.addon_extension());
    proof {
        assert(r@ =~= file_name(slug@, arch));
    }
    r
}

/// The reserved DLSS-Fix slug.
pub fn dlss_fix_slug_str() -> (r: &'static str)
    ensures
        r@ == dlss_fix_slug(),
{
    "dlssfix"
}

/// Canonical DLSS-Fix companion file name for `arch`.
pub fn dlss_fix_file_name(arch: Architecture) -> (r: String)
    ensures
        r@ == file_name(dlss_fix_slug(), arch),
{
    addon_file_name(dlss_fix_slug_str(), arch)
}

/// Whether a file name is DLSS-Fix shaped: the reserved stem and a dot, any case,
/// any extension after it.
pub fn is_dlss_fix_candidate_file_name(name: &str) -> (r: bool)
    ensures
        r == dlss_fix_candidate(name@),
{
    let stem = addon_file_stem(dlss_fix_slug_str());
    let prefix = stem.concat(".");
    crate::text::starts_with_ignore_case(name, prefix.as_str())
}

/// Matches `renodx-<slug>.addon64` / `.addon32` on an already lower-cased name.
pub fn is_renodx_addon_file_name(lower: &str) -> (r: bool)
    ensures
        r == renodx_addon_name(lower@),
{
    crate::text::starts_with_exact(lower, "renodx-") && (crate::text::ends_with_exact(
        lower,
        ".addon64",
    ) || crate::text::ends_with_exact(lower, ".addon32"))
}

/// A file an interrupted install may have left in a game folder: a RenoDX
/// add-on, recognized by its name in any ASCII case.
pub open spec fn torn_install_leftover(name: Seq<char>) -> bool {
    renodx_addon_name(crate::text::lower_seq(name))
}

proof fn lemma_prefix_ci(s: Seq<char>, p: Seq<char>)
    requires
        crate::text::lower_seq(p) == p,
    ensures
        crate::text::starts_with(crate::text::lower_seq(s), p) == starts_with_ci(s, p),
        crate::text::ends_with(crate::text::lower_seq(s), p) == ends_with_ci(s, p),
{
    let l = crate::text::lower_seq(s);
    if p.len() <= s.len() {
        assert(l.subrange(0, p.len() as int) =~= crate::text::lower_seq(s.subrange(0, p.len() as int)));
        assert(l.subrange(s.len() - p.len(), s.len() as int) =~= crate::text::lower_seq(
            s.subrange(s.len() - p.len(), s.len() as int),
        ));
    }
}

/// Whether a file found in a game folder after an interrupted install is a
/// RenoDX add-on it left behind, whatever the case of its name.
pub fn is_torn_install_leftover(name: &str) -> (r: bool)
    ensures
        r == torn_install_leftover(name@),
{
    proof {
        reveal_strlit("renodx-");
        reveal_strlit(".addon64");
        reveal_strlit(".addon32");
        assert(crate::text::lower_seq("renodx-"@) =~= "renodx-"@);
        assert(crate::text::lower_seq(".addon64"@) =~= ".addon64"@);
        assert(crate::text::lower_seq(".addon32"@) =~= ".addon32"@);
        lemma_prefix_ci(name@, "renodx-"@);
        lemma_prefix_ci(name@, ".addon64"@);
        lemma_prefix_ci(name@, ".addon32"@);
    }
    crate::text::starts_with_ignore_case(name, "renodx-") && (crate::text::ends_with_ignore_case(
        name,
        ".addon64",
    ) || crate::text::ends_with_ignore_case(name, ".addon32"))
}

/// The add-on architecture an add-on file name's extension names.
pub fn arch_from_addon_file(name: &str) -> (r: Option<Architecture>)
    ensures
        r == arch_of_file(name@),
{
    if crate::text::ends_with_ignore_case(name, ".addon64") {
        Some(Architecture::X64)
    } else if crate::text::ends_with_ignore_case(name, ".addon32") {
        Some(Architecture::X86)
    } else {
        None
    }
}

/// Canonical local slug for an engine-generic add-on.
pub fn generic_local_slug(generic: &Generic) -> (r: String)
    ensures
        r@ == generic_slug(*generic),
{
    match &generic.slug {
        Some(slug) => slug.clone(),
        None => String::from_str(generic.engine.as_str()),
    }
}

/// The upstream URL of a per-game add-on, derived from its slug.
pub fn addon_url(slug: &str, arch: Architecture) -> (r: String)
    ensures
        r@ == slug_url(slug@, arch),
{
    let name = addon_file_name(slug, arch);
    let r = String::from_str("https://github.com/clshortfuse/renodx/releases/download/snapshot")
        .concat("/").concat(name.as_str());
    proof {
        assert(r@ =~= slug_url(slug@, arch));
    }
    r
}

/// The upstream URL of an engine generic: an explicit per-arch URL wins, else the
/// canonical slug maps to the default host.
pub fn generic_addon_url(generic: &Generic, arch: Architecture) -> (r: Option<String>)
    ensures
        crate::text::opt_view(r) == generic_url(*generic, arch),
{
    let explicit = match arch {
        Architecture::X64 => crate::text::clone_opt(&generic.url64),
        Architecture::X86 => crate::text::clone_opt(&generic.url32),
    };
    match explicit {
        Some(url) => Some(url),
        None => match &generic.slug {
            Some(slug) => Some(addon_url(slug.as_str(), arch)),
            None => None,
        },
    }
}

/// The upstream URL of the DLSS-Fix companion.
pub fn dlss_fix_url(arch: Architecture) -> (r: String)
    ensures
        r@ == slug_url(dlss_fix_slug(), arch),
{
    addon_url(dlss_fix_slug_str(), arch)
}

/// The DLSS-Fix file name is a DLSS-Fix candidate, and every add-on file name
/// carries back the architecture it was built for.
pub proof fn lemma_file_name_round_trip(slug: Seq<char>, arch: Architecture)
    ensures
        arch_of_file(file_name(slug, arch)) == Some(arch),
        dlss_fix_candidate(file_name(dlss_fix_slug(), arch)),
{
    reveal_strlit(".addon64");
    reveal_strlit(".addon32");
    reveal_strlit(".");
    reveal_strlit("renodx-");
    reveal_strlit("dlssfix");
    let name = file_name(slug, arch);
    let ext = "."@ + addon_extension_spec(arch);
    assert(name =~= file_stem(slug) + ext);
    assert(name.subrange(name.len() - 8, name.len() as int) =~= ext);
    assert(crate::text::lower_seq(ext) =~= ext);
    assert(crate::text::lower_seq(".addon64"@) =~= ".addon64"@);
    assert(crate::text::lower_seq(".addon32"@) =~= ".addon32"@);
    match arch {
        Architecture::X64 => {
            assert(ext =~= ".addon64"@);
        },
        Architecture::X86 => {
            assert(ext =~= ".addon32"@);
            assert(crate::text::lower_seq(ext)[6] != crate::text::lower_seq(".addon64"@)[6]);
        },
    }
    let d = file_name(dlss_fix_slug(), arch);
    let p = file_stem(dlss_fix_slug()) + "."@;
    assert(d.subrange(0, p.len() as int) =~= p);
}

} // verus!
