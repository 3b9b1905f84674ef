//! Whether a game qualifies for the DLSS-Fix companion add-on, and the DLL paths
//! its `ReShade.ini` section needs: Frame Generation, DLSS Super Resolution and
//! Streamline's interposer must all be present.
use vstd::prelude::*;

use crate::text::eq_ci;

verus! {

/// A graphics technology detected in a game folder.
#[derive(Clone, Copy, Debug, PartialEq, Eq, Structural)]
pub enum GraphicsTechnology {
    /// NVIDIA DLSS Frame Generation.
    DlssFrameGeneration,
    /// NVIDIA DLSS Super Resolution.
    DlssSuperResolution,
    /// NVIDIA Streamline.
    NvidiaStreamline,
    /// Any other technology.
    Other,
}

/// A detected graphics component and its files.
#[derive(Clone, Debug)]
pub struct GraphicsComponent {
    /// Which technology it is.
    pub technology: GraphicsTechnology,
    /// Paths of its files, `/`-separated.
    pub files: Vec<String>,
}

/// The Windows paths of the two DLLs the DLSS-Fix section points at.
#[derive(Clone, Debug)]
pub struct DlssFixRequest {
    /// Backslash path of `nvngx_dlss.dll`.
    pub dlss_path: String,
    /// Backslash path of `sl.interposer.dll`.
    pub streamline_path: String,
}

/// Whether a character separates path components.
pub open spec fn is_sep(c: char) -> bool {
    c == '/' || c == '\\'
}

/// Index just after the last separator among the first `k` characters, else 0.
pub open spec fn name_start(p: Seq<char>, k: int) -> int
    decreases k,
{
    if k <= 0 || k > p.len() {
        0
    } else if is_sep(p[k - 1]) {
        k
    } else {
        name_start(p, k - 1)
    }
}

/// The last component of a path.
pub open spec fn file_name_of(p: Seq<char>) -> Seq<char> {
    p.subrange(name_start(p, p.len() as int), p.len() as int)
}

/// A path with every `/` turned into `\`.
pub open spec fn windows_path(p: Seq<char>) -> Seq<char> {
    p.map_values(|c: char| if c == '/' { '\\' } else { c })
}

/// Index of the first component of `technology` at or after `i`.
pub open spec fn first_with_tech(cs: Seq<GraphicsComponent>, t: GraphicsTechnology, i: int) -> Option<int>
    decreases cs.len() - i,
{
    if i < 0 || i >= cs.len() {
        None
    } else if cs[i].technology == t {
        Some(i)
    } else {
        first_with_tech(cs, t, i + 1)
    }
}

/// Index of the first file named `name` (in any letter case) at or after `i`.
pub open spec fn first_named(files: Seq<String>, name: Seq<char>, i: int) -> Option<int>
    decreases files.len() - i,
{
    if i < 0 || i >= files.len() {
        None
    } else if eq_ci(file_name_of(files[i]@), name) {
        Some(i)
    } else {
        first_named(files, name, i + 1)
    }
}

/// The file named `name` in the first component of `t`.
pub open spec fn dll_path_of(cs: Seq<GraphicsComponent>, t: GraphicsTechnology, name: Seq<char>) -> Option<Seq<char>> {
    match first_with_tech(cs, t, 0) {
        Some(ci) => match first_named(cs[ci].files@, name, 0) {
            Some(fi) => Some(cs[ci].files@[fi]@),
            None => None,
        },
        None => None,
    }
}

/// The DLSS-Fix request a game's components yield, if any.
pub open spec fn request_of(cs: Seq<GraphicsComponent>) -> Option<(Seq<char>, Seq<char>)> {
    if first_with_tech(cs, GraphicsTechnology::DlssFrameGeneration, 0) is None {
        None
    } else {
        match (
            dll_path_of(cs, GraphicsTechnology::DlssSuperResolution, "nvngx_dlss.dll"@),
            dll_path_of(cs, GraphicsTechnology::NvidiaStreamline, "sl.interposer.dll"@),
        ) {
            (Some(d), Some(s)) => Some((windows_path(d), windows_path(s))),
            _ => None,
        }
    }
}

proof fn lemma_name_start_bounds(p: Seq<char>, k: int)
    requires
        0 <= k <= p.len(),
    ensures
        0 <= name_start(p, k) <= k,
    decreases k,
{
    if k > 0 && !is_sep(p[k - 1]) {
        lemma_name_start_bounds(p, k - 1);
    }
}

/// The last component of a path.
pub fn file_name(path: &str) -> (r: &str)
    ensures
        r@ == file_name_of(path@),
{
    let n = path.unicode_len();
    let mut k: usize = n;
    while k > 0
        invariant
            k <= n,
            n == path@.len(),
            name_start(path@, n as int) == name_start(path@, k as int),
        ensures
            name_start(path@, n as int) == k,
        decreases k,
    {
        let c = path.get_char(k - 1);
        if c == '/' || c == '\\' {
            break;
        }
        k = k - 1;
    }
    path.substring_char(k, n)
}

/// Whether a file's name is `name`, in any letter case.
pub fn is_named(path: &str, name: &str) -> (r: bool)
    ensures
        r == eq_ci(file_name_of(path@), name@),
{
    crate::text::eq_ignore_ascii_case(file_name(path), name)
}

/// Converts a `/`-separated path to Windows backslash form.
pub fn to_windows_path(path: &str) -> (r: String)
    ensures
        r@ == windows_path(path@),
{
    let n = path.unicode_len();
    let mut out = String::new();
    let mut i: usize = 0;
    while i < n
        invariant
            n == path@.len(),
            i <= n,
            out@ == windows_path(path@.subrange(0, i as int)),
        decreases n - i,
    {
        if path.get_char(i) == '/' {
            out = out.concat("\\");
            proof {
                reveal_strlit("\\");
            }
        } else {
            out = out.concat(path.substring_char(i, i + 1));
        }
        proof {
            assert(windows_path(path@.subrange(0, i + 1)) =~= windows_path(
                path@.subrange(0, i as int),
            ).push(if path@[i as int] == '/' { '\\' } else { path@[i as int] }));
        }
        i = i + 1;
    }
    proof {
        assert(path@.subrange(0, n as int) =~= path@);
    }
    out
}

fn find_component(cs: &Vec<GraphicsComponent>, t: GraphicsTechnology) -> (r: Option<usize>)
    ensures
        match r {
            Some(i) => first_with_tech(cs@, t, 0) == Some(i as int) && i < cs@.len(),
            None => first_with_tech(cs@, t, 0) is None,
        },
{
    let n = cs.len();
    let mut i: usize = 0;
    while i < n
        invariant
            n == cs@.len(),
            i <= n,
            first_with_tech(cs@, t, 0) == first_with_tech(cs@, t, i as int),
        decreases n - i,
    {
        if cs[i].technology == t {
            return Some(i);
        }
        i = i + 1;
    }
    None
}

/// The first file named `dll_name` within the first component of `technology`.
pub fn find_dll_path(components: &Vec<GraphicsComponent>, technology: GraphicsTechnology, dll_name: &str) -> (r: Option<String>)
    ensures
        match dll_path_of(components@, technology, dll_name@) {
            Some(p) => r matches Some(s) && s@ == p,
            None => r is None,
        },
{
    let ci = find_component(components, technology)?;
    let files = &components[ci].files;
    let n = files.len();
    let mut i: usize = 0;
    while i < n
        invariant
            n == files@.len(),
            ci < components@.len(),
            first_with_tech(components@, technology, 0) == Some(ci as int),
            files == components@[ci as int].files,
            i <= n,
            first_named(files@, dll_name@, 0) == first_named(files@, dll_name@, i as int),
        decreases n - i,
    {
        if is_named(files[i].as_str(), dll_name) {
            return Some(files[i].clone());
        }
        i = i + 1;
    }
    None
}

/// The DLSS-Fix request for a game's detected components: present only when
/// Frame Generation, a DLSS `nvngx_dlss.dll` and Streamline's
/// `sl.interposer.dll` are all found; the DLL paths in backslash form.
pub fn resolve_dlss_fix(components: &Vec<GraphicsComponent>) -> (r: Option<DlssFixRequest>)
    ensures
        match request_of(components@) {
            Some((d, s)) => r matches Some(req) && req.dlss_path@ == d && req.streamline_path@
                == s,
            None => r is None,
        },
{
    let dlss = find_dll_path(components, GraphicsTechnology::DlssSuperResolution, "nvngx_dlss.dll");
    let streamline = find_dll_path(
        components,
        GraphicsTechnology::NvidiaStreamline,
        "sl.interposer.dll",
    );
    if find_component(components, GraphicsTechnology::DlssFrameGeneration).is_none() {
        return None;
    }
    match (dlss, streamline) {
        (Some(d), Some(s)) => Some(
            DlssFixRequest {
                dlss_path: to_windows_path(d.as_str()),
                streamline_path: to_windows_path(s.as_str()),
            },
        ),
        _ => None,
    }
}

} // verus!
