//! RenoDX's view of a ReShade host's configuration: the `ReShade.ini` edits an
//! install and an uninstall make, the minimal configuration a no-effects
//! install writes, and the state of the RenoDX add-on beside a host.
use vstd::prelude::*;

use crate::host_policy::join_path;
use crate::text::{
    ends_with_ci, eq_ci, index_of, join_seq, split_seq, starts_with_ci, trim_char, trim_seq, views,
};
use crate::types::{default_disabled_addons, DlssFixIniTweaks, ReshadeIniTweaks};

verus! {

// ---------------------------------------------------------------------------
// `ReShade.ini` edits
// ---------------------------------------------------------------------------

/// One `ReShade.ini` section and the keys to set in it.
#[derive(Clone, Debug)]
pub struct IniSectionSet {
    /// Section name.
    pub name: String,
    /// Keys and values, in order.
    pub keys: Vec<(String, String)>,
}

/// One `ReShade.ini` section and the keys to remove from it; no keys removes
/// the whole section.
#[derive(Clone, Debug)]
pub struct IniSectionRemoval {
    /// Section name.
    pub name: String,
    /// Keys to remove.
    pub keys: Vec<String>,
}

/// How a text file is rewritten.
#[derive(Clone, Debug)]
pub enum MergeStrategy {
    /// Set keys in sections, adding what is missing.
    IniSetKeys {
        /// The sections to edit.
        sections: Vec<IniSectionSet>,
    },
    /// Remove keys or whole sections.
    IniRemoveKeys {
        /// The sections to edit.
        sections: Vec<IniSectionRemoval>,
    },
}

/// `[ADDON]`.
pub open spec fn addon_section() -> Seq<char> {
    "ADDON"@
}

/// `[RENODX-DLSSFIX]`.
pub open spec fn dlss_fix_section() -> Seq<char> {
    "RENODX-DLSSFIX"@
}

/// The `(key, value)` views of a key list.
pub open spec fn pair_views(keys: Seq<(String, String)>) -> Seq<(Seq<char>, Seq<char>)> {
    keys.map_values(|p: (String, String)| (p.0@, p.1@))
}

/// The `[ADDON]` keys an install sets for its tweaks, in order.
pub open spec fn addon_keys(t: ReshadeIniTweaks) -> Seq<(Seq<char>, Seq<char>)> {
    let disabled = if t.disabled_addons@.len() > 0 {
        seq![("DisabledAddons"@, join_seq(views(t.disabled_addons@), ","@))]
    } else {
        Seq::empty()
    };
    let path = match t.addon_path {
        Some(p) => seq![("AddonPath"@, p@)],
        None => Seq::empty(),
    };
    let dll_main = match t.dlss_fix {
        Some(d) => seq![("LoadFromDllMain"@, d.addon_file_name@)],
        None => Seq::empty(),
    };
    disabled + path + dll_main
}

/// The `[RENODX-DLSSFIX]` keys of a DLSS-Fix install.
pub open spec fn dlss_fix_keys(d: DlssFixIniTweaks) -> Seq<(Seq<char>, Seq<char>)> {
    seq![("DLSSPath"@, d.dlss_path@), ("StreamlinePath"@, d.streamline_path@)]
}

/// Whether `s` sets exactly the keys of the tweaks: `[ADDON]` first, then the
/// DLSS-Fix section when the companion is configured.
pub open spec fn merge_strategy_is(t: ReshadeIniTweaks, s: MergeStrategy) -> bool {
    match s {
        MergeStrategy::IniSetKeys { sections } => {
            &&& sections@.len() == if t.dlss_fix is Some {
                2int
            } else {
                1int
            }
            &&& sections@[0].name@ == addon_section()
            &&& pair_views(sections@[0].keys@) == addon_keys(t)
            &&& t.dlss_fix matches Some(d) ==> sections@[1].name@ == dlss_fix_section()
                && pair_views(sections@[1].keys@) == dlss_fix_keys(d)
        },
        _ => false,
    }
}

/// The edit that sets an install's `ReShade.ini` tweaks: `DisabledAddons` (the
/// titles joined by commas), `AddonPath` and `LoadFromDllMain` under `[ADDON]`
/// as far as they are set, and the DLSS library paths under
/// `[RENODX-DLSSFIX]` for the companion.
pub fn ini_merge_strategy(tweaks: &ReshadeIniTweaks) -> (r: MergeStrategy)
    ensures
        merge_strategy_is(*tweaks, r),
{
    let mut keys: Vec<(String, String)> = Vec::new();
    let ghost mut expected: Seq<(Seq<char>, Seq<char>)> = Seq::empty();
    if tweaks.disabled_addons.len() > 0 {
        let joined = crate::text::join_strings(&tweaks.disabled_addons, ",");
        keys.push((String::from_str("DisabledAddons"), joined));
        proof {
            expected = seq![("DisabledAddons"@, join_seq(views(tweaks.disabled_addons@), ","@))];
        }
    }
    assert(pair_views(keys@) =~= expected);
    if let Some(p) = &tweaks.addon_path {
        keys.push((String::from_str("AddonPath"), p.clone()));
        proof {
            expected = expected + seq![("AddonPath"@, p@)];
        }
    }
    assert(pair_views(keys@) =~= expected);
    let mut sections: Vec<IniSectionSet> = Vec::new();
    match &tweaks.dlss_fix {
        Some(d) => {
            keys.push((String::from_str("LoadFromDllMain"), d.addon_file_name.clone()));
            proof {
                expected = expected + seq![("LoadFromDllMain"@, d.addon_file_name@)];
            }
            assert(pair_views(keys@) =~= expected);
            assert(expected =~= addon_keys(*tweaks));
            sections.push(IniSectionSet { name: String::from_str("ADDON"), keys });
            let mut dk: Vec<(String, String)> = Vec::new();
            dk.push((String::from_str("DLSSPath"), d.dlss_path.clone()));
            dk.push((String::from_str("StreamlinePath"), d.streamline_path.clone()));
            assert(pair_views(dk@) =~= dlss_fix_keys(*d));
            sections.push(IniSectionSet { name: String::from_str("RENODX-DLSSFIX"), keys: dk });
        },
        None => {
            assert(expected =~= addon_keys(*tweaks));
            sections.push(IniSectionSet { name: String::from_str("ADDON"), keys });
        },
    }
    MergeStrategy::IniSetKeys { sections }
}

/// The key value a list of key views gives for `key`, when it holds the key.
pub open spec fn value_for(keys: Seq<(Seq<char>, Seq<char>)>, key: Seq<char>, value: Seq<char>) -> bool {
    exists|i: int| 0 <= i < keys.len() && #[trigger] keys[i] == (key, value)
}

/// The DLSS-Fix section of the merge points each key at its own library: the
/// section is `[RENODX-DLSSFIX]` with exactly two keys, `DLSSPath` set to the
/// tweaks' DLSS library path and `StreamlinePath` to their Streamline
/// interposer path; and `[ADDON]` loads the companion from `DllMain`.
pub proof fn lemma_dlss_fix_section_points_at_each_library(t: ReshadeIniTweaks, s: MergeStrategy)
    requires
        merge_strategy_is(t, s),
        t.dlss_fix is Some,
    ensures
        s matches MergeStrategy::IniSetKeys { sections } && {
            let d = t.dlss_fix.unwrap();
            let keys = pair_views(sections@[1].keys@);
            &&& sections@.len() == 2
            &&& sections@[1].name@ == "RENODX-DLSSFIX"@
            &&& keys.len() == 2
            &&& forall|i: int| 0 <= i < keys.len() && keys[i].0 == "DLSSPath"@ ==> keys[i].1 == d.dlss_path@
            &&& forall|i: int| 0 <= i < keys.len() && keys[i].0 == "StreamlinePath"@ ==> keys[i].1 == d.streamline_path@
            &&& value_for(keys, "DLSSPath"@, d.dlss_path@)
            &&& value_for(keys, "StreamlinePath"@, d.streamline_path@)
            &&& value_for(pair_views(sections@[0].keys@), "LoadFromDllMain"@, d.addon_file_name@)
        },
{
    reveal_strlit("DLSSPath");
    reveal_strlit("StreamlinePath");
    if let MergeStrategy::IniSetKeys { sections } = s {
        let d = t.dlss_fix.unwrap();
        let keys = pair_views(sections@[1].keys@);
        assert(keys[0] == ("DLSSPath"@, d.dlss_path@));
        assert(keys[1] == ("StreamlinePath"@, d.streamline_path@));
        assert("DLSSPath"@ != "StreamlinePath"@) by {
            assert("DLSSPath"@.len() != "StreamlinePath"@.len());
        }
        let ak = pair_views(sections@[0].keys@);
        assert(ak == addon_keys(t));
        let n = ak.len() - 1;
        assert(ak[n] == ("LoadFromDllMain"@, d.addon_file_name@));
    }
}

/// The removal edit that takes the DLSS-Fix companion out of `ReShade.ini`:
/// `LoadFromDllMain` from `[ADDON]` and the whole `[RENODX-DLSSFIX]` section.
pub open spec fn removes_dlss_fix(s: MergeStrategy) -> bool {
    match s {
        MergeStrategy::IniRemoveKeys { sections } => {
            &&& sections@.len() == 2
            &&& sections@[0].name@ == addon_section()
            &&& views(sections@[0].keys@) == seq!["LoadFromDllMain"@]
            &&& sections@[1].name@ == dlss_fix_section()
            &&& sections@[1].keys@.len() == 0
        },
        _ => false,
    }
}

/// The removal edit an uninstall applies: exactly the keys RenoDX writes under
/// `[ADDON]` and the whole `[RENODX-DLSSFIX]` section.
pub open spec fn removes_renodx(s: MergeStrategy) -> bool {
    match s {
        MergeStrategy::IniRemoveKeys { sections } => {
            &&& sections@.len() == 2
            &&& sections@[0].name@ == addon_section()
            &&& views(sections@[0].keys@) == seq![
                "DisabledAddons"@,
                "AddonPath"@,
                "LoadFromDllMain"@,
            ]
            &&& sections@[1].name@ == dlss_fix_section()
            &&& sections@[1].keys@.len() == 0
        },
        _ => false,
    }
}

/// The edit that removes the DLSS-Fix keys from `ReShade.ini`.
pub fn ini_remove_dlss_fix_strategy() -> (r: MergeStrategy)
    ensures
        removes_dlss_fix(r),
{
    let mut keys: Vec<String> = Vec::new();
    keys.push(String::from_str("LoadFromDllMain"));
    assert(views(keys@) =~= seq!["LoadFromDllMain"@]);
    let mut sections: Vec<IniSectionRemoval> = Vec::new();
    sections.push(IniSectionRemoval { name: String::from_str("ADDON"), keys });
    sections.push(IniSectionRemoval { name: String::from_str("RENODX-DLSSFIX"), keys: Vec::new() });
    MergeStrategy::IniRemoveKeys { sections }
}

/// The edit an uninstall applies to a `ReShade.ini` RenoDX did not create:
/// only RenoDX's own keys and section go.
pub fn ini_remove_renodx_strategy() -> (r: MergeStrategy)
    ensures
        removes_renodx(r),
{
    let mut keys: Vec<String> = Vec::new();
    keys.push(String::from_str("DisabledAddons"));
    keys.push(String::from_str("AddonPath"));
    keys.push(String::from_str("LoadFromDllMain"));
    assert(views(keys@) =~= seq!["DisabledAddons"@, "AddonPath"@, "LoadFromDllMain"@]);
    let mut sections: Vec<IniSectionRemoval> = Vec::new();
    sections.push(IniSectionRemoval { name: String::from_str("ADDON"), keys });
    sections.push(IniSectionRemoval { name: String::from_str("RENODX-DLSSFIX"), keys: Vec::new() });
    MergeStrategy::IniRemoveKeys { sections }
}

// ---------------------------------------------------------------------------
// Applying a removal edit
// ---------------------------------------------------------------------------

/// The name of a section header line, trimmed; `None` for any other line.
pub open spec fn header_name(line: Seq<char>) -> Option<Seq<char>> {
    let t = trim_seq(line);
    if t.len() >= 2 && t[0] == '[' && t.last() == ']' {
        Some(trim_seq(t.subrange(1, t.len() - 1)))
    } else {
        None
    }
}

/// The trimmed key of a `key=value` line; `None` for a line without `=`.
pub open spec fn key_of(line: Seq<char>) -> Option<Seq<char>> {
    let t = trim_seq(line);
    match index_of(t, '=') {
        Some(k) => Some(trim_seq(t.subrange(0, k))),
        None => None,
    }
}

/// Index of the first removal rule at or after `i` naming `section` in any
/// letter case.
pub open spec fn rule_for(rules: Seq<IniSectionRemoval>, section: Seq<char>, i: int) -> Option<int>
    decreases rules.len() - i,
{
    if i < 0 || i >= rules.len() {
        None
    } else if eq_ci(rules[i].name@, section) {
        Some(i)
    } else {
        rule_for(rules, section, i + 1)
    }
}

/// Whether a removal keeps a line, given the rule of the section it sits in.
pub open spec fn keeps_line(rules: Seq<IniSectionRemoval>, cur: Option<int>, line: Seq<char>) -> bool {
    match header_name(line) {
        Some(n) => match rule_for(rules, n, 0) {
            Some(i) => rules[i].keys@.len() > 0,
            None => true,
        },
        None => if trim_seq(line).len() == 0 {
            true
        } else {
            match cur {
                None => true,
                Some(i) => rules[i].keys@.len() > 0 && !(key_of(line) matches Some(k) && has_ci(
                    views(rules[i].keys@),
                    k,
                )),
            }
        },
    }
}

/// The removal rule in force after a line.
pub open spec fn rule_after(rules: Seq<IniSectionRemoval>, cur: Option<int>, line: Seq<char>) -> Option<int> {
    match header_name(line) {
        Some(n) => rule_for(rules, n, 0),
        None => cur,
    }
}

/// The lines kept among the first `k`, and the rule in force after them.
pub open spec fn removal_upto(rules: Seq<IniSectionRemoval>, lines: Seq<Seq<char>>, k: int) -> (Seq<
    Seq<char>,
>, Option<int>)
    decreases k,
{
    if k <= 0 || lines.len() == 0 {
        (Seq::empty(), None)
    } else if k > lines.len() {
        removal_upto(rules, lines, lines.len() as int)
    } else {
        let (kept, cur) = removal_upto(rules, lines, k - 1);
        let line = lines[k - 1];
        (
            if keeps_line(rules, cur, line) {
                kept.push(line)
            } else {
                kept
            },
            rule_after(rules, cur, line),
        )
    }
}

/// The text a removal edit leaves: its `\n`-separated lines, less the headers
/// and non-blank lines of wholly removed sections and the listed keys of the
/// other listed sections, joined again.
pub open spec fn removal_result(rules: Seq<IniSectionRemoval>, text: Seq<char>) -> Seq<char> {
    let lines = split_seq(text, '\n');
    join_seq(removal_upto(rules, lines, lines.len() as int).0, "\n"@)
}

fn header_of(line: &str) -> (r: Option<&str>)
    ensures
        match header_name(line@) {
            Some(n) => r matches Some(x) && x@ == n,
            None => r is None,
        },
{
    let t = crate::text::trim(line);
    let n = t.unicode_len();
    if n >= 2 && t.get_char(0) == '[' && t.get_char(n - 1) == ']' {
        Some(crate::text::trim(t.substring_char(1, n - 1)))
    } else {
        None
    }
}

fn key_in(line: &str) -> (r: Option<&str>)
    ensures
        match key_of(line@) {
            Some(k) => r matches Some(x) && x@ == k,
            None => r is None,
        },
{
    let t = crate::text::trim(line);
    match crate::text::find_char(t, '=') {
        Some(k) => Some(crate::text::trim(t.substring_char(0, k))),
        None => None,
    }
}

fn find_rule(rules: &Vec<IniSectionRemoval>, section: &str) -> (r: Option<usize>)
    ensures
        match r {
            Some(i) => rule_for(rules@, section@, 0) == Some(i as int) && i < rules@.len(),
            None => rule_for(rules@, section@, 0) is None,
        },
{
    let n = rules.len();
    let mut i: usize = 0;
    while i < n
        invariant
            n == rules@.len(),
            i <= n,
            rule_for(rules@, section@, 0) == rule_for(rules@, section@, i as int),
        decreases n - i,
    {
        if crate::text::eq_ignore_ascii_case(rules[i].name.as_str(), section) {
            return Some(i);
        }
        i = i + 1;
    }
    None
}

fn lists_key(keys: &Vec<String>, key: &str) -> (r: bool)
    ensures
        r == has_ci(views(keys@), key@),
{
    let n = keys.len();
    let mut i: usize = 0;
    while i < n
        invariant
            n == keys@.len(),
            i <= n,
            forall|v: int| 0 <= v < i ==> !#[trigger] eq_ci(views(keys@)[v], key@),
        decreases n - i,
    {
        if crate::text::eq_ignore_ascii_case(keys[i].as_str(), key) {
            assert(eq_ci(views(keys@)[i as int], key@));
            return true;
        }
        i = i + 1;
    }
    false
}

/// Applies a removal edit to a text: the headers and non-blank lines of a
/// section listed without keys go, the listed keys of the other listed
/// sections go, and every other line, comment and blank line stays as it was.
/// Section names and keys compare in any letter case.
pub fn remove_ini_keys(rules: &Vec<IniSectionRemoval>, text: &str) -> (r: String)
    ensures
        r@ == removal_result(rules@, text@),
{
    let lines = crate::text::split_char(text, '\n');
    let ghost lv = views(lines@);
    let n = lines.len();
    let mut kept: Vec<String> = Vec::new();
    let mut cur: Option<usize> = None;
    let mut i: usize = 0;
    while i < n
        invariant
            n == lines@.len(),
            lv == views(lines@),
            i <= n,
            removal_upto(rules@, lv, i as int) == (views(kept@), match cur {
                Some(c) => Some(c as int),
                None => None::<int>,
            }),
            cur matches Some(c) ==> c < rules@.len(),
        decreases n - i,
    {
        let line = lines[i].as_str();
        let keep: bool;
        let next: Option<usize>;
        match header_of(line) {
            Some(name) => {
                next = find_rule(rules, name);
                keep = match next {
                    Some(ri) => rules[ri].keys.len() > 0,
                    None => true,
                };
            },
            None => {
                next = cur;
                if crate::text::trim(line).unicode_len() == 0 {
                    keep = true;
                } else {
                    keep = match cur {
                        None => true,
                        Some(ri) => {
                            if rules[ri].keys.len() == 0 {
                                false
                            } else {
                                match key_in(line) {
                                    Some(k) => !lists_key(&rules[ri].keys, k),
                                    None => true,
                                }
                            }
                        },
                    };
                }
            },
        }
        if keep {
            let copy = lines[i].clone();
            kept.push(copy);
            proof {
                assert(views(kept@) =~= views(kept@).drop_last().push(copy@));
            }
        }
        cur = next;
        i = i + 1;
    }
    crate::text::join_strings(&kept, "\n")
}

proof fn lemma_unlisted_lines_all_kept(rules: Seq<IniSectionRemoval>, lines: Seq<Seq<char>>, k: int)
    requires
        0 <= k <= lines.len(),
        forall|i: int|
            0 <= i < lines.len() ==> (#[trigger] header_name(lines[i]) matches Some(n) ==> rule_for(
                rules,
                n,
                0,
            ) is None),
    ensures
        removal_upto(rules, lines, k) == (lines.subrange(0, k), None::<int>),
    decreases k,
{
    if k == 0 {
        assert(lines.subrange(0, 0) =~= Seq::<Seq<char>>::empty());
    } else {
        lemma_unlisted_lines_all_kept(rules, lines, k - 1);
        let line = lines[k - 1];
        assert(header_name(line) matches Some(n) ==> rule_for(rules, n, 0) is None);
        assert(lines.subrange(0, k) =~= lines.subrange(0, k - 1).push(line));
    }
}

/// A removal edit leaves a text that lists none of its sections exactly as it
/// was: a foreign configuration is never rewritten.
pub proof fn lemma_removal_is_noop_without_listed_sections(rules: Seq<IniSectionRemoval>, text: Seq<char>)
    requires
        forall|i: int|
            0 <= i < split_seq(text, '\n').len() ==> (#[trigger] header_name(
                split_seq(text, '\n')[i],
            ) matches Some(n) ==> rule_for(rules, n, 0) is None),
    ensures
        removal_result(rules, text) == text,
{
    let lines = split_seq(text, '\n');
    lemma_unlisted_lines_all_kept(rules, lines, lines.len() as int);
    assert(lines.subrange(0, lines.len() as int) =~= lines);
    crate::text::lemma_join_split(text, '\n');
    assert("\n"@ =~= seq!['\n']) by {
        reveal_strlit("\n");
    }
}

/// Two rule lists name the same sections with the same keys.
pub open spec fn same_rules(a: Seq<IniSectionRemoval>, b: Seq<IniSectionRemoval>) -> bool {
    &&& a.len() == b.len()
    &&& forall|i: int|
        0 <= i < a.len() ==> (#[trigger] a[i]).name@ == b[i].name@ && views(a[i].keys@) == views(
            b[i].keys@,
        )
}

/// The rules of RenoDX's uninstall edit: its three `[ADDON]` keys and the whole
/// `[RENODX-DLSSFIX]` section.
pub open spec fn renodx_rules(rs: Seq<IniSectionRemoval>) -> bool {
    &&& rs.len() == 2
    &&& rs[0].name@ == addon_section()
    &&& views(rs[0].keys@) == seq!["DisabledAddons"@, "AddonPath"@, "LoadFromDllMain"@]
    &&& rs[1].name@ == dlss_fix_section()
    &&& rs[1].keys@.len() == 0
}

/// A text with RenoDX's own `ReShade.ini` keys and section removed.
pub open spec fn renodx_stripped(text: Seq<char>) -> Seq<char> {
    removal_result(choose|rs: Seq<IniSectionRemoval>| renodx_rules(rs), text)
}

proof fn lemma_rule_for_same(a: Seq<IniSectionRemoval>, b: Seq<IniSectionRemoval>, section: Seq<char>, i: int)
    requires
        same_rules(a, b),
    ensures
        rule_for(a, section, i) == rule_for(b, section, i),
    decreases a.len() - i,
{
    if 0 <= i < a.len() {
        assert(a[i].name@ == b[i].name@);
        lemma_rule_for_same(a, b, section, i + 1);
    }
}

proof fn lemma_removal_upto_same(
    a: Seq<IniSectionRemoval>,
    b: Seq<IniSectionRemoval>,
    lines: Seq<Seq<char>>,
    k: int,
)
    requires
        same_rules(a, b),
    ensures
        removal_upto(a, lines, k) == removal_upto(b, lines, k),
        removal_upto(a, lines, k).1 matches Some(i) ==> 0 <= i < a.len(),
    decreases k,
{
    if k <= 0 || lines.len() == 0 {
    } else if k > lines.len() {
        lemma_removal_upto_same(a, b, lines, lines.len() as int);
    } else {
        lemma_removal_upto_same(a, b, lines, k - 1);
        let cur = removal_upto(a, lines, k - 1).1;
        let line = lines[k - 1];
        match header_name(line) {
            Some(n) => {
                lemma_rule_for_same(a, b, n, 0);
                lemma_rule_for_in_range(a, n, 0);
                if let Some(i) = rule_for(a, n, 0) {
                    assert(views(a[i].keys@) == views(b[i].keys@));
                    assert(a[i].keys@.len() == views(a[i].keys@).len());
                    assert(b[i].keys@.len() == views(b[i].keys@).len());
                }
            },
            None => {
                if let Some(i) = cur {
                    assert(views(a[i].keys@) == views(b[i].keys@));
                    assert(a[i].keys@.len() == views(a[i].keys@).len());
                    assert(b[i].keys@.len() == views(b[i].keys@).len());
                }
            },
        }
        assert(keeps_line(a, cur, line) == keeps_line(b, cur, line));
        assert(rule_after(a, cur, line) == rule_after(b, cur, line));
    }
}

proof fn lemma_rule_for_in_range(a: Seq<IniSectionRemoval>, section: Seq<char>, i: int)
    ensures
        rule_for(a, section, i) matches Some(j) ==> 0 <= j < a.len(),
    decreases a.len() - i,
{
    if 0 <= i < a.len() {
        lemma_rule_for_in_range(a, section, i + 1);
    }
}

/// A removal edit depends only on the names and keys its rules hold.
pub proof fn lemma_removal_result_same(a: Seq<IniSectionRemoval>, b: Seq<IniSectionRemoval>, text: Seq<char>)
    requires
        same_rules(a, b),
    ensures
        removal_result(a, text) == removal_result(b, text),
{
    let lines = split_seq(text, '\n');
    lemma_removal_upto_same(a, b, lines, lines.len() as int);
}

/// Removes RenoDX's own keys and section from a `ReShade.ini` text.
pub fn strip_renodx(text: &str) -> (r: String)
    ensures
        r@ == renodx_stripped(text@),
{
    let strategy = ini_remove_renodx_strategy();
    let out = apply_removal(&strategy, text);
    proof {
        if let MergeStrategy::IniRemoveKeys { sections } = strategy {
            assert(renodx_rules(sections@));
            let rs = choose|rs: Seq<IniSectionRemoval>| renodx_rules(rs);
            assert(views(sections@[1].keys@) =~= views(rs[1].keys@));
            assert forall|i: int| 0 <= i < sections@.len() implies (#[trigger] sections@[i]).name@
                == rs[i].name@ && views(sections@[i].keys@) == views(rs[i].keys@) by {
                if i == 1 {
                    assert(views(sections@[1].keys@) =~= views(rs[1].keys@));
                }
            }
            assert(same_rules(sections@, rs));
            lemma_removal_result_same(sections@, rs, text@);
        }
    }
    out
}

/// Applies a strategy's removal rules to a text; a strategy that sets keys
/// leaves the text unchanged here.
pub fn apply_removal(strategy: &MergeStrategy, text: &str) -> (r: String)
    ensures
        match strategy {
            MergeStrategy::IniRemoveKeys { sections } => r@ == removal_result(sections@, text@),
            MergeStrategy::IniSetKeys { .. } => r@ == text@,
        },
{
    match strategy {
        MergeStrategy::IniRemoveKeys { sections } => remove_ini_keys(sections, text),
        MergeStrategy::IniSetKeys { .. } => String::from_str(text),
    }
}

// ---------------------------------------------------------------------------
// The minimal configuration of a no-effects install
// ---------------------------------------------------------------------------

/// The trimmed, non-empty items among the first `k` pieces.
pub open spec fn clean_upto(pieces: Seq<Seq<char>>, k: int) -> Seq<Seq<char>>
    decreases k,
{
    if k <= 0 || pieces.len() == 0 {
        Seq::empty()
    } else if k > pieces.len() {
        clean_upto(pieces, pieces.len() as int)
    } else if trim_seq(pieces[k - 1]).len() > 0 {
        clean_upto(pieces, k - 1).push(trim_seq(pieces[k - 1]))
    } else {
        clean_upto(pieces, k - 1)
    }
}

/// The items of a comma-separated `ReShade.ini` list: each trimmed, empty
/// items dropped.
pub open spec fn ini_list(value: Seq<char>) -> Seq<Seq<char>> {
    let pieces = split_seq(value, ',');
    clean_upto(pieces, pieces.len() as int)
}

/// Splits a comma-separated `ReShade.ini` list.
pub fn split_ini_list(value: &str) -> (r: Vec<String>)
    ensures
        views(r@) == ini_list(value@),
{
    let pieces = crate::text::split_char(value, ',');
    let ghost pv = views(pieces@);
    let n = pieces.len();
    let mut out: Vec<String> = Vec::new();
    let mut i: usize = 0;
    while i < n
        invariant
            n == pieces@.len(),
            pv == views(pieces@),
            i <= n,
            views(out@) == clean_upto(pv, i as int),
        decreases n - i,
    {
        let t = crate::text::trim(pieces[i].as_str());
        if t.unicode_len() > 0 {
            let item = String::from_str(t);
            out.push(item);
            proof {
                assert(views(out@) =~= views(out@).drop_last().push(item@));
            }
        }
        i = i + 1;
    }
    out
}

/// Whether a `DisabledAddons` value is exactly the default pair, in any order
/// and letter case.
pub open spec fn is_default_disabled(value: Seq<char>) -> bool {
    let values = ini_list(value);
    &&& values.len() == 2
    &&& has_ci(values, default_disabled_addons()[0])
    &&& has_ci(values, default_disabled_addons()[1])
}

/// Whether some item of `values` equals `x` in any letter case.
pub open spec fn has_ci(values: Seq<Seq<char>>, x: Seq<char>) -> bool {
    exists|v: int| 0 <= v < values.len() && #[trigger] eq_ci(values[v], x)
}

fn any_eq_ci(values: &Vec<String>, expected: &str) -> (r: bool)
    ensures
        r == exists|v: int| 0 <= v < values@.len() && #[trigger] eq_ci(values@[v]@, expected@),
{
    let n = values.len();
    let mut i: usize = 0;
    while i < n
        invariant
            n == values@.len(),
            i <= n,
            forall|v: int| 0 <= v < i ==> !#[trigger] eq_ci(values@[v]@, expected@),
        decreases n - i,
    {
        if crate::text::eq_ignore_ascii_case(values[i].as_str(), expected) {
            return true;
        }
        i = i + 1;
    }
    false
}

/// Whether a `DisabledAddons` value is the default RenoDX writes.
pub fn is_default_disabled_addons(value: &str) -> (r: bool)
    ensures
        r == is_default_disabled(value@),
{
    let values = split_ini_list(value);
    if values.len() != 2 {
        return false;
    }
    let a = any_eq_ci(&values, "Generic Depth");
    let b = any_eq_ci(&values, "Effect Runtime Sync");
    proof {
        let vs = ini_list(value@);
        let x = default_disabled_addons()[0];
        let y = default_disabled_addons()[1];
        assert(vs == views(values@));
        assert(x == "Generic Depth"@);
        assert(y == "Effect Runtime Sync"@);
        assert(forall|v: int| 0 <= v < 2 ==> #[trigger] vs[v] == values@[v]@);
        if a {
            let w = choose|v: int| 0 <= v < values@.len() && #[trigger] eq_ci(values@[v]@, x);
            assert(eq_ci(vs[w], x));
        }
        if has_ci(vs, x) {
            let w = choose|v: int| 0 <= v < vs.len() && #[trigger] eq_ci(vs[v], x);
            assert(eq_ci(values@[w]@, x));
        }
        if b {
            let w = choose|v: int| 0 <= v < values@.len() && #[trigger] eq_ci(values@[v]@, y);
            assert(eq_ci(vs[w], y));
        }
        if has_ci(vs, y) {
            let w = choose|v: int| 0 <= v < vs.len() && #[trigger] eq_ci(vs[v], y);
            assert(eq_ci(values@[w]@, y));
        }
    }
    a && b
}

/// How one line of `ReShade.ini` reads to the minimal-configuration check.
pub enum IniLine {
    /// Blank or comment.
    Skip,
    /// A section header; whether it is `[ADDON]`.
    Section(bool),
    /// A key line; whether it is one of RenoDX's own keys with its default value.
    Key(bool),
}

/// Whether a trimmed key line sets one of RenoDX's own keys to its default:
/// `DisabledAddons` to the default pair or `AddonPath` to `.`, quoted or not.
pub open spec fn owned_default_key(line: Seq<char>) -> bool {
    match index_of(line, '=') {
        None => false,
        Some(k) => {
            let key = trim_seq(line.subrange(0, k));
            let value = trim_seq(line.subrange(k + 1, line.len() as int));
            if eq_ci(key, "DisabledAddons"@) {
                is_default_disabled(value)
            } else if eq_ci(key, "AddonPath"@) {
                trim_char(value, '"') == "."@
            } else {
                false
            }
        },
    }
}

/// How a raw line reads.
pub open spec fn classify(raw: Seq<char>) -> IniLine {
    let line = trim_seq(raw);
    if line.len() == 0 || line[0] == ';' || line[0] == '#' {
        IniLine::Skip
    } else if line.len() >= 2 && line[0] == '[' && line.last() == ']' {
        IniLine::Section(eq_ci(trim_seq(line.subrange(1, line.len() - 1)), addon_section()))
    } else {
        IniLine::Key(owned_default_key(line))
    }
}

/// The state of the check after the first `k` lines: `(refused, in [ADDON],
/// saw an owned key)`.
pub open spec fn minimal_upto(lines: Seq<Seq<char>>, k: int) -> (bool, bool, bool)
    decreases k,
{
    if k <= 0 || lines.len() == 0 {
        (false, false, false)
    } else if k > lines.len() {
        minimal_upto(lines, lines.len() as int)
    } else {
        let (failed, in_addon, saw) = minimal_upto(lines, k - 1);
        if failed {
            (true, in_addon, saw)
        } else {
            match classify(lines[k - 1]) {
                IniLine::Skip => (false, in_addon, saw),
                IniLine::Section(is_addon) => if is_addon {
                    (false, true, saw)
                } else {
                    (true, in_addon, saw)
                },
                IniLine::Key(ok) => if in_addon && ok {
                    (false, in_addon, true)
                } else {
                    (true, in_addon, saw)
                },
            }
        }
    }
}

/// Whether a `ReShade.ini` text is the minimal configuration a no-effects
/// RenoDX install writes: only an `[ADDON]` section, holding only RenoDX's own
/// keys at their defaults, at least one of them, and comments or blank lines.
pub open spec fn is_minimal_ini(text: Seq<char>) -> bool {
    let lines = split_seq(text, '\n');
    let (failed, _, saw) = minimal_upto(lines, lines.len() as int);
    !failed && saw
}

fn owned_key_line(line: &str) -> (r: bool)
    ensures
        r == owned_default_key(line@),
{
    let eq = match crate::text::find_char(line, '=') {
        Some(k) => k,
        None => {
            return false;
        },
    };
    let n = line.unicode_len();
    let key = crate::text::trim(line.substring_char(0, eq));
    let value = crate::text::trim(line.substring_char(eq + 1, n));
    if crate::text::eq_ignore_ascii_case(key, "DisabledAddons") {
        is_default_disabled_addons(value)
    } else if crate::text::eq_ignore_ascii_case(key, "AddonPath") {
        crate::text::str_eq(crate::text::trim_matches_char(value, '"'), ".")
    } else {
        false
    }
}

fn classify_line(raw: &str) -> (r: IniLine)
    ensures
        r == classify(raw@),
{
    let line = crate::text::trim(raw);
    let n = line.unicode_len();
    if n == 0 {
        return IniLine::Skip;
    }
    let first = line.get_char(0);
    if first == ';' || first == '#' {
        return IniLine::Skip;
    }
    if n >= 2 && first == '[' && line.get_char(n - 1) == ']' {
        let section = crate::text::trim(line.substring_char(1, n - 1));
        return IniLine::Section(crate::text::eq_ignore_ascii_case(section, "ADDON"));
    }
    IniLine::Key(owned_key_line(line))
}

/// Whether a `ReShade.ini` text is the minimal configuration RenderPilot
/// writes for a no-effects RenoDX install.
pub fn is_renderpilot_minimal_ini(text: &str) -> (r: bool)
    ensures
        r == is_minimal_ini(text@),
{
    let lines = crate::text::split_char(text, '\n');
    let ghost lv = views(lines@);
    let n = lines.len();
    let mut in_addon = false;
    let mut saw = false;
    let mut i: usize = 0;
    while i < n
        invariant
            n == lines@.len(),
            lv == views(lines@),
            lv == split_seq(text@, '\n'),
            i <= n,
            minimal_upto(lv, i as int) == (false, in_addon, saw),
        decreases n - i,
    {
        match classify_line(lines[i].as_str()) {
            IniLine::Skip => {},
            IniLine::Section(is_addon) => {
                if !is_addon {
                    proof {
                        lemma_failure_sticks(lv, i + 1);
                    }
                    return false;
                }
                in_addon = true;
            },
            IniLine::Key(ok) => {
                if !(in_addon && ok) {
                    proof {
                        lemma_failure_sticks(lv, i + 1);
                    }
                    return false;
                }
                saw = true;
            },
        }
        i = i + 1;
    }
    saw
}

proof fn lemma_failure_sticks(lines: Seq<Seq<char>>, k: int)
    requires
        0 < k <= lines.len(),
        minimal_upto(lines, k).0,
    ensures
        minimal_upto(lines, lines.len() as int).0,
    decreases lines.len() - k,
{
    if k < lines.len() {
        lemma_failure_sticks(lines, k + 1);
    }
}

// ---------------------------------------------------------------------------
// The RenoDX add-on beside a host
// ---------------------------------------------------------------------------

/// How ReShade is expected to find the RenoDX add-on.
#[derive(Clone, Copy, Debug, PartialEq, Eq, Structural)]
pub enum RenoDxAddonLoadMode {
    /// ReShade searches the add-on directory.
    AutoSearch,
    /// `[ADDON] LoadFromDllMain` names an add-on.
    LoadFromDllMain,
    /// The mode cannot be determined.
    Unknown,
}

/// What a host's `ReShade.ini` says about add-on loading.
#[derive(Clone, Debug)]
pub struct AddonConfigState {
    /// The `DisabledAddons` items.
    pub disabled_addons: Vec<String>,
    /// Whether the file has an `[ADDON]` section.
    pub has_addon_section: bool,
    /// The `LoadFromDllMain` value, when set.
    pub load_from_dll_main: Option<String>,
}

/// A file in the effective add-on directory.
#[derive(Clone, Debug)]
pub struct AddonDirEntry {
    /// File name.
    pub name: String,
    /// Full path.
    pub path: String,
    /// Whether it is a regular file.
    pub is_file: bool,
}

/// The state of the RenoDX add-on for a detected host.
#[derive(Clone, Debug)]
pub struct RenoDxAddonState {
    /// Whether a RenoDX add-on file exists.
    pub present_on_disk: bool,
    /// The path the current install expects.
    pub expected_path: String,
    /// The first RenoDX add-on found in the add-on directory.
    pub discovered_path: Option<String>,
    /// Whether `ReShade.ini` allows the add-on to load; `None` when it does not say.
    pub enabled_by_config: Option<bool>,
    /// How ReShade is expected to load add-ons.
    pub load_mode: RenoDxAddonLoadMode,
}

/// Whether a directory entry is a RenoDX add-on other than the DLSS-Fix companion.
pub open spec fn is_main_addon_entry(e: AddonDirEntry) -> bool {
    &&& e.is_file
    &&& starts_with_ci(e.name@, "renodx-"@)
    &&& (ends_with_ci(e.name@, ".addon64"@) || ends_with_ci(e.name@, ".addon32"@))
    &&& !starts_with_ci(e.name@, "renodx-dlssfix."@)
}

/// Index of the first main add-on entry at or after `i`.
pub open spec fn first_main_addon(es: Seq<AddonDirEntry>, i: int) -> Option<int>
    decreases es.len() - i,
{
    if i < 0 || i >= es.len() {
        None
    } else if is_main_addon_entry(es[i]) {
        Some(i)
    } else {
        first_main_addon(es, i + 1)
    }
}

fn main_addon_entry(e: &AddonDirEntry) -> (r: bool)
    ensures
        r == is_main_addon_entry(*e),
{
    let name = e.name.as_str();
    e.is_file && crate::text::starts_with_ignore_case(name, "renodx-") && (
    crate::text::ends_with_ignore_case(name, ".addon64") || crate::text::ends_with_ignore_case(
        name,
        ".addon32",
    )) && !crate::text::starts_with_ignore_case(name, "renodx-dlssfix.")
}

/// The first RenoDX add-on file of a directory listing, the DLSS-Fix
/// companion excepted; its index.
pub fn discover_renodx_addon(entries: &Vec<AddonDirEntry>) -> (r: Option<usize>)
    ensures
        match r {
            Some(i) => first_main_addon(entries@, 0) == Some(i as int) && i < entries@.len(),
            None => first_main_addon(entries@, 0) is None,
        },
{
    let n = entries.len();
    let mut i: usize = 0;
    while i < n
        invariant
            n == entries@.len(),
            i <= n,
            first_main_addon(entries@, 0) == first_main_addon(entries@, i as int),
        decreases n - i,
    {
        if main_addon_entry(&entries[i]) {
            return Some(i);
        }
        i = i + 1;
    }
    None
}

/// Whether a disabled item names the add-on: the expected file name or the
/// discovered file's name, in any letter case.
pub open spec fn names_addon(value: Seq<char>, expected: Seq<char>, discovered: Option<Seq<char>>) -> bool {
    eq_ci(value, expected) || (discovered matches Some(d) && eq_ci(value, d))
}

/// Whether `ReShade.ini` allows the add-on to load: disabled when a
/// `DisabledAddons` item names it, enabled when an `[ADDON]` section exists,
/// otherwise unknown.
pub open spec fn enabled_of(
    state: AddonConfigState,
    expected: Seq<char>,
    discovered: Option<Seq<char>>,
) -> Option<bool> {
    if exists|i: int|
        0 <= i < state.disabled_addons@.len() && #[trigger] names_addon(
            state.disabled_addons@[i]@,
            expected,
            discovered,
        ) {
        Some(false)
    } else if state.has_addon_section {
        Some(true)
    } else {
        None
    }
}

/// The load mode a configuration implies.
pub open spec fn load_mode_of(state: Option<AddonConfigState>, ini_present: bool) -> RenoDxAddonLoadMode {
    match state {
        None => RenoDxAddonLoadMode::AutoSearch,
        Some(s) => if s.load_from_dll_main is Some {
            RenoDxAddonLoadMode::LoadFromDllMain
        } else if s.has_addon_section || !ini_present {
            RenoDxAddonLoadMode::AutoSearch
        } else {
            RenoDxAddonLoadMode::Unknown
        },
    }
}

fn config_disables(state: &AddonConfigState, expected: &str, discovered: &Option<String>) -> (r:
    bool)
    ensures
        r == exists|i: int|
            0 <= i < state.disabled_addons@.len() && #[trigger] names_addon(
                state.disabled_addons@[i]@,
                expected@,
                crate::text::opt_view(*discovered),
            ),
{
    let n = state.disabled_addons.len();
    let mut i: usize = 0;
    while i < n
        invariant
            n == state.disabled_addons@.len(),
            i <= n,
            forall|j: int|
                0 <= j < i ==> !#[trigger] names_addon(
                    state.disabled_addons@[j]@,
                    expected@,
                    crate::text::opt_view(*discovered),
                ),
        decreases n - i,
    {
        let v = state.disabled_addons[i].as_str();
        let hit = crate::text::eq_ignore_ascii_case(v, expected) || match discovered {
            Some(d) => crate::text::eq_ignore_ascii_case(v, d.as_str()),
            None => false,
        };
        if hit {
            assert(names_addon(
                state.disabled_addons@[i as int]@,
                expected@,
                crate::text::opt_view(*discovered),
            ));
            return true;
        }
        i = i + 1;
    }
    false
}

/// The RenoDX add-on state for a host, from the effective add-on directory, its
/// listing, and what its `ReShade.ini` (when present and readable) says.
pub fn renodx_addon_state(
    effective_addon_path: &str,
    addon_file_name: &str,
    expected_is_file: bool,
    entries: &Vec<AddonDirEntry>,
    ini_present: bool,
    ini_state: &Option<AddonConfigState>,
) -> (r: RenoDxAddonState)
    ensures
        r.expected_path@ == join_path(effective_addon_path@, addon_file_name@),
        match first_main_addon(entries@, 0) {
            Some(i) => r.discovered_path matches Some(p) && p@ == entries@[i].path@,
            None => r.discovered_path is None,
        },
        r.present_on_disk == (expected_is_file || first_main_addon(entries@, 0) is Some),
        r.enabled_by_config == match *ini_state {
            Some(s) => enabled_of(
                s,
                addon_file_name@,
                match first_main_addon(entries@, 0) {
                    Some(i) => Some(entries@[i].name@),
                    None => None,
                },
            ),
            None => None,
        },
        r.load_mode == load_mode_of(*ini_state, ini_present),
{
    let expected_path = crate::host_policy::join_windows_path(effective_addon_path, addon_file_name);
    let found = discover_renodx_addon(entries);
    let (discovered_path, discovered_name) = match found {
        Some(i) => (Some(entries[i].path.clone()), Some(entries[i].name.clone())),
        None => (None, None),
    };
    let enabled_by_config = match ini_state {
        Some(s) => {
            if config_disables(s, addon_file_name, &discovered_name) {
                Some(false)
            } else if s.has_addon_section {
                Some(true)
            } else {
                None
            }
        },
        None => None,
    };
    let load_mode = match ini_state {
        Some(s) => {
            if s.load_from_dll_main.is_some() {
                RenoDxAddonLoadMode::LoadFromDllMain
            } else if s.has_addon_section || !ini_present {
                RenoDxAddonLoadMode::AutoSearch
            } else {
                RenoDxAddonLoadMode::Unknown
            }
        },
        None => RenoDxAddonLoadMode::AutoSearch,
    };
    RenoDxAddonState {
        present_on_disk: expected_is_file || found.is_some(),
        expected_path,
        discovered_path,
        enabled_by_config,
        load_mode,
    }
}

} // verus!
