//! RenoDX product policy applied on top of detection facts: which API to
//! target, which host drives it, and which proxy DLL ReShade takes over.
use vstd::prelude::*;

use crate::text::opt_view;
use crate::types::{
    AnticheatEngine, AssessmentConfidence, ExeGraphicsInfo, GraphicsApi, HostKind,
    IncompatibilityReason, MatchFacts, OnlineKind, Risk, RiskSeverity, Title,
};

verus! {

/// Whether RenoDX, a DirectX-only engine, can target `api`.
pub open spec fn supports_renodx(api: GraphicsApi) -> bool {
    api == GraphicsApi::D3D9 || api == GraphicsApi::D3D10 || api == GraphicsApi::D3D11 || api
        == GraphicsApi::D3D12
}

/// Whether `api` is a confirmed non-DirectX renderer.
pub open spec fn non_directx(api: GraphicsApi) -> bool {
    api == GraphicsApi::Vulkan || api == GraphicsApi::OpenGl
}

/// Preference order for the RenoDX target.
pub open spec fn rank(api: GraphicsApi) -> u8 {
    match api {
        GraphicsApi::D3D12 => 6,
        GraphicsApi::D3D11 => 5,
        GraphicsApi::D3D10 => 4,
        GraphicsApi::D3D9 => 3,
        GraphicsApi::Vulkan => 2,
        GraphicsApi::OpenGl => 1,
        GraphicsApi::Unknown => 0,
    }
}

/// The API of greatest rank in `apis`, or `Unknown` for an empty set.
pub open spec fn primary_api_of(apis: Seq<GraphicsApi>) -> GraphicsApi
    decreases apis.len(),
{
    if apis.len() == 0 {
        GraphicsApi::Unknown
    } else {
        let rest = primary_api_of(apis.drop_last());
        if apis.len() == 1 || rank(apis.last()) >= rank(rest) {
            apis.last()
        } else {
            rest
        }
    }
}

/// The host that can drive a renderer: Direct3D or an inconclusive read takes a
/// proxy DLL, confirmed Vulkan takes the shared layer, confirmed OpenGL none.
pub open spec fn host_for(api: GraphicsApi) -> Option<HostKind> {
    match api {
        GraphicsApi::Vulkan => Some(HostKind::Vulkan),
        GraphicsApi::OpenGl => None,
        _ => Some(HostKind::Proxy),
    }
}

/// Whether some element of `names` equals `name`.
pub open spec fn has_name(names: Seq<String>, name: Seq<char>) -> bool {
    exists|i: int| 0 <= i < names.len() && #[trigger] names[i]@ == name
}

/// The proxy DLL ReShade takes over for the imported graphics DLLs.
pub open spec fn proxy_dll_of(dlls: Seq<String>) -> Option<Seq<char>> {
    if has_name(dlls, "dxgi.dll"@) {
        Some("dxgi.dll"@)
    } else if has_name(dlls, "d3d12.dll"@) {
        Some("d3d12.dll"@)
    } else if has_name(dlls, "d3d11.dll"@) {
        Some("d3d11.dll"@)
    } else if has_name(dlls, "d3d10.dll"@) || has_name(dlls, "d3d10_1.dll"@) || has_name(
        dlls,
        "d3d10core.dll"@,
    ) {
        Some("d3d10.dll"@)
    } else if has_name(dlls, "d3d9.dll"@) {
        Some("d3d9.dll"@)
    } else {
        None
    }
}

/// The proxy DLL an install uses: an override wins, then the detected DLL, then `dxgi.dll`.
pub open spec fn resolved_proxy_dll(override_name: Option<Seq<char>>, dlls: Seq<String>) -> Seq<
    char,
> {
    match override_name {
        Some(name) => name,
        None => match proxy_dll_of(dlls) {
            Some(name) => name,
            None => "dxgi.dll"@,
        },
    }
}

/// Returns whether RenoDX can target a game rendering with `api`.
pub fn api_supports_renodx(api: GraphicsApi) -> (r: bool)
    ensures
        r == supports_renodx(api),
{
    match api {
        GraphicsApi::D3D9 | GraphicsApi::D3D10 | GraphicsApi::D3D11 | GraphicsApi::D3D12 => true,
        _ => false,
    }
}

/// Whether `api` is a confirmed non-DirectX renderer (Vulkan or OpenGL).
pub fn is_non_directx_renderer(api: GraphicsApi) -> (r: bool)
    ensures
        r == non_directx(api),
{
    match api {
        GraphicsApi::Vulkan | GraphicsApi::OpenGl => true,
        _ => false,
    }
}

/// Preference rank of an API for the RenoDX target.
pub fn api_rank(api: GraphicsApi) -> (r: u8)
    ensures
        r == rank(api),
{
    match api {
        GraphicsApi::D3D12 => 6,
        GraphicsApi::D3D11 => 5,
        GraphicsApi::D3D10 => 4,
        GraphicsApi::D3D9 => 3,
        GraphicsApi::Vulkan => 2,
        GraphicsApi::OpenGl => 1,
        GraphicsApi::Unknown => 0,
    }
}

/// Distinct APIs have distinct ranks.
pub proof fn lemma_rank_injective(a: GraphicsApi, b: GraphicsApi)
    ensures
        rank(a) == rank(b) ==> a == b,
{
}

/// The primary API is one of the imported APIs (or `Unknown` for none) and no
/// imported API outranks it.
pub proof fn lemma_primary_api_is_maximal(apis: Seq<GraphicsApi>)
    ensures
        apis.len() == 0 ==> primary_api_of(apis) == GraphicsApi::Unknown,
        apis.len() > 0 ==> apis.contains(primary_api_of(apis)),
        forall|i: int| 0 <= i < apis.len() ==> rank(#[trigger] apis[i]) <= rank(primary_api_of(apis)),
    decreases apis.len(),
{
    if apis.len() > 0 {
        let rest = apis.drop_last();
        lemma_primary_api_is_maximal(rest);
        if rest.len() > 0 {
            let p = primary_api_of(rest);
            let k = choose|k: int| 0 <= k < rest.len() && rest[k] == p;
            assert(apis[k] == p);
        }
        assert(apis[apis.len() - 1] == apis.last());
        assert forall|i: int| 0 <= i < apis.len() implies rank(#[trigger] apis[i]) <= rank(
            primary_api_of(apis),
        ) by {
            if i < apis.len() - 1 {
                assert(apis[i] == rest[i]);
            }
        }
    }
}

/// Picks the API RenoDX should target: the most capable DirectX version wins,
/// then DirectX over Vulkan/OpenGL; `Unknown` when nothing known was imported.
pub fn primary_api(info: &ExeGraphicsInfo) -> (r: GraphicsApi)
    ensures
        r == primary_api_of(info.apis@),
{
    let n = info.apis.len();
    let mut best = GraphicsApi::Unknown;
    let mut i: usize = 0;
    while i < n
        invariant
            n == info.apis@.len(),
            i <= n,
            best == primary_api_of(info.apis@.subrange(0, i as int)),
        decreases n - i,
    {
        let api = info.apis[i];
        proof {
            let s = info.apis@.subrange(0, i + 1);
            assert(s.drop_last() =~= info.apis@.subrange(0, i as int));
            assert(s.last() == api);
        }
        if i == 0 || api_rank(api) >= api_rank(best) {
            best = api;
        }
        i = i + 1;
    }
    proof {
        assert(info.apis@.subrange(0, n as int) =~= info.apis@);
    }
    best
}

/// Whether `names` holds `name`.
pub fn contains_name(names: &Vec<String>, name: &str) -> (r: bool)
    ensures
        r == has_name(names@, name@),
{
    let n = names.len();
    let mut i: usize = 0;
    while i < n
        invariant
            n == names@.len(),
            i <= n,
            forall|j: int| 0 <= j < i ==> names@[j]@ != name@,
        decreases n - i,
    {
        if crate::text::str_eq(names[i].as_str(), name) {
            return true;
        }
        i = i + 1;
    }
    false
}

/// Picks the ReShade proxy DLL from the graphics DLLs the executable imports, in
/// ReShade's hijack preference; `None` when no DirectX DLL was detected.
pub fn proxy_dll(info: &ExeGraphicsInfo) -> (r: Option<String>)
    ensures
        r.is_some() == proxy_dll_of(info.graphics_dlls@).is_some(),
        r.is_some() ==> r.unwrap()@ == proxy_dll_of(info.graphics_dlls@).unwrap(),
{
    let dlls = &info.graphics_dlls;
    if contains_name(dlls, "dxgi.dll") {
        Some(String::from_str("dxgi.dll"))
    } else if contains_name(dlls, "d3d12.dll") {
        Some(String::from_str("d3d12.dll"))
    } else if contains_name(dlls, "d3d11.dll") {
        Some(String::from_str("d3d11.dll"))
    } else if contains_name(dlls, "d3d10.dll") || contains_name(dlls, "d3d10_1.dll")
        || contains_name(dlls, "d3d10core.dll") {
        Some(String::from_str("d3d10.dll"))
    } else if contains_name(dlls, "d3d9.dll") {
        Some(String::from_str("d3d9.dll"))
    } else {
        None
    }
}

/// The host that drives a renderer (`None` for confirmed OpenGL).
pub fn host_decision(api: GraphicsApi) -> (r: Option<HostKind>)
    ensures
        r == host_for(api),
{
    match api {
        GraphicsApi::Vulkan => Some(HostKind::Vulkan),
        GraphicsApi::OpenGl => None,
        _ => Some(HostKind::Proxy),
    }
}

/// The proxy DLL name for an install: the title's override, else the DLL the
/// game imports, else the documented `dxgi.dll` default.
pub fn resolve_proxy_dll(override_name: Option<&str>, info: &ExeGraphicsInfo) -> (r: String)
    ensures
        r@ == resolved_proxy_dll(
            match override_name {
                Some(n) => Some(n@),
                None => None,
            },
            info.graphics_dlls@,
        ),
{
    match override_name {
        Some(name) => String::from_str(name),
        None => match proxy_dll(info) {
            Some(name) => name,
            None => String::from_str("dxgi.dll"),
        },
    }
}

/// The API the facts' executable is primarily rendering with.
pub open spec fn detected_api(facts: MatchFacts) -> GraphicsApi {
    primary_api_of(facts.graphics.apis@)
}

/// Whether the title's explicit `required_api` rules out a detected, supported API.
pub open spec fn api_not_allowed(title: Title, api: GraphicsApi) -> bool {
    supports_renodx(api) && title.compatibility.required_api@.len() > 0
        && !title.compatibility.required_api@.contains(api)
}

/// Whether a curated title can be installed for the facts.
pub open spec fn title_compatible(title: Title, facts: MatchFacts) -> bool {
    host_for(detected_api(facts)).is_some() && !api_not_allowed(title, detected_api(facts))
}

/// The proxy DLL an install of this host kind uses (empty for the Vulkan layer).
pub open spec fn host_proxy_name(kind: HostKind, override_name: Option<Seq<char>>, facts: MatchFacts) -> Seq<char> {
    match kind {
        HostKind::Proxy => resolved_proxy_dll(override_name, facts.graphics.graphics_dlls@),
        HostKind::Vulkan => Seq::empty(),
    }
}

/// The reason a curated title is incompatible with the facts.
pub open spec fn incompatibility_is(title: Title, facts: MatchFacts, reason: IncompatibilityReason) -> bool {
    let d = detected_api(facts);
    if host_for(d).is_none() {
        reason == (IncompatibilityReason::ApiUnsupported { detected: d })
    } else {
        match reason {
            IncompatibilityReason::ApiNotAllowed { detected, required } => detected == d
                && required@ == title.compatibility.required_api@,
            _ => false,
        }
    }
}

/// Whether a risk is the conservative generic assessment used for unknown titles.
pub open spec fn is_generic_risk(r: Risk) -> bool {
    &&& r.anticheat_engine == AnticheatEngine::NoAnticheat
    &&& r.online == OnlineKind::Singleplayer
    &&& r.severity == RiskSeverity::Info
    &&& r.message_key@ == "renodx.risk.generic"@
    &&& r.confidence == AssessmentConfidence::Low
    &&& r.source.is_none()
}

/// A conservative generic risk assessment for unknown titles.
pub fn generic_risk() -> (r: Risk)
    ensures
        is_generic_risk(r),
{
    Risk {
        anticheat_engine: AnticheatEngine::NoAnticheat,
        online: OnlineKind::Singleplayer,
        severity: RiskSeverity::Info,
        message_key: String::from_str("renodx.risk.generic"),
        confidence: AssessmentConfidence::Low,
        source: None,
    }
}

/// Whether `apis` holds `api`.
fn contains_api(apis: &Vec<GraphicsApi>, api: GraphicsApi) -> (r: bool)
    ensures
        r == apis@.contains(api),
{
    let n = apis.len();
    let mut i: usize = 0;
    while i < n
        invariant
            n == apis@.len(),
            i <= n,
            forall|j: int| 0 <= j < i ==> apis@[j] != api,
        decreases n - i,
    {
        if apis[i] == api {
            proof {
                assert(apis@[i as int] == api);
            }
            return true;
        }
        i = i + 1;
    }
    false
}

/// Validates a matched curated title and returns its host kind and (for a proxy
/// host) the proxy DLL name. Detection is advisory: only a confirmed OpenGL
/// renderer, or an explicit `required_api` a detected supported API does not
/// satisfy, declines the title.
pub fn check_title_compatibility(title: &Title, facts: &MatchFacts) -> (r: Result<
    (HostKind, String),
    IncompatibilityReason,
>)
    ensures
        r.is_ok() == title_compatible(*title, *facts),
        r matches Ok((kind, name)) ==> kind == host_for(detected_api(*facts)).unwrap() && name@
            == host_proxy_name(kind, opt_view(title.proxy_dll_override), *facts),
        r matches Err(reason) ==> incompatibility_is(*title, *facts, reason),
{
    let detected = primary_api(&facts.graphics);
    let host_kind = match host_decision(detected) {
        Some(k) => k,
        None => {
            return Err(IncompatibilityReason::ApiUnsupported { detected });
        },
    };
    if api_supports_renodx(detected) && title.compatibility.required_api.len() > 0
        && !contains_api(&title.compatibility.required_api, detected) {
        return Err(
            IncompatibilityReason::ApiNotAllowed {
                detected,
                required: crate::types::copy_apis(&title.compatibility.required_api),
            },
        );
    }
    let proxy_dll_name = match host_kind {
        HostKind::Proxy => {
            let o: Option<&str> = match &title.proxy_dll_override {
                Some(s) => Some(s.as_str()),
                None => None,
            };
            resolve_proxy_dll(o, &facts.graphics)
        },
        HostKind::Vulkan => String::new(),
    };
    Ok((host_kind, proxy_dll_name))
}

} // verus!
