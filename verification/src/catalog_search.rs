//! The decisions of a live catalog search and of stream resolution: which
//! plugins a tab's search calls and how, what each call asks, and which
//! plugin resolves a stream for a named provider.

use vstd::prelude::*;
use crate::abi::SearchScope;
use crate::ipc::{MediaTab, sanitize_secrets, scrubbed_from};
use crate::ipc_types::{ErrorCode, ErrorResponse};
use crate::plugin_call::SearchRequest;
use crate::registry::{ExecutionMode, LoadedPlugin, PluginCapability, PluginRegistry, has_capability};
use crate::text::{ascii_lower_seq, eq_ignore_ascii_case, owned, push_str, str_eq};

verus! {

/// Page size asked of each plugin by a catalog search.
pub const CATALOG_SEARCH_LIMIT: u32 = 50;

/// Whether one of `tags` is `adult`, ignoring ASCII case.
pub open spec fn adult_tagged(tags: Seq<String>) -> bool {
    exists|i: int| 0 <= i < tags.len() && #[trigger] ascii_lower_seq(tags[i]@) == ascii_lower_seq("adult"@)
}

/// Whether one of `tags` is `adult`, ignoring ASCII case.
pub fn is_adult_tagged(tags: &Vec<String>) -> (r: bool)
    ensures
        r == adult_tagged(tags@),
{
    let mut i: usize = 0;
    while i < tags.len()
        invariant
            i <= tags@.len(),
            forall|j: int| 0 <= j < i ==> #[trigger] ascii_lower_seq(tags@[j]@) != ascii_lower_seq("adult"@),
        decreases tags@.len() - i,
    {
        if eq_ignore_ascii_case(tags[i].as_str(), "adult") {
            return true;
        }
        i += 1;
    }
    false
}

/// Whether a catalog search calls plugin `p`: not when it is tagged adult
/// and adult content is off, and only when it can be reached (a WASM plugin
/// through its supervisor, any other through its sandbox context).
pub open spec fn catalog_callable<C, S>(reg: PluginRegistry<C, S>, p: LoadedPlugin, adult_enabled: bool) -> bool {
    &&& adult_enabled || !adult_tagged(p.tags@)
    &&& match p.mode {
        ExecutionMode::Wasm => reg.supervisor_of(p.id@) is Some,
        ExecutionMode::Sandboxed => reg.sandbox_of(p.id@) is Some,
    }
}

/// The plugins a catalog search calls, in registration order: the catalog
/// providers that are callable.
pub open spec fn catalog_plan<C, S>(reg: PluginRegistry<C, S>, adult_enabled: bool) -> Seq<LoadedPlugin> {
    reg.plugin_list().filter(|p: LoadedPlugin| has_capability(p, PluginCapability::Catalog)).filter(
        |p: LoadedPlugin| catalog_callable(reg, p, adult_enabled),
    )
}

/// One plugin call of a catalog search.
#[derive(Debug, Clone)]
pub struct CatalogCall {
    /// The plugin's registry id.
    pub plugin_id: String,
    /// The plugin's display name, stamped on its results.
    pub provider: String,
    /// How the plugin is reached.
    pub mode: ExecutionMode,
}

/// The call made to plugin `p`.
pub open spec fn call_of(c: CatalogCall, p: LoadedPlugin) -> bool {
    c.plugin_id@ == p.id@ && c.provider@ == p.name@ && c.mode == p.mode
}

/// The calls of a catalog search (see `catalog_plan`), one per plugin.
pub fn plan_catalog_search<C, S>(reg: &PluginRegistry<C, S>, tab: &MediaTab, adult_enabled: bool) -> (r: Vec<CatalogCall>)
    ensures
        r@.len() == catalog_plan(*reg, adult_enabled).len(),
        forall|i: int| 0 <= i < r@.len() ==> call_of(#[trigger] r@[i], catalog_plan(*reg, adult_enabled)[i]),
{
    let providers = reg.find_providers_for_tab(tab);
    let ghost ps = providers@.map_values(|p: &LoadedPlugin| *p);
    let ghost pred = |p: LoadedPlugin| catalog_callable(*reg, p, adult_enabled);
    let mut out: Vec<CatalogCall> = Vec::new();
    let mut i: usize = 0;
    while i < providers.len()
        invariant
            i <= providers@.len(),
            ps == providers@.map_values(|p: &LoadedPlugin| *p),
            ps.len() == providers@.len(),
            pred == (|p: LoadedPlugin| catalog_callable(*reg, p, adult_enabled)),
            out@.len() == ps.subrange(0, i as int).filter(pred).len(),
            forall|j: int| 0 <= j < out@.len() ==> call_of(#[trigger] out@[j], ps.subrange(0, i as int).filter(pred)[j]),
        decreases providers@.len() - i,
    {
        let p = providers[i];
        let ghost pre = ps.subrange(0, i as int);
        assert(ps.subrange(0, i + 1) =~= pre.push(*p));
        proof {
            crate::sources::lemma_filter_push(pre, *p, pred);
        }
        let skip_adult = !adult_enabled && is_adult_tagged(&p.tags);
        let reachable = match p.mode {
            ExecutionMode::Wasm => reg.wasm_supervisor_for(p.id.as_str()).is_some(),
            ExecutionMode::Sandboxed => reg.sandbox_for(p.id.as_str()).is_some(),
        };
        if !skip_adult && reachable {
            out.push(CatalogCall { plugin_id: p.id.clone(), provider: p.name.clone(), mode: p.mode });
        }
        i += 1;
    }
    assert(ps.subrange(0, ps.len() as int) =~= ps);
    out
}

/// The scope a catalog search asks for a tab: tracks for music, movies
/// and series for theirs, tracks for every other tab.
pub open spec fn catalog_scope_of(tab: MediaTab) -> SearchScope {
    match tab {
        MediaTab::Music => SearchScope::Track,
        MediaTab::Movies => SearchScope::Movie,
        MediaTab::Series => SearchScope::Series,
        _ => SearchScope::Track,
    }
}

/// The scope a catalog search asks for a tab (see `catalog_scope_of`).
pub fn catalog_scope_for_tab(tab: &MediaTab) -> (s: SearchScope)
    ensures
        s == catalog_scope_of(*tab),
{
    match tab {
        MediaTab::Music => SearchScope::Track,
        MediaTab::Movies => SearchScope::Movie,
        MediaTab::Series => SearchScope::Series,
        _ => SearchScope::Track,
    }
}

/// The request a catalog search sends each WASM plugin: the query, the
/// tab's scope, first page of `CATALOG_SEARCH_LIMIT` results.
pub fn catalog_search_request(query: &str, tab: &MediaTab) -> (r: SearchRequest)
    ensures
        r.query@ == query@,
        r.scope == catalog_scope_of(*tab),
        r.page == 0,
        r.limit == CATALOG_SEARCH_LIMIT,
        r.per_scope_limit is None,
        r.locale is None,
{
    SearchRequest {
        query: owned(query),
        scope: catalog_scope_for_tab(tab),
        page: 0,
        limit: CATALOG_SEARCH_LIMIT,
        per_scope_limit: None,
        locale: None,
    }
}

// ── Stream resolution ────────────────────────────────────────────────────────

/// The first registered plugin whose display name is `name`.
pub open spec fn plugin_named(ps: Seq<LoadedPlugin>, name: Seq<char>) -> Option<LoadedPlugin>
    decreases ps.len(),
{
    if ps.len() == 0 {
        None
    } else if ps[0].name@ == name {
        Some(ps[0])
    } else {
        plugin_named(ps.drop_first(), name)
    }
}

/// How a stream for a named provider is resolved.
#[derive(Debug, Clone)]
pub enum ResolvePlan {
    /// Through the WASM supervisor of the plugin with this id.
    Wasm(String),
    /// Through the sandbox context of the plugin with this id.
    Sandbox(String),
    /// The plugin is WASM but has no supervisor.
    NoSupervisor,
    /// The plugin is not WASM and has no sandbox context.
    NoSandbox,
    /// No plugin has that name.
    NotFound,
}

/// The plan for resolving through the provider named `name`.
pub open spec fn resolve_plan_of<C, S>(reg: PluginRegistry<C, S>, name: Seq<char>, plan: ResolvePlan) -> bool {
    match plugin_named(reg.plugin_list(), name) {
        None => plan is NotFound,
        Some(p) => match p.mode {
            ExecutionMode::Wasm => if reg.supervisor_of(p.id@) is Some {
                plan matches ResolvePlan::Wasm(id) && id@ == p.id@
            } else {
                plan is NoSupervisor
            },
            ExecutionMode::Sandboxed => if reg.sandbox_of(p.id@) is Some {
                plan matches ResolvePlan::Sandbox(id) && id@ == p.id@
            } else {
                plan is NoSandbox
            },
        },
    }
}

/// How to resolve a stream through the provider named `provider_name`
/// (see `resolve_plan_of`).
pub fn plan_resolve<C, S>(reg: &PluginRegistry<C, S>, provider_name: &str) -> (r: ResolvePlan)
    ensures
        resolve_plan_of(*reg, provider_name@, r),
{
    let all = reg.all();
    let ghost ps = all@.map_values(|p: &LoadedPlugin| *p);
    assert(ps == reg.plugin_list());
    let mut i: usize = 0;
    assert(ps.subrange(0, ps.len() as int) =~= ps);
    while i < all.len()
        invariant
            i <= all@.len(),
            ps == all@.map_values(|p: &LoadedPlugin| *p),
            ps == reg.plugin_list(),
            plugin_named(ps, provider_name@) == plugin_named(ps.subrange(i as int, ps.len() as int), provider_name@),
        decreases all@.len() - i,
    {
        let p = all[i];
        let ghost rest = ps.subrange(i as int, ps.len() as int);
        assert(rest.drop_first() =~= ps.subrange(i + 1, ps.len() as int));
        assert(rest[0] == *p);
        if str_eq(p.name.as_str(), provider_name) {
            return match p.mode {
                ExecutionMode::Wasm => if reg.wasm_supervisor_for(p.id.as_str()).is_some() {
                    ResolvePlan::Wasm(p.id.clone())
                } else {
                    ResolvePlan::NoSupervisor
                },
                ExecutionMode::Sandboxed => if reg.sandbox_for(p.id.as_str()).is_some() {
                    ResolvePlan::Sandbox(p.id.clone())
                } else {
                    ResolvePlan::NoSandbox
                },
            };
        }
        i += 1;
    }
    ResolvePlan::NotFound
}

/// The error a resolve answers for a plan that cannot call a plugin: an
/// unavailable supervisor is a resolve failure, anything else that calls
/// nothing is an unknown provider; `None` for a plan that calls a plugin.
pub open spec fn resolve_failure_of(plan: ResolvePlan, name: Seq<char>) -> Option<(ErrorCode, Seq<char>)> {
    match plan {
        ResolvePlan::NoSupervisor => Some((ErrorCode::ResolveFailed, "WASM supervisor unavailable for '"@ + name + "'"@)),
        ResolvePlan::NoSandbox | ResolvePlan::NotFound => Some((ErrorCode::PluginNotFound, "No provider plugin named '"@ + name + "'"@)),
        _ => None,
    }
}

/// The error a resolve answers for a plan (see `resolve_failure_of`).
pub fn resolve_failure(plan: &ResolvePlan, provider_name: &str) -> (r: Option<(ErrorCode, String)>)
    ensures
        match resolve_failure_of(*plan, provider_name@) {
            Some((c, m)) => r matches Some((rc, rm)) && rc == c && rm@ == m,
            None => r is None,
        },
{
    match plan {
        ResolvePlan::NoSupervisor => {
            let mut m = owned("WASM supervisor unavailable for '");
            push_str(&mut m, provider_name);
            push_str(&mut m, "'");
            Some((ErrorCode::ResolveFailed, m))
        },
        ResolvePlan::NoSandbox | ResolvePlan::NotFound => {
            let mut m = owned("No provider plugin named '");
            push_str(&mut m, provider_name);
            push_str(&mut m, "'");
            Some((ErrorCode::PluginNotFound, m))
        },
        _ => None,
    }
}

/// The error text a raw resolve returns for a plan that cannot call a
/// plugin; `None` for a plan that calls one.
pub open spec fn raw_resolve_failure_of(plan: ResolvePlan, name: Seq<char>) -> Option<Seq<char>> {
    match plan {
        ResolvePlan::NoSupervisor => Some("WASM supervisor unavailable for '"@ + name + "'"@),
        ResolvePlan::NoSandbox => Some("No sandbox context for '"@ + name + "'"@),
        ResolvePlan::NotFound => Some("No provider plugin named '"@ + name + "'"@),
        _ => None,
    }
}

/// The error text of a raw resolve for a plan (see `raw_resolve_failure_of`).
pub fn raw_resolve_failure(plan: &ResolvePlan, provider_name: &str) -> (r: Option<String>)
    ensures
        match raw_resolve_failure_of(*plan, provider_name@) {
            Some(m) => r matches Some(rm) && rm@ == m,
            None => r is None,
        },
{
    let prefix = match plan {
        ResolvePlan::NoSupervisor => "WASM supervisor unavailable for '",
        ResolvePlan::NoSandbox => "No sandbox context for '",
        ResolvePlan::NotFound => "No provider plugin named '",
        _ => {
            return None;
        },
    };
    let mut m = owned(prefix);
    push_str(&mut m, provider_name);
    push_str(&mut m, "'");
    Some(m)
}

/// An error answer: the request id, the code, and the message with every
/// secret-bearing parameter's value scrubbed.
pub fn error_response(id: Option<String>, code: ErrorCode, msg: &str) -> (r: ErrorResponse)
    ensures
        r.id == id,
        r.code == code,
        r.message@ == scrubbed_from(msg@, 0, false),
{
    ErrorResponse { id, code, message: sanitize_secrets(msg) }
}

} // verus!
