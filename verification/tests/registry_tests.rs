use std::sync::Arc;
use stui_runtime::abi::{EntryKind, PluginEntry, SearchScope};
use stui_runtime::catalog::{CatalogEntry, EnrichPatch};
use stui_runtime::catalog_search::{
    catalog_search_request, error_response, is_adult_tagged, plan_catalog_search, plan_resolve,
    raw_resolve_failure, resolve_failure, ResolvePlan,
};
use stui_runtime::dispatch::CatalogCaps;
use stui_runtime::dispatch_map::{dispatch_infos, rebuild_dispatch_map};
use stui_runtime::ipc::MediaTab;
use stui_runtime::ipc_types::ErrorCode;
use stui_runtime::plugin_call::{provider_name_for, supervisor_for_call, PluginCallError};
use stui_runtime::registry::{ExecutionMode, LoadedPlugin, PluginCapability, PluginRegistry};
use stui_runtime::video_enrich::{
    add_fall_through, apply_bulk_answers, bulk_partials, bulk_tab, merge_answers,
    should_flush_progress,
};

fn plugin(id: &str, name: &str, mode: ExecutionMode, tags: &[&str], caps: &[PluginCapability]) -> LoadedPlugin {
    LoadedPlugin {
        id: id.into(),
        name: name.into(),
        version: "1.0.0".into(),
        plugin_type: "catalog".into(),
        description: Some(format!("{} plugin", name)),
        author: None,
        tags: tags.iter().map(|t| t.to_string()).collect(),
        is_metadata_provider: false,
        catalog: CatalogCaps::Legacy,
        kinds: vec![EntryKind::Movie],
        capabilities: caps.to_vec(),
        mode,
    }
}

fn registry() -> PluginRegistry<u32, String> {
    let mut reg: PluginRegistry<u32, String> = PluginRegistry::new();
    reg.insert(plugin("id-a", "alpha", ExecutionMode::Wasm, &[], &[PluginCapability::Catalog]), 1);
    reg.insert(plugin("id-b", "beta", ExecutionMode::Sandboxed, &["Adult"], &[PluginCapability::Catalog]), 2);
    reg.insert(plugin("id-c", "gamma", ExecutionMode::Wasm, &[], &[PluginCapability::Catalog, PluginCapability::Streams]), 3);
    reg.insert(plugin("id-d", "delta", ExecutionMode::Sandboxed, &[], &[PluginCapability::Streams]), 4);
    reg.insert_wasm_supervisor("id-a", Arc::new("sup-a".to_string()));
    reg
}

#[test]
fn registry_get_after_insert_and_remove() {
    let mut reg = registry();
    assert_eq!(reg.get("id-a").map(|p| p.name.clone()), Some("alpha".to_string()));
    assert_eq!(reg.sandbox_for("id-b"), Some(&2));
    assert!(reg.wasm_supervisor_for("id-c").is_none());
    let removed = reg.remove("id-a");
    assert_eq!(removed.map(|p| p.name), Some("alpha".to_string()));
    assert!(reg.get("id-a").is_none());
    assert!(reg.wasm_supervisor_for("id-a").is_none());
    assert!(reg.remove("id-a").is_none());
    assert_eq!(reg.all().len(), 3);
}

#[test]
fn registry_capability_queries_keep_order() {
    let reg = registry();
    let names: Vec<String> = reg.find_stream_providers().iter().map(|p| p.name.clone()).collect();
    assert_eq!(names, vec!["gamma", "delta"]);
    let cat: Vec<String> = reg.find_providers_for_tab(&MediaTab::Music).iter().map(|p| p.name.clone()).collect();
    assert_eq!(cat, vec!["alpha", "beta", "gamma"]);
    assert!(reg.find_subtitle_providers().is_empty());
}

#[test]
fn adult_tags_ignore_ascii_case() {
    assert!(is_adult_tagged(&vec!["music".into(), "ADULT".into()]));
    assert!(!is_adult_tagged(&vec!["adults".into()]));
    assert!(!is_adult_tagged(&Vec::new()));
}

#[test]
fn catalog_plan_skips_adult_and_unreachable() {
    let reg = registry();
    // gamma is WASM without a supervisor; beta is adult-tagged.
    let plan = plan_catalog_search(&reg, &MediaTab::Movies, false);
    let ids: Vec<String> = plan.iter().map(|c| c.plugin_id.clone()).collect();
    assert_eq!(ids, vec!["id-a"]);
    let plan = plan_catalog_search(&reg, &MediaTab::Movies, true);
    let ids: Vec<String> = plan.iter().map(|c| c.provider.clone()).collect();
    assert_eq!(ids, vec!["alpha", "beta"]);
    assert_eq!(plan[1].mode, ExecutionMode::Sandboxed);
}

#[test]
fn catalog_request_scope_from_tab() {
    let r = catalog_search_request("q", &MediaTab::Music);
    assert_eq!(r.scope, SearchScope::Track);
    assert_eq!(r.limit, 50);
    assert_eq!(catalog_search_request("q", &MediaTab::Series).scope, SearchScope::Series);
    assert_eq!(catalog_search_request("q", &MediaTab::Radio).scope, SearchScope::Track);
}

#[test]
fn resolve_plans_and_failures() {
    let reg = registry();
    assert!(matches!(plan_resolve(&reg, "alpha"), ResolvePlan::Wasm(ref id) if id == "id-a"));
    assert!(matches!(plan_resolve(&reg, "beta"), ResolvePlan::Sandbox(ref id) if id == "id-b"));
    let p = plan_resolve(&reg, "gamma");
    assert!(matches!(p, ResolvePlan::NoSupervisor));
    let (code, msg) = resolve_failure(&p, "gamma").unwrap();
    assert!(matches!(code, ErrorCode::ResolveFailed));
    assert_eq!(msg, "WASM supervisor unavailable for 'gamma'");
    let p = plan_resolve(&reg, "nobody");
    assert!(matches!(p, ResolvePlan::NotFound));
    let (code, msg) = resolve_failure(&p, "nobody").unwrap();
    assert!(matches!(code, ErrorCode::PluginNotFound));
    assert_eq!(msg, "No provider plugin named 'nobody'");
    assert_eq!(raw_resolve_failure(&ResolvePlan::NoSandbox, "x").unwrap(), "No sandbox context for 'x'");
    assert!(raw_resolve_failure(&ResolvePlan::Wasm("i".into()), "x").is_none());
}

#[test]
fn error_response_scrubs_secrets() {
    let r = error_response(Some("7".into()), ErrorCode::Internal, "GET /x?api_key=abc failed");
    assert_eq!(r.id.as_deref(), Some("7"));
    assert_eq!(r.message, "GET /x?api_key=*** failed");
}

#[test]
fn supervisor_lookup_before_call() {
    let reg = registry();
    assert_eq!(*supervisor_for_call(&reg, "id-a").unwrap(), "sup-a");
    match supervisor_for_call(&reg, "zzz") {
        Err(PluginCallError::PluginNotFound(id)) => assert_eq!(id, "zzz"),
        _ => panic!("expected not found"),
    }
    match supervisor_for_call(&reg, "id-c") {
        Err(PluginCallError::Other(m)) => {
            assert_eq!(m, "no WASM supervisor for plugin 'id-c' — non-WASM or load failed")
        }
        _ => panic!("expected other"),
    }
    assert_eq!(provider_name_for(&reg, "id-b"), "beta");
    assert_eq!(provider_name_for(&reg, "zzz"), "zzz");
}

fn cat(id: &str, tab: &str, imdb: Option<&str>) -> CatalogEntry {
    CatalogEntry {
        id: id.into(),
        title: format!("T {}", id),
        tab: tab.into(),
        imdb_id: imdb.map(|s| s.into()),
        ..Default::default()
    }
}

fn rated(source: &str, score: f64) -> EnrichPatch {
    EnrichPatch {
        source: source.into(),
        ratings: Vec::new(),
        rating_votes: Vec::new(),
        rating: Some(score.to_bits()),
        poster_url: None,
        description: None,
        genre: None,
        year: None,
        original_language: None,
        external_ids: Vec::new(),
    }
}

#[test]
fn progress_flush_rule() {
    assert!(should_flush_progress(8, 20));
    assert!(!should_flush_progress(9, 20));
    assert!(should_flush_progress(20, 20));
    assert!(should_flush_progress(16, 20));
}

#[test]
fn per_entry_merge_skips_failed_answers() {
    let mut e = cat("a", "movies", Some("tt1"));
    let changed = merge_answers(&mut e, vec![None, Some(rated("omdb", 7.0)), None]);
    assert!(changed);
    assert_eq!(e.ratings, vec![("omdb".to_string(), 7.0f64.to_bits())]);
    let mut e2 = cat("b", "movies", Some("tt2"));
    assert!(!merge_answers(&mut e2, vec![None, None]));
    assert!(e2.ratings.is_empty());
}

#[test]
fn bulk_partials_cover_eligible_entries_only() {
    let snap = vec![
        cat("a", "movies", Some("tt1")),
        cat("b", "series", Some("tt2")),
        cat("c", "movies", None),
        cat("d", "movies", Some("")),
        cat("e", "movies", Some("tt5")),
    ];
    assert_eq!(bulk_tab(EntryKind::Movie), Some("movies"));
    assert_eq!(bulk_tab(EntryKind::Track), None);
    let ps: Vec<PluginEntry> = bulk_partials(&snap, "movies", EntryKind::Movie);
    let ids: Vec<Option<String>> = ps.iter().map(|p| p.imdb_id.clone()).collect();
    assert_eq!(ids, vec![Some("tt1".to_string()), Some("tt5".to_string())]);
    assert_eq!(ps[0].kind, EntryKind::Movie);
    assert_eq!(ps[1].external_ids, vec![("imdb".to_string(), "tt5".to_string())]);
}

#[test]
fn bulk_answers_merge_into_matching_entries() {
    let mut snap = vec![cat("a", "movies", Some("tt1")), cat("tt9", "movies", None)];
    let changed = apply_bulk_answers(
        &mut snap,
        vec![
            ("tt1".into(), rated("bulky", 6.5)),
            ("nope".into(), rated("bulky", 1.0)),
            ("tt9".into(), rated("bulky", 5.0)),
        ],
    );
    assert_eq!(changed, vec![0, 1]);
    assert_eq!(snap[0].ratings, vec![("bulky".to_string(), 6.5f64.to_bits())]);
    assert_eq!(snap[1].ratings, vec![("bulky".to_string(), 5.0f64.to_bits())]);
}

#[test]
fn failed_bulk_plugins_fall_through_by_kind() {
    let mut movie = vec!["tmdb".to_string()];
    let mut series = Vec::new();
    add_fall_through(
        &mut movie,
        &mut series,
        &vec![("omdb".into(), EntryKind::Series), ("bulky".into(), EntryKind::Movie), ("x".into(), EntryKind::Track)],
    );
    assert_eq!(movie, vec!["tmdb", "bulky"]);
    assert_eq!(series, vec!["omdb"]);
}

#[test]
fn registry_remove_undoes_insert() {
    let mut reg = registry();
    let before: Vec<String> = reg.all().iter().map(|p| p.id.clone()).collect();
    reg.insert(plugin("id-new", "new", ExecutionMode::Sandboxed, &[], &[]), 9);
    assert_eq!(reg.sandbox_for("id-new"), Some(&9));
    reg.remove("id-new");
    let after: Vec<String> = reg.all().iter().map(|p| p.id.clone()).collect();
    assert_eq!(before, after);
    assert!(reg.get("id-new").is_none());
    assert!(reg.sandbox_for("id-new").is_none());
    assert_eq!(reg.sandbox_for("id-b"), Some(&2));
    assert!(reg.wasm_supervisor_for("id-a").is_some());
}

#[test]
fn rebuild_dispatch_map_groups_registered_kinds() {
    let mut reg: PluginRegistry<u32, String> = PluginRegistry::new();
    let mut a = plugin("id-a", "alpha", ExecutionMode::Wasm, &[], &[PluginCapability::Catalog]);
    a.kinds = vec![EntryKind::Artist, EntryKind::Album];
    let mut b = plugin("id-b", "beta", ExecutionMode::Wasm, &[], &[PluginCapability::Catalog]);
    b.kinds = vec![EntryKind::Movie];
    let mut c = plugin("id-c", "gamma", ExecutionMode::Wasm, &[], &[PluginCapability::Catalog]);
    c.kinds = vec![];
    reg.insert(a, 1);
    reg.insert(b, 2);
    reg.insert(c, 3);
    let infos = dispatch_infos(&reg);
    assert_eq!(infos.len(), 3);
    assert_eq!(infos[0].id, "id-a");
    assert_eq!(infos[0].kinds, vec![EntryKind::Artist, EntryKind::Album]);
    let m = rebuild_dispatch_map(&reg);
    assert_eq!(m.plugins_for(SearchScope::Artist), vec!["id-a".to_string()]);
    assert_eq!(m.plugins_for(SearchScope::Album), vec!["id-a".to_string()]);
    assert_eq!(m.plugins_for(SearchScope::Movie), vec!["id-b".to_string()]);
    assert!(m.is_empty_for(SearchScope::Track));
    assert!(m.is_empty_for(SearchScope::Series));
}

#[test]
fn list_plugins_reports_each_loaded_plugin() {
    let reg = registry();
    let listed = stui_runtime::registry::list_plugins(&reg);
    assert_eq!(listed.plugins.len(), 4);
    let first = &listed.plugins[0];
    assert_eq!(first.id, "id-a");
    assert_eq!(first.name, "alpha");
    assert_eq!(first.version, "1.0.0");
    assert_eq!(first.plugin_type, "catalog");
    assert_eq!(first.status, stui_runtime::ipc_types::PluginStatus::Loaded);
    assert!(first.enabled);
    assert_eq!(first.description, "alpha plugin");
    assert_eq!(first.author, "");
    assert_eq!(listed.plugins[1].tags, vec!["Adult".to_string()]);
    assert_eq!(listed.plugins[3].name, "delta");
}
