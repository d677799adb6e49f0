use stui_runtime::abi::MetadataVerb;
use stui_runtime::dispatch::{ManifestCapabilityProbe, PluginCaps, VerbSet};
use stui_runtime::sources::{plugins_for_kind, MetadataSources, SourceCapabilityProbe, SourceResolver};
use stui_runtime::ipc_types::MetadataPluginsForKindRequest;
use vstd::seq::Seq;

struct MockProbe {
    supported: Vec<String>,
    discoverable: Vec<String>,
}

impl MockProbe {
    fn new(supported: Vec<&str>) -> Self {
        MockProbe {
            supported: supported.into_iter().map(String::from).collect(),
            discoverable: Vec::new(),
        }
    }
    fn with_discoverable(mut self, discoverable: Vec<&str>) -> Self {
        self.discoverable = discoverable.into_iter().map(String::from).collect();
        self
    }
}

impl SourceCapabilityProbe for MockProbe {
    // The two answer names exist for the verifier only; nothing calls them
    // at run time.
    fn supports_spec(&self, _plugin: Seq<char>, _verb: MetadataVerb, _kind_hint: Seq<char>) -> bool {
        unreachable!()
    }
    fn discover_spec(&self, _verb: MetadataVerb, _kind_hint: Seq<char>) -> Seq<Seq<char>> {
        unreachable!()
    }
    fn supports(&self, plugin: &str, _verb: MetadataVerb, _kind_hint: &str) -> bool {
        self.supported.iter().any(|p| p == plugin)
    }
    fn discover(&self, _verb: MetadataVerb, _kind_hint: &str) -> Vec<String> {
        self.discoverable.clone()
    }
}

fn cfg_with_defaults() -> MetadataSources {
    MetadataSources::default()
}

#[test]
fn movies_returns_primary_then_fallbacks_filtered_by_capability() {
    let probe = MockProbe::new(vec!["tmdb", "tvdb"]);
    let r = SourceResolver::new(cfg_with_defaults(), Box::new(probe));
    let ordered = r.resolve(MetadataVerb::Credits, "movies");
    assert_eq!(ordered, vec!["tmdb".to_string(), "tvdb".into()]);
}

#[test]
fn anime_routes_to_anime_source_list_not_movies() {
    let probe = MockProbe::new(vec!["anilist", "kitsu"]);
    let r = SourceResolver::new(cfg_with_defaults(), Box::new(probe));
    let ordered = r.resolve(MetadataVerb::Credits, "anime");
    assert_eq!(ordered, vec!["anilist".to_string(), "kitsu".into()]);
}

#[test]
fn unknown_kind_hint_returns_empty() {
    let probe = MockProbe::new(vec!["tmdb"]);
    let r = SourceResolver::new(cfg_with_defaults(), Box::new(probe));
    assert!(r.resolve(MetadataVerb::Credits, "books").is_empty());
}

#[test]
fn discovered_plugins_appended_after_priority_list() {
    let probe = MockProbe::new(vec!["tmdb", "omdb", "tvdb", "letterboxd"])
        .with_discoverable(vec!["letterboxd"]);
    let r = SourceResolver::new(cfg_with_defaults(), Box::new(probe));
    let ordered = r.resolve(MetadataVerb::Enrich, "movies");
    assert_eq!(
        ordered,
        vec!["tmdb".to_string(), "omdb".into(), "tvdb".into(), "letterboxd".into()]
    );
}

#[test]
fn discovered_plugins_skipped_when_already_in_priority_list() {
    let probe = MockProbe::new(vec!["tmdb", "omdb", "tvdb"])
        .with_discoverable(vec!["tmdb", "omdb", "tvdb"]);
    let r = SourceResolver::new(cfg_with_defaults(), Box::new(probe));
    let ordered = r.resolve(MetadataVerb::Enrich, "movies");
    assert_eq!(ordered, vec!["tmdb".to_string(), "omdb".into(), "tvdb".into()]);
}

#[test]
fn disabled_plugin_excluded_from_priority_list() {
    let probe = MockProbe::new(vec!["tmdb", "omdb", "tvdb"]);
    let mut cfg = cfg_with_defaults();
    cfg.movies_disabled = vec!["omdb".into()];
    let r = SourceResolver::new(cfg, Box::new(probe));
    let ordered = r.resolve(MetadataVerb::Enrich, "movies");
    assert_eq!(ordered, vec!["tmdb".to_string(), "tvdb".into()]);
}

#[test]
fn disabled_plugin_excluded_from_discovered_list() {
    let probe = MockProbe::new(vec!["tmdb", "letterboxd"]).with_discoverable(vec!["letterboxd"]);
    let mut cfg = cfg_with_defaults();
    cfg.movies_disabled = vec!["letterboxd".into()];
    let r = SourceResolver::new(cfg, Box::new(probe));
    let ordered = r.resolve(MetadataVerb::Enrich, "movies");
    assert!(ordered.contains(&"tmdb".to_string()));
    assert!(!ordered.contains(&"letterboxd".to_string()));
}

fn probe(tvdb_available: bool) -> ManifestCapabilityProbe {
    let all_verbs = VerbSet {
        search: true,
        lookup: true,
        enrich: true,
        credits: true,
        artwork: true,
        related: true,
    };
    let plugin_caps = vec![
        (
            "tmdb".to_string(),
            PluginCaps {
                name: "tmdb".to_string(),
                verbs: all_verbs,
                tags: vec!["movies".to_string(), "series".to_string()],
                verb_id_sources: Vec::new(),
            },
        ),
        (
            "anilist".to_string(),
            PluginCaps {
                name: "anilist".to_string(),
                verbs: all_verbs,
                tags: vec!["anime".to_string()],
                verb_id_sources: Vec::new(),
            },
        ),
    ];
    ManifestCapabilityProbe { plugin_caps, tvdb_available, fanart_available: false }
}

#[test]
fn tvdb_supports_enrich_credits_artwork_when_available() {
    let p = probe(true);
    assert!(p.supports("tvdb", MetadataVerb::Enrich, "movies"));
    assert!(p.supports("tvdb", MetadataVerb::Credits, "movies"));
    assert!(p.supports("tvdb", MetadataVerb::Artwork, "movies"));
}

#[test]
fn tvdb_does_not_support_related_even_when_available() {
    let p = probe(true);
    assert!(!p.supports("tvdb", MetadataVerb::Related, "movies"));
}

#[test]
fn tvdb_disabled_when_no_api_key() {
    let p = probe(false);
    assert!(!p.supports("tvdb", MetadataVerb::Enrich, "movies"));
    assert!(!p.supports("tvdb", MetadataVerb::Credits, "movies"));
    assert!(!p.supports("tvdb", MetadataVerb::Artwork, "movies"));
}

#[test]
fn known_plugins_supported_regardless_of_tvdb_availability() {
    let p = probe(false);
    assert!(p.supports("tmdb", MetadataVerb::Enrich, "movies"));
    assert!(p.supports("anilist", MetadataVerb::Credits, "anime"));
}

#[test]
fn unknown_plugin_not_supported() {
    let p = probe(true);
    assert!(!p.supports("madeup", MetadataVerb::Enrich, "movies"));
}

#[test]
fn discover_matches_tag_and_verb_once_per_name() {
    let mut p = probe(false);
    let dup = p.plugin_caps[0].1.clone();
    p.plugin_caps.push(("uuid-1".to_string(), dup));
    assert_eq!(p.discover(MetadataVerb::Credits, "movies"), vec!["tmdb".to_string()]);
    assert_eq!(p.discover(MetadataVerb::Credits, "anime"), vec!["anilist".to_string()]);
    assert!(p.discover(MetadataVerb::RatingsAggregator, "movies").is_empty());
}

#[test]
fn plugins_for_kind_lists_discoveries_outside_priority() {
    let probe = MockProbe::new(vec![]).with_discoverable(vec!["tmdb", "letterboxd"]);
    let mut cfg = cfg_with_defaults();
    cfg.movies_disabled = vec!["omdb".to_string()];
    let req = MetadataPluginsForKindRequest { id: "r1".into(), kind: "movies".into() };
    let resp = plugins_for_kind(&cfg, &probe, req).expect("known kind");
    assert_eq!(resp.id, "r1");
    assert_eq!(resp.priority, vec!["tmdb".to_string(), "omdb".into(), "tvdb".into()]);
    assert_eq!(resp.discovered, vec!["letterboxd".to_string()]);
    assert_eq!(resp.disabled, vec!["omdb".to_string()]);
    let err = plugins_for_kind(&cfg, &probe, MetadataPluginsForKindRequest { id: "r2".into(), kind: "books".into() });
    assert_eq!(
        err.err(),
        Some("metadata_plugins_for_kind: unknown kind 'books' (expected movies/series/anime/music)".to_string())
    );
}
