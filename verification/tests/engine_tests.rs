use stui_runtime::pipeline::{search_offset, stream_strategy, StreamStrategy};
use stui_runtime::metadata_backend::{client_unavailable, enrich_answer, fanart_endpoint, fanart_fetch_error, fanart_path, fanart_variants, metadata_backend, tvdb_related_unsupported, FanartEndpoint, MetadataBackend};
use stui_runtime::abi::{ArtworkSize, MetadataVerb};
use stui_runtime::fan_out::{first_success, no_providers_message};
use stui_runtime::fan_out::collect_successes;
use stui_runtime::fan_out::{plan_stream_fan_out, StreamProviderState};
use stui_runtime::events::RuntimeEvent;
use stui_runtime::abi::{EntryKind, PluginEntry, SearchScope};
use stui_runtime::dispatch_map::{DispatchMap, PluginEntryInfo};
use stui_runtime::ipc::MediaTab;
use stui_runtime::plugin_call::{
    abi_entry_to_media_entry, map_abi_error, scoped_search_request, AbiError, PluginCallError,
};

fn info(id: &str, kinds: &[EntryKind]) -> PluginEntryInfo {
    PluginEntryInfo { id: id.into(), kinds: kinds.to_vec() }
}

#[test]
fn groups_by_scope_preserving_order() {
    let plugins = vec![
        info("discogs", &[EntryKind::Artist, EntryKind::Album, EntryKind::Track]),
        info("tmdb", &[EntryKind::Movie, EntryKind::Series]),
        info("lastfm", &[EntryKind::Artist, EntryKind::Track]),
    ];
    let m = DispatchMap::build(&plugins);
    assert_eq!(m.plugins_for(SearchScope::Artist), vec!["discogs", "lastfm"]);
    assert_eq!(m.plugins_for(SearchScope::Track), vec!["discogs", "lastfm"]);
    assert_eq!(m.plugins_for(SearchScope::Album), vec!["discogs"]);
    assert_eq!(m.plugins_for(SearchScope::Movie), vec!["tmdb"]);
    assert!(m.plugins_for(SearchScope::Episode).is_empty());
}

#[test]
fn plugin_with_empty_kinds_excluded_from_every_scope() {
    let plugins = vec![info("legacy-bool", &[])];
    let m = DispatchMap::build(&plugins);
    for s in [
        SearchScope::Artist,
        SearchScope::Album,
        SearchScope::Track,
        SearchScope::Movie,
        SearchScope::Series,
        SearchScope::Episode,
    ] {
        assert!(m.plugins_for(s).is_empty());
        assert!(m.is_empty_for(s));
    }
}

#[test]
fn empty_plugin_list_is_empty_everywhere() {
    let m = DispatchMap::build(&[]);
    assert!(m.plugins_for(SearchScope::Movie).is_empty());
}

#[test]
fn dispatch_map_default_has_no_plugins() {
    let m = DispatchMap::default();
    assert!(m.is_empty_for(SearchScope::Series));
    assert!(m.plugins_for(SearchScope::Artist).is_empty());
}

#[test]
fn dispatch_map_series_scope_lists_series_kind_only() {
    let plugins = vec![info("tvdb", &[EntryKind::Series, EntryKind::Episode]), info("tmdb", &[EntryKind::Movie])];
    let m = DispatchMap::build(&plugins);
    assert_eq!(m.plugins_for(SearchScope::Series), vec!["tvdb"]);
    assert_eq!(m.plugins_for(SearchScope::Episode), vec!["tvdb"]);
    assert!(!m.is_empty_for(SearchScope::Movie));
    assert!(m.is_empty_for(SearchScope::Album));
}

#[test]
fn map_abi_error_unsupported_scope() {
    let e = AbiError::Execution(format!("{}: track scope unsupported", "unsupported_scope"));
    assert!(matches!(map_abi_error(e), PluginCallError::UnsupportedScope));
}

#[test]
fn map_abi_error_timeout() {
    let e = AbiError::Execution("plugin 'foo' search timed out after 30s".into());
    assert!(matches!(map_abi_error(e), PluginCallError::Timeout));
}

#[test]
fn map_abi_error_other() {
    let e = AbiError::Execution("some random failure".into());
    assert!(matches!(map_abi_error(e), PluginCallError::Other(_)));
}

#[test]
fn map_abi_error_version_mismatch_becomes_other() {
    let e = AbiError::VersionMismatch { plugin: 1, host: 2 };
    assert!(matches!(map_abi_error(e), PluginCallError::Other(_)));
}

#[test]
fn map_abi_error_other_keeps_message() {
    let e = AbiError::Execution("some random failure".into());
    match map_abi_error(e) {
        PluginCallError::Other(m) => assert_eq!(m, "some random failure"),
        other => panic!("unexpected {:?}", other),
    }
    let v = AbiError::VersionMismatch { plugin: 1, host: 2 };
    match map_abi_error(v) {
        PluginCallError::Other(m) => assert_eq!(m, "ABI version mismatch: plugin 1, host 2"),
        other => panic!("unexpected {:?}", other),
    }
}

#[test]
fn plugin_call_error_messages() {
    assert_eq!(PluginCallError::PluginNotFound("x".into()).message(), "plugin 'x' not found");
    assert_eq!(PluginCallError::UnsupportedScope.message(), "plugin does not support this scope");
    assert_eq!(PluginCallError::Timeout.message(), "plugin call timed out");
    assert_eq!(PluginCallError::Other("boom".into()).message(), "boom");
}

#[test]
fn abi_entry_maps_fields_correctly() {
    let entry = PluginEntry {
        id: "tt1234".into(),
        kind: EntryKind::Track,
        title: "Creep".into(),
        source: "lastfm".into(),
        year: Some(1993),
        genre: Some("Rock".into()),
        rating: Some(9.0f32.to_bits()),
        description: Some("A song".into()),
        poster_url: None,
        imdb_id: Some("tt1234".into()),
        ..Default::default()
    };
    let me = abi_entry_to_media_entry(entry, "lastfm", Some(9.0f32.to_string()));
    assert_eq!(me.id, "tt1234");
    assert_eq!(me.title, "Creep");
    assert_eq!(me.year, Some("1993".into()));
    assert_eq!(me.provider, "lastfm");
    assert_eq!(me.source, "lastfm");
    assert_eq!(me.kind, EntryKind::Track);
    assert!(matches!(me.tab, MediaTab::Music));
    assert_eq!(me.imdb_id, Some("tt1234".into()));
}

#[test]
fn abi_entry_movie_kind_gets_movies_tab() {
    let entry = PluginEntry {
        id: "m1".into(),
        kind: EntryKind::Movie,
        title: "Interstellar".into(),
        source: "tmdb".into(),
        ..Default::default()
    };
    let me = abi_entry_to_media_entry(entry, "tmdb", None);
    assert_eq!(me.kind, EntryKind::Movie);
    assert!(matches!(me.tab, MediaTab::Movies));
}

#[test]
fn abi_entry_series_kind_gets_series_tab() {
    let entry = PluginEntry {
        id: "s1".into(),
        kind: EntryKind::Series,
        title: "Breaking Bad".into(),
        source: "tmdb".into(),
        ..Default::default()
    };
    let me = abi_entry_to_media_entry(entry, "tmdb", None);
    assert_eq!(me.kind, EntryKind::Series);
    assert!(matches!(me.tab, MediaTab::Series));
}

#[test]
fn abi_entry_per_kind_fields_forwarded() {
    let entry = PluginEntry {
        id: "t1".into(),
        kind: EntryKind::Track,
        title: "My Song".into(),
        source: "musicplugin".into(),
        artist_name: Some("Radiohead".into()),
        album_name: Some("OK Computer".into()),
        track_number: Some(3),
        ..Default::default()
    };
    let me = abi_entry_to_media_entry(entry, "musicplugin", None);
    assert_eq!(me.artist_name, Some("Radiohead".into()));
    assert_eq!(me.album_name, Some("OK Computer".into()));
    assert_eq!(me.track_number, Some(3));
}

#[test]
fn scoped_search_request_asks_first_page_of_hundred() {
    let r = scoped_search_request("dune", SearchScope::Movie);
    assert_eq!(r.query, "dune");
    assert_eq!(r.scope, SearchScope::Movie);
    assert_eq!(r.page, 0);
    assert_eq!(r.limit, 100);
    assert!(r.per_scope_limit.is_none());
    assert!(r.locale.is_none());
}

#[test]
fn first_success_takes_first_ok_else_last_error() {
    let outs: Vec<Result<u32, String>> = vec![Err("a".into()), Ok(7), Err("c".into())];
    assert_eq!(first_success(outs, "none"), Ok(7));
    let outs: Vec<Result<u32, String>> = vec![Err("a".into()), Err("b".into())];
    assert_eq!(first_success(outs, "none"), Err("b".to_string()));
    let outs: Vec<Result<u32, String>> = Vec::new();
    assert_eq!(first_success(outs, &no_providers_message("trailers")), Err("no trailers providers configured".to_string()));
}

#[test]
fn successes_keep_arrival_order() {
    let outs: Vec<Result<&str, String>> = vec![Ok("tvdb"), Err("x".into()), Ok("tmdb")];
    assert_eq!(collect_successes(outs), vec!["tvdb", "tmdb"]);
}

#[test]
fn stream_fan_out_skips_open_circuits() {
    let ps = vec![
        StreamProviderState { name: "a".into(), has_streams: true, available: true },
        StreamProviderState { name: "b".into(), has_streams: false, available: true },
        StreamProviderState { name: "c".into(), has_streams: true, available: false },
        StreamProviderState { name: "d".into(), has_streams: true, available: true },
    ];
    let (called, skipped) = plan_stream_fan_out(&ps);
    assert_eq!(called, vec!["a", "d"]);
    assert_eq!(skipped, vec!["c"]);
}

#[test]
fn runtime_event_names() {
    assert_eq!(RuntimeEvent::ShutdownRequested.name(), "shutdown_requested");
    assert_eq!(
        RuntimeEvent::ProviderTimedOut { provider: "x".into(), timeout_ms: 1 }.name(),
        "provider_timed_out"
    );
    assert_eq!(
        RuntimeEvent::PlaybackProgress { position: 0, duration: 0, paused: false, cache_percent: 0 }.name(),
        "playback_progress"
    );
}

#[test]
fn metadata_backends() {
    assert_eq!(metadata_backend("tvdb", MetadataVerb::Credits), MetadataBackend::Tvdb);
    assert_eq!(metadata_backend("tvdb", MetadataVerb::Related), MetadataBackend::TvdbUnsupported);
    assert_eq!(metadata_backend("fanart", MetadataVerb::Artwork), MetadataBackend::Fanart);
    assert_eq!(metadata_backend("fanart", MetadataVerb::Enrich), MetadataBackend::Plugin);
    assert_eq!(metadata_backend("tmdb", MetadataVerb::Artwork), MetadataBackend::Plugin);
    assert_eq!(client_unavailable("tvdb"), "tvdb: client not available");
    assert_eq!(tvdb_related_unsupported(), "tvdb: related not implemented");
    let r = enrich_answer(PluginEntry::default());
    assert_eq!(f32::from_bits(r.confidence), 1.0);
}

#[test]
fn fanart_adapter_routing() {
    assert_eq!(fanart_endpoint(EntryKind::Movie), Ok(FanartEndpoint::Movies));
    assert_eq!(fanart_endpoint(EntryKind::Episode), Ok(FanartEndpoint::Tv));
    assert_eq!(fanart_endpoint(EntryKind::Album), Err("fanart: unsupported kind Album".to_string()));
    assert_eq!(fanart_path(FanartEndpoint::Tv), "tv");
    assert_eq!(fanart_fetch_error(FanartEndpoint::Movies, "404"), "fanart: movie artwork: 404");
    let r = fanart_variants(vec!["u1".into(), "u2".into()]);
    assert_eq!(r.variants.len(), 2);
    assert_eq!(r.variants[1].url, "u2");
    assert_eq!(r.variants[0].size, ArtworkSize::HiRes);
    assert_eq!(r.variants[0].mime, "image/jpeg");
}

#[test]
fn pipeline_decisions() {
    assert_eq!(search_offset(0), 0);
    assert_eq!(search_offset(1), 0);
    assert_eq!(search_offset(3), 100);
    assert_eq!(stream_strategy(false, false), StreamStrategy::Quality);
    assert_eq!(stream_strategy(true, false), StreamStrategy::Health);
    assert_eq!(stream_strategy(false, true), StreamStrategy::Benchmark);
    assert_eq!(stream_strategy(true, true), StreamStrategy::Benchmark);
}
