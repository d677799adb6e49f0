use stui_runtime::abi::SearchScope;
use stui_runtime::episodes::{
    episode_row, episodes_failed_message, join_comma, route_episodes, scope_has_no_source,
    tvdb_episode_row, tvdb_episodes_error, tvdb_fallback_id, tvdb_items_to_entries,
    tvdb_kind_for_scope, tvdb_search_error, tvdb_unconfigured_message, EpisodeWire, EpisodesRoute,
    TvdbEntry, TvdbEpisode, TvdbSearchKind,
};
use stui_runtime::ipc::MediaTab;
use stui_runtime::ipc_types::ErrorCode;

#[test]
fn tvdb_search_sources() {
    assert_eq!(tvdb_kind_for_scope(SearchScope::Movie), Some(TvdbSearchKind::Movie));
    assert_eq!(tvdb_kind_for_scope(SearchScope::Track), None);
    assert!(scope_has_no_source(true, false, SearchScope::Movie));
    assert!(!scope_has_no_source(true, true, SearchScope::Series));
    assert!(scope_has_no_source(true, true, SearchScope::Album));
    assert!(!scope_has_no_source(false, false, SearchScope::Album));
    assert_eq!(tvdb_search_error("HTTP 500"), "tvdb: HTTP 500");
}

#[test]
fn tvdb_hits_become_wire_entries() {
    let hits = vec![
        TvdbEntry {
            tvdb_id: "81189".into(),
            title: "Breaking Bad".into(),
            year: Some("2008".into()),
            genres: vec!["Drama".into(), "Crime".into()],
            overview: Some("o".into()),
            image_url: None,
            imdb_id: Some("tt0903747".into()),
            tmdb_id: None,
            original_language: Some("en".into()),
        },
        TvdbEntry {
            tvdb_id: "1".into(),
            title: "X".into(),
            year: None,
            genres: Vec::new(),
            overview: None,
            image_url: None,
            imdb_id: None,
            tmdb_id: None,
            original_language: None,
        },
    ];
    let es = tvdb_items_to_entries(hits, SearchScope::Series);
    assert_eq!(es[0].id, "tvdb-81189");
    assert_eq!(es[0].genre.as_deref(), Some("Drama, Crime"));
    assert_eq!(es[0].provider, "tvdb");
    assert_eq!(es[0].source, "tvdb");
    assert!(matches!(es[0].tab, MediaTab::Series));
    assert_eq!(es[1].genre, None);
    assert_eq!(join_comma(&vec!["a".into()]), "a");
    assert_eq!(join_comma(&Vec::new()), "");
}

#[test]
fn episode_rows() {
    let r = episode_row(EpisodeWire {
        season: 1,
        episode: 2,
        title: "Pilot".into(),
        air_date: None,
        runtime_mins: Some(44),
        provider: "tmdb".into(),
        entry_id: "tmdb-1".into(),
    });
    assert_eq!(r.title, "Pilot");
    assert_eq!(r.runtime_mins, Some(44));
    let t = tvdb_episode_row(TvdbEpisode { id: 349232, season: 1, episode: 7, title: Some("  ".into()), air_date: None, runtime_mins: None });
    assert_eq!(t.title, "Episode 7");
    assert_eq!(t.entry_id, "tvdb-349232");
    assert_eq!(t.provider, "tvdb");
    let t = tvdb_episode_row(TvdbEpisode { id: 1, season: 1, episode: 1, title: Some(" Pilot ".into()), air_date: None, runtime_mins: None });
    assert_eq!(t.title, "Pilot");
}

#[test]
fn episodes_routing() {
    match route_episodes("tmdb-1396", "", 0) {
        EpisodesRoute::Invalid { code, message } => {
            assert!(matches!(code, ErrorCode::InvalidRequest));
            assert_eq!(message, "season must be >= 1");
        }
        _ => panic!("expected invalid"),
    }
    match route_episodes("tvdb-81189", "", 2) {
        EpisodesRoute::Tvdb { series_id } => assert_eq!(series_id, "81189"),
        _ => panic!("expected tvdb"),
    }
    match route_episodes("tmdb-1396", "", 1) {
        EpisodesRoute::Plugin { plugin, series_id } => {
            assert_eq!(plugin, "tmdb");
            assert_eq!(series_id, "1396");
        }
        _ => panic!("expected plugin"),
    }
    match route_episodes("xyz", "anilist", 1) {
        EpisodesRoute::Plugin { plugin, series_id } => {
            assert_eq!(plugin, "anilist");
            assert_eq!(series_id, "xyz");
        }
        _ => panic!("expected plugin"),
    }
}

#[test]
fn episodes_fallback_and_errors() {
    let ids = vec![("tvdb".to_string(), "81189".to_string())];
    assert_eq!(tvdb_fallback_id("tmdb", &ids), Some("81189".into()));
    assert_eq!(tvdb_fallback_id("tvdb", &ids), None);
    assert_eq!(tvdb_fallback_id("tmdb", &vec![("tvdb".to_string(), String::new())]), None);
    assert_eq!(tvdb_fallback_id("tmdb", &Vec::new()), None);
    assert_eq!(
        episodes_failed_message("tmdb"),
        "Could not load episodes from tmdb (and TVDB fallback unavailable). Check network or API keys."
    );
    assert_eq!(tvdb_unconfigured_message(), "tvdb is not configured (no API key)");
    assert_eq!(tvdb_episodes_error("boom"), "tvdb episodes: boom");
}
