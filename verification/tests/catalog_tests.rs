use stui_runtime::catalog::catalog_entries_to_media;
use stui_runtime::abi::EntryKind;
use stui_runtime::catalog::{
    bulk_error_falls_through, catalog_entry_to_media_entry, enrich_kind_for_tab,
    enrich_partial_for, find_snapshot_idx, merge_enrich_into, per_entry_plugins, tab_from_label,
    CatalogEntry, EnrichPatch,
};
use stui_runtime::ipc::MediaTab;
use stui_runtime::music_enrich::{album_partial, merge_album_answers, merge_plugin_response};

fn entry(id: &str, imdb: Option<&str>) -> CatalogEntry {
    CatalogEntry {
        id: id.into(),
        title: format!("title {}", id),
        tab: "movies".into(),
        imdb_id: imdb.map(|s| s.into()),
        ..Default::default()
    }
}

fn patch() -> EnrichPatch {
    EnrichPatch {
        source: "tmdb".into(),
        ratings: vec![("imdb".into(), 7.5f64.to_bits())],
        rating_votes: vec![("imdb".into(), 1200)],
        rating: Some(8.0f64.to_bits()),
        poster_url: Some("http://p/1.jpg".into()),
        description: Some("".into()),
        genre: Some("Drama".into()),
        year: Some(2014),
        original_language: Some("en".into()),
        external_ids: vec![("tmdb".into(), "157336".into()), ("imdb".into(), "tt0816692".into())],
    }
}

#[test]
fn merge_fills_missing_fields_and_writes_scores() {
    let mut e = entry("a", None);
    e.genre = Some("Sci-Fi".into());
    let changed = merge_enrich_into(&mut e, patch());
    assert!(changed);
    assert_eq!(e.poster_url.as_deref(), Some("http://p/1.jpg"));
    // empty description is not a fill
    assert_eq!(e.description, None);
    // present genre is not overwritten
    assert_eq!(e.genre.as_deref(), Some("Sci-Fi"));
    assert_eq!(e.year.as_deref(), Some("2014"));
    assert_eq!(e.original_language.as_deref(), Some("en"));
    assert_eq!(e.tmdb_id.as_deref(), Some("157336"));
    assert_eq!(e.imdb_id.as_deref(), Some("tt0816692"));
    let imdb = e.ratings.iter().find(|(k, _)| k == "imdb").map(|(_, v)| f64::from_bits(*v));
    assert_eq!(imdb, Some(7.5));
    let own = e.ratings.iter().find(|(k, _)| k == "tmdb").map(|(_, v)| f64::from_bits(*v));
    assert_eq!(own, Some(8.0));
    assert_eq!(e.rating_votes, vec![("imdb".to_string(), 1200u64)]);
}

#[test]
fn merge_headline_without_source_goes_under_enrich() {
    let mut e = entry("a", None);
    let p = EnrichPatch {
        source: String::new(),
        ratings: Vec::new(),
        rating_votes: Vec::new(),
        rating: Some(6.0f64.to_bits()),
        poster_url: None,
        description: None,
        genre: None,
        year: None,
        original_language: None,
        external_ids: Vec::new(),
    };
    assert!(merge_enrich_into(&mut e, p));
    assert_eq!(e.ratings, vec![("enrich".to_string(), 6.0f64.to_bits())]);
}

#[test]
fn merge_with_nothing_new_reports_no_change() {
    let mut e = entry("a", Some("tt1"));
    e.poster_url = Some("x".into());
    let p = EnrichPatch {
        source: "tmdb".into(),
        ratings: Vec::new(),
        rating_votes: Vec::new(),
        rating: None,
        poster_url: Some("y".into()),
        description: None,
        genre: None,
        year: Some(0),
        original_language: None,
        external_ids: vec![("imdb".into(), "tt2".into())],
    };
    assert!(!merge_enrich_into(&mut e, p));
    assert_eq!(e.poster_url.as_deref(), Some("x"));
    assert_eq!(e.imdb_id.as_deref(), Some("tt1"));
    assert_eq!(e.year, None);
}

#[test]
fn merge_later_score_replaces_earlier() {
    let mut e = entry("a", None);
    e.ratings = vec![("imdb".into(), 5.0f64.to_bits())];
    let p = EnrichPatch {
        source: "omdb".into(),
        ratings: vec![("imdb".into(), 6.0f64.to_bits()), ("imdb".into(), 7.0f64.to_bits())],
        rating_votes: Vec::new(),
        rating: None,
        poster_url: None,
        description: None,
        genre: None,
        year: None,
        original_language: None,
        external_ids: Vec::new(),
    };
    assert!(merge_enrich_into(&mut e, p));
    assert_eq!(e.ratings, vec![("imdb".to_string(), 7.0f64.to_bits())]);
}

#[test]
fn snapshot_index_matches_imdb_or_id() {
    let snap = vec![entry("a", Some("tt1")), entry("tt2", None), entry("c", Some("tt2"))];
    assert_eq!(find_snapshot_idx(&snap, "tt1"), Some(0));
    assert_eq!(find_snapshot_idx(&snap, "tt2"), Some(1));
    assert_eq!(find_snapshot_idx(&snap, "c"), Some(2));
    assert_eq!(find_snapshot_idx(&snap, "zz"), None);
}

#[test]
fn catalog_entry_wire_form() {
    let mut e = entry("a", Some("tt1"));
    e.tab = "series".into();
    e.artist = Some("someone".into());
    e.ratings = vec![("imdb".into(), 1)];
    let m = catalog_entry_to_media_entry(&e);
    assert_eq!(m.id, "a");
    assert!(matches!(m.tab, MediaTab::Series));
    assert_eq!(m.artist_name.as_deref(), Some("someone"));
    assert_eq!(m.imdb_id.as_deref(), Some("tt1"));
    assert_eq!(m.ratings, vec![("imdb".to_string(), 1u64)]);
    assert_eq!(m.source, "");
    assert_eq!(m.kind, EntryKind::Track);
}

#[test]
fn tab_labels() {
    assert!(matches!(tab_from_label("movies"), MediaTab::Movies));
    assert!(matches!(tab_from_label("podcasts"), MediaTab::Podcasts));
    assert!(matches!(tab_from_label("whatever"), MediaTab::Library));
}

#[test]
fn bulk_errors() {
    assert!(!bulk_error_falls_through("not_implemented: bulk"));
    assert!(!bulk_error_falls_through("plugin said NOT_IMPLEMENTED"));
    assert!(bulk_error_falls_through("network error"));
}

#[test]
fn per_entry_cohort_excludes_bulk_plugins() {
    let enrich = vec!["tmdb".to_string(), "omdb".into(), "tvdb".into()];
    let bulk = vec!["omdb".to_string()];
    assert_eq!(per_entry_plugins(&enrich, &bulk), vec!["tmdb", "tvdb"]);
}

#[test]
fn enrich_routing() {
    assert_eq!(enrich_kind_for_tab("series"), EntryKind::Series);
    assert_eq!(enrich_kind_for_tab("movies"), EntryKind::Movie);
    let e = entry("a", Some("tt9"));
    let p = enrich_partial_for(&e, EntryKind::Movie).unwrap();
    assert_eq!(p.imdb_id.as_deref(), Some("tt9"));
    assert_eq!(p.external_ids, vec![("imdb".to_string(), "tt9".to_string())]);
    assert_eq!(p.title, "title a");
    assert!(enrich_partial_for(&entry("b", None), EntryKind::Movie).is_none());
    assert!(enrich_partial_for(&entry("b", Some("")), EntryKind::Movie).is_none());
}

fn album(title: &str, artist: Option<&str>) -> CatalogEntry {
    CatalogEntry {
        id: "al".into(),
        title: title.into(),
        tab: "music".into(),
        artist: artist.map(|s| s.into()),
        ..Default::default()
    }
}

fn music_patch(source: &str, rating: Option<f64>, per: Vec<(&str, f64)>) -> EnrichPatch {
    EnrichPatch {
        source: source.into(),
        ratings: per.into_iter().map(|(k, v)| (k.to_string(), v.to_bits())).collect(),
        rating_votes: Vec::new(),
        rating: rating.map(|r| r.to_bits()),
        poster_url: None,
        description: Some("desc".into()),
        genre: Some("".into()),
        year: Some(1997),
        original_language: None,
        external_ids: Vec::new(),
    }
}

#[test]
fn album_partial_uses_trimmed_title_and_artist() {
    let p = album_partial(&album("  OK Computer ", Some("Radiohead"))).unwrap();
    assert_eq!(p.title, "OK Computer");
    assert_eq!(p.kind, EntryKind::Album);
    assert_eq!(p.artist_name.as_deref(), Some("Radiohead"));
    assert!(album_partial(&album("   ", None)).is_none());
}

#[test]
fn album_merge_fills_first_values_and_keys_scores() {
    let mut e = album("OK Computer", Some("Radiohead"));
    let mut got = false;
    merge_plugin_response(&mut e, "musicbrainz", music_patch("", Some(8.0), vec![]), &mut got);
    assert!(got);
    assert_eq!(e.year.as_deref(), Some("1997"));
    // any genre the answer has is taken, even an empty one
    assert_eq!(e.genre.as_deref(), Some(""));
    assert_eq!(e.description.as_deref(), Some("desc"));
    assert_eq!(e.ratings, vec![("musicbrainz".to_string(), 8.0f64.to_bits())]);
    let mut p2 = music_patch("discogs", Some(7.0), vec![("discogs", 9.0)]);
    p2.year = Some(2001);
    p2.description = Some("other".into());
    merge_plugin_response(&mut e, "discogs-plugin", p2, &mut got);
    assert_eq!(e.year.as_deref(), Some("1997"));
    assert_eq!(e.description.as_deref(), Some("desc"));
    let d = e.ratings.iter().find(|(k, _)| k == "discogs").map(|(_, v)| f64::from_bits(*v));
    assert_eq!(d, Some(9.0));
}

#[test]
fn album_answers_report_rating() {
    let mut e = album("X", None);
    assert!(!merge_album_answers(&mut e, vec![("a".into(), None), ("b".into(), Some(music_patch("b", None, vec![])))]));
    assert_eq!(e.year.as_deref(), Some("1997"));
    let mut e = album("X", None);
    assert!(merge_album_answers(&mut e, vec![("a".into(), Some(music_patch("a", Some(5.0), vec![])))]));
}

#[test]
fn search_entries_take_the_requested_tab() {
    let mut e = entry("a", Some("tt1"));
    e.tab = "series".into();
    e.artist = Some("x".into());
    let ms = catalog_entries_to_media(vec![e], &MediaTab::Music);
    assert_eq!(ms.len(), 1);
    assert!(matches!(ms[0].tab, MediaTab::Music));
    assert_eq!(ms[0].artist_name, None);
    assert_eq!(ms[0].imdb_id.as_deref(), Some("tt1"));
}
