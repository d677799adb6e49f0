use stui_runtime::abi::SearchScope;
use stui_runtime::ipc::{MediaEntry, MediaTab, ScopeError};
use stui_runtime::search_scoped::{
    dedup_key, merge_dedupe, no_sources_frame, KeyedEntry, ScopeAction, ScopeEvent, ScopeTiming,
    ScopedSearchConfig,
};
use stui_runtime::scope_run::{RunEvent, ScopeRun};

fn make_entry(id: &str) -> MediaEntry {
    MediaEntry {
        id: id.into(),
        title: id.into(),
        provider: "test".into(),
        tab: MediaTab::Music,
        source: "test".into(),
        ..Default::default()
    }
}

fn keyed(e: MediaEntry, priority: u64) -> KeyedEntry {
    let key = dedup_key(&e, &e.title.to_lowercase());
    KeyedEntry { entry: e, key, priority }
}

#[test]
fn dedup_key_prefers_mal_over_imdb_when_both_present() {
    let mut e = make_entry("anilist-16498");
    e.title = "AoT".into();
    e.year = Some("2013".into());
    e.mal_id = Some("16498".into());
    e.imdb_id = Some("tt2560140".into());
    assert_eq!(dedup_key(&e, "aot"), "mal:16498");
}

#[test]
fn dedup_key_falls_back_to_imdb_when_mal_missing() {
    let mut e = make_entry("omdb-tt1375666");
    e.title = "Inception".into();
    e.year = Some("2010".into());
    e.imdb_id = Some("tt1375666".into());
    assert_eq!(dedup_key(&e, "inception"), "imdb:tt1375666");
}

#[test]
fn dedup_key_falls_back_to_title_year_when_no_foreign_id() {
    let mut e = make_entry("tmdb-27205");
    e.title = "Inception".into();
    e.year = Some("2010".into());
    let k = dedup_key(&e, "inception");
    assert!(k.starts_with("title:"), "expected title-keyed, got {k}");
    assert!(k.contains("2010"), "expected year in key, got {k}");
    e.year = None;
    assert_eq!(dedup_key(&e, "inception"), "title:inception:?");
}

#[test]
fn dedup_key_treats_empty_mal_as_missing() {
    let mut e = make_entry("anilist-X");
    e.title = "X".into();
    e.year = Some("2020".into());
    e.mal_id = Some("".into());
    e.imdb_id = Some("tt0".into());
    assert_eq!(dedup_key(&e, "x"), "imdb:tt0");
}

#[test]
fn merge_dedupe_collapses_anilist_kitsu_via_mal() {
    let mut anilist = make_entry("anilist-16498");
    anilist.provider = "anilist".into();
    anilist.title = "Attack on Titan".into();
    anilist.year = Some("2013".into());
    anilist.mal_id = Some("16498".into());

    let mut kitsu = make_entry("kitsu-7442");
    kitsu.provider = "kitsu".into();
    kitsu.title = "Shingeki no Kyojin".into();
    kitsu.year = Some("2013".into());
    kitsu.mal_id = Some("16498".into());

    let merged = merge_dedupe(vec![keyed(kitsu, 4), keyed(anilist, 3)]);
    assert_eq!(merged.len(), 1, "AniList and Kitsu with same MAL should collapse");
    assert_eq!(merged[0].provider, "anilist");
    assert_eq!(merged[0].title, "Attack on Titan");
}

#[test]
fn merge_dedupe_collapses_tvdb_omdb_via_imdb() {
    let mut tvdb = make_entry("tvdb-81189");
    tvdb.provider = "tvdb".into();
    tvdb.title = "Breaking Bad".into();
    tvdb.year = Some("2008".into());
    tvdb.imdb_id = Some("tt0903747".into());

    let mut omdb = make_entry("omdb-tt0903747");
    omdb.provider = "omdb".into();
    omdb.title = "Breaking Bad: The Series".into();
    omdb.year = Some("2008".into());
    omdb.imdb_id = Some("tt0903747".into());

    let merged = merge_dedupe(vec![keyed(tvdb, 1), keyed(omdb, 2)]);
    assert_eq!(merged.len(), 1, "TVDB and OMDb with same imdb should collapse");
    assert_eq!(merged[0].provider, "tvdb");
    assert_eq!(merged[0].title, "Breaking Bad");
}

#[test]
fn imdb_keyed_merge_keeps_tvdb_over_anilist_as_spine() {
    let mut tvdb = make_entry("tvdb-81189");
    tvdb.provider = "tvdb".into();
    tvdb.title = "Breaking Bad".into();
    tvdb.year = Some("2008".into());
    tvdb.imdb_id = Some("tt0903747".into());

    let mut anilist = make_entry("anilist-X");
    anilist.provider = "anilist".into();
    anilist.title = "Breaking Bad".into();
    anilist.year = Some("2008".into());
    anilist.imdb_id = Some("tt0903747".into());

    let merged = merge_dedupe(vec![keyed(tvdb, 1), keyed(anilist, 3)]);
    assert_eq!(merged.len(), 1);
    assert_eq!(merged[0].provider, "tvdb");
}

#[test]
fn merge_dedupe_field_fold_fills_holes_from_secondary() {
    let mut anilist = make_entry("anilist-100");
    anilist.provider = "anilist".into();
    anilist.title = "X".into();
    anilist.year = Some("2020".into());
    anilist.mal_id = Some("100".into());
    anilist.description = None;

    let mut kitsu = make_entry("kitsu-100");
    kitsu.provider = "kitsu".into();
    kitsu.title = "X".into();
    kitsu.year = Some("2020".into());
    kitsu.mal_id = Some("100".into());
    kitsu.description = Some("Filled by secondary".into());

    let merged = merge_dedupe(vec![keyed(anilist, 3), keyed(kitsu, 4)]);
    assert_eq!(merged.len(), 1);
    assert_eq!(merged[0].provider, "anilist");
    assert_eq!(merged[0].description.as_deref(), Some("Filled by secondary"));
}

#[test]
fn merge_dedupe_keeps_first_seen_order_and_unions_ratings() {
    let mut a = make_entry("a");
    a.imdb_id = Some("tt1".into());
    a.ratings = vec![("imdb".into(), 7.5f64.to_bits())];
    let b = make_entry("b");
    let mut c = make_entry("c");
    c.imdb_id = Some("tt1".into());
    c.ratings = vec![("imdb".into(), 1.0f64.to_bits()), ("tmdb".into(), 8.0f64.to_bits())];
    let merged = merge_dedupe(vec![keyed(a, 5), keyed(b, 5), keyed(c, 5)]);
    let ids: Vec<&str> = merged.iter().map(|e| e.id.as_str()).collect();
    assert_eq!(ids, vec!["a", "b"]);
    assert_eq!(
        merged[0].ratings,
        vec![("imdb".to_string(), 7.5f64.to_bits()), ("tmdb".to_string(), 8.0f64.to_bits())]
    );
}

#[test]
fn timing_emits_one_partial_then_finishes() {
    let cfg = ScopedSearchConfig::default();
    assert_eq!((cfg.partial_deadline, cfg.hard_floor), (500, 2000));
    let mut t = ScopeTiming::start(2);
    assert_eq!(t.step(ScopeEvent::Answered), ScopeAction::ArmPartialDeadline);
    assert_eq!(t.step(ScopeEvent::PartialDeadline), ScopeAction::EmitPartial);
    assert_eq!(t.step(ScopeEvent::HardFloor), ScopeAction::Wait);
    assert!(!t.finished());
    assert_eq!(t.step(ScopeEvent::Failed), ScopeAction::Wait);
    assert!(t.finished());
    assert_eq!(t.final_error(false), None);
    // One source answered (with nothing) and one failed: not every source failed.
    assert_eq!(t.final_error(true), None);
}

#[test]
fn timing_all_failed_only_when_every_source_failed() {
    let mut t = ScopeTiming::start(2);
    assert_eq!(t.step(ScopeEvent::Failed), ScopeAction::ArmPartialDeadline);
    assert_eq!(t.step(ScopeEvent::Failed), ScopeAction::Wait);
    assert!(t.finished());
    assert_eq!(t.final_error(true), Some(ScopeError::AllFailed));
}

#[test]
fn hard_floor_waits_once_a_source_responded() {
    let mut t = ScopeTiming::start(2);
    assert_eq!(t.step(ScopeEvent::Answered), ScopeAction::ArmPartialDeadline);
    assert_eq!(t.step(ScopeEvent::HardFloor), ScopeAction::Wait);
    assert_eq!(t.step(ScopeEvent::PartialDeadline), ScopeAction::EmitPartial);
    assert_eq!(t.step(ScopeEvent::Answered), ScopeAction::Wait);
    assert!(t.finished());
}

#[test]
fn hard_floor_emits_empty_partial_when_nobody_responds() {
    let mut t = ScopeTiming::start(1);
    assert_eq!(t.step(ScopeEvent::PartialDeadline), ScopeAction::Wait);
    assert_eq!(t.step(ScopeEvent::HardFloor), ScopeAction::EmitEmptyPartial);
    let f = no_sources_frame(7, SearchScope::Track);
    assert_eq!(f.error, Some(ScopeError::NoPluginsConfigured));
    assert!(!f.partial && f.entries.is_empty());
}

#[test]
fn run_with_one_empty_answer_and_one_failure_is_not_all_failed() {
    let (mut run, first) = ScopeRun::start(1, SearchScope::Movie, 2);
    assert!(first.is_none());
    assert!(run.step(RunEvent::Answered(Vec::new())).is_none());
    let last = run.step(RunEvent::Failed).expect("final frame");
    assert!(!last.partial);
    assert!(last.entries.is_empty());
    assert_eq!(last.error, None);
    assert_eq!((last.query_id, last.scope), (1, SearchScope::Movie));
    assert!(run.step(RunEvent::PartialDeadline).is_none());
}

#[test]
fn run_sends_partial_at_deadline_not_empty_partial_after_an_answer() {
    let (mut run, _) = ScopeRun::start(9, SearchScope::Artist, 2);
    assert!(run.step(RunEvent::Answered(vec![keyed(make_entry("e"), 0)])).is_none());
    assert!(run.step(RunEvent::HardFloor).is_none());
    let partial = run.step(RunEvent::PartialDeadline).expect("partial frame");
    assert!(partial.partial);
    assert_eq!(partial.entries.len(), 1);
    assert_eq!(partial.entries[0].id, "e");
    let last = run.step(RunEvent::Answered(Vec::new())).expect("final frame");
    assert!(!last.partial);
    assert_eq!(last.entries.len(), 1);
    assert_eq!(last.query_id, 9);
}

#[test]
fn run_hard_floor_before_any_answer_sends_empty_partial() {
    let (mut run, _) = ScopeRun::start(3, SearchScope::Track, 1);
    let f = run.step(RunEvent::HardFloor).expect("empty partial");
    assert!(f.partial && f.entries.is_empty());
    let last = run.step(RunEvent::Failed).expect("final frame");
    assert_eq!(last.error, Some(ScopeError::AllFailed));
}

#[test]
fn run_without_sources_is_over_at_once() {
    let (mut run, first) = ScopeRun::start(4, SearchScope::Album, 0);
    let f = first.expect("no-sources frame");
    assert_eq!(f.error, Some(ScopeError::NoPluginsConfigured));
    assert!(!f.partial);
    assert!(run.step(RunEvent::HardFloor).is_none());
}
