use stui_runtime::abi::{EntryKind, IdSource, MetadataVerb, PluginEntry, SearchScope};
use stui_runtime::cli::format_duration_signed;
use stui_runtime::media::{MediaSource, StreamProtocol};
use stui_runtime::outcome::{ratings_payload, verb_outcome, verb_payload, CacheWrite, VerbResults};
use stui_runtime::request::{
    absorb_enrich_ids, effective_kind, entry_kind_from_hint, imdb_id_from_request, ratings_kind,
    DetailMetadataPartial, DetailMetadataRequest,
};
use stui_runtime::subtitles::kind_to_scope;
use stui_runtime::wire_metadata::{EnrichData, GetDetailMetadataRequest, MetadataPayload, RatingsAggregatorData};

fn wire_req(id_source: &str, ids: Vec<(&str, &str)>) -> GetDetailMetadataRequest {
    GetDetailMetadataRequest {
        entry_id: "tt0816692".into(),
        id_source: id_source.into(),
        kind: "movies".into(),
        title: "Interstellar".into(),
        year: Some(2014),
        external_ids: ids.into_iter().map(|(k, v)| (k.to_string(), v.to_string())).collect(),
    }
}

#[test]
fn detail_request_from_wire() {
    let d = DetailMetadataRequest::from_wire(wire_req("imdb", vec![("tmdb", "157336")]));
    assert!(matches!(d.id_source, IdSource::Imdb));
    assert_eq!(d.kind, "movies");
    assert_eq!(d.per_verb_timeout, 8000);
    assert_eq!(d.external_ids, vec![("tmdb".to_string(), "157336".to_string())]);
    let o = DetailMetadataRequest::from_wire(wire_req("letterboxd", vec![]));
    assert!(matches!(o.id_source, IdSource::Other(ref s) if s == "letterboxd"));
}

#[test]
fn imdb_id_resolution() {
    let d = DetailMetadataRequest::from_wire(wire_req("imdb", vec![]));
    assert_eq!(imdb_id_from_request(&d).as_deref(), Some("tt0816692"));
    let d = DetailMetadataRequest::from_wire(wire_req("tmdb", vec![("imdb", "tt9")]));
    assert_eq!(imdb_id_from_request(&d).as_deref(), Some("tt9"));
    let d = DetailMetadataRequest::from_wire(wire_req("tmdb", vec![("imdb", "")]));
    assert_eq!(imdb_id_from_request(&d), None);
}

#[test]
fn kinds() {
    assert_eq!(entry_kind_from_hint("anime"), EntryKind::Series);
    assert_eq!(entry_kind_from_hint("music"), EntryKind::Track);
    assert_eq!(entry_kind_from_hint("podcasts"), EntryKind::Movie);
    assert_eq!(effective_kind("series", &IdSource::Anilist), "anime");
    assert_eq!(effective_kind("series", &IdSource::Tvdb), "series");
    assert_eq!(effective_kind("movies", &IdSource::Kitsu), "movies");
    assert_eq!(ratings_kind("movies").as_deref(), Some("movie"));
    assert_eq!(ratings_kind("anime").as_deref(), Some("series"));
    assert_eq!(ratings_kind("music"), None);
    assert_eq!(kind_to_scope(EntryKind::Episode), SearchScope::Series);
    assert_eq!(kind_to_scope(EntryKind::Track), SearchScope::Movie);
}

#[test]
fn enrich_ids_do_not_clobber_request_ids() {
    let mut d = DetailMetadataRequest::from_wire(wire_req("imdb", vec![("tmdb", "1")]));
    let payload = MetadataPayload::Enrich(EnrichData {
        external_ids: vec![("tmdb".into(), "2".into()), ("tvdb".into(), "3".into())],
        ..Default::default()
    });
    absorb_enrich_ids(&mut d, &payload);
    let get = |k: &str| d.external_ids.iter().find(|(a, _)| a == k).map(|(_, v)| v.clone());
    assert_eq!(get("tmdb").as_deref(), Some("1"));
    assert_eq!(get("tvdb").as_deref(), Some("3"));
    assert_eq!(d.entry_id, "tt0816692");
}

#[test]
fn partial_into_wire_names_the_verb() {
    let p = DetailMetadataPartial {
        entry_id: "e".into(),
        verb: MetadataVerb::RatingsAggregator,
        payload: MetadataPayload::Empty,
    };
    let w = p.into_wire();
    assert_eq!(w.verb, "ratings_aggregator");
    assert_eq!(w.entry_id, "e");
    assert_eq!(w.payload, MetadataPayload::Empty);
}

#[test]
fn verb_payloads() {
    let (p, authoritative) = verb_payload(VerbResults::Related(Vec::new()));
    assert_eq!(p, MetadataPayload::Empty);
    assert!(!authoritative);
    let mut a = PluginEntry::default();
    a.id = "1".into();
    a.source = "tmdb".into();
    a.title = "A".into();
    let (p, authoritative) = verb_payload(VerbResults::Related(vec![vec![a.clone()], vec![a]]));
    assert!(authoritative);
    match p {
        MetadataPayload::Related(r) => assert_eq!(r.items.len(), 1),
        other => panic!("unexpected {:?}", other),
    }
    let d = RatingsAggregatorData { description: "IMDb 8.7".into(), external_url: None };
    assert_eq!(ratings_payload(Ok(Some(d.clone()))), MetadataPayload::RatingsAggregator(d));
    assert_eq!(ratings_payload(Ok(None)), MetadataPayload::Empty);
    assert_eq!(ratings_payload(Err("x".into())), MetadataPayload::Empty);
}

#[test]
fn durations() {
    assert_eq!(format_duration_signed(45), "in 45s");
    assert_eq!(format_duration_signed(-120), "-2m (expired)");
    assert_eq!(format_duration_signed(3700), "in 1h 1m");
    assert_eq!(format_duration_signed(90000), "in 1d 1h");
}

#[test]
fn media_classifications() {
    assert!(MediaSource::Radio.is_audio_only());
    assert!(!MediaSource::Movie.is_audio_only());
    assert!(MediaSource::Album.supports_torrent());
    assert!(!MediaSource::Radio.supports_torrent());
    assert!(!MediaSource::browseable().is_empty());
    assert!(StreamProtocol::Hls.is_direct());
    assert!(!StreamProtocol::Magnet.is_direct());
}

#[test]
fn verb_outcomes_and_cache_writes() {
    let (p, w) = verb_outcome(true, VerbResults::Credits(Vec::new()));
    assert_eq!(p, MetadataPayload::Empty);
    assert_eq!(w, CacheWrite::Skip);
    let (p, w) = verb_outcome(false, VerbResults::Credits(Vec::new()));
    assert_eq!(p, MetadataPayload::Empty);
    assert_eq!(w, CacheWrite::Negative);
    let mut a = PluginEntry::default();
    a.id = "1".into();
    a.source = "tmdb".into();
    let (p, w) = verb_outcome(false, VerbResults::Related(vec![vec![a]]));
    assert_eq!(w, CacheWrite::Positive);
    assert!(matches!(p, MetadataPayload::Related(_)));
}
