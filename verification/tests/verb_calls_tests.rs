use stui_runtime::abi::{ArtworkSize, EntryKind, IdSource, MetadataVerb, RelationKind};
use stui_runtime::dispatch::{ManifestCapabilityProbe, PluginCaps, VerbSet};
use stui_runtime::request::DetailMetadataRequest;
use stui_runtime::verb_calls::{enrich_request, plan_verb_calls, VerbCall, RELATED_LIMIT};

fn caps(name: &str, credits_sources: &[&str]) -> (String, PluginCaps) {
    let verbs = VerbSet { search: true, lookup: true, enrich: true, credits: true, artwork: true, related: true };
    let verb_id_sources = if credits_sources.is_empty() {
        Vec::new()
    } else {
        vec![(MetadataVerb::Credits, credits_sources.iter().map(|s| s.to_string()).collect())]
    };
    (name.to_string(), PluginCaps { name: name.to_string(), verbs, tags: Vec::new(), verb_id_sources })
}

fn detail_request() -> DetailMetadataRequest {
    DetailMetadataRequest {
        entry_id: "tt0111161".to_string(),
        id_source: IdSource::Imdb,
        kind: "movies".to_string(),
        per_verb_timeout: 1000,
        title: "The Shawshank Redemption".into(),
        year: Some(1994),
        external_ids: vec![("tmdb".to_string(), "278".to_string())],
    }
}

#[test]
fn credits_calls_follow_declared_id_sources_and_skip_unservable() {
    let probe = ManifestCapabilityProbe {
        plugin_caps: vec![caps("xmdb", &["imdb"]), caps("strict", &["anilist"]), caps("tmdb", &[])],
        tvdb_available: false,
        fanart_available: false,
    };
    let sources = vec!["xmdb".to_string(), "strict".to_string(), "tmdb".to_string()];
    let calls = plan_verb_calls(&probe, &sources, &detail_request(), MetadataVerb::Credits);
    assert_eq!(calls.len(), 2);
    assert_eq!(calls[0].0, "xmdb");
    match &calls[0].1 {
        VerbCall::Credits(c) => {
            assert_eq!(c.id, "tt0111161");
            assert_eq!(c.id_source, "imdb");
            assert_eq!(c.kind, EntryKind::Movie);
            assert!(!c.force_refresh);
        }
        other => panic!("unexpected call {:?}", other),
    }
    assert_eq!(calls[1].0, "tmdb");
    match &calls[1].1 {
        VerbCall::Credits(c) => {
            assert_eq!(c.id, "278");
            assert_eq!(c.id_source, "tmdb");
        }
        other => panic!("unexpected call {:?}", other),
    }
}

#[test]
fn artwork_and_related_calls_carry_fixed_options() {
    let probe = ManifestCapabilityProbe { plugin_caps: vec![caps("tmdb", &[])], tvdb_available: false, fanart_available: false };
    let sources = vec!["tmdb".to_string()];
    let art = plan_verb_calls(&probe, &sources, &detail_request(), MetadataVerb::Artwork);
    match &art[0].1 {
        VerbCall::Artwork(a) => {
            assert_eq!(a.size, ArtworkSize::Any);
            assert_eq!(a.id, "278");
        }
        other => panic!("unexpected call {:?}", other),
    }
    let rel = plan_verb_calls(&probe, &sources, &detail_request(), MetadataVerb::Related);
    match &rel[0].1 {
        VerbCall::Related(r) => {
            assert_eq!(r.limit, RELATED_LIMIT);
            assert_eq!(r.limit, 20);
            assert_eq!(r.relation, RelationKind::Any);
        }
        other => panic!("unexpected call {:?}", other),
    }
}

#[test]
fn enrich_request_describes_the_entry() {
    let e = enrich_request(&detail_request(), "tmdb", "278".to_string());
    assert_eq!(e.partial.id, "278");
    assert_eq!(e.partial.kind, EntryKind::Movie);
    assert_eq!(e.partial.title, "The Shawshank Redemption");
    assert_eq!(e.partial.year, Some(1994));
    assert_eq!(e.partial.source, "tmdb");
    assert_eq!(e.partial.external_ids, vec![("tmdb".to_string(), "278".to_string())]);
    assert_eq!(e.prefer_id_source, Some("imdb".to_string()));
    assert!(e.partial.genre.is_none());
    assert!(!e.force_refresh);
}
