use stui_runtime::abi::{
    ArtworkResponse, ArtworkSize, ArtworkVariant, CastMember, CastRole, CreditsResponse,
    CrewMember, CrewRole, EnrichResponse, EntryKind, IdSource, PluginEntry,
};
use stui_runtime::merge::{merge_artwork, merge_credits, merge_enrich, merge_related};
use stui_runtime::request::{detail_second_phase, resolve_id_for_plugin, DetailMetadataRequest};
use stui_runtime::abi::MetadataVerb;
use stui_runtime::wire::{artwork_to_payload, credits_to_payload, crew_role_to_str};
use stui_runtime::wire_metadata::{humanize_role, CreditsData, MetadataPayload};

fn cm(name: &str, role: CrewRole) -> CrewMember {
    CrewMember { name: name.into(), role, department: None, external_ids: Vec::new() }
}

fn cast(name: &str, character: Option<&str>, order: Option<u32>) -> CastMember {
    CastMember {
        name: name.into(),
        role: CastRole::Actor,
        character: character.map(|s| s.into()),
        instrument: None,
        billing_order: order,
        external_ids: Vec::new(),
    }
}

fn entry(id: &str, source: &str, title: &str) -> PluginEntry {
    PluginEntry {
        id: id.into(),
        kind: EntryKind::Movie,
        title: title.into(),
        source: source.into(),
        ..Default::default()
    }
}

fn av(url: &str, size: ArtworkSize, width: Option<u32>) -> ArtworkVariant {
    ArtworkVariant { size, url: url.into(), mime: "image/jpeg".into(), width, height: None }
}

fn req(kind: &str, id_source: IdSource, entry_id: &str) -> DetailMetadataRequest {
    DetailMetadataRequest {
        entry_id: entry_id.to_string(),
        id_source,
        kind: kind.to_string(),
        per_verb_timeout: 1000,
        title: "T".into(),
        year: None,
        external_ids: Vec::new(),
    }
}

// ── Merge ────────────────────────────────────────────────────────────────────

#[test]
fn merge_credits_unions_crew_with_dedup_by_name_role() {
    let a = CreditsResponse { cast: vec![], crew: vec![cm("Nolan", CrewRole::Director)] };
    let b = CreditsResponse {
        cast: vec![],
        crew: vec![cm("Nolan", CrewRole::Director), cm("Pfister", CrewRole::Cinematographer)],
    };
    let merged = merge_credits(Some(a), vec![b]);
    assert_eq!(merged.crew.len(), 2);
    assert!(merged.crew.iter().any(|c| c.name == "Pfister"));
}

#[test]
fn merge_credits_primary_missing_uses_secondaries() {
    let merged = merge_credits(
        None,
        vec![CreditsResponse { cast: vec![], crew: vec![cm("Kubrick", CrewRole::Director)] }],
    );
    assert_eq!(merged.crew.len(), 1);
}

#[test]
fn merge_credits_same_name_different_role_keeps_both_rows() {
    let a = CreditsResponse {
        cast: vec![],
        crew: vec![cm("Nolan", CrewRole::Director), cm("Nolan", CrewRole::Writer)],
    };
    let merged = merge_credits(Some(a), vec![]);
    assert_eq!(merged.crew.len(), 2);
}

#[test]
fn merge_credits_cast_sorted_by_billing_order() {
    let a = CreditsResponse {
        cast: vec![
            cast("A", Some("alpha"), Some(3)),
            cast("B", Some("beta"), Some(1)),
            cast("C", Some("gamma"), None),
        ],
        crew: vec![],
    };
    let merged = merge_credits(Some(a), vec![]);
    assert_eq!(merged.cast[0].name, "B");
    assert_eq!(merged.cast[1].name, "A");
    assert_eq!(merged.cast[2].name, "C");
}

#[test]
fn merge_credits_cast_same_name_role_different_character_keeps_both() {
    let a = CreditsResponse {
        cast: vec![cast("Jane", Some("Hero"), Some(1)), cast("Jane", Some("Villain"), Some(2))],
        crew: vec![],
    };
    let merged = merge_credits(Some(a), vec![]);
    assert_eq!(merged.cast.len(), 2);
}

#[test]
fn merge_credits_crew_sorted_by_department_role_name() {
    let mut w = cm("Zed", CrewRole::Writer);
    w.department = Some("Writing".into());
    let mut d = cm("Ann", CrewRole::Director);
    d.department = Some("Directing".into());
    let nodept = cm("Bob", CrewRole::Editor);
    let merged = merge_credits(
        Some(CreditsResponse { cast: vec![], crew: vec![w, nodept, d] }),
        vec![],
    );
    let names: Vec<&str> = merged.crew.iter().map(|c| c.name.as_str()).collect();
    assert_eq!(names, vec!["Bob", "Ann", "Zed"]);
}

#[test]
fn merge_artwork_dedups_by_url() {
    let a = ArtworkResponse {
        variants: vec![av("https://x/poster.jpg", ArtworkSize::Standard, Some(500))],
    };
    let b = ArtworkResponse {
        variants: vec![
            av("https://x/poster.jpg", ArtworkSize::Standard, Some(500)),
            av("https://y/hires.jpg", ArtworkSize::HiRes, Some(2000)),
        ],
    };
    let merged = merge_artwork(vec![a, b]);
    assert_eq!(merged.variants.len(), 2);
    assert_eq!(merged.variants[0].url, "https://y/hires.jpg");
}

#[test]
fn merge_artwork_sorts_by_size_then_width() {
    let resp = ArtworkResponse {
        variants: vec![
            av("a", ArtworkSize::Standard, Some(500)),
            av("b", ArtworkSize::Standard, Some(800)),
            av("c", ArtworkSize::Thumbnail, Some(200)),
            av("d", ArtworkSize::HiRes, None),
        ],
    };
    let merged = merge_artwork(vec![resp]);
    assert_eq!(merged.variants[0].url, "d");
    assert_eq!(merged.variants[1].url, "b");
    assert_eq!(merged.variants[2].url, "a");
    assert_eq!(merged.variants[3].url, "c");
}

#[test]
fn merge_related_dedups_by_source_id_pair() {
    let a = vec![entry("tt1", "tmdb", "A"), entry("tt2", "tmdb", "B")];
    let b = vec![entry("tt1", "tmdb", "A-dup"), entry("tt3", "omdb", "C")];
    let merged = merge_related(vec![a, b]);
    assert_eq!(merged.len(), 3);
    assert_eq!(merged[0].title, "A");
}

#[test]
fn merge_related_preserves_source_order() {
    let a = vec![entry("tt2", "tmdb", "B"), entry("tt1", "tmdb", "A")];
    let merged = merge_related(vec![a]);
    assert_eq!(merged[0].id, "tt2");
    assert_eq!(merged[1].id, "tt1");
}

#[test]
fn merge_enrich_scalar_fallback_from_secondary_when_primary_has_none() {
    let primary = EnrichResponse {
        entry: PluginEntry {
            id: "tt1".into(),
            kind: EntryKind::Movie,
            title: "T".into(),
            source: "tmdb".into(),
            year: None,
            genre: None,
            ..Default::default()
        },
        confidence: 0.9f32.to_bits(),
    };
    let secondary = EnrichResponse {
        entry: PluginEntry {
            id: "tt1".into(),
            kind: EntryKind::Movie,
            title: "T".into(),
            source: "omdb".into(),
            year: Some(1999),
            genre: Some("Sci-Fi".into()),
            ..Default::default()
        },
        confidence: 0.5f32.to_bits(),
    };
    let merged = merge_enrich(Some(primary), vec![secondary]);
    assert_eq!(merged.entry.year, Some(1999));
    assert_eq!(merged.entry.genre.as_deref(), Some("Sci-Fi"));
    assert_eq!(f32::from_bits(merged.confidence), 0.9);
}

#[test]
fn merge_enrich_primary_wins_when_both_have_some() {
    let primary = EnrichResponse {
        entry: PluginEntry {
            id: "tt1".into(),
            kind: EntryKind::Movie,
            title: "T".into(),
            source: "tmdb".into(),
            year: Some(1999),
            ..Default::default()
        },
        confidence: 0.9f32.to_bits(),
    };
    let secondary = EnrichResponse {
        entry: PluginEntry {
            id: "tt1".into(),
            kind: EntryKind::Movie,
            title: "T".into(),
            source: "omdb".into(),
            year: Some(1998),
            ..Default::default()
        },
        confidence: 0.5f32.to_bits(),
    };
    let merged = merge_enrich(Some(primary), vec![secondary]);
    assert_eq!(merged.entry.year, Some(1999));
}

#[test]
fn merge_enrich_no_primary_uses_first_secondary_as_base() {
    let s = EnrichResponse {
        entry: PluginEntry {
            id: "tt1".into(),
            kind: EntryKind::Movie,
            title: "T".into(),
            source: "omdb".into(),
            year: Some(1999),
            ..Default::default()
        },
        confidence: 0.4f32.to_bits(),
    };
    let merged = merge_enrich(None, vec![s]);
    assert_eq!(merged.entry.year, Some(1999));
    assert_eq!(f32::from_bits(merged.confidence), 0.4);
}

#[test]
fn merge_enrich_unions_external_ids_first_wins() {
    let mut p = entry("tt1", "tmdb", "T");
    p.external_ids = vec![("imdb".into(), "tt1".into())];
    let mut s = entry("x", "anilist", "T");
    s.external_ids = vec![("imdb".into(), "tt9".into()), ("anilist".into(), "42".into())];
    let merged = merge_enrich(
        Some(EnrichResponse { entry: p, confidence: 0 }),
        vec![EnrichResponse { entry: s, confidence: 0 }],
    );
    assert_eq!(
        merged.entry.external_ids,
        vec![("imdb".to_string(), "tt1".to_string()), ("anilist".to_string(), "42".to_string())]
    );
}

// ── Wire ─────────────────────────────────────────────────────────────────────

#[test]
fn credits_empty_produces_credits_variant_with_empty_vecs() {
    let p = credits_to_payload(CreditsResponse { cast: vec![], crew: vec![] });
    assert_eq!(p, MetadataPayload::Credits(CreditsData::default()));
}

#[test]
fn cast_member_roundtrips_through_wire() {
    let resp = CreditsResponse {
        cast: vec![CastMember {
            name: "Jane".into(),
            role: CastRole::Actor,
            character: Some("Hero".into()),
            instrument: None,
            billing_order: Some(1),
            external_ids: Vec::new(),
        }],
        crew: vec![],
    };
    match credits_to_payload(resp) {
        MetadataPayload::Credits(d) => {
            assert_eq!(d.cast.len(), 1);
            assert_eq!(d.cast[0].name, "Jane");
            assert_eq!(d.cast[0].role, "actor");
            assert_eq!(d.cast[0].character.as_deref(), Some("Hero"));
        }
        _ => panic!("wrong variant"),
    }
}

#[test]
fn artwork_splits_backdrop_vs_poster_by_aspect() {
    let resp = ArtworkResponse {
        variants: vec![
            ArtworkVariant {
                size: ArtworkSize::HiRes,
                url: "bd".into(),
                mime: "image/jpeg".into(),
                width: Some(1920),
                height: Some(1080),
            },
            ArtworkVariant {
                size: ArtworkSize::Standard,
                url: "po".into(),
                mime: "image/jpeg".into(),
                width: Some(500),
                height: Some(750),
            },
            ArtworkVariant {
                size: ArtworkSize::Any,
                url: "unk".into(),
                mime: "image/jpeg".into(),
                width: None,
                height: None,
            },
        ],
    };
    match artwork_to_payload(resp) {
        MetadataPayload::Artwork(d) => {
            assert_eq!(d.backdrops.len(), 1);
            assert_eq!(d.backdrops[0].url, "bd");
            assert_eq!(d.posters.len(), 2);
            assert_eq!(d.backdrops[0].size_label, "hi_res");
        }
        _ => panic!("wrong variant"),
    }
}

#[test]
fn crew_role_snake_cases_enum() {
    assert_eq!(crew_role_to_str(&CrewRole::AnimationDirector), "animation_director");
    assert_eq!(crew_role_to_str(&CrewRole::Director), "director");
    assert_eq!(crew_role_to_str(&CrewRole::Other("sound".into())), "sound");
}

#[test]
fn humanize_role_capitalizes_underscored() {
    assert_eq!(humanize_role("animation_director"), "Animation Director");
    assert_eq!(humanize_role("director"), "Director");
    assert_eq!(humanize_role(""), "");
}

// ── Id routing ───────────────────────────────────────────────────────────────

#[test]
fn resolve_manifest_routes_to_external_id_when_primary_does_not_match() {
    let mut r = req("movies", IdSource::Tmdb, "12345");
    r.external_ids.push(("imdb".into(), "tt0111161".into()));
    let got = resolve_id_for_plugin(&r, "xmdb", &vec!["imdb".to_string()]);
    assert_eq!(got, Some(("tt0111161".into(), "imdb".into())));
}

#[test]
fn resolve_manifest_skips_plugin_when_no_compatible_id_available() {
    let r = req("movies", IdSource::Tmdb, "12345");
    let got = resolve_id_for_plugin(&r, "xmdb", &vec!["imdb".to_string()]);
    assert_eq!(got, None);
}

#[test]
fn resolve_manifest_uses_primary_when_id_source_matches_first_declared() {
    let r = req("movies", IdSource::Imdb, "tt0111161");
    let got = resolve_id_for_plugin(&r, "omdb", &vec!["imdb".to_string()]);
    assert_eq!(got, Some(("tt0111161".into(), "imdb".into())));
}

#[test]
fn resolve_legacy_bool_form_uses_plugin_name_as_id_source() {
    let mut r = req("movies", IdSource::Imdb, "tt0111161");
    r.external_ids.push(("tmdb".into(), "999".into()));
    let got = resolve_id_for_plugin(&r, "tmdb", &vec![]);
    assert_eq!(got, Some(("999".into(), "tmdb".into())));
}

#[test]
fn resolve_fanart_routes_kind_conditionally() {
    let mut r = req("series", IdSource::Tmdb, "tmdbid");
    r.external_ids.push(("tvdb".into(), "12345".into()));
    let got = resolve_id_for_plugin(&r, "fanart", &vec![]);
    assert_eq!(got, Some(("12345".into(), "tvdb".into())));
}

#[test]
fn second_phase_adds_ratings_only_with_imdb_id_and_video_kind() {
    let r = req("movies", IdSource::Imdb, "tt0111161");
    let (verbs, call) = detail_second_phase(&r);
    assert_eq!(verbs, vec![MetadataVerb::Credits, MetadataVerb::Artwork, MetadataVerb::Related, MetadataVerb::RatingsAggregator]);
    assert_eq!(call, Some(("tt0111161".to_string(), "movie".to_string())));
    let (verbs, call) = detail_second_phase(&req("music", IdSource::Imdb, "tt1"));
    assert_eq!(verbs.len(), 3);
    assert_eq!(call, None);
    let mut s = req("anime", IdSource::Anilist, "16498");
    s.external_ids = vec![("imdb".to_string(), "tt2560140".to_string())];
    assert_eq!(detail_second_phase(&s).1, Some(("tt2560140".to_string(), "series".to_string())));
}
