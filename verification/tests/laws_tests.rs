use stui_runtime::catalog::{merge_enrich_into, CatalogEntry, EnrichPatch};
use stui_runtime::cli::parse_usize;
use stui_runtime::media::{MediaId, MediaSource};
use stui_runtime::ipc::sanitize_secrets;
use stui_runtime::outcome::{merge_keywords, Keyword, KeywordsResponse, MAX_MERGED_KEYWORDS};

fn kw_resp(names: &[&str]) -> Result<KeywordsResponse, String> {
    Ok(KeywordsResponse {
        keywords: names
            .iter()
            .map(|n| Keyword { name: n.to_string(), source_id: None, provider: None })
            .collect(),
    })
}

#[test]
fn keywords_merge_dedups_case_insensitively() {
    let result = merge_keywords(vec![
        ("fake-p1".to_string(), kw_resp(&["Thriller", "Drama"])),
        ("fake-p2".to_string(), kw_resp(&["thriller", "Horror"])),
    ])
    .unwrap();
    let names: Vec<_> = result.keywords.iter().map(|k| k.name.to_lowercase()).collect();
    assert_eq!(result.keywords.len(), 3);
    assert!(names.contains(&"thriller".to_string()));
    assert!(names.contains(&"drama".to_string()));
    assert!(names.contains(&"horror".to_string()));
}

#[test]
fn keywords_merge_round_robin_lets_late_providers_contribute() {
    let many: Vec<String> = (0..250).map(|i| format!("keyword_{i}")).collect();
    let many_refs: Vec<&str> = many.iter().map(|s| s.as_str()).collect();
    let result = merge_keywords(vec![
        ("fake-p1".to_string(), kw_resp(&many_refs)),
        ("fake-p2".to_string(), kw_resp(&["independent film"])),
    ])
    .unwrap();
    assert_eq!(result.keywords.len(), MAX_MERGED_KEYWORDS);
    let names: Vec<_> = result.keywords.iter().map(|k| k.name.as_str()).collect();
    assert!(names.contains(&"independent film"));
}

#[test]
fn keywords_merge_caps_at_max() {
    let many: Vec<String> = (0..300).map(|i| format!("kw_{i}")).collect();
    let many_refs: Vec<&str> = many.iter().map(|s| s.as_str()).collect();
    let many2: Vec<String> = (300..600).map(|i| format!("kw_{i}")).collect();
    let many2_refs: Vec<&str> = many2.iter().map(|s| s.as_str()).collect();
    let result = merge_keywords(vec![
        ("fake-p1".to_string(), kw_resp(&many_refs)),
        ("fake-p2".to_string(), kw_resp(&many2_refs)),
    ])
    .unwrap();
    assert_eq!(result.keywords.len(), MAX_MERGED_KEYWORDS);
}

#[test]
fn keywords_merge_partial_failure_returns_partial() {
    let result = merge_keywords(vec![
        ("fake-p1".to_string(), Err("upstream failed".into())),
        ("fake-p2".to_string(), kw_resp(&["sci-fi", "space"])),
    ]);
    let keywords = result.unwrap().keywords;
    let names: Vec<_> = keywords.iter().map(|k| k.name.as_str()).collect();
    assert!(names.contains(&"sci-fi"));
    assert!(names.contains(&"space"));
}

#[test]
fn keywords_merge_all_failed_returns_err() {
    let result = merge_keywords(vec![
        ("fake-p1".to_string(), Err("fail1".into())),
        ("fake-p2".to_string(), Err("fail2".into())),
    ]);
    assert!(result.unwrap_err().contains("all 2 keyword providers failed"));
}

#[test]
fn keywords_merge_provider_field_stamped() {
    let result = merge_keywords(vec![
        ("fake-p1".to_string(), kw_resp(&["action"])),
        ("fake-p2".to_string(), kw_resp(&["comedy"])),
    ])
    .unwrap();
    for kw in &result.keywords {
        assert!(kw.provider.is_some());
    }
    let action = result.keywords.iter().find(|k| k.name == "action").unwrap();
    assert_eq!(action.provider.as_deref(), Some("fake-p1"));
    let comedy = result.keywords.iter().find(|k| k.name == "comedy").unwrap();
    assert_eq!(comedy.provider.as_deref(), Some("fake-p2"));
}

#[test]
fn merged_keywords_have_distinct_keys() {
    let result = merge_keywords(vec![
        ("a".to_string(), kw_resp(&[" Noir ", "noir", "NOIR", "Heist"])),
        ("b".to_string(), kw_resp(&["heist", "noir "])),
    ])
    .unwrap();
    let keys: Vec<String> = result.keywords.iter().map(|k| k.name.trim().to_lowercase()).collect();
    assert_eq!(keys, vec!["noir", "heist"]);
}

#[test]
fn merging_an_answer_twice_changes_nothing_more() {
    let p = EnrichPatch {
        source: "tmdb".into(),
        ratings: vec![("imdb".into(), 7.5f64.to_bits())],
        rating_votes: vec![("imdb".into(), 10)],
        rating: Some(8.0f64.to_bits()),
        poster_url: Some("p".into()),
        description: Some("d".into()),
        genre: None,
        year: Some(2001),
        original_language: None,
        external_ids: vec![("tmdb".into(), "9".into())],
    };
    let mut e = CatalogEntry { id: "a".into(), title: "A".into(), ..Default::default() };
    assert!(merge_enrich_into(&mut e, p.clone()));
    let once = e.clone();
    merge_enrich_into(&mut e, p);
    assert_eq!(e.ratings, once.ratings);
    assert_eq!(e.rating_votes, once.rating_votes);
    assert_eq!(e.poster_url, once.poster_url);
    assert_eq!(e.description, once.description);
    assert_eq!(e.year, once.year);
    assert_eq!(e.tmdb_id, once.tmdb_id);
}

#[test]
fn media_id_wire_form_parses_back() {
    let id = MediaId::new("tmdb", "movie:tt0816692");
    let back = MediaId::parse(&id.to_string_id());
    assert_eq!(back, id);
}

#[test]
fn printed_counts_parse_back() {
    for n in [0usize, 7, 10, 20, 12345, usize::MAX] {
        assert_eq!(parse_usize(&n.to_string()), Some(n));
    }
}

#[test]
fn scrubbing_twice_is_scrubbing_once() {
    for msg in [
        "https://x/y?api_key=abc123&token=t0k\tmore",
        "notapikey=visible access_token=z)",
        "token=",
        "plain text",
    ] {
        let once = sanitize_secrets(msg);
        assert_eq!(sanitize_secrets(&once), once);
    }
}

#[test]
fn tab_labels_select_their_source_again() {
    for s in [
        MediaSource::Movie,
        MediaSource::Series,
        MediaSource::Track,
        MediaSource::Radio,
        MediaSource::Podcast,
        MediaSource::Video,
        MediaSource::LocalFile,
    ] {
        assert_eq!(MediaSource::from_tab_str(s.tab_label()), s);
    }
}
