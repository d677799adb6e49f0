use stui_runtime::abi::PluginEntry;
use stui_runtime::subtitles::{
    collect_subtitle_candidates, extract_language, normalize_language, rank_subtitle_candidates,
    SubtitleCandidate,
};

#[test]
fn language_normalization() {
    assert_eq!(normalize_language("en"), "en");
    assert_eq!(normalize_language("eng"), "en");
    assert_eq!(normalize_language("English"), "en");
    assert_eq!(normalize_language("ES"), "es");
}

#[test]
fn extract_from_original_language() {
    let entry = PluginEntry {
        id: "x".into(),
        title: "whatever".into(),
        original_language: Some("fr".into()),
        ..Default::default()
    };
    assert_eq!(extract_language(&entry), Some("fr".into()));
}

#[test]
fn extract_from_description_keyword() {
    let entry = PluginEntry {
        id: "x".into(),
        title: "The Movie".into(),
        description: Some("English SDH".into()),
        ..Default::default()
    };
    assert_eq!(extract_language(&entry), Some("en".into()));
}

#[test]
fn language_normalization_trims_and_keeps_unknown() {
    assert_eq!(normalize_language("  Deu "), "de");
    assert_eq!(normalize_language("zho"), "zh");
    assert_eq!(normalize_language("pt-BR"), "pt-br");
    let entry = PluginEntry { title: "Nothing here".into(), ..Default::default() };
    assert_eq!(extract_language(&entry), None);
}

fn cand(id: &str, lang: Option<&str>, imdb: Option<&str>, desc: &str) -> SubtitleCandidate {
    SubtitleCandidate {
        plugin_id: "p".into(),
        plugin_name: "P".into(),
        entry: PluginEntry {
            id: id.into(),
            imdb_id: imdb.map(String::from),
            description: Some(desc.into()),
            ..Default::default()
        },
        language: lang.map(String::from),
    }
}

#[test]
fn rank_keeps_matching_language_and_sorts_imdb_then_description() {
    let cs = vec![
        cand("a", Some("eng"), None, "short"),
        cand("b", Some("fr"), Some("tt1"), "a much longer description"),
        cand("c", Some("English"), Some("tt1"), "x"),
        cand("d", Some("en"), None, "longest description of them all"),
    ];
    let r = rank_subtitle_candidates(cs, "en", Some("tt1"));
    let ids: Vec<&str> = r.iter().map(|c| c.entry.id.as_str()).collect();
    assert_eq!(ids, vec!["c", "d", "a"]);
}

#[test]
fn rank_falls_back_to_non_matching_and_caps_at_five() {
    let cs: Vec<SubtitleCandidate> =
        (0..7).map(|i| cand(&format!("k{i}"), None, None, &"x".repeat(i))).collect();
    let r = rank_subtitle_candidates(cs, "de", None);
    let ids: Vec<&str> = r.iter().map(|c| c.entry.id.as_str()).collect();
    assert_eq!(ids, vec!["k6", "k5", "k4", "k3", "k2"]);
}

#[test]
fn collect_flattens_answers_with_languages() {
    let e1 = PluginEntry { id: "1".into(), title: "German subs".into(), ..Default::default() };
    let e2 = PluginEntry { id: "2".into(), ..Default::default() };
    let r = collect_subtitle_candidates(vec![
        ("id-a".into(), "A".into(), Some(vec![e1, e2])),
        ("id-b".into(), "B".into(), None),
    ]);
    assert_eq!(r.len(), 2);
    assert_eq!(r[0].plugin_name, "A");
    assert_eq!(r[0].language.as_deref(), Some("de"));
    assert_eq!(r[1].language, None);
}
