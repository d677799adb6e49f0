use stui_runtime::cli::parse_i64;
use stui_runtime::error::StuidError;
use stui_runtime::fanart::{
    fanart_keys, fanart_url, movie_slot_items, rank_by_likes_then_lang, tv_slot_items, ArtworkSlot,
    FanartItem, FanartMovie, FanartTv,
};
use stui_runtime::indexer::{is_stale, CacheKey};
use stui_runtime::ipc::MediaTab;
use stui_runtime::lastfm::{album_info_url, album_tracks, AlbumEnvelope, DurationField, RawTrack};
use stui_runtime::logging::{config_for_level, filter_choice};
use stui_runtime::mdblist::{
    default_movies_list, list_url, select_bucket, stringify_id, usable_api_key, IdField, ListKind,
    MdblistIds, MdblistItem, MdblistListResponse,
};

fn item(url: &str, lang: Option<&str>, likes: Option<&str>) -> FanartItem {
    FanartItem { url: url.into(), lang: lang.map(|s| s.into()), likes: likes.map(|s| s.into()) }
}

#[test]
fn fanart_ranks_by_likes_then_language() {
    let items = vec![
        item("a", Some("de"), Some("3")),
        item("b", Some("en"), Some("3")),
        item("c", None, Some("10")),
        item("d", Some("00"), Some("3")),
        item("e", Some("fr"), Some("x")),
        item("f", Some("en"), None),
    ];
    assert_eq!(rank_by_likes_then_lang(items), vec!["c", "b", "a", "d", "f", "e"]);
}

#[test]
fn fanart_logo_slot_puts_hd_first() {
    let m = FanartMovie {
        movieposter: vec![item("p", None, None)],
        moviebackground: Vec::new(),
        movielogo: vec![item("l", None, None)],
        hdmovielogo: vec![item("hd", None, None)],
    };
    let urls: Vec<String> = movie_slot_items(m, ArtworkSlot::Logo).into_iter().map(|i| i.url).collect();
    assert_eq!(urls, vec!["hd", "l"]);
    let t = FanartTv {
        tvposter: vec![item("tp", None, None)],
        showbackground: vec![item("bg", None, None)],
        clearlogo: Vec::new(),
        hdtvlogo: Vec::new(),
    };
    let urls: Vec<String> = tv_slot_items(t, ArtworkSlot::Background).into_iter().map(|i| i.url).collect();
    assert_eq!(urls, vec!["bg"]);
}

#[test]
fn fanart_url_and_keys() {
    assert_eq!(
        fanart_url("P", &None, "movies", "603"),
        "https://webservice.fanart.tv/v3/movies/603?api_key=P"
    );
    assert_eq!(
        fanart_url("P", &Some("U".into()), "tv", "81189"),
        "https://webservice.fanart.tv/v3/tv/81189?api_key=P&client_key=U"
    );
    assert!(fanart_keys("  ".into(), Some("u".into())).is_none());
    assert_eq!(fanart_keys("p".into(), Some(" ".into())), Some(("p".to_string(), None)));
    assert_eq!(fanart_keys("p".into(), Some("u".into())), Some(("p".to_string(), Some("u".to_string()))));
}

#[test]
fn parse_i64_matches_std() {
    for s in ["0", "-0", "+5", "42", "-9223372036854775808", "9223372036854775807", "9223372036854775808", "", "-", "+", "1a", " 1", "-9223372036854775809"] {
        assert_eq!(parse_i64(s), s.parse::<i64>().ok(), "input {:?}", s);
    }
}

#[test]
fn error_texts() {
    assert_eq!(StuidError::no_stream("tt1".into()).message(), "no stream found for 'tt1'");
    assert_eq!(StuidError::no_stream("tt1".into()).user_message(), "No streams found for \"tt1\"");
    assert_eq!(
        StuidError::rate_limited("tmdb".into(), 30).user_message(),
        "tmdb rate limited — retrying in 30s"
    );
    assert_eq!(
        StuidError::rate_limited("tmdb".into(), 30).message(),
        "provider 'tmdb' rate limited (retry after 30s)"
    );
    assert_eq!(
        StuidError::ProviderTimeout { provider: "x".into(), timeout_ms: 500 }.message(),
        "provider 'x' timed out after 500ms"
    );
    assert_eq!(StuidError::config("bad".into()).user_message(), "config error: bad");
    assert_eq!(StuidError::mpv("gone".into()).user_message(), "Player error: gone");
    assert_eq!(
        StuidError::AllCandidatesExhausted { entry_id: "e".into() }.user_message(),
        "No working streams found"
    );
    assert_eq!(StuidError::plugin_load("p".into(), "r".into()).message(), "plugin load failed (p): r");
    assert_eq!(StuidError::stream_failure("u".into(), "r".into()).message(), "stream failed (r): u");
}

#[test]
fn error_classification() {
    assert!(StuidError::provider("p".into(), "r".into()).is_recoverable());
    assert!(StuidError::provider("p".into(), "r".into()).is_provider_failure());
    assert!(StuidError::no_stream("e".into()).is_recoverable());
    assert!(!StuidError::no_stream("e".into()).is_provider_failure());
    assert!(!StuidError::ipc("x".into()).is_recoverable());
    assert!(!StuidError::plugin_not_found("x".into()).is_provider_failure());
}

#[test]
fn lastfm_url_encodes_artist_and_album() {
    assert_eq!(
        album_info_url("Sigur Rós", "( )", "K"),
        "https://ws.audioscrobbler.com/2.0?method=album.getInfo&artist=Sigur%20R%C3%B3s&album=%28%20%29&api_key=K&format=json&autocorrect=1"
    );
    assert_eq!(
        album_info_url("Radiohead", "OK_Computer", "K"),
        "https://ws.audioscrobbler.com/2.0?method=album.getInfo&artist=Radiohead&album=OK_Computer&api_key=K&format=json&autocorrect=1"
    );
}

#[test]
fn duration_field_into_secs() {
    assert_eq!(DurationField::Int(215).into_secs(), Some(215));
    assert_eq!(DurationField::Int(0).into_secs(), None);
    assert_eq!(DurationField::Int(-3).into_secs(), None);
    assert_eq!(DurationField::Str("180".into()).into_secs(), Some(180));
    assert_eq!(DurationField::Str("0".into()).into_secs(), None);
    assert_eq!(DurationField::Str("abc".into()).into_secs(), None);
    assert_eq!(DurationField::Str("4294967296".into()).into_secs(), None);
}

#[test]
fn lastfm_tracks_projection() {
    let env = AlbumEnvelope {
        tracks: Some(vec![
            RawTrack { name: Some("Airbag".into()), duration: Some(DurationField::Int(284)), mbid: Some("".into()), rank: Some(1) },
            RawTrack { name: None, duration: None, mbid: Some("m2".into()), rank: None },
        ]),
        message: None,
    };
    let ts = album_tracks(env).unwrap();
    assert_eq!(ts.len(), 2);
    assert_eq!(ts[0].number, 1);
    assert_eq!(ts[0].duration_secs, Some(284));
    assert_eq!(ts[0].mbid, None);
    assert_eq!(ts[1].number, 2);
    assert_eq!(ts[1].title, "");
    assert_eq!(ts[1].mbid.as_deref(), Some("m2"));
    let err = album_tracks(AlbumEnvelope { tracks: None, message: Some("Album not found".into()) });
    assert_eq!(err.unwrap_err(), "lastfm: Album not found");
    assert!(album_tracks(AlbumEnvelope { tracks: None, message: None }).unwrap().is_empty());
}

fn md(title: &str) -> MdblistItem {
    MdblistItem {
        title: title.into(),
        release_year: None,
        release_date: None,
        mediatype: None,
        runtime: None,
        language: None,
        adult: 0,
        ids: MdblistIds::default(),
    }
}

#[test]
fn mdblist_helpers() {
    let resp = MdblistListResponse { movies: vec![md("m")], shows: vec![md("s1"), md("s2")] };
    assert_eq!(select_bucket(resp.clone(), ListKind::Shows).len(), 2);
    assert_eq!(select_bucket(resp, ListKind::Movies)[0].title, "m");
    assert_eq!(
        list_url(default_movies_list(), "KEY"),
        "https://api.mdblist.com/lists/snoak/latest-movies-digital-release/items?apikey=KEY"
    );
    assert_eq!(stringify_id(IdField::Number(603)), Some("603".into()));
    assert_eq!(stringify_id(IdField::Text("".into())), None);
    assert_eq!(stringify_id(IdField::Text("tt1".into())), Some("tt1".into()));
    assert_eq!(stringify_id(IdField::Other), None);
    assert_eq!(usable_api_key(" \t".into()), None);
    assert_eq!(usable_api_key("k".into()), Some("k".into()));
}

#[test]
fn cache_key_normalises_query() {
    let k = CacheKey::new("tmdb", &MediaTab::Movies, "  The MATRIX ");
    assert_eq!(k.provider, "tmdb");
    assert_eq!(k.tab, "Movies");
    assert_eq!(k.query, "the matrix");
    assert_eq!(k, CacheKey::new("tmdb", &MediaTab::Movies, "the matrix"));
}

#[test]
fn staleness_after_ttl() {
    assert!(!is_stale(1300, 1000, 300));
    assert!(is_stale(1301, 1000, 300));
    assert!(!is_stale(i64::MIN, i64::MAX, 0));
}

#[test]
fn log_filter_choice() {
    let cfg = config_for_level("debug");
    assert_eq!(cfg.level, "debug");
    assert!(cfg.log_file.is_none());
    assert_eq!(filter_choice(None, &cfg), ("debug".to_string(), "debug".to_string()));
    assert_eq!(
        filter_choice(Some("stui_runtime=trace".into()), &cfg),
        ("stui_runtime=trace".to_string(), "stui_runtime=trace".to_string())
    );
    assert_eq!(filter_choice(Some("stui=notalevel".into()), &cfg), ("info".to_string(), "stui=notalevel".to_string()));
}
