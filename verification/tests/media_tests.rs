use stui_runtime::catalog::CatalogEntry;
use stui_runtime::media_item::MediaItem;
use stui_runtime::media::{MediaId, MediaSource, StreamProtocol};

#[test]
fn media_id_parse_splits_at_first_colon() {
    let m = MediaId::parse("tmdb:movie:tt1");
    assert_eq!(m.namespace, "tmdb");
    assert_eq!(m.key, "movie:tt1");
    let u = MediaId::parse("plain");
    assert_eq!(u.namespace, "unknown");
    assert_eq!(u.to_string_id(), "unknown:plain");
}

#[test]
fn protocol_from_url() {
    assert_eq!(StreamProtocol::from_url("magnet:?xt=1"), StreamProtocol::Magnet);
    assert_eq!(StreamProtocol::from_url("HTTP://X/A.M3U8"), StreamProtocol::Hls);
    assert_eq!(MediaSource::from_tab_str("MUSIC"), MediaSource::Track);
}

#[test]
fn media_item_dedup_key_and_conversions() {
    let e = CatalogEntry {
        id: "603".into(),
        title: "  The Matrix ".into(),
        year: Some("1999".into()),
        provider: "tmdb".into(),
        tab: "movies".into(),
        tmdb_id: Some("603".into()),
        ..Default::default()
    };
    let m = MediaItem::from_catalog(e);
    assert_eq!(m.id.namespace, "tmdb");
    assert_eq!(m.id.key, "603");
    assert_eq!(m.year, Some(1999));
    assert_eq!(m.dedup_key(), "the-matrix:1999");
    assert!(m.is_displayable());
    let back = m.into_catalog();
    assert_eq!(back.id, "603");
    assert_eq!(back.year.as_deref(), Some("1999"));
    let e2 = CatalogEntry { title: "X".into(), year: Some("soon".into()), imdb_id: Some("tt1".into()), ..Default::default() };
    let m2 = MediaItem::from_catalog(e2);
    assert_eq!(m2.year, None);
    assert_eq!(m2.dedup_key(), "tt1");
    let e3 = CatalogEntry { title: "".into(), ..Default::default() };
    let m3 = MediaItem::from_catalog(e3);
    assert!(!m3.is_displayable());
    assert_eq!(m3.dedup_key(), ":?");
}
