//! Catalog entries and their second-pass enrichment: the fill-not-overwrite
//! merge of a plugin's answer into an entry, and the routing decisions of
//! the enrichment pass.

use vstd::prelude::*;
use crate::abi::{EntryKind, IdMap, PluginEntry, id_get, id_lookup, opt_view};
use crate::ipc::{MediaEntry, MediaTab, MediaType};
use crate::registry::{keyed, keys_distinct};
use crate::sources::{contains_name, names};
use crate::text::{contains, contains_sub, decimal, decimal_string, owned, starts_with, str_eq};

verus! {

/// One catalog entry, as the catalog keeps it.
#[derive(Debug, Clone, Default)]
pub struct CatalogEntry {
    pub id: String,
    pub title: String,
    pub year: Option<String>,
    pub genre: Option<String>,
    /// Composite rating text.
    pub rating: Option<String>,
    pub description: Option<String>,
    pub poster_url: Option<String>,
    /// Pre-rendered ANSI art of the poster, once fetched.
    pub poster_art: Option<String>,
    pub provider: String,
    /// Lowercase tab label (`"movies"`, `"series"`, …).
    pub tab: String,
    pub imdb_id: Option<String>,
    pub tmdb_id: Option<String>,
    pub mal_id: Option<String>,
    pub media_type: MediaType,
    /// Per-source scores, each as the bits of an `f64`; one per source.
    pub ratings: Vec<(String, u64)>,
    /// Per-source vote counts; one per source.
    pub rating_votes: Vec<(String, u64)>,
    pub original_language: Option<String>,
    pub artist: Option<String>,
}

/// Where a grid update's entries came from.
#[derive(Debug, Clone, Copy, PartialEq, Eq, Hash, Structural)]
pub enum GridUpdateSource {
    /// Served from the persistent cache.
    Cache,
    /// Fetched live from the providers.
    Live,
}

/// A batch of catalog entries for one tab.
#[derive(Debug, Clone)]
pub struct GridUpdate {
    pub tab: String,
    pub entries: Vec<CatalogEntry>,
    pub source: GridUpdateSource,
}

// ── Wire conversion ──────────────────────────────────────────────────────────

/// The tab of a lowercase tab label; unknown labels go to the library.
pub open spec fn tab_of_label(l: Seq<char>) -> MediaTab {
    if l == "movies"@ {
        MediaTab::Movies
    } else if l == "series"@ {
        MediaTab::Series
    } else if l == "music"@ {
        MediaTab::Music
    } else if l == "radio"@ {
        MediaTab::Radio
    } else if l == "podcasts"@ {
        MediaTab::Podcasts
    } else if l == "videos"@ {
        MediaTab::Videos
    } else {
        MediaTab::Library
    }
}

/// The tab of a lowercase tab label.
pub fn tab_from_label(l: &str) -> (r: MediaTab)
    ensures
        r == tab_of_label(l@),
{
    if str_eq(l, "movies") {
        MediaTab::Movies
    } else if str_eq(l, "series") {
        MediaTab::Series
    } else if str_eq(l, "music") {
        MediaTab::Music
    } else if str_eq(l, "radio") {
        MediaTab::Radio
    } else if str_eq(l, "podcasts") {
        MediaTab::Podcasts
    } else if str_eq(l, "videos") {
        MediaTab::Videos
    } else {
        MediaTab::Library
    }
}

/// The lowercase label of a tab, as catalog entries record it.
pub open spec fn tab_slug_of(t: MediaTab) -> Seq<char> {
    match t {
        MediaTab::Movies => "movies"@,
        MediaTab::Series => "series"@,
        MediaTab::Music => "music"@,
        MediaTab::Library => "library"@,
        MediaTab::Radio => "radio"@,
        MediaTab::Podcasts => "podcasts"@,
        MediaTab::Videos => "videos"@,
    }
}

/// The lowercase label of a tab (see `tab_slug_of`).
pub fn tab_slug(t: MediaTab) -> (r: &'static str)
    ensures
        r@ == tab_slug_of(t),
{
    match t {
        MediaTab::Movies => "movies",
        MediaTab::Series => "series",
        MediaTab::Music => "music",
        MediaTab::Library => "library",
        MediaTab::Radio => "radio",
        MediaTab::Podcasts => "podcasts",
        MediaTab::Videos => "videos",
    }
}

/// Every tab's label reads back as that tab.
pub proof fn lemma_tab_slug_round_trip(t: MediaTab)
    ensures
        tab_of_label(tab_slug_of(t)) == t,
{
    reveal_strlit("movies");
    reveal_strlit("series");
    reveal_strlit("music");
    reveal_strlit("library");
    reveal_strlit("radio");
    reveal_strlit("podcasts");
    reveal_strlit("videos");
    assert("movies"@[0] == 'm' && "movies"@[1] == 'o');
    assert("series"@[0] == 's');
    assert("music"@[0] == 'm' && "music"@[1] == 'u');
    assert("library"@[0] == 'l');
    assert("radio"@[0] == 'r');
    assert("podcasts"@[0] == 'p');
    assert("videos"@[0] == 'v');
}

/// `m` is the wire form of catalog entry `e`: shared fields copied, the tab
/// parsed from its label, the artist as artist name, and what catalog
/// entries do not carry left empty.
pub open spec fn is_media_entry_of(m: MediaEntry, e: CatalogEntry) -> bool {
    &&& m.id == e.id
    &&& m.title == e.title
    &&& m.year == e.year
    &&& m.genre == e.genre
    &&& m.rating == e.rating
    &&& m.ratings@ == e.ratings@
    &&& m.description == e.description
    &&& m.poster_url == e.poster_url
    &&& m.provider == e.provider
    &&& m.tab == tab_of_label(e.tab@)
    &&& m.media_type == e.media_type
    &&& m.imdb_id == e.imdb_id
    &&& m.tmdb_id == e.tmdb_id
    &&& m.mal_id == e.mal_id
    &&& m.anilist_id is None
    &&& m.kitsu_id is None
    &&& m.original_language == e.original_language
    &&& m.kind == EntryKind::Track
    &&& m.source@.len() == 0
    &&& m.artist_name == e.artist
    &&& m.album_name is None
    &&& m.track_number is None
    &&& m.season is None
    &&& m.episode is None
    &&& m.season_count is None
    &&& !m.has_specials
}

/// A copy of a list of per-source numbers.
pub fn copy_scores(v: &Vec<(String, u64)>) -> (r: Vec<(String, u64)>)
    ensures
        r@ == v@,
{
    let mut out: Vec<(String, u64)> = Vec::new();
    let mut i: usize = 0;
    while i < v.len()
        invariant
            i <= v@.len(),
            out@ == v@.subrange(0, i as int),
        decreases v@.len() - i,
    {
        out.push((v[i].0.clone(), v[i].1));
        i += 1;
        assert(out@ =~= v@.subrange(0, i as int));
    }
    assert(out@ =~= v@);
    out
}

/// The wire form of a catalog entry (see `is_media_entry_of`).
pub fn catalog_entry_to_media_entry(e: &CatalogEntry) -> (m: MediaEntry)
    ensures
        is_media_entry_of(m, *e),
{
    MediaEntry {
        id: e.id.clone(),
        title: e.title.clone(),
        year: crate::abi::clone_opt_string(&e.year),
        genre: crate::abi::clone_opt_string(&e.genre),
        rating: crate::abi::clone_opt_string(&e.rating),
        description: crate::abi::clone_opt_string(&e.description),
        poster_url: crate::abi::clone_opt_string(&e.poster_url),
        provider: e.provider.clone(),
        tab: tab_from_label(e.tab.as_str()),
        media_type: e.media_type,
        ratings: copy_scores(&e.ratings),
        imdb_id: crate::abi::clone_opt_string(&e.imdb_id),
        tmdb_id: crate::abi::clone_opt_string(&e.tmdb_id),
        mal_id: crate::abi::clone_opt_string(&e.mal_id),
        anilist_id: None,
        kitsu_id: None,
        original_language: crate::abi::clone_opt_string(&e.original_language),
        kind: EntryKind::Track,
        source: String::new(),
        artist_name: crate::abi::clone_opt_string(&e.artist),
        album_name: None,
        track_number: None,
        season: None,
        episode: None,
        season_count: None,
        has_specials: false,
    }
}

/// The wire forms of catalog entries, one per entry, in order.
pub fn catalog_entries_to_media_entries(entries: &Vec<CatalogEntry>) -> (r: Vec<MediaEntry>)
    ensures
        r@.len() == entries@.len(),
        forall|i: int| 0 <= i < entries@.len() ==> is_media_entry_of(#[trigger] r@[i], entries@[i]),
{
    let mut out: Vec<MediaEntry> = Vec::new();
    let mut i: usize = 0;
    while i < entries.len()
        invariant
            i <= entries@.len(),
            out@.len() == i,
            forall|j: int| 0 <= j < i ==> is_media_entry_of(#[trigger] out@[j], entries@[j]),
        decreases entries@.len() - i,
    {
        out.push(catalog_entry_to_media_entry(&entries[i]));
        i += 1;
    }
    out
}

/// `m` is the wire form of catalog entry `e` shown in tab `tab` by a
/// catalog search: shared fields copied, the given tab, and no per-kind
/// fields, language or secondary ids.
pub open spec fn is_search_media_entry_of(m: MediaEntry, e: CatalogEntry, tab: MediaTab) -> bool {
    &&& m.id == e.id
    &&& m.title == e.title
    &&& m.year == e.year
    &&& m.genre == e.genre
    &&& m.rating == e.rating
    &&& m.description == e.description
    &&& m.poster_url == e.poster_url
    &&& m.provider == e.provider
    &&& m.tab == tab
    &&& m.media_type == e.media_type
    &&& m.ratings@ == e.ratings@
    &&& m.imdb_id == e.imdb_id
    &&& m.tmdb_id == e.tmdb_id
    &&& m.mal_id is None
    &&& m.anilist_id is None
    &&& m.kitsu_id is None
    &&& m.original_language is None
    &&& m.kind == EntryKind::Track
    &&& m.source@.len() == 0
    &&& m.artist_name is None
    &&& m.album_name is None
    &&& m.track_number is None
    &&& m.season is None
    &&& m.episode is None
    &&& m.season_count is None
    &&& !m.has_specials
}

/// The wire forms of a catalog search's merged entries, all in tab `tab`
/// (see `is_search_media_entry_of`).
pub fn catalog_entries_to_media(entries: Vec<CatalogEntry>, tab: &MediaTab) -> (r: Vec<MediaEntry>)
    ensures
        r@.len() == entries@.len(),
        forall|i: int| 0 <= i < entries@.len() ==> is_search_media_entry_of(#[trigger] r@[i], entries@[i], *tab),
{
    let ghost all = entries@;
    let n = entries.len();
    let mut rest = entries;
    let mut out: Vec<MediaEntry> = Vec::new();
    let mut i: usize = 0;
    assert(rest@ =~= all.subrange(0, all.len() as int));
    while rest.len() > 0
        invariant
            n == all.len(),
            i + rest@.len() == all.len(),
            rest@ =~= all.subrange(i as int, all.len() as int),
            out@.len() == i,
            forall|j: int| 0 <= j < i ==> is_search_media_entry_of(#[trigger] out@[j], all[j], *tab),
        decreases rest@.len(),
    {
        let e = rest.remove(0);
        assert(e == all[i as int]);
        out.push(MediaEntry {
            id: e.id,
            title: e.title,
            year: e.year,
            genre: e.genre,
            rating: e.rating,
            description: e.description,
            poster_url: e.poster_url,
            provider: e.provider,
            tab: *tab,
            media_type: e.media_type,
            ratings: e.ratings,
            imdb_id: e.imdb_id,
            tmdb_id: e.tmdb_id,
            mal_id: None,
            anilist_id: None,
            kitsu_id: None,
            original_language: None,
            kind: EntryKind::Track,
            source: String::new(),
            artist_name: None,
            album_name: None,
            track_number: None,
            season: None,
            episode: None,
            season_count: None,
            has_specials: false,
        });
        i += 1;
    }
    out
}

/// `c` is the catalog form of search result `m` found for the tab labelled
/// `tab`: shared fields copied, the tab label recorded, no vote counts,
/// language or artist.
pub open spec fn is_catalog_entry_of(c: CatalogEntry, m: MediaEntry, tab: Seq<char>) -> bool {
    &&& c.id == m.id
    &&& c.title == m.title
    &&& c.year == m.year
    &&& c.genre == m.genre
    &&& c.rating == m.rating
    &&& c.description == m.description
    &&& c.poster_url == m.poster_url
    &&& c.poster_art is None
    &&& c.provider == m.provider
    &&& c.tab@ == tab
    &&& c.imdb_id == m.imdb_id
    &&& c.tmdb_id == m.tmdb_id
    &&& c.mal_id is None
    &&& c.media_type == m.media_type
    &&& c.ratings == m.ratings
    &&& c.rating_votes@.len() == 0
    &&& c.original_language is None
    &&& c.artist is None
}

/// The catalog forms of a tab's search results, one per result, in order,
/// each recording the tab's label (see `tab_slug_of`).
pub fn media_entries_to_catalog(items: Vec<MediaEntry>, tab: MediaTab) -> (r: Vec<CatalogEntry>)
    ensures
        r@.len() == items@.len(),
        forall|i: int| 0 <= i < items@.len() ==> is_catalog_entry_of(#[trigger] r@[i], items@[i], tab_slug_of(tab)),
{
    let slug = tab_slug(tab);
    let mut out: Vec<CatalogEntry> = Vec::new();
    let mut items = items;
    let ghost orig = items@;
    let mut i: usize = 0;
    assert(items@ =~= orig.subrange(0, orig.len() as int));
    let n = items.len();
    while items.len() > 0
        invariant
            slug@ == tab_slug_of(tab),
            out@.len() == i,
            i + items@.len() == orig.len(),
            orig.len() == n,
            items@ =~= orig.subrange(i as int, orig.len() as int),
            forall|j: int| 0 <= j < i ==> is_catalog_entry_of(#[trigger] out@[j], orig[j], tab_slug_of(tab)),
        decreases items@.len(),
    {
        let m = items.remove(0);
        assert(m == orig[i as int]);
        out.push(CatalogEntry {
            id: m.id,
            title: m.title,
            year: m.year,
            genre: m.genre,
            rating: m.rating,
            description: m.description,
            poster_url: m.poster_url,
            poster_art: None,
            provider: m.provider,
            tab: owned(slug),
            imdb_id: m.imdb_id,
            tmdb_id: m.tmdb_id,
            mal_id: None,
            media_type: m.media_type,
            ratings: m.ratings,
            rating_votes: Vec::new(),
            original_language: None,
            artist: None,
        });
        i += 1;
        assert(items@ =~= orig.subrange(i as int, orig.len() as int));
    }
    out
}

// ── Enrichment merge ─────────────────────────────────────────────────────────

/// What an enrich answer contributes to a catalog entry, with its scores
/// already widened to `f64` bits.
#[derive(Debug, Clone)]
pub struct EnrichPatch {
    /// The plugin's source name (empty when unknown).
    pub source: String,
    /// Per-source scores.
    pub ratings: Vec<(String, u64)>,
    /// Per-source vote counts.
    pub rating_votes: Vec<(String, u64)>,
    /// Headline score.
    pub rating: Option<u64>,
    pub poster_url: Option<String>,
    pub description: Option<String>,
    pub genre: Option<String>,
    pub year: Option<u32>,
    pub original_language: Option<String>,
    pub external_ids: IdMap,
}

/// The per-source scores after writing each of `upd` in order, a later
/// write replacing an earlier score of the same source.
pub open spec fn written(m: Seq<(String, u64)>, upd: Seq<(String, u64)>, k: Seq<char>) -> Option<u64>
    decreases upd.len(),
{
    if upd.len() == 0 {
        keyed(m, k)
    } else if upd.last().0@ == k {
        Some(upd.last().1)
    } else {
        written(m, upd.drop_last(), k)
    }
}

/// The source key of a headline score: the plugin's source name, or
/// `"enrich"` when it has none.
pub open spec fn headline_key(p: EnrichPatch) -> Seq<char> {
    if p.source@.len() > 0 {
        p.source@
    } else {
        "enrich"@
    }
}

/// The score updates of a patch: its per-source scores, then its headline
/// score under its source key.
pub open spec fn score_lookup(e: CatalogEntry, p: EnrichPatch, k: Seq<char>) -> Option<u64> {
    if p.rating is Some && k == headline_key(p) {
        p.rating
    } else {
        written(e.ratings@, p.ratings@, k)
    }
}

/// A non-empty optional text.
pub open spec fn non_empty(o: Option<String>) -> Option<Seq<char>> {
    match o {
        Some(s) => if s@.len() > 0 { Some(s@) } else { None },
        None => None,
    }
}

/// A field kept when set, else filled with the patch's non-empty value.
pub open spec fn filled(cur: Option<String>, cand: Option<String>) -> Option<Seq<char>> {
    if cur is Some {
        opt_view(cur)
    } else {
        non_empty(cand)
    }
}

/// `r` is `e` after merging `p`: scores written (later writes win), vote
/// counts written, and each absent display field or cross-provider id
/// filled from the patch's non-empty value (a positive year as decimal
/// text, the TMDB and IMDb ids from the patch's id map); nothing present
/// is overwritten.
pub open spec fn merged_entry(r: CatalogEntry, e: CatalogEntry, p: EnrichPatch) -> bool {
    &&& forall|k: Seq<char>| #[trigger] keyed(r.ratings@, k) == score_lookup(e, p, k)
    &&& forall|k: Seq<char>| #[trigger] keyed(r.rating_votes@, k) == written(e.rating_votes@, p.rating_votes@, k)
    &&& opt_view(r.poster_url) == filled(e.poster_url, p.poster_url)
    &&& opt_view(r.description) == filled(e.description, p.description)
    &&& opt_view(r.genre) == filled(e.genre, p.genre)
    &&& opt_view(r.original_language) == filled(e.original_language, p.original_language)
    &&& opt_view(r.year) == if e.year is Some {
        opt_view(e.year)
    } else if p.year is Some && p.year.unwrap() > 0 {
        Some(decimal(p.year.unwrap() as nat))
    } else {
        None
    }
    &&& opt_view(r.tmdb_id) == if e.tmdb_id is Some {
        opt_view(e.tmdb_id)
    } else {
        match id_lookup(p.external_ids@, "tmdb"@) {
            Some(v) => if v.len() > 0 { Some(v) } else { None },
            None => None,
        }
    }
    &&& opt_view(r.imdb_id) == if e.imdb_id is Some {
        opt_view(e.imdb_id)
    } else {
        match id_lookup(p.external_ids@, "imdb"@) {
            Some(v) => if v.len() > 0 { Some(v) } else { None },
            None => None,
        }
    }
    &&& r.id == e.id
    &&& r.title == e.title
    &&& r.rating == e.rating
    &&& r.poster_art == e.poster_art
    &&& r.provider == e.provider
    &&& r.tab == e.tab
    &&& r.mal_id == e.mal_id
    &&& r.media_type == e.media_type
    &&& r.artist == e.artist
    &&& keys_distinct(r.ratings@)
    &&& keys_distinct(r.rating_votes@)
}

/// Merging the same answer a second time changes nothing more: every score,
/// vote count, display field and id reads as after the first merge.
pub proof fn lemma_merge_idempotent(e: CatalogEntry, p: EnrichPatch, r1: CatalogEntry, r2: CatalogEntry)
    requires
        merged_entry(r1, e, p),
        merged_entry(r2, r1, p),
    ensures
        forall|k: Seq<char>| #[trigger] keyed(r2.ratings@, k) == keyed(r1.ratings@, k),
        forall|k: Seq<char>| #[trigger] keyed(r2.rating_votes@, k) == keyed(r1.rating_votes@, k),
        opt_view(r2.poster_url) == opt_view(r1.poster_url),
        opt_view(r2.description) == opt_view(r1.description),
        opt_view(r2.genre) == opt_view(r1.genre),
        opt_view(r2.original_language) == opt_view(r1.original_language),
        opt_view(r2.year) == opt_view(r1.year),
        opt_view(r2.tmdb_id) == opt_view(r1.tmdb_id),
        opt_view(r2.imdb_id) == opt_view(r1.imdb_id),
{
    assert forall|k: Seq<char>| #[trigger] keyed(r2.ratings@, k) == keyed(r1.ratings@, k) by {
        crate::music_enrich::lemma_written_last(r1.ratings@, p.ratings@, k);
        crate::music_enrich::lemma_written_last(e.ratings@, p.ratings@, k);
        assert(keyed(r2.ratings@, k) == score_lookup(r1, p, k));
        assert(keyed(r1.ratings@, k) == score_lookup(e, p, k));
    }
    assert forall|k: Seq<char>| #[trigger] keyed(r2.rating_votes@, k) == keyed(r1.rating_votes@, k) by {
        crate::music_enrich::lemma_written_last(r1.rating_votes@, p.rating_votes@, k);
        crate::music_enrich::lemma_written_last(e.rating_votes@, p.rating_votes@, k);
        assert(keyed(r2.rating_votes@, k) == written(r1.rating_votes@, p.rating_votes@, k));
        assert(keyed(r1.rating_votes@, k) == written(e.rating_votes@, p.rating_votes@, k));
    }
}

/// Whether merging `p` into `e` changes anything that counts: any score
/// written, or any display field or id filled.
pub open spec fn merge_changes(e: CatalogEntry, p: EnrichPatch) -> bool {
    ||| p.ratings@.len() > 0
    ||| p.rating is Some
    ||| (e.poster_url is None && non_empty(p.poster_url) is Some)
    ||| (e.description is None && non_empty(p.description) is Some)
    ||| (e.genre is None && non_empty(p.genre) is Some)
    ||| (e.year is None && p.year is Some && p.year.unwrap() > 0)
    ||| (e.original_language is None && non_empty(p.original_language) is Some)
    ||| (e.tmdb_id is None && match id_lookup(p.external_ids@, "tmdb"@) {
        Some(v) => v.len() > 0,
        None => false,
    })
    ||| (e.imdb_id is None && match id_lookup(p.external_ids@, "imdb"@) {
        Some(v) => v.len() > 0,
        None => false,
    })
}

/// Write each of `upd` into `m` in order, replacing a score of the same
/// source.
pub(crate) fn write_scores(m: &mut Vec<(String, u64)>, upd: &Vec<(String, u64)>)
    requires
        keys_distinct(old(m)@),
    ensures
        keys_distinct(final(m)@),
        forall|k: Seq<char>| #[trigger] keyed(final(m)@, k) == written(old(m)@, upd@, k),
{
    let ghost m0 = m@;
    let mut i: usize = 0;
    while i < upd.len()
        invariant
            i <= upd@.len(),
            keys_distinct(m@),
            forall|k: Seq<char>| #[trigger] keyed(m@, k) == written(m0, upd@.subrange(0, i as int), k),
        decreases upd@.len() - i,
    {
        let ghost before = m@;
        crate::registry::keyed_insert(m, upd[i].0.clone(), upd[i].1);
        proof {
            assert(upd@.subrange(0, i + 1).drop_last() =~= upd@.subrange(0, i as int));
            assert(upd@.subrange(0, i + 1).last() == upd@[i as int]);
        }
        i += 1;
    }
    assert(upd@.subrange(0, upd@.len() as int) =~= upd@);
}

/// The value to keep for a display field: the current one when set, else
/// the candidate when non-empty.
fn fill_display(cur: Option<String>, cand: Option<String>) -> (r: (Option<String>, bool))
    ensures
        opt_view(r.0) == filled(cur, cand),
        r.1 == (cur is None && non_empty(cand) is Some),
{
    if cur.is_some() {
        return (cur, false);
    }
    match cand {
        Some(s) => {
            if s.unicode_len() > 0 {
                (Some(s), true)
            } else {
                (None, false)
            }
        },
        None => (None, false),
    }
}

/// The value to keep for an id: the current one when set, else the
/// non-empty id the map has under `key`.
fn fill_id(cur: Option<String>, ids: &IdMap, key: &str) -> (r: (Option<String>, bool))
    ensures
        opt_view(r.0) == if cur is Some {
            opt_view(cur)
        } else {
            match id_lookup(ids@, key@) {
                Some(v) => if v.len() > 0 { Some(v) } else { None },
                None => None,
            }
        },
        r.1 == (cur is None && match id_lookup(ids@, key@) {
            Some(v) => v.len() > 0,
            None => false,
        }),
{
    if cur.is_some() {
        return (cur, false);
    }
    match id_get(ids, key) {
        Some(v) => {
            if v.unicode_len() > 0 {
                (Some(v), true)
            } else {
                (None, false)
            }
        },
        None => (None, false),
    }
}

/// Merge an enrich answer into a catalog entry without overwriting what
/// the entry has (see `merged_entry`); returns whether anything counted
/// changed (see `merge_changes`), so the caller knows to recompute the
/// weighted rating.
pub fn merge_enrich_into(entry: &mut CatalogEntry, p: EnrichPatch) -> (changed: bool)
    requires
        keys_distinct(old(entry).ratings@),
        keys_distinct(old(entry).rating_votes@),
    ensures
        merged_entry(*final(entry), *old(entry), p),
        changed == merge_changes(*old(entry), p),
{
    let ghost e0 = *entry;
    let mut changed = p.ratings.len() > 0;
    write_scores(&mut entry.ratings, &p.ratings);
    write_scores(&mut entry.rating_votes, &p.rating_votes);
    match p.rating {
        Some(r) => {
            let key = if p.source.unicode_len() > 0 {
                p.source.clone()
            } else {
                owned("enrich")
            };
            let ghost before = entry.ratings@;
            crate::registry::keyed_insert(&mut entry.ratings, key, r);
            changed = true;
        },
        None => {},
    }
    let poster = entry.poster_url.take();
    let (v, c) = fill_display(poster, p.poster_url);
    entry.poster_url = v;
    changed = changed || c;
    let desc = entry.description.take();
    let (v, c) = fill_display(desc, p.description);
    entry.description = v;
    changed = changed || c;
    let genre = entry.genre.take();
    let (v, c) = fill_display(genre, p.genre);
    entry.genre = v;
    changed = changed || c;
    if entry.year.is_none() {
        match p.year {
            Some(y) => {
                if y > 0 {
                    entry.year = Some(decimal_string(y as u64));
                    changed = true;
                }
            },
            None => {},
        }
    }
    let lang = entry.original_language.take();
    let (v, c) = fill_display(lang, p.original_language);
    entry.original_language = v;
    changed = changed || c;
    let tmdb = entry.tmdb_id.take();
    let (v, c) = fill_id(tmdb, &p.external_ids, "tmdb");
    entry.tmdb_id = v;
    changed = changed || c;
    let imdb = entry.imdb_id.take();
    let (v, c) = fill_id(imdb, &p.external_ids, "imdb");
    entry.imdb_id = v;
    changed = changed || c;
    changed
}

/// Position of the entry an enrich answer with id `id` belongs to: the
/// first whose IMDb id or own id is `id`.
pub fn find_snapshot_idx(snap: &Vec<CatalogEntry>, id: &str) -> (r: Option<usize>)
    ensures
        match r {
            Some(i) => i < snap@.len() && (opt_view(snap@[i as int].imdb_id) == Some(id@)
                || snap@[i as int].id@ == id@) && forall|j: int|
                0 <= j < i ==> !(opt_view(snap@[j].imdb_id) == Some(id@) || snap@[j].id@ == id@),
            None => forall|j: int|
                0 <= j < snap@.len() ==> !(opt_view(snap@[j].imdb_id) == Some(id@) || snap@[j].id@
                    == id@),
        },
{
    let mut i: usize = 0;
    while i < snap.len()
        invariant
            i <= snap@.len(),
            forall|j: int|
                0 <= j < i ==> !(opt_view(snap@[j].imdb_id) == Some(id@) || snap@[j].id@ == id@),
        decreases snap@.len() - i,
    {
        let e = &snap[i];
        let imdb_match = match &e.imdb_id {
            Some(x) => str_eq(x.as_str(), id),
            None => false,
        };
        if imdb_match || str_eq(e.id.as_str(), id) {
            return Some(i);
        }
        i += 1;
    }
    None
}

// ── Pass routing ─────────────────────────────────────────────────────────────

/// The enrich kind of a catalog tab: series entries as series, everything
/// else as movies.
pub fn enrich_kind_for_tab(tab: &str) -> (k: EntryKind)
    ensures
        k == if tab@ == "series"@ { EntryKind::Series } else { EntryKind::Movie },
{
    if str_eq(tab, "series") {
        EntryKind::Series
    } else {
        EntryKind::Movie
    }
}

/// The per-entry cohort: the enrich plugins that do not also enrich in
/// bulk, in order.
pub fn per_entry_plugins(enrich: &Vec<String>, bulk: &Vec<String>) -> (r: Vec<String>)
    ensures
        names(r@) == names(enrich@).filter(|x: Seq<char>| !names(bulk@).contains(x)),
{
    let mut out: Vec<String> = Vec::new();
    let mut i: usize = 0;
    while i < enrich.len()
        invariant
            i <= enrich@.len(),
            names(out@) == names(enrich@.subrange(0, i as int)).filter(
                |x: Seq<char>| !names(bulk@).contains(x),
            ),
        decreases enrich@.len() - i,
    {
        let ghost pre = names(enrich@.subrange(0, i as int));
        assert(names(enrich@.subrange(0, i + 1)) =~= pre.push(enrich@[i as int]@));
        proof {
            crate::sources::lemma_filter_push(
                pre,
                enrich@[i as int]@,
                |x: Seq<char>| !names(bulk@).contains(x),
            );
        }
        if !contains_name(bulk, enrich[i].as_str()) {
            let ghost before = names(out@);
            out.push(enrich[i].clone());
            assert(names(out@) =~= before.push(enrich@[i as int]@));
        }
        i += 1;
    }
    assert(enrich@.subrange(0, enrich@.len() as int) =~= enrich@);
    out
}

/// Whether a bulk-enrich failure hands the plugin back to the per-entry
/// pass: yes, unless the plugin said it does not implement bulk enrich
/// (`not_implemented:` prefix or `NOT_IMPLEMENTED` anywhere).
pub fn bulk_error_falls_through(err: &str) -> (r: bool)
    ensures
        r == !((err@.len() >= "not_implemented:"@.len() && err@.subrange(
            0,
            "not_implemented:"@.len() as int,
        ) == "not_implemented:"@) || contains_sub(err@, "NOT_IMPLEMENTED"@)),
{
    !(starts_with(err, "not_implemented:") || contains(err, "NOT_IMPLEMENTED"))
}

/// The enrich partial of a catalog entry: its title and IMDb id (also under
/// `"imdb"` in the id map), with the given kind; `None` when the entry has
/// no non-empty IMDb id (the fast path needs one).
pub fn enrich_partial_for(entry: &CatalogEntry, kind: EntryKind) -> (r: Option<PluginEntry>)
    ensures
        match non_empty(entry.imdb_id) {
            None => r is None,
            Some(imdb) => r is Some && r.unwrap().kind == kind && r.unwrap().title@ == entry.title@
                && opt_view(r.unwrap().imdb_id) == Some(imdb) && r.unwrap().external_ids@.len() == 1
                && r.unwrap().external_ids@[0].0@ == "imdb"@ && r.unwrap().external_ids@[0].1@
                == imdb && r.unwrap().id@.len() == 0 && r.unwrap().source@.len() == 0
                && r.unwrap().year is None,
        },
{
    let imdb = match &entry.imdb_id {
        Some(s) => {
            if s.unicode_len() == 0 {
                return None;
            }
            s.clone()
        },
        None => {
            return None;
        },
    };
    let mut partial = PluginEntry::default();
    partial.kind = kind;
    partial.title = entry.title.clone();
    partial.imdb_id = Some(imdb.clone());
    partial.external_ids.push((owned("imdb"), imdb));
    Some(partial)
}

} // verus!
