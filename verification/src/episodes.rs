//! Runtime-native TVDB results and the episodes verb: TVDB search hits as
//! wire entries, episodes as wire rows, and the routing of an episodes
//! request (validation, plugin or TVDB, the TVDB fallback, the errors).

use vstd::prelude::*;
use crate::abi::{EntryKind, IdMap, SearchScope, id_get, id_lookup, opt_view};
use crate::cli::{episodes_source, id_source_for_episodes, strip_provider_prefix};
use crate::ipc::{MediaEntry, MediaTab, MediaType};
use crate::ipc_types::{EpisodeEntryWire, ErrorCode};
use crate::text::{decimal, decimal_string, owned, push_str, str_eq, trim, trim_spec};

verus! {

/// Most hits asked of TVDB by a scoped search.
pub const TVDB_SEARCH_LIMIT: u32 = 30;

/// What a TVDB search looks for.
#[derive(Debug, Clone, Copy, PartialEq, Eq, Structural)]
pub enum TvdbSearchKind {
    Movie,
    Series,
}

/// The TVDB search kind of a scope: movies and series only.
pub fn tvdb_kind_for_scope(scope: SearchScope) -> (r: Option<TvdbSearchKind>)
    ensures
        r == match scope {
            SearchScope::Movie => Some(TvdbSearchKind::Movie),
            SearchScope::Series => Some(TvdbSearchKind::Series),
            _ => None::<TvdbSearchKind>,
        },
{
    match scope {
        SearchScope::Movie => Some(TvdbSearchKind::Movie),
        SearchScope::Series => Some(TvdbSearchKind::Series),
        _ => None,
    }
}

/// Whether a scope has no source at all: no plugin serves it and TVDB
/// cannot answer it (no client, or not a movie or series scope).
pub fn scope_has_no_source(plugins_empty: bool, tvdb_configured: bool, scope: SearchScope) -> (r: bool)
    ensures
        r == (plugins_empty && !(tvdb_configured && (scope == SearchScope::Movie || scope == SearchScope::Series))),
{
    let tvdb = tvdb_configured && tvdb_kind_for_scope(scope).is_some();
    plugins_empty && !tvdb
}

/// The text of a failed TVDB search, as a scope reports it.
pub fn tvdb_search_error(err: &str) -> (r: String)
    ensures
        r@ == "tvdb: "@ + err@,
{
    let mut s = owned("tvdb: ");
    push_str(&mut s, err);
    s
}

/// One TVDB search hit.
#[derive(Debug, Clone)]
pub struct TvdbEntry {
    pub tvdb_id: String,
    pub title: String,
    pub year: Option<String>,
    pub genres: Vec<String>,
    pub overview: Option<String>,
    pub image_url: Option<String>,
    pub imdb_id: Option<String>,
    pub tmdb_id: Option<String>,
    pub original_language: Option<String>,
}

/// The texts joined with `, ` between them.
pub open spec fn joined(parts: Seq<String>) -> Seq<char>
    decreases parts.len(),
{
    if parts.len() == 0 {
        Seq::empty()
    } else if parts.len() == 1 {
        parts[0]@
    } else {
        joined(parts.drop_last()) + ", "@ + parts.last()@
    }
}

/// The texts joined with `, ` between them (`join(", ")`).
pub fn join_comma(parts: &Vec<String>) -> (r: String)
    ensures
        r@ == joined(parts@),
{
    let mut s = String::new();
    let mut i: usize = 0;
    while i < parts.len()
        invariant
            i <= parts@.len(),
            s@ == joined(parts@.subrange(0, i as int)),
        decreases parts@.len() - i,
    {
        let ghost pre = parts@.subrange(0, i as int);
        let ghost next = parts@.subrange(0, i + 1);
        assert(next.drop_last() =~= pre);
        if i > 0 {
            push_str(&mut s, ", ");
        }
        push_str(&mut s, parts[i].as_str());
        i += 1;
    }
    assert(parts@.subrange(0, parts@.len() as int) =~= parts@);
    s
}

/// The tab TVDB hits of a scope are shown in.
pub open spec fn tvdb_tab_of(scope: SearchScope) -> MediaTab {
    match scope {
        SearchScope::Movie => MediaTab::Movies,
        SearchScope::Series => MediaTab::Series,
        _ => MediaTab::Library,
    }
}

/// `m` is the wire form of TVDB hit `e` in scope `scope`: id `tvdb-<id>`,
/// genres joined (none when there are none), TVDB as provider and source,
/// the scope's tab, and the hit's texts and ids.
pub open spec fn is_tvdb_wire_entry(m: MediaEntry, e: TvdbEntry, scope: SearchScope) -> bool {
    &&& m.id@ == "tvdb-"@ + e.tvdb_id@
    &&& m.title == e.title
    &&& m.year == e.year
    &&& opt_view(m.genre) == if e.genres@.len() > 0 { Some(joined(e.genres@)) } else { None }
    &&& m.rating is None
    &&& m.description == e.overview
    &&& m.poster_url == e.image_url
    &&& m.provider@ == "tvdb"@
    &&& m.tab == tvdb_tab_of(scope)
    &&& m.media_type == MediaType::Movie
    &&& m.ratings@.len() == 0
    &&& m.imdb_id == e.imdb_id
    &&& m.tmdb_id == e.tmdb_id
    &&& m.mal_id is None
    &&& m.anilist_id is None
    &&& m.kitsu_id is None
    &&& m.original_language == e.original_language
    &&& m.kind == EntryKind::Track
    &&& m.source@ == "tvdb"@
    &&& m.artist_name is None
    &&& m.album_name is None
    &&& m.track_number is None
    &&& m.season is None
    &&& m.episode is None
    &&& m.season_count is None
    &&& !m.has_specials
}

/// The wire forms of TVDB hits, one per hit, in order (see
/// `is_tvdb_wire_entry`).
pub fn tvdb_items_to_entries(items: Vec<TvdbEntry>, scope: SearchScope) -> (r: Vec<MediaEntry>)
    ensures
        r@.len() == items@.len(),
        forall|i: int| 0 <= i < items@.len() ==> is_tvdb_wire_entry(#[trigger] r@[i], items@[i], scope),
{
    let tab = match scope {
        SearchScope::Movie => MediaTab::Movies,
        SearchScope::Series => MediaTab::Series,
        _ => MediaTab::Library,
    };
    let ghost all = items@;
    let n = items.len();
    let mut rest = items;
    let mut out: Vec<MediaEntry> = Vec::new();
    let mut i: usize = 0;
    assert(rest@ =~= all.subrange(0, all.len() as int));
    while rest.len() > 0
        invariant
            n == all.len(),
            tab == tvdb_tab_of(scope),
            i + rest@.len() == all.len(),
            rest@ =~= all.subrange(i as int, all.len() as int),
            out@.len() == i,
            forall|j: int| 0 <= j < i ==> is_tvdb_wire_entry(#[trigger] out@[j], all[j], scope),
        decreases rest@.len(),
    {
        let e = rest.remove(0);
        assert(e == all[i as int]);
        let mut id = owned("tvdb-");
        push_str(&mut id, e.tvdb_id.as_str());
        let genre = if e.genres.len() > 0 {
            Some(join_comma(&e.genres))
        } else {
            None
        };
        out.push(MediaEntry {
            id,
            title: e.title,
            year: e.year,
            genre,
            rating: None,
            description: e.overview,
            poster_url: e.image_url,
            provider: owned("tvdb"),
            tab,
            media_type: MediaType::Movie,
            ratings: Vec::new(),
            imdb_id: e.imdb_id,
            tmdb_id: e.tmdb_id,
            mal_id: None,
            anilist_id: None,
            kitsu_id: None,
            original_language: e.original_language,
            kind: EntryKind::Track,
            source: owned("tvdb"),
            artist_name: None,
            album_name: None,
            track_number: None,
            season: None,
            episode: None,
            season_count: None,
            has_specials: false,
        });
        i += 1;
    }
    out
}

// ── Episodes ─────────────────────────────────────────────────────────────────

/// One episode as a plugin returns it.
#[derive(Debug, Clone)]
pub struct EpisodeWire {
    pub season: u32,
    pub episode: u32,
    pub title: String,
    pub air_date: Option<String>,
    pub runtime_mins: Option<u32>,
    pub provider: String,
    pub entry_id: String,
}

/// The wire row of a plugin's episode: every field carried over.
pub fn episode_row(e: EpisodeWire) -> (r: EpisodeEntryWire)
    ensures
        r.season == e.season,
        r.episode == e.episode,
        r.title == e.title,
        r.air_date == e.air_date,
        r.runtime_mins == e.runtime_mins,
        r.provider == e.provider,
        r.entry_id == e.entry_id,
{
    EpisodeEntryWire {
        season: e.season,
        episode: e.episode,
        title: e.title,
        air_date: e.air_date,
        runtime_mins: e.runtime_mins,
        provider: e.provider,
        entry_id: e.entry_id,
    }
}

/// One episode as TVDB returns it.
#[derive(Debug, Clone)]
pub struct TvdbEpisode {
    pub id: u64,
    pub season: u32,
    pub episode: u32,
    pub title: Option<String>,
    pub air_date: Option<String>,
    pub runtime_mins: Option<u32>,
}

/// The title of a TVDB episode row: its trimmed title when non-blank,
/// else `Episode <n>`.
pub open spec fn tvdb_episode_title(e: TvdbEpisode) -> Seq<char> {
    match e.title {
        Some(t) => if trim_spec(t@).len() > 0 {
            trim_spec(t@)
        } else {
            "Episode "@ + decimal(e.episode as nat)
        },
        None => "Episode "@ + decimal(e.episode as nat),
    }
}

/// The wire row of a TVDB episode: the title fallback of
/// `tvdb_episode_title`, TVDB as provider, id `tvdb-<id>`.
pub fn tvdb_episode_row(e: TvdbEpisode) -> (r: EpisodeEntryWire)
    ensures
        r.season == e.season,
        r.episode == e.episode,
        r.title@ == tvdb_episode_title(e),
        r.air_date == e.air_date,
        r.runtime_mins == e.runtime_mins,
        r.provider@ == "tvdb"@,
        r.entry_id@ == "tvdb-"@ + decimal(e.id as nat),
{
    let n = e.episode;
    let trimmed = match &e.title {
        Some(t) => {
            let s = trim(t.as_str());
            if s.unicode_len() > 0 {
                Some(s)
            } else {
                None
            }
        },
        None => None,
    };
    let title = match trimmed {
        Some(s) => s,
        None => {
            let mut s = owned("Episode ");
            let d = decimal_string(n as u64);
            push_str(&mut s, d.as_str());
            s
        },
    };
    let mut entry_id = owned("tvdb-");
    let d = decimal_string(e.id);
    push_str(&mut entry_id, d.as_str());
    EpisodeEntryWire {
        season: e.season,
        episode: n,
        title,
        air_date: e.air_date,
        runtime_mins: e.runtime_mins,
        provider: owned("tvdb"),
        entry_id,
    }
}

/// What an episodes request does first.
#[derive(Debug, Clone)]
pub enum EpisodesRoute {
    /// The season is not valid: answer this error.
    Invalid { code: ErrorCode, message: String },
    /// Ask the runtime-native TVDB client for this series.
    Tvdb { series_id: String },
    /// Ask this plugin for this series.
    Plugin { plugin: String, series_id: String },
}

/// The series id a request names for provider `src`: its entry id without
/// the `<src>-` prefix.
pub open spec fn series_id_for(entry_id: Seq<char>, src: Seq<char>) -> Seq<char> {
    let pre = src + "-"@;
    if pre.len() <= entry_id.len() && entry_id.subrange(0, pre.len() as int) == pre {
        entry_id.subrange(pre.len() as int, entry_id.len() as int)
    } else {
        entry_id
    }
}

/// How an episodes request for `entry_id`, `id_source` and `season` is
/// routed: season 0 is refused; the owning provider (see
/// `episodes_source`) is TVDB or a plugin.
pub fn route_episodes(entry_id: &str, id_source: &str, season: u32) -> (r: EpisodesRoute)
    ensures
        season < 1 ==> (r matches EpisodesRoute::Invalid { code, message } && code == ErrorCode::InvalidRequest
            && message@ == "season must be >= 1"@),
        season >= 1 ==> {
            let src = episodes_source(entry_id@, id_source@);
            if src == "tvdb"@ {
                r matches EpisodesRoute::Tvdb { series_id } && series_id@ == series_id_for(entry_id@, src)
            } else {
                r matches EpisodesRoute::Plugin { plugin, series_id } && plugin@ == src && series_id@
                    == series_id_for(entry_id@, src)
            }
        },
{
    if season < 1 {
        return EpisodesRoute::Invalid { code: ErrorCode::InvalidRequest, message: owned("season must be >= 1") };
    }
    let src = id_source_for_episodes(entry_id, id_source);
    let series_id = owned(strip_provider_prefix(entry_id, src.as_str()));
    if str_eq(src.as_str(), "tvdb") {
        EpisodesRoute::Tvdb { series_id }
    } else {
        EpisodesRoute::Plugin { plugin: src, series_id }
    }
}

/// The TVDB id to fall back to when the plugin `plugin` failed: the
/// request's non-empty `tvdb` id, unless TVDB was the one that failed.
pub fn tvdb_fallback_id(plugin: &str, external_ids: &IdMap) -> (r: Option<String>)
    ensures
        match r {
            Some(id) => plugin@ != "tvdb"@ && id_lookup(external_ids@, "tvdb"@) == Some(id@) && id@.len() > 0,
            None => plugin@ == "tvdb"@ || match id_lookup(external_ids@, "tvdb"@) {
                Some(v) => v.len() == 0,
                None => true,
            },
        },
{
    if str_eq(plugin, "tvdb") {
        return None;
    }
    match id_get(external_ids, "tvdb") {
        Some(v) => if v.unicode_len() > 0 {
            Some(v)
        } else {
            None
        },
        None => None,
    }
}

/// The error answered when a plugin and its fallback both failed.
pub fn episodes_failed_message(plugin: &str) -> (r: String)
    ensures
        r@ == "Could not load episodes from "@ + plugin@
            + " (and TVDB fallback unavailable). Check network or API keys."@,
{
    let mut s = owned("Could not load episodes from ");
    push_str(&mut s, plugin);
    push_str(&mut s, " (and TVDB fallback unavailable). Check network or API keys.");
    s
}

/// The error answered when TVDB is asked but has no API key.
pub fn tvdb_unconfigured_message() -> (r: String)
    ensures
        r@ == "tvdb is not configured (no API key)"@,
{
    owned("tvdb is not configured (no API key)")
}

/// The error answered when the TVDB episodes call failed.
pub fn tvdb_episodes_error(err: &str) -> (r: String)
    ensures
        r@ == "tvdb episodes: "@ + err@,
{
    let mut s = owned("tvdb episodes: ");
    push_str(&mut s, err);
    s
}

} // verus!
