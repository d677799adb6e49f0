//! The engine-side detail-metadata request, and the routing decisions the
//! orchestrator takes on it: which id each plugin gets, which kind the
//! plugins see, and what a verb's fan-out results become on the wire.

use vstd::prelude::*;
use crate::abi::{
    EntryKind, IdMap, IdSource, MetadataVerb, id_get, id_lookup, ids_unique, opt_view,
};
use crate::merge::union_ids;
use crate::text::{owned, str_eq};
use crate::sources::names;
use crate::wire_metadata::{GetDetailMetadataRequest, MetadataPayload};

verus! {

// ── Id sources ───────────────────────────────────────────────────────────────

/// Wire name of an id source.
pub open spec fn id_source_name(s: IdSource) -> Seq<char> {
    match s {
        IdSource::Imdb => "imdb"@,
        IdSource::Tmdb => "tmdb"@,
        IdSource::Tvdb => "tvdb"@,
        IdSource::Anilist => "anilist"@,
        IdSource::Kitsu => "kitsu"@,
        IdSource::Musicbrainz => "musicbrainz"@,
        IdSource::Discogs => "discogs"@,
        IdSource::Other(t) => t@,
    }
}

/// The names of the id sources that have a variant of their own.
pub open spec fn is_known_source_name(s: Seq<char>) -> bool {
    ||| s == "imdb"@
    ||| s == "tmdb"@
    ||| s == "tvdb"@
    ||| s == "anilist"@
    ||| s == "kitsu"@
    ||| s == "musicbrainz"@
    ||| s == "discogs"@
}

/// Wire name of an id source.
pub fn id_source_as_str(s: &IdSource) -> (r: String)
    ensures
        r@ == id_source_name(*s),
{
    match s {
        IdSource::Imdb => owned("imdb"),
        IdSource::Tmdb => owned("tmdb"),
        IdSource::Tvdb => owned("tvdb"),
        IdSource::Anilist => owned("anilist"),
        IdSource::Kitsu => owned("kitsu"),
        IdSource::Musicbrainz => owned("musicbrainz"),
        IdSource::Discogs => owned("discogs"),
        IdSource::Other(t) => t.clone(),
    }
}

/// Parse a wire id-source name; unknown names become `Other`.
pub fn parse_id_source(s: &str) -> (r: IdSource)
    ensures
        id_source_name(r) == s@,
        r is Other <==> !is_known_source_name(s@),
{
    proof {
        reveal_strlit("imdb");
        reveal_strlit("tmdb");
        reveal_strlit("tvdb");
        reveal_strlit("anilist");
        reveal_strlit("kitsu");
        reveal_strlit("musicbrainz");
        reveal_strlit("discogs");
    }
    if str_eq(s, "imdb") {
        IdSource::Imdb
    } else if str_eq(s, "tmdb") {
        IdSource::Tmdb
    } else if str_eq(s, "tvdb") {
        IdSource::Tvdb
    } else if str_eq(s, "anilist") {
        IdSource::Anilist
    } else if str_eq(s, "kitsu") {
        IdSource::Kitsu
    } else if str_eq(s, "musicbrainz") {
        IdSource::Musicbrainz
    } else if str_eq(s, "discogs") {
        IdSource::Discogs
    } else {
        IdSource::Other(owned(s))
    }
}

/// An id source by value: its variant number and the text of `Other`.
pub open spec fn id_source_key(s: IdSource) -> (int, Seq<char>) {
    match s {
        IdSource::Imdb => (0, Seq::empty()),
        IdSource::Tmdb => (1, Seq::empty()),
        IdSource::Tvdb => (2, Seq::empty()),
        IdSource::Anilist => (3, Seq::empty()),
        IdSource::Kitsu => (4, Seq::empty()),
        IdSource::Musicbrainz => (5, Seq::empty()),
        IdSource::Discogs => (6, Seq::empty()),
        IdSource::Other(t) => (7, t@),
    }
}

/// Parsing the wire name of an id source gives the same source back, unless
/// it is an `Other` that spells a known name (such an `Other` parses to the
/// named variant).
pub proof fn lemma_id_source_round_trip(s: IdSource, parsed: IdSource)
    requires
        id_source_name(parsed) == id_source_name(s),
        parsed is Other <==> !is_known_source_name(id_source_name(s)),
        !(s is Other && is_known_source_name(id_source_name(s))),
    ensures
        id_source_key(parsed) == id_source_key(s),
{
    reveal_strlit("imdb");
    reveal_strlit("tmdb");
    reveal_strlit("tvdb");
    reveal_strlit("anilist");
    reveal_strlit("kitsu");
    reveal_strlit("musicbrainz");
    reveal_strlit("discogs");
    let (a, b) = (id_source_name(parsed), id_source_name(s));
    assert(a.len() == b.len());
    if a.len() > 1 {
        assert(a[0] == b[0] && a[1] == b[1]);
    }
}

// ── The request ──────────────────────────────────────────────────────────────

/// Per-verb timeout applied to a wire request, in milliseconds: long enough
/// for a slow plugin call, short enough that the user is not left waiting.
pub const DEFAULT_PER_VERB_TIMEOUT: u64 = 8000;

/// Single top-level request to enrich a detail view for `entry_id`.
/// `title`, `year` and `external_ids` ride along so the enrich stage can
/// title-search a foreign provider and later verbs can hand each plugin its
/// native id.
#[derive(Debug, Clone)]
pub struct DetailMetadataRequest {
    pub entry_id: String,
    pub id_source: IdSource,
    /// Lowercase tab label: `"movies" | "series" | "anime" | "music"`.
    pub kind: String,
    /// Per-verb timeout in milliseconds.
    pub per_verb_timeout: u64,
    pub title: String,
    pub year: Option<u16>,
    pub external_ids: IdMap,
}

impl DetailMetadataRequest {
    /// Convert a wire request to the engine form: the id source is parsed,
    /// the timeout is the default one, every other field is carried over.
    pub fn from_wire(r: GetDetailMetadataRequest) -> (d: DetailMetadataRequest)
        ensures
            d.entry_id@ == r.entry_id@,
            id_source_name(d.id_source) == r.id_source@,
            d.id_source is Other <==> !is_known_source_name(r.id_source@),
            d.kind@ == r.kind@,
            d.per_verb_timeout == DEFAULT_PER_VERB_TIMEOUT,
            d.title@ == r.title@,
            d.year == r.year,
            d.external_ids@ == r.external_ids@,
    {
        let id_source = parse_id_source(r.id_source.as_str());
        DetailMetadataRequest {
            entry_id: r.entry_id,
            id_source,
            kind: r.kind,
            per_verb_timeout: DEFAULT_PER_VERB_TIMEOUT,
            title: r.title,
            year: r.year,
            external_ids: r.external_ids,
        }
    }
}

/// One merged per-verb payload, as the engine produces it.
#[derive(Debug, Clone)]
pub struct DetailMetadataPartial {
    pub entry_id: String,
    pub verb: MetadataVerb,
    pub payload: MetadataPayload,
}

/// Wire name of a metadata verb.
pub open spec fn verb_name(v: MetadataVerb) -> Seq<char> {
    match v {
        MetadataVerb::Enrich => "enrich"@,
        MetadataVerb::Credits => "credits"@,
        MetadataVerb::Artwork => "artwork"@,
        MetadataVerb::Related => "related"@,
        MetadataVerb::RatingsAggregator => "ratings_aggregator"@,
    }
}

impl DetailMetadataPartial {
    /// Convert to the wire form: only the verb changes, to its wire name.
    pub fn into_wire(self) -> (w: crate::wire_metadata::DetailMetadataPartial)
        ensures
            w.entry_id@ == self.entry_id@,
            w.verb@ == verb_name(self.verb),
            w.payload == self.payload,
    {
        let verb = match self.verb {
            MetadataVerb::Enrich => owned("enrich"),
            MetadataVerb::Credits => owned("credits"),
            MetadataVerb::Artwork => owned("artwork"),
            MetadataVerb::Related => owned("related"),
            MetadataVerb::RatingsAggregator => owned("ratings_aggregator"),
        };
        crate::wire_metadata::DetailMetadataPartial {
            entry_id: self.entry_id,
            verb,
            payload: self.payload,
        }
    }
}

// ── Id routing ───────────────────────────────────────────────────────────────

/// The id stored under `k`, when present and non-empty.
pub open spec fn present_id(ids: Seq<(String, String)>, k: Seq<char>) -> Option<Seq<char>> {
    match id_lookup(ids, k) {
        Some(v) => if v.len() > 0 { Some(v) } else { None },
        None => None,
    }
}

/// The id stored under `k`, when present and non-empty.
fn present_id_exec(ids: &IdMap, k: &str) -> (r: Option<String>)
    ensures
        opt_view(r) == present_id(ids@, k@),
{
    match id_get(ids, k) {
        Some(v) => if v.unicode_len() > 0 { Some(v) } else { None },
        None => None,
    }
}

/// The IMDb id for the rating aggregator: the primary id when the entry is
/// IMDb-keyed and the id is non-empty, else a non-empty `"imdb"` external id.
pub open spec fn imdb_id_of(req: DetailMetadataRequest) -> Option<Seq<char>> {
    if req.id_source is Imdb && req.entry_id@.len() > 0 {
        Some(req.entry_id@)
    } else {
        present_id(req.external_ids@, "imdb"@)
    }
}

/// The IMDb id to use for the rating-aggregator call.
pub fn imdb_id_from_request(req: &DetailMetadataRequest) -> (r: Option<String>)
    ensures
        opt_view(r) == imdb_id_of(*req),
{
    match req.id_source {
        IdSource::Imdb => {
            if req.entry_id.unicode_len() > 0 {
                return Some(req.entry_id.clone());
            }
        },
        _ => {},
    }
    present_id_exec(&req.external_ids, "imdb")
}

/// An `(id, id source)` pair by value.
pub open spec fn pair_view(p: Option<(String, String)>) -> Option<(Seq<char>, Seq<char>)> {
    match p {
        Some((a, b)) => Some((a@, b@)),
        None => None,
    }
}

/// Fanart's id source for a kind: movies go by TMDB, series-like kinds by
/// TVDB, anything else by TMDB.
pub open spec fn fanart_source(kind: Seq<char>) -> Seq<char> {
    if kind == "movies"@ {
        "tmdb"@
    } else if kind == "series"@ || kind == "anime"@ || kind == "episode"@ {
        "tvdb"@
    } else {
        "tmdb"@
    }
}

/// The first declared source (from position `i` on) the request can serve:
/// the primary id when its source matches, else a non-empty external id.
pub open spec fn manifest_route(req: DetailMetadataRequest, srcs: Seq<Seq<char>>, i: int) -> Option<
    (Seq<char>, Seq<char>),
>
    decreases srcs.len() - i,
{
    if i >= srcs.len() || i < 0 {
        None
    } else if srcs[i] == id_source_name(req.id_source) && req.entry_id@.len() > 0 {
        Some((req.entry_id@, srcs[i]))
    } else if present_id(req.external_ids@, srcs[i]) is Some {
        Some((present_id(req.external_ids@, srcs[i]).unwrap(), srcs[i]))
    } else {
        manifest_route(req, srcs, i + 1)
    }
}

/// Which `(id, id source)` plugin `plugin` gets: fanart by kind; a plugin
/// that declares id sources by the first one that can be served (none:
/// skip it); otherwise its own name's external id, else the primary id.
pub open spec fn routed_id(req: DetailMetadataRequest, plugin: Seq<char>, srcs: Seq<Seq<char>>) -> Option<
    (Seq<char>, Seq<char>),
> {
    if plugin == "fanart"@ {
        let pref = fanart_source(req.kind@);
        if present_id(req.external_ids@, pref) is Some {
            Some((present_id(req.external_ids@, pref).unwrap(), pref))
        } else if id_source_name(req.id_source) == pref && req.entry_id@.len() > 0 {
            Some((req.entry_id@, pref))
        } else {
            None
        }
    } else if srcs.len() > 0 {
        manifest_route(req, srcs, 0)
    } else if present_id(req.external_ids@, plugin) is Some {
        Some((present_id(req.external_ids@, plugin).unwrap(), plugin))
    } else {
        Some((req.entry_id@, id_source_name(req.id_source)))
    }
}

/// Fanart is routed by kind, whatever ids it declares: series, anime and
/// episodes by their TVDB id, everything else (movies first) by its TMDB
/// id; the id is the request's non-empty external id of that source, else
/// its primary id when that is of that source; with neither it is skipped.
pub proof fn lemma_fanart_routing(req: DetailMetadataRequest, srcs: Seq<Seq<char>>)
    ensures
        routed_id(req, "fanart"@, srcs) == {
            let src = if req.kind@ == "series"@ || req.kind@ == "anime"@ || req.kind@ == "episode"@ {
                "tvdb"@
            } else {
                "tmdb"@
            };
            if present_id(req.external_ids@, src) is Some {
                Some((present_id(req.external_ids@, src).unwrap(), src))
            } else if id_source_name(req.id_source) == src && req.entry_id@.len() > 0 {
                Some((req.entry_id@, src))
            } else {
                None
            }
        },
{
    reveal_strlit("movies");
    reveal_strlit("series");
    reveal_strlit("anime");
    reveal_strlit("episode");
    assert("movies"@[0] != "series"@[0]);
    assert("movies"@.len() != "anime"@.len());
    assert("movies"@.len() != "episode"@.len());
}

/// Whether the request holds an id of source `src`: its primary id when
/// that is of `src` and non-empty, or a non-empty external id of `src`.
pub open spec fn can_serve(req: DetailMetadataRequest, src: Seq<char>) -> bool {
    (src == id_source_name(req.id_source) && req.entry_id@.len() > 0) || present_id(req.external_ids@, src) is Some
}

/// A plugin that declares id sources gets the first declared source the
/// request can serve — the primary id when it is of that source, else the
/// external id — and is skipped exactly when no declared source can be
/// served.
pub proof fn lemma_declared_routing(req: DetailMetadataRequest, plugin: Seq<char>, srcs: Seq<Seq<char>>)
    requires
        plugin != "fanart"@,
        srcs.len() > 0,
    ensures
        routed_id(req, plugin, srcs) is None <==> forall|k: int| 0 <= k < srcs.len() ==> !can_serve(req, #[trigger] srcs[k]),
        routed_id(req, plugin, srcs) matches Some((id, src)) ==> exists|k: int|
            0 <= k < srcs.len() && #[trigger] srcs[k] == src && can_serve(req, src) && (forall|m: int|
                0 <= m < k ==> !can_serve(req, #[trigger] srcs[m])) && id == if src == id_source_name(req.id_source)
                && req.entry_id@.len() > 0 {
                req.entry_id@
            } else {
                present_id(req.external_ids@, src).unwrap()
            },
{
    lemma_manifest_route_first(req, srcs, 0);
}

proof fn lemma_manifest_route_first(req: DetailMetadataRequest, srcs: Seq<Seq<char>>, i: int)
    requires
        0 <= i <= srcs.len(),
    ensures
        manifest_route(req, srcs, i) is None <==> forall|k: int| i <= k < srcs.len() ==> !can_serve(req, #[trigger] srcs[k]),
        manifest_route(req, srcs, i) matches Some((id, src)) ==> exists|k: int|
            i <= k < srcs.len() && #[trigger] srcs[k] == src && can_serve(req, src) && (forall|m: int|
                i <= m < k ==> !can_serve(req, #[trigger] srcs[m])) && id == if src == id_source_name(req.id_source)
                && req.entry_id@.len() > 0 {
                req.entry_id@
            } else {
                present_id(req.external_ids@, src).unwrap()
            },
    decreases srcs.len() - i,
{
    if i < srcs.len() {
        lemma_manifest_route_first(req, srcs, i + 1);
        if !can_serve(req, srcs[i]) {
            match manifest_route(req, srcs, i + 1) {
                Some((id, src)) => {
                    let k = choose|k: int|
                        i + 1 <= k < srcs.len() && #[trigger] srcs[k] == src && can_serve(req, src) && (forall|m: int|
                            i + 1 <= m < k ==> !can_serve(req, #[trigger] srcs[m])) && id == if src == id_source_name(
                            req.id_source,
                        ) && req.entry_id@.len() > 0 {
                            req.entry_id@
                        } else {
                            present_id(req.external_ids@, src).unwrap()
                        };
                    assert forall|m: int| i <= m < k implies !can_serve(req, #[trigger] srcs[m]) by {
                        if m > i {
                            assert(i + 1 <= m < k);
                        }
                    }
                },
                None => {},
            }
        }
    }
}

/// Fanart's id source for the request's kind.
fn fanart_source_exec(kind: &str) -> (r: String)
    ensures
        r@ == fanart_source(kind@),
{
    if str_eq(kind, "movies") {
        owned("tmdb")
    } else if str_eq(kind, "series") || str_eq(kind, "anime") || str_eq(kind, "episode") {
        owned("tvdb")
    } else {
        owned("tmdb")
    }
}

/// Resolve which `(id, id_source)` to send to `plugin` for a verb whose
/// manifest declares `id_sources` (see `routed_id`).
pub fn resolve_id_for_plugin(
    req: &DetailMetadataRequest,
    plugin: &str,
    id_sources: &Vec<String>,
) -> (r: Option<(String, String)>)
    ensures
        pair_view(r) == routed_id(*req, plugin@, names(id_sources@)),
        plugin@ == "fanart"@ && r is Some ==> r.unwrap().1@ == if req.kind@ == "series"@ || req.kind@
            == "anime"@ || req.kind@ == "episode"@ {
            "tvdb"@
        } else {
            "tmdb"@
        },
{
    proof {
        lemma_fanart_routing(*req, names(id_sources@));
    }
    if str_eq(plugin, "fanart") {
        let pref = fanart_source_exec(req.kind.as_str());
        match present_id_exec(&req.external_ids, pref.as_str()) {
            Some(id) => {
                return Some((id, pref));
            },
            None => {},
        }
        let primary = id_source_as_str(&req.id_source);
        if str_eq(primary.as_str(), pref.as_str()) && req.entry_id.unicode_len() > 0 {
            return Some((req.entry_id.clone(), pref));
        }
        return None;
    }
    if id_sources.len() > 0 {
        let primary = id_source_as_str(&req.id_source);
        let n = id_sources.len();
        let mut i: usize = 0;
        while i < n
            invariant
                n == id_sources@.len(),
                i <= n,
                primary@ == id_source_name(req.id_source),
                manifest_route(*req, names(id_sources@), 0) == manifest_route(*req, names(id_sources@), i as int),
                plugin@ != "fanart"@,
                n > 0,
            decreases n - i,
        {
            let src = &id_sources[i];
            assert(names(id_sources@)[i as int] == src@);
            if str_eq(src.as_str(), primary.as_str()) && req.entry_id.unicode_len() > 0 {
                return Some((req.entry_id.clone(), src.clone()));
            }
            match present_id_exec(&req.external_ids, src.as_str()) {
                Some(id) => {
                    return Some((id, src.clone()));
                },
                None => {},
            }
            i += 1;
        }
        return None;
    }
    match present_id_exec(&req.external_ids, plugin) {
        Some(id) => Some((id, owned(plugin))),
        None => Some((req.entry_id.clone(), id_source_as_str(&req.id_source))),
    }
}

// ── Kind routing ─────────────────────────────────────────────────────────────

/// The entry kind plugins see for a tab label: movies → movie, series and
/// anime → series, music → track, anything else → movie.
pub open spec fn kind_of_hint(hint: Seq<char>) -> EntryKind {
    if hint == "movies"@ {
        EntryKind::Movie
    } else if hint == "series"@ || hint == "anime"@ {
        EntryKind::Series
    } else if hint == "music"@ {
        EntryKind::Track
    } else {
        EntryKind::Movie
    }
}

/// Map the tab-flavoured kind from the TUI to the entry kind the plugins
/// expect on their verb requests.
pub fn entry_kind_from_hint(hint: &str) -> (k: EntryKind)
    ensures
        k == kind_of_hint(hint@),
{
    if str_eq(hint, "movies") {
        EntryKind::Movie
    } else if str_eq(hint, "series") || str_eq(hint, "anime") {
        EntryKind::Series
    } else if str_eq(hint, "music") {
        EntryKind::Track
    } else {
        EntryKind::Movie
    }
}

/// The source-list kind of a request: anime-origin entries filed under the
/// series tab use the anime list; otherwise the tab's own.
pub open spec fn effective_kind_of(kind: Seq<char>, src: IdSource) -> Seq<char> {
    if kind == "series"@ && (src is Anilist || src is Kitsu) {
        "anime"@
    } else {
        kind
    }
}

/// The source-list kind a verb resolves for a request.
pub fn effective_kind(kind: &str, id_source: &IdSource) -> (r: String)
    ensures
        r@ == effective_kind_of(kind@, *id_source),
{
    let anime_origin = match id_source {
        IdSource::Anilist | IdSource::Kitsu => true,
        _ => false,
    };
    if anime_origin && str_eq(kind, "series") {
        owned("anime")
    } else {
        owned(kind)
    }
}

/// The kind the rating aggregator is asked for: movies → movie, series and
/// anime → series; other tabs are not served.
pub open spec fn ratings_kind_of(kind: Seq<char>) -> Option<Seq<char>> {
    if kind == "movies"@ {
        Some("movie"@)
    } else if kind == "series"@ || kind == "anime"@ {
        Some("series"@)
    } else {
        None
    }
}

/// The kind the rating aggregator is asked for, if it serves the tab.
pub fn ratings_kind(kind: &str) -> (r: Option<String>)
    ensures
        opt_view(r) == ratings_kind_of(kind@),
{
    if str_eq(kind, "movies") {
        Some(owned("movie"))
    } else if str_eq(kind, "series") || str_eq(kind, "anime") {
        Some(owned("series"))
    } else {
        None
    }
}

/// The rating-aggregator call of a detail view, if it makes one: the IMDb
/// id and the aggregator's kind, when the request has both.
pub open spec fn ratings_call_of(req: DetailMetadataRequest) -> Option<(Seq<char>, Seq<char>)> {
    match (imdb_id_of(req), ratings_kind_of(req.kind@)) {
        (Some(id), Some(k)) => Some((id, k)),
        _ => None,
    }
}

/// The second phase of a detail view, once enrich's ids are absorbed into
/// `req`: the credits, artwork and related partials always, and the
/// rating-aggregator partial with its `(IMDb id, kind)` when the request
/// has both (see `ratings_call_of`). Enrich's own partial goes out first,
/// before this phase.
pub fn detail_second_phase(req: &DetailMetadataRequest) -> (r: (Vec<MetadataVerb>, Option<(String, String)>))
    ensures
        r.0@ == seq![MetadataVerb::Credits, MetadataVerb::Artwork, MetadataVerb::Related] + if ratings_call_of(
            *req,
        ) is Some {
            seq![MetadataVerb::RatingsAggregator]
        } else {
            Seq::empty()
        },
        pair_view(r.1) == ratings_call_of(*req),
{
    let mut verbs: Vec<MetadataVerb> = Vec::new();
    verbs.push(MetadataVerb::Credits);
    verbs.push(MetadataVerb::Artwork);
    verbs.push(MetadataVerb::Related);
    let call = match (imdb_id_from_request(req), ratings_kind(req.kind.as_str())) {
        (Some(id), Some(k)) => Some((id, k)),
        _ => None,
    };
    match call {
        Some(_) => {
            verbs.push(MetadataVerb::RatingsAggregator);
        },
        None => {},
    }
    assert(verbs@ =~= seq![MetadataVerb::Credits, MetadataVerb::Artwork, MetadataVerb::Related] + if ratings_call_of(*req) is Some {
        seq![MetadataVerb::RatingsAggregator]
    } else {
        Seq::empty()
    });
    (verbs, call)
}

/// Fold the ids an enrich payload discovered into the request, without
/// overwriting the ids it already had (those came from the catalog and are
/// authoritative). Other payloads leave the request unchanged.
pub fn absorb_enrich_ids(req: &mut DetailMetadataRequest, payload: &MetadataPayload)
    ensures
        final(req).entry_id == old(req).entry_id,
        final(req).id_source == old(req).id_source,
        final(req).kind == old(req).kind,
        final(req).per_verb_timeout == old(req).per_verb_timeout,
        final(req).title == old(req).title,
        final(req).year == old(req).year,
        match *payload {
            MetadataPayload::Enrich(d) => forall|k: Seq<char>| #[trigger]
                id_lookup(final(req).external_ids@, k) == id_lookup(
                    old(req).external_ids@ + d.external_ids@,
                    k,
                ),
            _ => final(req).external_ids@ == old(req).external_ids@,
        },
        ids_unique(old(req).external_ids@) ==> ids_unique(final(req).external_ids@),
{
    match payload {
        MetadataPayload::Enrich(d) => {
            union_ids(&mut req.external_ids, &d.external_ids);
        },
        _ => {},
    }
}

} // verus!
