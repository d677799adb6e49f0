//! Source-list resolution: which plugins a metadata verb consults for a
//! kind, and in which order.
//!
//! The user's priority list comes first (kept in order, filtered by the
//! capability probe and the disabled list); plugins the probe discovers
//! for the kind are appended after, unless already listed or disabled.
//! Unknown kinds have no sources.

use vstd::prelude::*;
use crate::abi::MetadataVerb;
use crate::text::{owned, push_str, str_eq};
use crate::dispatch::copy_names;
use crate::ipc_types::{MetadataPluginsForKindRequest, MetadataPluginsForKindResponse};

verus! {

/// Characters of each name in a list.
pub open spec fn names(v: Seq<String>) -> Seq<Seq<char>> {
    v.map_values(|s: String| s@)
}

/// Which plugins implement which verb for which kind.
///
/// The host implementation snapshots the plugin registry; tests use a mock
/// that returns a fixed set. Each implementation names its answers with the
/// two spec functions, and the resolver's contract is stated over them.
pub trait SourceCapabilityProbe {
    /// What `supports` answers.
    spec fn supports_spec(&self, plugin: Seq<char>, verb: MetadataVerb, kind_hint: Seq<char>) -> bool;

    /// What `discover` answers, by name.
    spec fn discover_spec(&self, verb: MetadataVerb, kind_hint: Seq<char>) -> Seq<Seq<char>>;

    /// Whether `plugin` advertises support for `verb` on `kind_hint`; used
    /// to filter the user's priority list before fan-out.
    fn supports(&self, plugin: &str, verb: MetadataVerb, kind_hint: &str) -> (r: bool)
        ensures
            r == self.supports_spec(plugin@, verb, kind_hint@),
    ;

    /// Every plugin that should auto-join the fan-out for
    /// `(verb, kind_hint)`, in any order.
    fn discover(&self, verb: MetadataVerb, kind_hint: &str) -> (r: Vec<String>)
        ensures
            names(r@) == self.discover_spec(verb, kind_hint@),
    ;
}

/// Per-kind priority and disabled lists of metadata sources.
#[derive(Debug, Clone)]
pub struct MetadataSources {
    pub movies: Vec<String>,
    pub series: Vec<String>,
    pub anime: Vec<String>,
    pub music: Vec<String>,
    pub movies_disabled: Vec<String>,
    pub series_disabled: Vec<String>,
    pub anime_disabled: Vec<String>,
    pub music_disabled: Vec<String>,
}

/// A list of names built from literals.
fn name_list(a: &str, b: &str, c: Option<&str>) -> (r: Vec<String>)
    ensures
        names(r@) == match c {
            Some(z) => seq![a@, b@, z@],
            None => seq![a@, b@],
        },
{
    let mut v: Vec<String> = Vec::new();
    v.push(owned(a));
    v.push(owned(b));
    match c {
        Some(z) => {
            v.push(owned(z));
        },
        None => {},
    }
    assert(names(v@) =~= match c {
        Some(z) => seq![a@, b@, z@],
        None => seq![a@, b@],
    });
    v
}

impl Default for MetadataSources {
    /// Movies: TMDB, OMDb, TVDB. Series: TVDB, TMDB, OMDb. Anime: AniList,
    /// Kitsu. Music: MusicBrainz, Discogs. Nothing disabled.
    fn default() -> (r: MetadataSources)
        ensures
            names(r.movies@) == seq!["tmdb"@, "omdb"@, "tvdb"@],
            names(r.series@) == seq!["tvdb"@, "tmdb"@, "omdb"@],
            names(r.anime@) == seq!["anilist"@, "kitsu"@],
            names(r.music@) == seq!["musicbrainz"@, "discogs"@],
            r.movies_disabled@.len() == 0,
            r.series_disabled@.len() == 0,
            r.anime_disabled@.len() == 0,
            r.music_disabled@.len() == 0,
    {
        MetadataSources {
            movies: name_list("tmdb", "omdb", Some("tvdb")),
            series: name_list("tvdb", "tmdb", Some("omdb")),
            anime: name_list("anilist", "kitsu", None),
            music: name_list("musicbrainz", "discogs", None),
            movies_disabled: Vec::new(),
            series_disabled: Vec::new(),
            anime_disabled: Vec::new(),
            music_disabled: Vec::new(),
        }
    }
}

/// The (priority, disabled) lists of a kind, if the kind is known.
pub open spec fn kind_lists(cfg: MetadataSources, kind: Seq<char>) -> Option<
    (Seq<String>, Seq<String>),
> {
    if kind == "movies"@ {
        Some((cfg.movies@, cfg.movies_disabled@))
    } else if kind == "series"@ {
        Some((cfg.series@, cfg.series_disabled@))
    } else if kind == "anime"@ {
        Some((cfg.anime@, cfg.anime_disabled@))
    } else if kind == "music"@ {
        Some((cfg.music@, cfg.music_disabled@))
    } else {
        None
    }
}

/// The ordered sources: the priority entries marked kept, then the
/// discovered plugins that are neither in the priority list nor disabled,
/// in discovery order.
pub open spec fn ordered_sources(
    priority: Seq<String>,
    kept: Seq<bool>,
    disabled: Seq<String>,
    discovered: Seq<Seq<char>>,
) -> Seq<Seq<char>> {
    kept_names(priority, kept, priority.len() as int) + discovered.filter(
        |x: Seq<char>| !names(priority).contains(x) && !names(disabled).contains(x),
    )
}

/// The names of the first `i` priority entries that are marked kept.
pub open spec fn kept_names(priority: Seq<String>, kept: Seq<bool>, i: int) -> Seq<Seq<char>>
    decreases i,
{
    if i <= 0 {
        Seq::empty()
    } else if kept[i - 1] {
        kept_names(priority, kept, i - 1).push(priority[i - 1]@)
    } else {
        kept_names(priority, kept, i - 1)
    }
}

/// Filtering a sequence extended by one element filters that element last.
pub proof fn lemma_filter_push<A>(s: Seq<A>, x: A, pred: spec_fn(A) -> bool)
    ensures
        s.push(x).filter(pred) == if pred(x) {
            s.filter(pred).push(x)
        } else {
            s.filter(pred)
        },
{
    reveal(Seq::filter);
    assert(s.push(x).drop_last() =~= s);
}

/// Whether `x` is one of the names in `list`.
pub fn contains_name(list: &Vec<String>, x: &str) -> (r: bool)
    ensures
        r == names(list@).contains(x@),
{
    let mut i: usize = 0;
    while i < list.len()
        invariant
            i <= list@.len(),
            forall|q: int| 0 <= q < i ==> list@[q]@ != x@,
        decreases list@.len() - i,
    {
        if str_eq(list[i].as_str(), x) {
            assert(names(list@)[i as int] == x@);
            return true;
        }
        i += 1;
    }
    proof {
        if names(list@).contains(x@) {
            let q = choose|q: int| 0 <= q < names(list@).len() && names(list@)[q] == x@;
            assert(list@[q]@ == x@);
        }
    }
    false
}

/// Ordered-source resolver: the configured priority and disabled lists,
/// unioned with the probe's manifest-tagged discovery.
pub struct SourceResolver<P: SourceCapabilityProbe> {
    pub config: MetadataSources,
    pub probe: Box<P>,
}

impl<P: SourceCapabilityProbe> SourceResolver<P> {
    /// A resolver over `config` and `probe`.
    pub fn new(config: MetadataSources, probe: Box<P>) -> (r: Self)
        ensures
            r.config == config,
            r.probe == probe,
    {
        SourceResolver { config, probe }
    }

    /// The plugins to consult for `verb` on `kind_hint`, in order. Unknown
    /// kinds have none and ask the probe nothing. For a known kind the
    /// result is the priority list with the disabled entries and those the
    /// probe does not support dropped, followed by the probe's discoveries
    /// that are neither in the priority list nor disabled (see
    /// `ordered_sources`).
    pub fn resolve(&self, verb: MetadataVerb, kind_hint: &str) -> (r: Vec<String>)
        ensures
            kind_lists(self.config, kind_hint@) is None ==> r@.len() == 0,
            kind_lists(self.config, kind_hint@) matches Some((p, d)) ==> names(r@) == ordered_sources(
                p,
                kept_by(p, d, |x: Seq<char>| self.probe.supports_spec(x, verb, kind_hint@)),
                d,
                self.probe.discover_spec(verb, kind_hint@),
            ),
    {
        let (priority, disabled) = if str_eq(kind_hint, "movies") {
            (&self.config.movies, &self.config.movies_disabled)
        } else if str_eq(kind_hint, "series") {
            (&self.config.series, &self.config.series_disabled)
        } else if str_eq(kind_hint, "anime") {
            (&self.config.anime, &self.config.anime_disabled)
        } else if str_eq(kind_hint, "music") {
            (&self.config.music, &self.config.music_disabled)
        } else {
            return Vec::new();
        };
        assert(kind_lists(self.config, kind_hint@) == Some((priority@, disabled@)));
        let ghost sup = |x: Seq<char>| self.probe.supports_spec(x, verb, kind_hint@);
        let ghost want = kept_by(priority@, disabled@, sup);
        let mut kept: Vec<bool> = Vec::new();
        let n = priority.len();
        let mut i: usize = 0;
        while i < n
            invariant
                n == priority@.len(),
                i <= n,
                want == kept_by(priority@, disabled@, sup),
                sup == (|x: Seq<char>| self.probe.supports_spec(x, verb, kind_hint@)),
                kept@ == want.subrange(0, i as int),
            decreases n - i,
        {
            let k = !contains_name(disabled, priority[i].as_str()) && self.probe.supports(
                priority[i].as_str(),
                verb,
                kind_hint,
            );
            kept.push(k);
            i += 1;
            assert(kept@ =~= want.subrange(0, i as int));
        }
        assert(kept@ =~= want);
        let discovered = self.probe.discover(verb, kind_hint);
        order_sources(priority, &kept, disabled, &discovered)
    }
}

/// The marking of the priority entries: kept exactly when not disabled and
/// supported.
pub open spec fn kept_by(p: Seq<String>, d: Seq<String>, supported: spec_fn(Seq<char>) -> bool) -> Seq<bool> {
    Seq::new(p.len(), |i: int| !names(d).contains(p[i]@) && supported(p[i]@))
}

/// Whatever the probe answers, a disabled plugin is never consulted.
pub proof fn lemma_disabled_never_ordered(
    p: Seq<String>,
    d: Seq<String>,
    supported: spec_fn(Seq<char>) -> bool,
    disc: Seq<Seq<char>>,
    x: Seq<char>,
)
    requires
        names(d).contains(x),
    ensures
        !ordered_sources(p, kept_by(p, d, supported), d, disc).contains(x),
{
    let kept = kept_by(p, d, supported);
    lemma_kept_names_excludes(p, kept, d, x, p.len() as int);
    let pred = |y: Seq<char>| !names(p).contains(y) && !names(d).contains(y);
    let tail = disc.filter(pred);
    let head = kept_names(p, kept, p.len() as int);
    if ordered_sources(p, kept, d, disc).contains(x) {
        let k = choose|k: int| 0 <= k < (head + tail).len() && (head + tail)[k] == x;
        if k < head.len() {
            assert(head[k] == x);
            assert(head.contains(x));
        } else {
            assert(tail[k - head.len()] == x);
            disc.lemma_filter_pred(pred, k - head.len());
            assert(pred(x));
        }
    }
}

/// The kept names never include a disabled name when the marking keeps no
/// disabled entry.
proof fn lemma_kept_names_excludes(p: Seq<String>, kept: Seq<bool>, d: Seq<String>, x: Seq<char>, i: int)
    requires
        names(d).contains(x),
        kept.len() == p.len(),
        0 <= i <= p.len(),
        forall|q: int| 0 <= q < p.len() && #[trigger] kept[q] ==> !names(d).contains(p[q]@),
    ensures
        !kept_names(p, kept, i).contains(x),
    decreases i,
{
    if i > 0 {
        lemma_kept_names_excludes(p, kept, d, x, i - 1);
        if kept[i - 1] {
            let prev = kept_names(p, kept, i - 1);
            let cur = prev.push(p[i - 1]@);
            assert(cur.contains(x) ==> prev.contains(x) || p[i - 1]@ == x) by {
                if cur.contains(x) {
                    let k = choose|k: int| 0 <= k < cur.len() && #[trigger] cur[k] == x;
                    if k < prev.len() {
                        assert(prev[k] == x);
                    }
                }
            }
        }
    }
}

/// The ordered sources from the probe's answers: the priority entries
/// marked kept, then the discovered plugins that are neither in the
/// priority list nor disabled.
pub fn order_sources(
    priority: &Vec<String>,
    kept: &Vec<bool>,
    disabled: &Vec<String>,
    discovered: &Vec<String>,
) -> (r: Vec<String>)
    requires
        kept@.len() == priority@.len(),
    ensures
        names(r@) == ordered_sources(priority@, kept@, disabled@, names(discovered@)),
{
    let ghost p = priority@;
    let ghost d = disabled@;
    let mut result: Vec<String> = Vec::new();
    let n = priority.len();
    let mut i: usize = 0;
    while i < n
        invariant
            n == p.len(),
            kept@.len() == n,
            p == priority@,
            i <= n,
            names(result@) == kept_names(p, kept@, i as int),
        decreases n - i,
    {
        if kept[i] {
            let ghost before = names(result@);
            result.push(priority[i].clone());
            assert(names(result@) =~= before.push(p[i as int]@));
        }
        i += 1;
    }
    let ghost head = names(result@);
    let ghost ds = names(discovered@);
    let m = discovered.len();
    let mut j: usize = 0;
    while j < m
        invariant
            m == discovered@.len(),
            j <= m,
            p == priority@,
            d == disabled@,
            ds == names(discovered@),
            names(result@) == head + ds.subrange(0, j as int).filter(
                |x: Seq<char>| !names(p).contains(x) && !names(d).contains(x),
            ),
        decreases m - j,
    {
        let cand = &discovered[j];
        let ghost pre = ds.subrange(0, j as int);
        assert(ds.subrange(0, j + 1) =~= pre.push(cand@));
        proof {
            lemma_filter_push(
                pre,
                cand@,
                |x: Seq<char>| !names(p).contains(x) && !names(d).contains(x),
            );
        }
        if !contains_name(priority, cand.as_str()) && !contains_name(disabled, cand.as_str()) {
            let ghost before = names(result@);
            result.push(cand.clone());
            assert(names(result@) =~= before.push(cand@));
            assert(names(result@) =~= head + ds.subrange(0, j + 1).filter(
                |x: Seq<char>| !names(p).contains(x) && !names(d).contains(x),
            ));
        }
        j += 1;
    }
    assert(ds.subrange(0, m as int) =~= ds);
    result
}

// ── Settings listing ─────────────────────────────────────────────────────────

/// The error for a kind that has no source lists.
pub open spec fn unknown_kind_message(kind: Seq<char>) -> Seq<char> {
    "metadata_plugins_for_kind: unknown kind '"@ + kind + "' (expected movies/series/anime/music)"@
}

/// The plugins that contribute to a kind's detail fan-out, as the settings
/// screen lists them: the kind's priority list, the plugins the probe
/// discovers for enrich that are not already in it (in discovery order),
/// and the disabled list. A kind without source lists is an error.
pub fn plugins_for_kind<P: SourceCapabilityProbe>(
    cfg: &MetadataSources,
    probe: &P,
    req: MetadataPluginsForKindRequest,
) -> (r: Result<MetadataPluginsForKindResponse, String>)
    ensures
        kind_lists(*cfg, req.kind@) is None ==> (r matches Err(msg) && msg@ == unknown_kind_message(req.kind@)),
        kind_lists(*cfg, req.kind@) matches Some((p, d)) ==> (r matches Ok(resp) && resp.id == req.id
            && resp.kind == req.kind && resp.priority@ == p && resp.disabled@ == d && names(resp.discovered@)
            == probe.discover_spec(MetadataVerb::Enrich, req.kind@).filter(
            |x: Seq<char>| !names(p).contains(x),
        )),
{
    let kind = req.kind.as_str();
    let (priority, disabled) = if str_eq(kind, "movies") {
        (&cfg.movies, &cfg.movies_disabled)
    } else if str_eq(kind, "series") {
        (&cfg.series, &cfg.series_disabled)
    } else if str_eq(kind, "anime") {
        (&cfg.anime, &cfg.anime_disabled)
    } else if str_eq(kind, "music") {
        (&cfg.music, &cfg.music_disabled)
    } else {
        let mut msg = owned("metadata_plugins_for_kind: unknown kind '");
        push_str(&mut msg, kind);
        push_str(&mut msg, "' (expected movies/series/anime/music)");
        return Err(msg);
    };
    let ghost p = priority@;
    let found = probe.discover(MetadataVerb::Enrich, kind);
    let ghost ds = names(found@);
    let mut discovered: Vec<String> = Vec::new();
    let m = found.len();
    let mut j: usize = 0;
    while j < m
        invariant
            m == found@.len(),
            j <= m,
            p == priority@,
            ds == names(found@),
            names(discovered@) == ds.subrange(0, j as int).filter(|x: Seq<char>| !names(p).contains(x)),
        decreases m - j,
    {
        let cand = &found[j];
        let ghost pre = ds.subrange(0, j as int);
        assert(ds.subrange(0, j + 1) =~= pre.push(cand@));
        proof {
            lemma_filter_push(pre, cand@, |x: Seq<char>| !names(p).contains(x));
        }
        if !contains_name(priority, cand.as_str()) {
            let ghost before = names(discovered@);
            discovered.push(cand.clone());
            assert(names(discovered@) =~= before.push(cand@));
        }
        j += 1;
    }
    assert(ds.subrange(0, m as int) =~= ds);
    Ok(
        MetadataPluginsForKindResponse {
            id: req.id,
            kind: req.kind,
            priority: copy_names(priority),
            discovered,
            disabled: copy_names(disabled),
        },
    )
}

} // verus!
