//! Scoped search: collapsing cross-provider duplicates, and the timing
//! state machine that decides when a scope's partial and final result
//! frames go out.
//!
//! Timing model: the partial deadline starts on the first plugin outcome;
//! when it fires a partial frame with what has arrived goes out. The hard
//! floor runs from dispatch; if it fires before any partial, an empty
//! partial frame goes out so the column is not blank. When every plugin
//! has answered, the final frame goes out, flagged `AllFailed` when nothing
//! arrived and some plugin failed.

use vstd::prelude::*;
use crate::abi::{SearchScope, opt_view};
use crate::ipc::{MediaEntry, ScopeError};
use crate::registry::keyed;
use crate::sort::{is_stable_sort_by, lemma_stable_sort_by_keys, stable_sort};
use crate::text::{owned, push_str, str_eq};

verus! {

// ── Config ───────────────────────────────────────────────────────────────────

/// Timing of a scoped search, in milliseconds.
#[derive(Debug, Clone, Copy)]
pub struct ScopedSearchConfig {
    /// Wait after the first plugin outcome before the partial frame.
    pub partial_deadline: u64,
    /// Wait from dispatch before an empty partial frame.
    pub hard_floor: u64,
}

impl Default for ScopedSearchConfig {
    /// 500 ms partial deadline, 2000 ms hard floor.
    fn default() -> (r: ScopedSearchConfig)
        ensures
            r.partial_deadline == 500,
            r.hard_floor == 2000,
    {
        ScopedSearchConfig { partial_deadline: 500, hard_floor: 2000 }
    }
}

// ── Dedup keys ───────────────────────────────────────────────────────────────

/// A non-empty optional text.
pub open spec fn present(o: Option<String>) -> Option<Seq<char>> {
    match o {
        Some(s) => if s@.len() > 0 { Some(s@) } else { None },
        None => None,
    }
}

/// The group key of an entry: `mal:<id>` when it has a MAL id, else
/// `imdb:<id>` when it has an IMDb id (empty ids count as absent), else
/// `title:<normalized title>:<year or ?>`.
pub open spec fn dedup_key_of(e: MediaEntry, normalized_title: Seq<char>) -> Seq<char> {
    if present(e.mal_id) is Some {
        "mal:"@ + present(e.mal_id).unwrap()
    } else if present(e.imdb_id) is Some {
        "imdb:"@ + present(e.imdb_id).unwrap()
    } else {
        "title:"@ + normalized_title + ":"@ + match e.year {
            Some(y) => y@,
            None => "?"@,
        }
    }
}

/// The group key for collapsing one entity across providers, given the
/// entry's normalized title (see `dedup_key_of`).
pub fn dedup_key(e: &MediaEntry, normalized_title: &str) -> (r: String)
    ensures
        r@ == dedup_key_of(*e, normalized_title@),
{
    match &e.mal_id {
        Some(m) => {
            if m.unicode_len() > 0 {
                let mut k = owned("mal:");
                push_str(&mut k, m.as_str());
                return k;
            }
        },
        None => {},
    }
    match &e.imdb_id {
        Some(m) => {
            if m.unicode_len() > 0 {
                let mut k = owned("imdb:");
                push_str(&mut k, m.as_str());
                return k;
            }
        },
        None => {},
    }
    let mut k = owned("title:");
    push_str(&mut k, normalized_title);
    push_str(&mut k, ":");
    match &e.year {
        Some(y) => push_str(&mut k, y.as_str()),
        None => push_str(&mut k, "?"),
    }
    k
}

// ── Collapse ─────────────────────────────────────────────────────────────────

/// An entry with its group key and the priority of its provider for that
/// key (lower wins).
#[derive(Debug, Clone)]
pub struct KeyedEntry {
    pub entry: MediaEntry,
    pub key: String,
    pub priority: u64,
}

/// The optional text fields a merge fills, by selector: 0 IMDb id, 1 TMDB
/// id, 2 MAL id, 3 year, 4 genre, 5 rating, 6 description, 7 poster,
/// 8 original language.
pub open spec fn fill_field(e: MediaEntry, w: int) -> Option<Seq<char>> {
    if w == 0 {
        opt_view(e.imdb_id)
    } else if w == 1 {
        opt_view(e.tmdb_id)
    } else if w == 2 {
        opt_view(e.mal_id)
    } else if w == 3 {
        opt_view(e.year)
    } else if w == 4 {
        opt_view(e.genre)
    } else if w == 5 {
        opt_view(e.rating)
    } else if w == 6 {
        opt_view(e.description)
    } else if w == 7 {
        opt_view(e.poster_url)
    } else {
        opt_view(e.original_language)
    }
}

/// The first value of field `w` among `gs`, in order.
pub open spec fn first_fill(gs: Seq<KeyedEntry>, w: int) -> Option<Seq<char>>
    decreases gs.len(),
{
    if gs.len() == 0 {
        None
    } else if first_fill(gs.drop_last(), w) is Some {
        first_fill(gs.drop_last(), w)
    } else {
        fill_field(gs.last().entry, w)
    }
}

/// All per-source ratings of `gs`, in order.
pub open spec fn all_ratings(gs: Seq<KeyedEntry>) -> Seq<(String, u64)>
    decreases gs.len(),
{
    if gs.len() == 0 {
        Seq::empty()
    } else {
        all_ratings(gs.drop_last()) + gs.last().entry.ratings@
    }
}

/// `r` is the group `gs` collapsed onto its first entry: that entry's
/// identity fields, each fillable field from the first entry of the group
/// that has it, and the union of their ratings (an earlier source's score
/// wins).
pub open spec fn folded_from(r: MediaEntry, gs: Seq<KeyedEntry>) -> bool {
    let s = gs[0].entry;
    &&& gs.len() > 0
    &&& forall|w: int| 0 <= w < 9 ==> #[trigger] fill_field(r, w) == first_fill(gs, w)
    &&& forall|k: Seq<char>| #[trigger] keyed(r.ratings@, k) == keyed(all_ratings(gs), k)
    &&& r.id == s.id
    &&& r.title == s.title
    &&& r.provider == s.provider
    &&& r.tab == s.tab
    &&& r.media_type == s.media_type
    &&& r.anilist_id == s.anilist_id
    &&& r.kitsu_id == s.kitsu_id
    &&& r.kind == s.kind
    &&& r.source == s.source
    &&& r.artist_name == s.artist_name
    &&& r.album_name == s.album_name
    &&& r.track_number == s.track_number
    &&& r.season == s.season
    &&& r.episode == s.episode
    &&& r.season_count == s.season_count
    &&& r.has_specials == s.has_specials
}

/// Priority order within a group.
pub open spec fn by_priority(a: KeyedEntry, b: KeyedEntry) -> bool {
    a.priority < b.priority
}

/// The group of the first entry's key, in input order.
pub open spec fn same_key_as(s: Seq<KeyedEntry>, k: Seq<char>) -> Seq<KeyedEntry> {
    s.filter(|x: KeyedEntry| x.key@ == k)
}

/// The entries of other keys, in input order.
pub open spec fn other_keys(s: Seq<KeyedEntry>, k: Seq<char>) -> Seq<KeyedEntry> {
    s.filter(|x: KeyedEntry| x.key@ != k)
}

/// `gs` is `group` sorted stably by priority.
pub open spec fn priority_sorted(gs: Seq<KeyedEntry>, group: Seq<KeyedEntry>) -> bool {
    is_stable_sort_by(gs, group, |a: KeyedEntry, b: KeyedEntry| by_priority(a, b))
}

/// `r` is `group` sorted stably by priority and collapsed.
pub open spec fn collapses(r: MediaEntry, group: Seq<KeyedEntry>) -> bool {
    exists|gs: Seq<KeyedEntry>| #[trigger] priority_sorted(gs, group) && folded_from(r, gs)
}

/// `r` is `s` with duplicates collapsed: one entry per key, keys in the
/// order they are first seen; each key's group sorted stably by priority
/// (lowest first) and collapsed onto its first entry (see `folded_from`).
pub open spec fn deduped(r: Seq<MediaEntry>, s: Seq<KeyedEntry>) -> bool
    decreases s.len(),
{
    if s.len() == 0 {
        r.len() == 0
    } else {
        let k = s[0].key@;
        &&& r.len() > 0
        &&& collapses(r[0], same_key_as(s, k))
        &&& {
            proof {
                lemma_other_keys_shorter(s);
            }
            deduped(r.drop_first(), other_keys(s, k))
        }
    }
}

/// Removing the first entry's key shortens the list.
pub proof fn lemma_other_keys_shorter(s: Seq<KeyedEntry>)
    requires
        s.len() > 0,
    ensures
        other_keys(s, s[0].key@).len() < s.len(),
{
    lemma_filter_len_drop(s, |x: KeyedEntry| x.key@ != s[0].key@);
}

/// Filtering never lengthens; it shortens when the first element fails.
proof fn lemma_filter_len_drop(s: Seq<KeyedEntry>, p: spec_fn(KeyedEntry) -> bool)
    requires
        s.len() > 0,
        !p(s[0]),
    ensures
        s.filter(p).len() < s.len(),
    decreases s.len(),
{
    reveal(Seq::filter);
    if s.len() == 1 {
        assert(s.last() == s[0]);
        assert(s.drop_last().filter(p).len() == 0);
    } else {
        assert(s.drop_last()[0] == s[0]);
        lemma_filter_len_drop(s.drop_last(), p);
    }
}

/// Lookup in a concatenation: the first part answers when it can.
pub proof fn lemma_keyed_append<T>(a: Seq<(String, T)>, c: Seq<(String, T)>, k: Seq<char>)
    ensures
        keyed(a + c, k) == if keyed(a, k) is Some {
            keyed(a, k)
        } else {
            keyed(c, k)
        },
    decreases a.len(),
{
    if a.len() == 0 {
        assert(a + c =~= c);
    } else {
        assert((a + c).drop_first() =~= a.drop_first() + c);
        lemma_keyed_append(a.drop_first(), c, k);
    }
}

/// Add each rating of `src` whose source `dst` lacks; earlier scores win.
pub fn union_ratings(dst: &mut Vec<(String, u64)>, src: &Vec<(String, u64)>)
    ensures
        forall|k: Seq<char>| #[trigger] keyed(final(dst)@, k) == keyed(old(dst)@ + src@, k),
{
    let ghost d0 = dst@;
    let m = src.len();
    let mut j: usize = 0;
    assert(d0 + src@.subrange(0, 0) =~= d0);
    while j < m
        invariant
            m == src@.len(),
            j <= m,
            forall|k: Seq<char>| #[trigger] keyed(dst@, k) == keyed(d0 + src@.subrange(0, j as int), k),
        decreases m - j,
    {
        let ghost t = d0 + src@.subrange(0, j as int);
        let ghost before = dst@;
        assert(d0 + src@.subrange(0, j + 1) =~= t + seq![src@[j as int]]);
        let mut found = false;
        let mut q: usize = 0;
        while q < dst.len()
            invariant
                j < m,
                m == src@.len(),
                q <= dst@.len(),
                found == exists|x: int| 0 <= x < q && dst@[x].0@ == src@[j as int].0@,
            decreases dst@.len() - q,
        {
            if str_eq(dst[q].0.as_str(), src[j].0.as_str()) {
                found = true;
            }
            q += 1;
        }
        proof {
            lemma_keyed_none(before, src@[j as int].0@);
        }
        if !found {
            dst.push((src[j].0.clone(), src[j].1));
            proof {
                assert(dst@.last() == src@[j as int]);
                assert(dst@ =~= before + seq![dst@.last()]);
                assert forall|k: Seq<char>| #[trigger] keyed(dst@, k) == keyed(
                    d0 + src@.subrange(0, j + 1),
                    k,
                ) by {
                    assert(keyed(before, k) == keyed(t, k));
                    lemma_keyed_append(before, seq![dst@.last()], k);
                    lemma_keyed_append(t, seq![src@[j as int]], k);
                    assert(keyed(seq![dst@.last()], k) == keyed(seq![src@[j as int]], k));
                    assert(seq![dst@.last()].drop_first() =~= Seq::<(String, u64)>::empty());
                    assert(seq![src@[j as int]].drop_first() =~= Seq::<(String, u64)>::empty());
                }
            }
        } else {
            proof {
                assert forall|k: Seq<char>| #[trigger] keyed(dst@, k) == keyed(
                    d0 + src@.subrange(0, j + 1),
                    k,
                ) by {
                    assert(keyed(before, src@[j as int].0@) is Some);
                    assert(keyed(before, k) == keyed(t, k));
                    lemma_keyed_append(t, seq![src@[j as int]], k);
                    assert(seq![src@[j as int]].drop_first() =~= Seq::<(String, u64)>::empty());
                    assert(keyed(Seq::<(String, u64)>::empty(), k) is None);
                    if k == src@[j as int].0@ {
                        assert(keyed(t, k) is Some);
                    } else {
                        assert(keyed(seq![src@[j as int]], k) is None);
                    }
                    assert(d0 + src@.subrange(0, j + 1) =~= t + seq![src@[j as int]]);
                }
            }
        }
        j += 1;
    }
    assert(src@.subrange(0, m as int) =~= src@);
}

/// A lookup finds nothing exactly when no entry carries the key.
pub proof fn lemma_keyed_none<T>(s: Seq<(String, T)>, k: Seq<char>)
    ensures
        keyed(s, k) is None <==> forall|i: int| 0 <= i < s.len() ==> s[i].0@ != k,
    decreases s.len(),
{
    if s.len() > 0 {
        lemma_keyed_none(s.drop_first(), k);
        if s[0].0@ != k {
            assert forall|i: int|
                0 <= i < s.len() && (forall|q: int| 0 <= q < s.drop_first().len() ==> s.drop_first()[q].0@ != k)
                implies s[i].0@ != k by {
                if i > 0 {
                    assert(s[i] == s.drop_first()[i - 1]);
                }
            }
            if keyed(s, k) is Some {
                let q = choose|q: int| 0 <= q < s.drop_first().len() && !(s.drop_first()[q].0@ != k);
                assert(s[q + 1] == s.drop_first()[q]);
            }
        }
    }
}

/// The value to keep for a fillable field: the current one when present,
/// else the candidate's.
fn fill(cur: Option<String>, cand: Option<String>) -> (r: Option<String>)
    ensures
        opt_view(r) == if opt_view(cur) is Some {
            opt_view(cur)
        } else {
            opt_view(cand)
        },
{
    if cur.is_some() {
        cur
    } else {
        cand
    }
}

/// Fold `s` into `p`: every absent fillable field of `p` takes `s`'s value,
/// and `s`'s ratings join `p`'s where `p` has none for that source.
fn fold_into(p: MediaEntry, s: MediaEntry) -> (r: MediaEntry)
    ensures
        forall|w: int| 0 <= w < 9 ==> #[trigger] fill_field(r, w) == if fill_field(p, w) is Some {
            fill_field(p, w)
        } else {
            fill_field(s, w)
        },
        forall|k: Seq<char>| #[trigger] keyed(r.ratings@, k) == keyed(p.ratings@ + s.ratings@, k),
        r.id == p.id,
        r.title == p.title,
        r.provider == p.provider,
        r.tab == p.tab,
        r.media_type == p.media_type,
        r.anilist_id == p.anilist_id,
        r.kitsu_id == p.kitsu_id,
        r.kind == p.kind,
        r.source == p.source,
        r.artist_name == p.artist_name,
        r.album_name == p.album_name,
        r.track_number == p.track_number,
        r.season == p.season,
        r.episode == p.episode,
        r.season_count == p.season_count,
        r.has_specials == p.has_specials,
{
    let mut ratings = p.ratings;
    union_ratings(&mut ratings, &s.ratings);
    MediaEntry {
        id: p.id,
        title: p.title,
        year: fill(p.year, s.year),
        genre: fill(p.genre, s.genre),
        rating: fill(p.rating, s.rating),
        description: fill(p.description, s.description),
        poster_url: fill(p.poster_url, s.poster_url),
        provider: p.provider,
        tab: p.tab,
        media_type: p.media_type,
        ratings,
        imdb_id: fill(p.imdb_id, s.imdb_id),
        tmdb_id: fill(p.tmdb_id, s.tmdb_id),
        mal_id: fill(p.mal_id, s.mal_id),
        anilist_id: p.anilist_id,
        kitsu_id: p.kitsu_id,
        original_language: fill(p.original_language, s.original_language),
        kind: p.kind,
        source: p.source,
        artist_name: p.artist_name,
        album_name: p.album_name,
        track_number: p.track_number,
        season: p.season,
        episode: p.episode,
        season_count: p.season_count,
        has_specials: p.has_specials,
    }
}

/// Collapse a group already in priority order onto its first entry.
fn collapse_sorted(group: Vec<KeyedEntry>) -> (r: MediaEntry)
    requires
        group@.len() > 0,
    ensures
        folded_from(r, group@),
{
    let ghost gs = group@;
    let n = group.len();
    let mut rest = group;
    let first = rest.remove(0);
    assert(first == gs[0]);
    let mut acc = first.entry;
    proof {
        assert(gs.subrange(0, 1).drop_last() =~= Seq::<KeyedEntry>::empty());
        assert(gs.subrange(0, 1).last() == gs[0]);
        assert(all_ratings(Seq::<KeyedEntry>::empty()) =~= Seq::<(String, u64)>::empty());
        assert(first_fill(Seq::<KeyedEntry>::empty(), 0) is None);
        assert(all_ratings(gs.subrange(0, 1)) =~= acc.ratings@);
        assert forall|w: int| 0 <= w < 9 implies #[trigger] fill_field(acc, w) == first_fill(
            gs.subrange(0, 1),
            w,
        ) by {
            assert(gs.subrange(0, 1).last() == gs[0]);
            assert(first_fill(gs.subrange(0, 1).drop_last(), w) is None);
        }
    }
    let mut i: usize = 1;
    while i < n
        invariant
            n == gs.len(),
            1 <= i <= n,
            rest@ == gs.subrange(i as int, n as int),
            forall|w: int| 0 <= w < 9 ==> #[trigger] fill_field(acc, w) == first_fill(
                gs.subrange(0, i as int),
                w,
            ),
            forall|k: Seq<char>| #[trigger] keyed(acc.ratings@, k) == keyed(
                all_ratings(gs.subrange(0, i as int)),
                k,
            ),
            acc.id == gs[0].entry.id,
            acc.title == gs[0].entry.title,
            acc.provider == gs[0].entry.provider,
            acc.tab == gs[0].entry.tab,
            acc.media_type == gs[0].entry.media_type,
            acc.anilist_id == gs[0].entry.anilist_id,
            acc.kitsu_id == gs[0].entry.kitsu_id,
            acc.kind == gs[0].entry.kind,
            acc.source == gs[0].entry.source,
            acc.artist_name == gs[0].entry.artist_name,
            acc.album_name == gs[0].entry.album_name,
            acc.track_number == gs[0].entry.track_number,
            acc.season == gs[0].entry.season,
            acc.episode == gs[0].entry.episode,
            acc.season_count == gs[0].entry.season_count,
            acc.has_specials == gs[0].entry.has_specials,
        decreases n - i,
    {
        let s = rest.remove(0);
        assert(s == gs[i as int]);
        let ghost pre = gs.subrange(0, i as int);
        let ghost before = acc;
        assert(gs.subrange(0, i + 1).drop_last() =~= pre);
        assert(gs.subrange(0, i + 1).last() == s);
        acc = fold_into(acc, s.entry);
        proof {
            assert forall|k: Seq<char>| #[trigger] keyed(acc.ratings@, k) == keyed(
                all_ratings(gs.subrange(0, i + 1)),
                k,
            ) by {
                lemma_keyed_append(before.ratings@, s.entry.ratings@, k);
                lemma_keyed_append(all_ratings(pre), s.entry.ratings@, k);
            }
        }
        i += 1;
        assert(rest@ =~= gs.subrange(i as int, n as int));
    }
    assert(gs.subrange(0, n as int) =~= gs);
    acc
}

/// Split `s` into the entries with key `k` and the others, both in order.
fn split_by_key(s: Vec<KeyedEntry>, k: &str) -> (r: (Vec<KeyedEntry>, Vec<KeyedEntry>))
    ensures
        r.0@ == same_key_as(s@, k@),
        r.1@ == other_keys(s@, k@),
{
    let ghost orig = s@;
    let n = s.len();
    let mut rest = s;
    let mut same: Vec<KeyedEntry> = Vec::new();
    let mut others: Vec<KeyedEntry> = Vec::new();
    let mut i: usize = 0;
    while i < n
        invariant
            n == orig.len(),
            i <= n,
            rest@ == orig.subrange(i as int, n as int),
            same@ == orig.subrange(0, i as int).filter(|x: KeyedEntry| x.key@ == k@),
            others@ == orig.subrange(0, i as int).filter(|x: KeyedEntry| x.key@ != k@),
        decreases n - i,
    {
        let e = rest.remove(0);
        assert(e == orig[i as int]);
        let ghost pre = orig.subrange(0, i as int);
        assert(orig.subrange(0, i + 1) =~= pre.push(e));
        proof {
            crate::sources::lemma_filter_push(pre, e, |x: KeyedEntry| x.key@ == k@);
            crate::sources::lemma_filter_push(pre, e, |x: KeyedEntry| x.key@ != k@);
        }
        if str_eq(e.key.as_str(), k) {
            same.push(e);
        } else {
            others.push(e);
        }
        i += 1;
        assert(rest@ =~= orig.subrange(i as int, n as int));
    }
    assert(orig.subrange(0, n as int) =~= orig);
    (same, others)
}

/// Collapse cross-provider duplicates into one entry per key (see
/// `deduped`): keys keep the order they are first seen in, so streaming
/// partials do not reshuffle the grid; within a key the provider with the
/// lowest priority is the spine and the others fill its holes.
pub fn merge_dedupe(entries: Vec<KeyedEntry>) -> (r: Vec<MediaEntry>)
    ensures
        deduped(r@, entries@),
{
    let ghost input = entries@;
    let mut rest = entries;
    let mut out: Vec<MediaEntry> = Vec::new();
    while rest.len() > 0
        invariant
            forall|r2: Seq<MediaEntry>| deduped(r2, rest@) ==> #[trigger] deduped(out@ + r2, input),
        decreases rest@.len(),
    {
        let ghost s = rest@;
        let k = rest[0].key.clone();
        proof {
            lemma_other_keys_shorter(s);
        }
        let (group, others) = split_by_key(rest, k.as_str());
        proof {
            assert(s.filter(|x: KeyedEntry| x.key@ == k@).len() > 0) by {
                lemma_first_kept(s, |x: KeyedEntry| x.key@ == k@);
            }
        }
        let mut keys: Vec<u64> = Vec::new();
        let mut a: usize = 0;
        while a < group.len()
            invariant
                a <= group@.len(),
                keys@.len() == a,
                forall|q: int| 0 <= q < a ==> keys@[q] == (#[trigger] group@[q]).priority,
            decreases group@.len() - a,
        {
            keys.push(group[a].priority);
            a += 1;
        }
        let ghost g = group@;
        let sorted = stable_sort(group, &keys);
        proof {
            lemma_stable_sort_by_keys(
                sorted@,
                g,
                keys@,
                |a: KeyedEntry, b: KeyedEntry| by_priority(a, b),
            );
        }
        let ghost sv = sorted@;
        let e = collapse_sorted(sorted);
        proof {
            assert(collapses(e, g)) by {
                assert(priority_sorted(sv, g) && folded_from(e, sv));
            }
            assert forall|r3: Seq<MediaEntry>| deduped(r3, others@) implies #[trigger] deduped(
                out@.push(e) + r3,
                input,
            ) by {
                let r2 = seq![e] + r3;
                assert(r2.drop_first() =~= r3);
                assert(r2[0] == e);
                assert(deduped(r2, s));
                assert(out@ + r2 =~= out@.push(e) + r3);
            }
        }
        out.push(e);
        rest = others;
    }
    assert(out@ + Seq::<MediaEntry>::empty() =~= out@);
    out
}

/// Filtering keeps the first element when it passes.
proof fn lemma_first_kept(s: Seq<KeyedEntry>, p: spec_fn(KeyedEntry) -> bool)
    requires
        s.len() > 0,
        p(s[0]),
    ensures
        s.filter(p).len() > 0,
    decreases s.len(),
{
    reveal(Seq::filter);
    if s.len() > 1 {
        lemma_first_kept(s.drop_last(), p);
    }
}

// ── Timing state machine ─────────────────────────────────────────────────────

/// What the scope's driver observed.
#[derive(Debug, Clone, Copy, PartialEq, Eq, Structural)]
pub enum ScopeEvent {
    /// A source answered with results.
    Answered,
    /// A source failed.
    Failed,
    /// The partial deadline fired.
    PartialDeadline,
    /// The hard floor fired.
    HardFloor,
}

/// What the driver does next.
#[derive(Debug, Clone, Copy, PartialEq, Eq, Structural)]
pub enum ScopeAction {
    /// Nothing.
    Wait,
    /// Start the partial-deadline timer.
    ArmPartialDeadline,
    /// Emit a partial frame with the collapsed results so far.
    EmitPartial,
    /// Emit an empty partial frame.
    EmitEmptyPartial,
}

/// Where a scope's collection stands.
#[derive(Debug, Clone, Copy, PartialEq, Eq, Structural)]
pub struct ScopeTiming {
    /// Sources dispatched to.
    pub total: usize,
    /// Sources that answered or failed so far.
    pub responded: usize,
    /// Sources that failed so far.
    pub failed: usize,
    /// Whether a partial frame went out.
    pub emitted_partial: bool,
    /// Whether the partial-deadline timer runs (some source responded).
    pub partial_armed: bool,
}

/// One transition. A source outcome counts one more response (and one more
/// failure for a failed source) and arms the partial deadline on the first
/// outcome. The partial deadline emits the results so far once armed; the
/// hard floor emits an empty frame only while no source has responded; each
/// only while no partial frame went out.
pub open spec fn scope_step(s: ScopeTiming, e: ScopeEvent) -> (ScopeTiming, ScopeAction) {
    match e {
        ScopeEvent::Answered | ScopeEvent::Failed => {
            let counts = s.responded < s.total;
            let n = ScopeTiming {
                responded: if counts { (s.responded + 1) as usize } else { s.responded },
                failed: if counts && e is Failed && s.failed < s.total { (s.failed + 1) as usize } else { s.failed },
                partial_armed: true,
                ..s
            };
            (n, if s.partial_armed { ScopeAction::Wait } else { ScopeAction::ArmPartialDeadline })
        },
        ScopeEvent::PartialDeadline => if s.partial_armed && !s.emitted_partial {
            (ScopeTiming { emitted_partial: true, ..s }, ScopeAction::EmitPartial)
        } else {
            (s, ScopeAction::Wait)
        },
        ScopeEvent::HardFloor => if !s.partial_armed && !s.emitted_partial {
            (ScopeTiming { emitted_partial: true, ..s }, ScopeAction::EmitEmptyPartial)
        } else {
            (s, ScopeAction::Wait)
        },
    }
}

/// The actions of a run of events from `s`.
pub open spec fn scope_actions(s: ScopeTiming, es: Seq<ScopeEvent>) -> Seq<ScopeAction>
    decreases es.len(),
{
    if es.len() == 0 {
        Seq::empty()
    } else {
        let (n, a) = scope_step(s, es[0]);
        seq![a] + scope_actions(n, es.drop_first())
    }
}

/// Whether an action emits a partial frame.
pub open spec fn is_partial_emit(a: ScopeAction) -> bool {
    a is EmitPartial || a is EmitEmptyPartial
}

/// The number of partial frames among `acts`.
pub open spec fn partial_count(acts: Seq<ScopeAction>) -> nat
    decreases acts.len(),
{
    if acts.len() == 0 {
        0
    } else {
        (if is_partial_emit(acts[0]) { 1nat } else { 0nat }) + partial_count(acts.drop_first())
    }
}

/// A scope emits at most one partial frame, whatever happens; none once
/// one went out.
pub proof fn lemma_at_most_one_partial(s: ScopeTiming, es: Seq<ScopeEvent>)
    ensures
        partial_count(scope_actions(s, es)) <= if s.emitted_partial { 0nat } else { 1nat },
    decreases es.len(),
{
    if es.len() > 0 {
        let (n, a) = scope_step(s, es[0]);
        lemma_at_most_one_partial(n, es.drop_first());
        assert((seq![a] + scope_actions(n, es.drop_first())).drop_first() =~= scope_actions(
            n,
            es.drop_first(),
        ));
    }
}

/// One action per event.
proof fn lemma_scope_actions_len(s: ScopeTiming, es: Seq<ScopeEvent>)
    ensures
        scope_actions(s, es).len() == es.len(),
    decreases es.len(),
{
    if es.len() > 0 {
        let (n, a) = scope_step(s, es[0]);
        lemma_scope_actions_len(n, es.drop_first());
    }
}

/// Once a source has responded, the hard floor emits nothing: the partial
/// frame is the partial deadline's.
pub proof fn lemma_no_empty_partial_after_response(s: ScopeTiming, es: Seq<ScopeEvent>, i: int)
    requires
        s.partial_armed,
        0 <= i < es.len(),
    ensures
        !(scope_actions(s, es)[i] is EmitEmptyPartial),
    decreases es.len(),
{
    let (n, a) = scope_step(s, es[0]);
    let rest = scope_actions(n, es.drop_first());
    assert(scope_actions(s, es) == seq![a] + rest);
    assert(n.partial_armed);
    lemma_scope_actions_len(n, es.drop_first());
    if i > 0 {
        lemma_no_empty_partial_after_response(n, es.drop_first(), i - 1);
        assert((seq![a] + rest)[i] == rest[i - 1]);
    } else {
        assert((seq![a] + rest)[0] == a);
    }
}

impl ScopeTiming {
    /// The state right after dispatching to `n_sources` sources.
    pub fn start(n_sources: usize) -> (r: ScopeTiming)
        ensures
            r == (ScopeTiming {
                total: n_sources,
                responded: 0,
                failed: 0,
                emitted_partial: false,
                partial_armed: false,
            }),
    {
        ScopeTiming { total: n_sources, responded: 0, failed: 0, emitted_partial: false, partial_armed: false }
    }

    /// Take one event (see `scope_step`).
    pub fn step(&mut self, e: ScopeEvent) -> (a: ScopeAction)
        ensures
            (*final(self), a) == scope_step(*old(self), e),
    {
        match e {
            ScopeEvent::Answered | ScopeEvent::Failed => {
                if self.responded < self.total {
                    self.responded = self.responded + 1;
                    let failed = match e {
                        ScopeEvent::Failed => true,
                        _ => false,
                    };
                    if failed && self.failed < self.total {
                        self.failed = self.failed + 1;
                    }
                }
                let was_armed = self.partial_armed;
                self.partial_armed = true;
                if was_armed {
                    ScopeAction::Wait
                } else {
                    ScopeAction::ArmPartialDeadline
                }
            },
            ScopeEvent::PartialDeadline => {
                if self.partial_armed && !self.emitted_partial {
                    self.emitted_partial = true;
                    ScopeAction::EmitPartial
                } else {
                    ScopeAction::Wait
                }
            },
            ScopeEvent::HardFloor => {
                if !self.partial_armed && !self.emitted_partial {
                    self.emitted_partial = true;
                    ScopeAction::EmitEmptyPartial
                } else {
                    ScopeAction::Wait
                }
            },
        }
    }

    /// Whether every source has responded, so the final frame goes out.
    pub fn finished(&self) -> (r: bool)
        ensures
            r == (self.responded >= self.total),
    {
        self.responded >= self.total
    }

    /// Error of the final frame: `AllFailed` exactly when nothing was
    /// collected and every source failed.
    pub fn final_error(&self, collected_empty: bool) -> (r: Option<ScopeError>)
        ensures
            r == if collected_empty && self.failed == self.total {
                Some(ScopeError::AllFailed)
            } else {
                None
            },
    {
        if collected_empty && self.failed == self.total {
            Some(ScopeError::AllFailed)
        } else {
            None
        }
    }
}

/// The frame for a scope that has no source at all: final, empty, and
/// flagged `NoPluginsConfigured`.
pub fn no_sources_frame(query_id: u64, scope: SearchScope) -> (r: crate::ipc::ScopeResultsMsg)
    ensures
        r.query_id == query_id,
        r.scope == scope,
        r.entries@.len() == 0,
        !r.partial,
        r.error == Some(ScopeError::NoPluginsConfigured),
{
    crate::ipc::ScopeResultsMsg {
        query_id,
        scope,
        entries: Vec::new(),
        partial: false,
        error: Some(ScopeError::NoPluginsConfigured),
    }
}

} // verus!
