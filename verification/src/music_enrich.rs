//! Second-pass enrichment of music-tab catalog entries: the album partial
//! each plugin is asked about, and the first-value-wins merge of every
//! plugin's answer into the entry.

use vstd::prelude::*;
use crate::abi::{EntryKind, PluginEntry, opt_view};
use crate::catalog::{CatalogEntry, EnrichPatch, write_scores, written};
use crate::registry::{keyed, keyed_insert, keys_distinct};
use crate::text::{decimal, decimal_string, owned, trim, trim_spec};

verus! {

/// Album enrich calls in flight at once.
pub const MUSIC_ENRICH_CONCURRENCY: usize = 4;

/// `p` asks about album entry `e`: an album with the entry's trimmed title
/// and artist, and nothing else.
pub open spec fn is_album_partial(p: PluginEntry, e: CatalogEntry) -> bool {
    &&& p.kind == EntryKind::Album
    &&& p.title@ == trim_spec(e.title@)
    &&& p.artist_name == e.artist
    &&& p.id@.len() == 0
    &&& p.source@.len() == 0
    &&& p.year is None
    &&& p.genre is None
    &&& p.rating is None
    &&& p.description is None
    &&& p.poster_url is None
    &&& p.imdb_id is None
    &&& p.album_name is None
    &&& p.external_ids@.len() == 0
    &&& p.ratings@.len() == 0
}

/// The partial an album entry is enriched with: its trimmed title and its
/// artist, as an album; `None` when the trimmed title is empty.
pub fn album_partial(entry: &CatalogEntry) -> (r: Option<PluginEntry>)
    ensures
        trim_spec(entry.title@).len() == 0 ==> r is None,
        trim_spec(entry.title@).len() > 0 ==> (r matches Some(p) && is_album_partial(p, *entry)),
{
    let title = trim(entry.title.as_str());
    if title.unicode_len() == 0 {
        return None;
    }
    let mut p = PluginEntry::default();
    p.kind = EntryKind::Album;
    p.title = title;
    p.artist_name = crate::abi::clone_opt_string(&entry.artist);
    Some(p)
}

/// The score the last write of `upd` gives source `k`, if any writes it.
pub open spec fn last_write(upd: Seq<(String, u64)>, k: Seq<char>) -> Option<u64>
    decreases upd.len(),
{
    if upd.len() == 0 {
        None
    } else if upd.last().0@ == k {
        Some(upd.last().1)
    } else {
        last_write(upd.drop_last(), k)
    }
}

/// Writing `upd` over `m` gives each source its last write, else what `m`
/// had.
pub proof fn lemma_written_last(m: Seq<(String, u64)>, upd: Seq<(String, u64)>, k: Seq<char>)
    ensures
        written(m, upd, k) == match last_write(upd, k) {
            Some(v) => Some(v),
            None => keyed(m, k),
        },
    decreases upd.len(),
{
    if upd.len() > 0 {
        lemma_written_last(m, upd.drop_last(), k);
    }
}

/// The source key of an album answer's headline score: its source name,
/// else the plugin's name.
pub open spec fn album_key(p: EnrichPatch, plugin: Seq<char>) -> Seq<char> {
    if p.source@.len() > 0 {
        p.source@
    } else {
        plugin
    }
}

/// The score of source `k` after an album answer: the answer's per-source
/// scores win, then its headline score under its key, then what the entry
/// had.
pub open spec fn album_score(e: CatalogEntry, p: EnrichPatch, plugin: Seq<char>, k: Seq<char>) -> Option<u64> {
    match last_write(p.ratings@, k) {
        Some(v) => Some(v),
        None => if p.rating is Some && k == album_key(p, plugin) {
            p.rating
        } else {
            keyed(e.ratings@, k)
        },
    }
}

/// `r` is album entry `e` after plugin `plugin`'s answer `p`: the year,
/// genre and description filled when absent (any value the answer has),
/// scores written (see `album_score`), nothing else changed.
pub open spec fn album_merged(r: CatalogEntry, e: CatalogEntry, plugin: Seq<char>, p: EnrichPatch) -> bool {
    &&& forall|k: Seq<char>| #[trigger] keyed(r.ratings@, k) == album_score(e, p, plugin, k)
    &&& keys_distinct(r.ratings@)
    &&& opt_view(r.year) == if e.year is Some {
        opt_view(e.year)
    } else {
        match p.year {
            Some(y) => Some(decimal(y as nat)),
            None => None,
        }
    }
    &&& r.genre == if e.genre is Some { e.genre } else { p.genre }
    &&& r.description == if e.description is Some { e.description } else { p.description }
    &&& r.rating_votes == e.rating_votes
    &&& r.id == e.id
    &&& r.title == e.title
    &&& r.rating == e.rating
    &&& r.poster_url == e.poster_url
    &&& r.poster_art == e.poster_art
    &&& r.provider == e.provider
    &&& r.tab == e.tab
    &&& r.imdb_id == e.imdb_id
    &&& r.tmdb_id == e.tmdb_id
    &&& r.mal_id == e.mal_id
    &&& r.media_type == e.media_type
    &&& r.original_language == e.original_language
    &&& r.artist == e.artist
}

/// Whether an album answer carries any score.
pub open spec fn album_rates(p: EnrichPatch) -> bool {
    p.rating is Some || p.ratings@.len() > 0
}

/// Whether a plugin's answer is present and carries a score.
pub open spec fn answer_rates(a: (String, Option<EnrichPatch>)) -> bool {
    match a.1 {
        Some(p) => album_rates(p),
        None => false,
    }
}

/// Merge plugin `plugin`'s answer into an album entry (see
/// `album_merged`); `got_any_rating` is set when the answer carries a
/// score.
pub fn merge_plugin_response(entry: &mut CatalogEntry, plugin: &str, p: EnrichPatch, got_any_rating: &mut bool)
    requires
        keys_distinct(old(entry).ratings@),
    ensures
        album_merged(*final(entry), *old(entry), plugin@, p),
        *final(got_any_rating) == (*old(got_any_rating) || album_rates(p)),
{
    let ghost e0 = *entry;
    if entry.year.is_none() {
        match p.year {
            Some(y) => {
                entry.year = Some(decimal_string(y as u64));
            },
            None => {},
        }
    }
    if entry.genre.is_none() {
        entry.genre = p.genre;
    }
    if entry.description.is_none() {
        entry.description = p.description;
    }
    let ghost m0 = entry.ratings@;
    match p.rating {
        Some(r) => {
            let key = if p.source.unicode_len() > 0 {
                p.source.clone()
            } else {
                owned(plugin)
            };
            keyed_insert(&mut entry.ratings, key, r);
            *got_any_rating = true;
        },
        None => {},
    }
    let ghost m1 = entry.ratings@;
    write_scores(&mut entry.ratings, &p.ratings);
    if p.ratings.len() > 0 {
        *got_any_rating = true;
    }
    proof {
        assert forall|k: Seq<char>| #[trigger] keyed(entry.ratings@, k) == album_score(e0, p, plugin@, k) by {
            lemma_written_last(m1, p.ratings@, k);
        }
    }
}

/// `st` walks `e` to `r` through the plugins' answers (plugin name and
/// answer, `None` for a failed call): each present answer merged into the
/// state before it (see `album_merged`).
pub open spec fn album_steps(
    st: Seq<CatalogEntry>,
    e: CatalogEntry,
    answers: Seq<(String, Option<EnrichPatch>)>,
    r: CatalogEntry,
) -> bool {
    &&& st.len() == answers.len() + 1
    &&& st[0] == e
    &&& st[answers.len() as int] == r
    &&& forall|i: int|
        0 <= i < answers.len() ==> match (#[trigger] answers[i]).1 {
            Some(p) => album_merged(st[i + 1], st[i], answers[i].0@, p),
            None => st[i + 1] == st[i],
        }
}

/// Merge every plugin's answer for an album, in plugin order; returns
/// whether any present answer carried a score, so the caller recomputes
/// the weighted rating.
pub fn merge_album_answers(entry: &mut CatalogEntry, answers: Vec<(String, Option<EnrichPatch>)>) -> (rated: bool)
    requires
        keys_distinct(old(entry).ratings@),
    ensures
        keys_distinct(final(entry).ratings@),
        exists|st: Seq<CatalogEntry>| #[trigger] album_steps(st, *old(entry), answers@, *final(entry)),
        rated == exists|i: int|
            0 <= i < answers@.len() && answer_rates(#[trigger] answers@[i]),
{
    let ghost e0 = *entry;
    let ghost all = answers@;
    let mut rest = answers;
    let mut got = false;
    let mut i: usize = 0;
    let ghost mut st: Seq<CatalogEntry> = seq![e0];
    let n = rest.len();
    assert(rest@ =~= all.subrange(0, all.len() as int));
    while rest.len() > 0
        invariant
            n == all.len(),
            i + rest@.len() == all.len(),
            rest@ =~= all.subrange(i as int, all.len() as int),
            keys_distinct(entry.ratings@),
            album_steps(st, e0, all.subrange(0, i as int), *entry),
            got == exists|j: int|
                0 <= j < i && answer_rates(#[trigger] all[j]),
        decreases rest@.len(),
    {
        let (name, a) = rest.remove(0);
        assert((name, a) == all[i as int]);
        let ghost pre = all.subrange(0, i as int);
        let ghost next = all.subrange(0, i + 1);
        assert(next =~= pre.push(all[i as int]));
        let ghost was = got;
        match a {
            Some(p) => {
                merge_plugin_response(entry, name.as_str(), p, &mut got);
            },
            None => {},
        }
        proof {
            let st2 = st.push(*entry);
            assert forall|j: int| 0 <= j < next.len() implies match (#[trigger] next[j]).1 {
                Some(p) => album_merged(st2[j + 1], st2[j], next[j].0@, p),
                None => st2[j + 1] == st2[j],
            } by {
                if j < i {
                    assert(next[j] == pre[j]);
                }
            }
            assert(album_steps(st2, e0, next, *entry));
            st = st2;
            if got && !was {
                assert(answer_rates(all[i as int]));
            }
        }
        i += 1;
    }
    assert(all.subrange(0, all.len() as int) =~= all);
    assert(album_steps(st, e0, all, *entry));
    got
}

} // verus!
