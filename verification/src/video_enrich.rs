//! Second-pass enrichment of movie and series catalog entries: the bulk
//! pass over whole tabs, the per-entry fan-out's merging of every plugin's
//! answer, the hand-back of plugins whose bulk call failed, and the
//! progress flush rule.

use vstd::prelude::*;
use crate::abi::{EntryKind, PluginEntry, opt_view};
use crate::catalog::{
    CatalogEntry, EnrichPatch, enrich_partial_for, find_snapshot_idx, merge_changes,
    merge_enrich_into, merged_entry, non_empty,
};
use crate::registry::keys_distinct;
use crate::sources::names;
use crate::text::str_eq;

verus! {

/// Enrich calls in flight at once during the per-entry fan-out.
pub const ENRICH_CONCURRENCY: usize = 8;

/// Entries finished between two progress snapshots.
pub const PROGRESS_BATCH_SIZE: usize = 8;

/// Whether finishing the `done`-th of `total` entries sends a progress
/// snapshot: every `PROGRESS_BATCH_SIZE` entries, and at the last one.
pub fn should_flush_progress(done: usize, total: usize) -> (r: bool)
    ensures
        r == (done % PROGRESS_BATCH_SIZE == 0 || done == total),
{
    done % PROGRESS_BATCH_SIZE == 0 || done == total
}

/// Both per-source maps of a catalog entry have distinct keys.
pub open spec fn entry_wf(e: CatalogEntry) -> bool {
    keys_distinct(e.ratings@) && keys_distinct(e.rating_votes@)
}

// ── Per-entry merge ──────────────────────────────────────────────────────────

/// `st` walks `e` to `r` through `answers`: each present answer merged into
/// the state before it (see `merged_entry`), each failed one skipped;
/// `changed` says whether any merge changed something counted.
pub open spec fn merge_steps(
    st: Seq<CatalogEntry>,
    e: CatalogEntry,
    answers: Seq<Option<EnrichPatch>>,
    r: CatalogEntry,
    changed: bool,
) -> bool {
    &&& st.len() == answers.len() + 1
    &&& st[0] == e
    &&& st[answers.len() as int] == r
    &&& forall|i: int|
        0 <= i < answers.len() ==> match #[trigger] answers[i] {
            Some(p) => merged_entry(st[i + 1], st[i], p),
            None => st[i + 1] == st[i],
        }
    &&& changed == exists|i: int|
        0 <= i < answers.len() && #[trigger] answers[i] is Some && merge_changes(st[i], answers[i].unwrap())
}

/// `r` is `e` after merging the present answers in order, and `changed`
/// says whether any of them changed something counted.
pub open spec fn merged_in_order(
    e: CatalogEntry,
    answers: Seq<Option<EnrichPatch>>,
    r: CatalogEntry,
    changed: bool,
) -> bool {
    exists|st: Seq<CatalogEntry>| #[trigger] merge_steps(st, e, answers, r, changed)
}

/// Merge every plugin's answer for one entry, in plugin order (`None` for
/// a plugin whose call failed); returns whether anything counted changed,
/// so the caller knows to recompute the weighted rating.
pub fn merge_answers(entry: &mut CatalogEntry, answers: Vec<Option<EnrichPatch>>) -> (changed: bool)
    requires
        entry_wf(*old(entry)),
    ensures
        entry_wf(*final(entry)),
        merged_in_order(*old(entry), answers@, *final(entry), changed),
{
    let ghost e0 = *entry;
    let ghost all = answers@;
    let mut rest = answers;
    let mut got_any = false;
    let mut i: usize = 0;
    let ghost mut st: Seq<CatalogEntry> = seq![e0];
    let n = rest.len();
    assert(rest@ =~= all.subrange(0, all.len() as int));
    while rest.len() > 0
        invariant
            n == all.len(),
            i + rest@.len() == all.len(),
            rest@ =~= all.subrange(i as int, all.len() as int),
            entry_wf(*entry),
            merge_steps(st, e0, all.subrange(0, i as int), *entry, got_any),
        decreases rest@.len(),
    {
        let a = rest.remove(0);
        assert(a == all[i as int]);
        let ghost before = *entry;
        let ghost pre = all.subrange(0, i as int);
        let ghost next = all.subrange(0, i + 1);
        assert(next =~= pre.push(a));
        let mut c = false;
        match a {
            Some(p) => {
                c = merge_enrich_into(entry, p);
            },
            None => {},
        }
        proof {
            let st2 = st.push(*entry);
            assert forall|j: int| 0 <= j < next.len() implies match #[trigger] next[j] {
                Some(p) => merged_entry(st2[j + 1], st2[j], p),
                None => st2[j + 1] == st2[j],
            } by {
                if j < i {
                    assert(next[j] == pre[j]);
                }
            }
            if got_any {
                let w = choose|j: int|
                    0 <= j < pre.len() && #[trigger] pre[j] is Some && merge_changes(st[j], pre[j].unwrap());
                assert(next[w] == pre[w]);
            }
            if c {
                assert(next[i as int] is Some && merge_changes(st2[i as int], next[i as int].unwrap()));
            }
            if (got_any || c) == false {
                assert forall|j: int|
                    0 <= j < next.len() && #[trigger] next[j] is Some implies !merge_changes(st2[j], next[j].unwrap()) by {
                    if j < i {
                        assert(next[j] == pre[j]);
                    }
                }
            }
            assert(merge_steps(st2, e0, next, *entry, got_any || c));
            st = st2;
        }
        got_any = got_any || c;
        i += 1;
    }
    assert(all.subrange(0, all.len() as int) =~= all);
    assert(merge_steps(st, e0, all, *entry, got_any));
    got_any
}

// ── Bulk pass ────────────────────────────────────────────────────────────────

/// The tab label of the entries a bulk call of kind `k` covers: movies and
/// series only.
pub open spec fn bulk_tab_of(k: EntryKind) -> Option<Seq<char>> {
    match k {
        EntryKind::Movie => Some("movies"@),
        EntryKind::Series => Some("series"@),
        _ => None,
    }
}

/// The tab label a bulk call of kind `k` covers (see `bulk_tab_of`).
pub fn bulk_tab(k: EntryKind) -> (r: Option<&'static str>)
    ensures
        match r {
            Some(t) => bulk_tab_of(k) == Some(t@),
            None => bulk_tab_of(k) is None,
        },
{
    match k {
        EntryKind::Movie => Some("movies"),
        EntryKind::Series => Some("series"),
        _ => None,
    }
}

/// Whether entry `e` goes into a bulk call for the tab labelled `tab`: it
/// is in that tab and has a non-empty IMDb id.
pub open spec fn bulk_eligible(e: CatalogEntry, tab: Seq<char>) -> bool {
    e.tab@ == tab && non_empty(e.imdb_id) is Some
}

/// `p` is the bulk partial of entry `e` for kind `k`: its title and IMDb
/// id (also under `"imdb"` in the id map), nothing else.
pub open spec fn is_bulk_partial(p: PluginEntry, e: CatalogEntry, k: EntryKind) -> bool {
    &&& p.kind == k
    &&& p.title@ == e.title@
    &&& opt_view(p.imdb_id) == non_empty(e.imdb_id)
    &&& p.external_ids@.len() == 1
    &&& p.external_ids@[0].0@ == "imdb"@
    &&& Some(p.external_ids@[0].1@) == non_empty(e.imdb_id)
    &&& p.id@.len() == 0
    &&& p.source@.len() == 0
    &&& p.year is None
}

/// The partials of one bulk call: one per eligible entry of the tab, in
/// snapshot order.
pub fn bulk_partials(snap: &Vec<CatalogEntry>, tab: &str, kind: EntryKind) -> (r: Vec<PluginEntry>)
    ensures
        r@.len() == snap@.filter(|e: CatalogEntry| bulk_eligible(e, tab@)).len(),
        forall|i: int| 0 <= i < r@.len() ==> is_bulk_partial(#[trigger] r@[i], snap@.filter(|e: CatalogEntry| bulk_eligible(e, tab@))[i], kind),
{
    let ghost pred = |e: CatalogEntry| bulk_eligible(e, tab@);
    let mut out: Vec<PluginEntry> = Vec::new();
    let mut i: usize = 0;
    while i < snap.len()
        invariant
            i <= snap@.len(),
            pred == (|e: CatalogEntry| bulk_eligible(e, tab@)),
            out@.len() == snap@.subrange(0, i as int).filter(pred).len(),
            forall|j: int| 0 <= j < out@.len() ==> is_bulk_partial(#[trigger] out@[j], snap@.subrange(0, i as int).filter(pred)[j], kind),
        decreases snap@.len() - i,
    {
        let e = &snap[i];
        let ghost pre = snap@.subrange(0, i as int);
        assert(snap@.subrange(0, i + 1) =~= pre.push(*e));
        proof {
            crate::sources::lemma_filter_push(pre, *e, pred);
        }
        if str_eq(e.tab.as_str(), tab) {
            match enrich_partial_for(e, kind) {
                Some(p) => {
                    out.push(p);
                },
                None => {},
            }
        }
        i += 1;
    }
    assert(snap@.subrange(0, snap@.len() as int) =~= snap@);
    out
}

/// Whether snapshot entry `e` is the one an answer with id `id` belongs to.
pub open spec fn answers_to(e: CatalogEntry, id: Seq<char>) -> bool {
    opt_view(e.imdb_id) == Some(id) || e.id@ == id
}

/// The first snapshot entry an answer with id `id` belongs to.
pub open spec fn first_answering(s: Seq<CatalogEntry>, id: Seq<char>) -> Option<int>
    decreases s.len(),
{
    if s.len() == 0 {
        None
    } else if answers_to(s[0], id) {
        Some(0)
    } else {
        match first_answering(s.drop_first(), id) {
            Some(k) => Some(k + 1),
            None => None,
        }
    }
}

/// `first_answering` is the first index that answers, if any.
pub proof fn lemma_first_answering(s: Seq<CatalogEntry>, id: Seq<char>)
    ensures
        match first_answering(s, id) {
            Some(k) => 0 <= k < s.len() && answers_to(s[k], id) && forall|j: int| 0 <= j < k ==> !answers_to(#[trigger] s[j], id),
            None => forall|j: int| 0 <= j < s.len() ==> !answers_to(#[trigger] s[j], id),
        },
    decreases s.len(),
{
    if s.len() > 0 {
        lemma_first_answering(s.drop_first(), id);
        if !answers_to(s[0], id) {
            assert forall|j: int| 1 <= j < s.len() implies #[trigger] s[j] == s.drop_first()[j - 1] by {}
        }
    }
}

/// `after` is `before` with answer `p` (for id `id`) merged into the entry
/// it belongs to, if any; `changed` is that entry's index when the merge
/// changed something counted.
pub open spec fn bulk_step(
    before: Seq<CatalogEntry>,
    after: Seq<CatalogEntry>,
    id: Seq<char>,
    p: EnrichPatch,
    changed: Option<int>,
) -> bool {
    match first_answering(before, id) {
        None => after == before && changed is None,
        Some(k) => {
            &&& after.len() == before.len()
            &&& forall|j: int| 0 <= j < before.len() && j != k ==> #[trigger] after[j] == before[j]
            &&& merged_entry(after[k], before[k], p)
            &&& changed == if merge_changes(before[k], p) { Some(k) } else { None::<int> }
        },
    }
}

/// Every entry of a snapshot has distinct per-source keys.
pub open spec fn snapshot_wf(s: Seq<CatalogEntry>) -> bool {
    forall|i: int| 0 <= i < s.len() ==> entry_wf(#[trigger] s[i])
}

/// The indices a sequence of optional indices names, in order.
pub open spec fn present(cs: Seq<Option<int>>) -> Seq<int>
    decreases cs.len(),
{
    if cs.len() == 0 {
        Seq::empty()
    } else {
        present(cs.drop_last()) + match cs.last() {
            Some(k) => seq![k],
            None => Seq::empty(),
        }
    }
}

/// `st` walks snapshot `s` to `r` through the successful bulk answers
/// `answers` (id and patch), one `bulk_step` each, with `cs` the index each
/// step changed, if any.
pub open spec fn bulk_steps(
    st: Seq<Seq<CatalogEntry>>,
    cs: Seq<Option<int>>,
    s: Seq<CatalogEntry>,
    answers: Seq<(String, EnrichPatch)>,
    r: Seq<CatalogEntry>,
) -> bool {
    &&& st.len() == answers.len() + 1
    &&& cs.len() == answers.len()
    &&& st[0] == s
    &&& st[answers.len() as int] == r
    &&& forall|i: int|
        0 <= i < answers.len() ==> bulk_step(st[i], st[i + 1], (#[trigger] answers[i]).0@, answers[i].1, cs[i])
}

/// `r` is snapshot `s` after applying the successful bulk answers in order,
/// and `changed` lists, in order, the index of each entry a merge changed.
pub open spec fn bulk_applied(
    s: Seq<CatalogEntry>,
    answers: Seq<(String, EnrichPatch)>,
    r: Seq<CatalogEntry>,
    changed: Seq<usize>,
) -> bool {
    exists|st: Seq<Seq<CatalogEntry>>, cs: Seq<Option<int>>|
        #[trigger] bulk_steps(st, cs, s, answers, r) && changed.map_values(|k: usize| k as int) == present(cs)
}

/// Apply one bulk call's successful answers (entry id and patch) to the
/// snapshot, in order; returns the index of each entry whose merge changed
/// something counted, so the caller recomputes its weighted rating.
pub fn apply_bulk_answers(snap: &mut Vec<CatalogEntry>, answers: Vec<(String, EnrichPatch)>) -> (changed: Vec<usize>)
    requires
        snapshot_wf(old(snap)@),
    ensures
        snapshot_wf(final(snap)@),
        bulk_applied(old(snap)@, answers@, final(snap)@, changed@),
{
    let ghost s0 = snap@;
    let ghost all = answers@;
    let mut rest = answers;
    let mut out: Vec<usize> = Vec::new();
    let mut i: usize = 0;
    let ghost mut st: Seq<Seq<CatalogEntry>> = seq![s0];
    let ghost mut cs: Seq<Option<int>> = Seq::empty();
    let n = rest.len();
    assert(rest@ =~= all.subrange(0, all.len() as int));
    assert(out@.map_values(|k: usize| k as int) =~= present(cs));
    while rest.len() > 0
        invariant
            n == all.len(),
            i + rest@.len() == all.len(),
            rest@ =~= all.subrange(i as int, all.len() as int),
            snapshot_wf(snap@),
            bulk_steps(st, cs, s0, all.subrange(0, i as int), snap@),
            out@.map_values(|k: usize| k as int) == present(cs),
        decreases rest@.len(),
    {
        let (id, p) = rest.remove(0);
        let ghost a = all[i as int];
        assert(id == a.0 && p == a.1);
        let ghost before = snap@;
        let ghost pre = all.subrange(0, i as int);
        let ghost next = all.subrange(0, i + 1);
        assert(next =~= pre.push(a));
        proof {
            lemma_first_answering(before, id@);
        }
        let mut c: Option<int> = None;
        let found = find_snapshot_idx(snap, id.as_str());
        let ghost mut ck: Option<int> = None;
        match found {
            Some(k) => {
                proof {
                    assert(first_answering(before, id@) == Some(k as int)) by {
                        match first_answering(before, id@) {
                            Some(f) => {
                                if f < k {
                                    assert(!answers_to(before[f], id@));
                                } else if f > k {
                                    assert(answers_to(before[k as int], id@));
                                }
                            },
                            None => {
                                assert(answers_to(before[k as int], id@));
                            },
                        }
                    }
                }
                let mut e = snap.remove(k);
                assert(entry_wf(before[k as int]));
                let did = merge_enrich_into(&mut e, p);
                snap.insert(k, e);
                assert forall|j: int| 0 <= j < before.len() && j != k implies #[trigger] snap@[j] == before[j] by {}
                if did {
                    out.push(k);
                    proof {
                        ck = Some(k as int);
                    }
                }
            },
            None => {
                proof {
                    assert(first_answering(before, id@) is None) by {
                        match first_answering(before, id@) {
                            Some(f) => {
                                assert(answers_to(before[f], id@));
                            },
                            None => {},
                        }
                    }
                }
            },
        }
        proof {
            assert(snapshot_wf(snap@)) by {
                assert forall|j: int| 0 <= j < snap@.len() implies entry_wf(#[trigger] snap@[j]) by {
                    if let Some(k) = found {
                        if j != k as int {
                            assert(snap@[j] == before[j]);
                        }
                    }
                }
            }
            assert(bulk_step(before, snap@, id@, p, ck));
            let st2 = st.push(snap@);
            let cs2 = cs.push(ck);
            assert forall|j: int| 0 <= j < next.len() implies bulk_step(
                st2[j],
                st2[j + 1],
                (#[trigger] next[j]).0@,
                next[j].1,
                cs2[j],
            ) by {
                if j < i {
                    assert(next[j] == pre[j]);
                }
            }
            assert(cs2.drop_last() =~= cs);
            assert(bulk_steps(st2, cs2, s0, next, snap@));
            st = st2;
            cs = cs2;
        }
        assert(out@.map_values(|k: usize| k as int) =~= present(cs));
        i += 1;
    }
    assert(all.subrange(0, all.len() as int) =~= all);
    assert(bulk_steps(st, cs, s0, all, snap@));
    out
}

/// Hand back to the per-entry cohorts the plugins whose bulk call failed
/// with an error other than "not implemented": movie plugins to the movie
/// cohort, series plugins to the series cohort, in order.
pub fn add_fall_through(movie: &mut Vec<String>, series: &mut Vec<String>, fall: &Vec<(String, EntryKind)>)
    ensures
        names(final(movie)@) == names(old(movie)@) + fall@.filter(|f: (String, EntryKind)| f.1 == EntryKind::Movie).map_values(|f: (String, EntryKind)| f.0@),
        names(final(series)@) == names(old(series)@) + fall@.filter(|f: (String, EntryKind)| f.1 == EntryKind::Series).map_values(|f: (String, EntryKind)| f.0@),
{
    let ghost m0 = names(movie@);
    let ghost s0 = names(series@);
    let ghost is_movie = |f: (String, EntryKind)| f.1 == EntryKind::Movie;
    let ghost is_series = |f: (String, EntryKind)| f.1 == EntryKind::Series;
    let mut i: usize = 0;
    while i < fall.len()
        invariant
            i <= fall@.len(),
            is_movie == (|f: (String, EntryKind)| f.1 == EntryKind::Movie),
            is_series == (|f: (String, EntryKind)| f.1 == EntryKind::Series),
            names(movie@) == m0 + fall@.subrange(0, i as int).filter(is_movie).map_values(|f: (String, EntryKind)| f.0@),
            names(series@) == s0 + fall@.subrange(0, i as int).filter(is_series).map_values(|f: (String, EntryKind)| f.0@),
        decreases fall@.len() - i,
    {
        let ghost pre = fall@.subrange(0, i as int);
        let ghost f = fall@[i as int];
        assert(fall@.subrange(0, i + 1) =~= pre.push(f));
        proof {
            crate::sources::lemma_filter_push(pre, f, is_movie);
            crate::sources::lemma_filter_push(pre, f, is_series);
        }
        let ghost bm = names(movie@);
        let ghost bs = names(series@);
        match fall[i].1 {
            EntryKind::Movie => {
                movie.push(fall[i].0.clone());
                assert(names(movie@) =~= bm.push(f.0@));
                assert(pre.filter(is_movie).push(f).map_values(|f: (String, EntryKind)| f.0@) =~= pre.filter(
                    is_movie,
                ).map_values(|f: (String, EntryKind)| f.0@).push(f.0@));
            },
            EntryKind::Series => {
                series.push(fall[i].0.clone());
                assert(names(series@) =~= bs.push(f.0@));
                assert(pre.filter(is_series).push(f).map_values(|f: (String, EntryKind)| f.0@) =~= pre.filter(
                    is_series,
                ).map_values(|f: (String, EntryKind)| f.0@).push(f.0@));
            },
            _ => {},
        }
        i += 1;
    }
    assert(fall@.subrange(0, fall@.len() as int) =~= fall@);
}

} // verus!
