//! One scope of a streaming search, driven event by event: it collects the
//! sources' entries, and says which frame goes out when — at most one
//! partial frame (the results so far at the partial deadline, or an empty
//! one at the hard floor while no source has responded), then exactly one
//! final frame once every source has responded, and nothing after it.
//! Every frame carries the run's query id and scope.

use vstd::prelude::*;
use crate::abi::{clone_opt_string, SearchScope};
use crate::catalog::copy_scores;
use crate::ipc::{MediaEntry, ScopeError, ScopeResultsMsg};
use crate::search_scoped::{deduped, merge_dedupe, scope_step, KeyedEntry, ScopeAction, ScopeEvent, ScopeTiming};

verus! {

/// Which frame a step sends.
#[derive(Debug, Clone, Copy, PartialEq, Eq, Structural)]
pub enum FrameKind {
    /// The results collected so far, flagged partial.
    Partial,
    /// An empty partial frame.
    EmptyPartial,
    /// The final frame.
    Final,
}

/// A run's timing and whether its final frame went out.
pub type RunState = (ScopeTiming, bool);

/// One step of a run: nothing once the final frame went out; the final
/// frame when a response completes the sources; otherwise the timing's
/// partial frame, if any.
pub open spec fn run_step(st: RunState, e: ScopeEvent) -> (RunState, Option<FrameKind>) {
    if st.1 {
        (st, None)
    } else {
        let (t, a) = scope_step(st.0, e);
        if (e is Answered || e is Failed) && t.responded >= t.total {
            ((t, true), Some(FrameKind::Final))
        } else if a is EmitPartial {
            ((t, false), Some(FrameKind::Partial))
        } else if a is EmitEmptyPartial {
            ((t, false), Some(FrameKind::EmptyPartial))
        } else {
            ((t, false), None)
        }
    }
}

/// The frames a run of events sends from `st`, one slot per event.
pub open spec fn run_frames(st: RunState, es: Seq<ScopeEvent>) -> Seq<Option<FrameKind>>
    decreases es.len(),
{
    if es.len() == 0 {
        Seq::empty()
    } else {
        let (n, f) = run_step(st, es[0]);
        seq![f] + run_frames(n, es.drop_first())
    }
}

/// How many of `fs` are frames of kind `k`.
pub open spec fn count_kind(fs: Seq<Option<FrameKind>>, k: FrameKind) -> nat
    decreases fs.len(),
{
    if fs.len() == 0 {
        0
    } else {
        (if fs[0] == Some(k) { 1nat } else { 0nat }) + count_kind(fs.drop_first(), k)
    }
}

/// How many of `es` are source responses.
pub open spec fn responses(es: Seq<ScopeEvent>) -> nat
    decreases es.len(),
{
    if es.len() == 0 {
        0
    } else {
        (if es[0] is Answered || es[0] is Failed { 1nat } else { 0nat }) + responses(es.drop_first())
    }
}

/// The counts stay consistent along a run.
pub open spec fn run_wf(st: RunState) -> bool {
    st.0.responded <= st.0.total && (!st.1 ==> st.0.responded < st.0.total)
}

proof fn lemma_run_frames_len(st: RunState, es: Seq<ScopeEvent>)
    ensures
        run_frames(st, es).len() == es.len(),
    decreases es.len(),
{
    if es.len() > 0 {
        let (n, f) = run_step(st, es[0]);
        lemma_run_frames_len(n, es.drop_first());
    }
}

/// Over any run of events: at most one partial frame (none once one went
/// out or the run is over), at most one final frame (none once it went
/// out), and no frame at all after the final one.
pub proof fn lemma_run_frames(st: RunState, es: Seq<ScopeEvent>)
    ensures
        count_kind(run_frames(st, es), FrameKind::Partial) + count_kind(run_frames(st, es), FrameKind::EmptyPartial)
            <= if st.0.emitted_partial || st.1 { 0nat } else { 1nat },
        count_kind(run_frames(st, es), FrameKind::Final) <= if st.1 { 0nat } else { 1nat },
        forall|i: int, j: int|
            0 <= i < j < es.len() && #[trigger] run_frames(st, es)[i] == Some(FrameKind::Final) ==> (
            #[trigger] run_frames(st, es)[j]) is None,
        st.1 ==> forall|i: int| 0 <= i < es.len() ==> (#[trigger] run_frames(st, es)[i]) is None,
    decreases es.len(),
{
    lemma_run_frames_len(st, es);
    if es.len() > 0 {
        let (n, f) = run_step(st, es[0]);
        let rest = run_frames(n, es.drop_first());
        lemma_run_frames(n, es.drop_first());
        lemma_run_frames_len(n, es.drop_first());
        let fs = run_frames(st, es);
        assert(fs == seq![f] + rest);
        assert(fs.drop_first() =~= rest);
        assert forall|i: int, j: int|
            0 <= i < j < es.len() && #[trigger] fs[i] == Some(FrameKind::Final) implies (#[trigger] fs[j]) is None by {
            assert(fs[j] == rest[j - 1]);
            if i > 0 {
                assert(fs[i] == rest[i - 1]);
            }
        }
        assert forall|i: int| st.1 && 0 <= i < es.len() implies (#[trigger] fs[i]) is None by {
            if i > 0 {
                assert(fs[i] == rest[i - 1]);
            }
        }
    }
}

/// A fresh run that gets at least as many responses as it has sources
/// sends its final frame.
pub proof fn lemma_final_sent(st: RunState, es: Seq<ScopeEvent>)
    requires
        run_wf(st),
        !st.1,
        responses(es) >= st.0.total - st.0.responded,
    ensures
        count_kind(run_frames(st, es), FrameKind::Final) == 1,
    decreases es.len(),
{
    lemma_run_frames_len(st, es);
    if es.len() == 0 {
        assert(false);
    } else {
        let (n, f) = run_step(st, es[0]);
        let rest = run_frames(n, es.drop_first());
        assert(run_frames(st, es).drop_first() =~= rest);
        if f == Some(FrameKind::Final) {
            lemma_run_frames(n, es.drop_first());
        } else {
            assert(run_wf(n));
            lemma_final_sent(n, es.drop_first());
        }
    }
}

/// The hard floor firing before any source responded sends an empty
/// partial frame first.
pub proof fn lemma_hard_floor_first(total: usize, es: Seq<ScopeEvent>)
    requires
        total > 0,
        es.len() > 0,
        es[0] is HardFloor,
    ensures
        run_frames(
            (ScopeTiming { total, responded: 0, failed: 0, emitted_partial: false, partial_armed: false }, false),
            es,
        )[0] == Some(FrameKind::EmptyPartial),
{
}

/// What a run observes, with the entries of an answer.
pub enum RunEvent {
    Answered(Vec<KeyedEntry>),
    Failed,
    PartialDeadline,
    HardFloor,
}

/// The timing event of a run event.
pub open spec fn event_kind(e: RunEvent) -> ScopeEvent {
    match e {
        RunEvent::Answered(_) => ScopeEvent::Answered,
        RunEvent::Failed => ScopeEvent::Failed,
        RunEvent::PartialDeadline => ScopeEvent::PartialDeadline,
        RunEvent::HardFloor => ScopeEvent::HardFloor,
    }
}

/// `f` is the frame of kind `k` for query `q`, scope `s`, collected
/// entries `c` and timing `t`.
pub open spec fn is_frame(
    f: Option<ScopeResultsMsg>,
    k: Option<FrameKind>,
    q: u64,
    s: SearchScope,
    c: Seq<KeyedEntry>,
    t: ScopeTiming,
) -> bool {
    match k {
        None => f is None,
        Some(kind) => (f matches Some(m) && m.query_id == q && m.scope == s && match kind {
            FrameKind::Partial => m.partial && m.error is None && exists|c2: Seq<KeyedEntry>|
                #![trigger deduped(m.entries@, c2)]
                same_keyed(c2, c) && deduped(m.entries@, c2),
            FrameKind::EmptyPartial => m.partial && m.error is None && m.entries@.len() == 0,
            FrameKind::Final => !m.partial && deduped(m.entries@, c) && m.error == if c.len() == 0 && t.failed
                == t.total {
                Some(ScopeError::AllFailed)
            } else {
                None
            },
        }),
    }
}

/// `a` holds what `b` holds: every field equal, the per-source scores by
/// content.
pub open spec fn same_entry(a: MediaEntry, b: MediaEntry) -> bool {
    a == (MediaEntry { ratings: a.ratings, ..b }) && a.ratings@ == b.ratings@
}

/// `a` and `b` hold the same keyed entries, in the same order.
pub open spec fn same_keyed(a: Seq<KeyedEntry>, b: Seq<KeyedEntry>) -> bool {
    &&& a.len() == b.len()
    &&& forall|i: int|
        #![trigger a[i]]
        0 <= i < a.len() ==> same_entry(a[i].entry, b[i].entry) && a[i].key == b[i].key && a[i].priority
            == b[i].priority
}

/// A copy of an entry.
fn copy_entry(e: &MediaEntry) -> (r: MediaEntry)
    ensures
        same_entry(r, *e),
{
    MediaEntry {
        id: e.id.clone(),
        title: e.title.clone(),
        year: clone_opt_string(&e.year),
        genre: clone_opt_string(&e.genre),
        rating: clone_opt_string(&e.rating),
        description: clone_opt_string(&e.description),
        poster_url: clone_opt_string(&e.poster_url),
        provider: e.provider.clone(),
        tab: e.tab,
        media_type: e.media_type,
        ratings: copy_scores(&e.ratings),
        imdb_id: clone_opt_string(&e.imdb_id),
        tmdb_id: clone_opt_string(&e.tmdb_id),
        mal_id: clone_opt_string(&e.mal_id),
        anilist_id: clone_opt_string(&e.anilist_id),
        kitsu_id: clone_opt_string(&e.kitsu_id),
        original_language: clone_opt_string(&e.original_language),
        kind: e.kind,
        source: e.source.clone(),
        artist_name: clone_opt_string(&e.artist_name),
        album_name: clone_opt_string(&e.album_name),
        track_number: e.track_number,
        season: e.season,
        episode: e.episode,
        season_count: e.season_count,
        has_specials: e.has_specials,
    }
}

/// A copy of a list of keyed entries.
fn copy_keyed(v: &Vec<KeyedEntry>) -> (r: Vec<KeyedEntry>)
    ensures
        same_keyed(r@, v@),
{
    let mut out: Vec<KeyedEntry> = Vec::new();
    let mut i: usize = 0;
    while i < v.len()
        invariant
            i <= v@.len(),
            out@.len() == i,
            forall|q: int|
                #![trigger out@[q]]
                0 <= q < i ==> same_entry(out@[q].entry, v@[q].entry) && out@[q].key == v@[q].key
                    && out@[q].priority == v@[q].priority,
        decreases v@.len() - i,
    {
        let k = &v[i];
        out.push(KeyedEntry { entry: copy_entry(&k.entry), key: k.key.clone(), priority: k.priority });
        i += 1;
    }
    out
}

/// One scope's search in progress.
pub struct ScopeRun {
    query_id: u64,
    scope: SearchScope,
    timing: ScopeTiming,
    /// The entries collected while the run is on (handed to the final frame
    /// when it goes out).
    collected: Vec<KeyedEntry>,
    /// Every entry collected, in arrival order.
    seen: Ghost<Seq<KeyedEntry>>,
    done: bool,
}

impl ScopeRun {
    /// The query id the run's frames carry.
    pub closed spec fn query(&self) -> u64 {
        self.query_id
    }

    /// The scope the run's frames carry.
    pub closed spec fn scope_spec(&self) -> SearchScope {
        self.scope
    }

    /// The run's timing and whether its final frame went out.
    pub closed spec fn state(&self) -> RunState {
        (self.timing, self.done)
    }

    /// The entries collected so far, in arrival order.
    pub closed spec fn collected_spec(&self) -> Seq<KeyedEntry> {
        self.seen@
    }

    /// The held entries are the collected ones while the run is on.
    pub closed spec fn inv(&self) -> bool {
        !self.done ==> self.collected@ == self.seen@
    }

    /// Start a run over `n_sources` sources. With none, the run is over at
    /// once and its only frame, final and empty, says no plugin is
    /// configured.
    pub fn start(query_id: u64, scope: SearchScope, n_sources: usize) -> (r: (ScopeRun, Option<ScopeResultsMsg>))
        ensures
            r.0.query() == query_id,
            r.0.scope_spec() == scope,
            r.0.collected_spec().len() == 0,
            r.0.inv(),
            run_wf(r.0.state()),
            r.0.state().0 == (ScopeTiming {
                total: n_sources,
                responded: 0,
                failed: 0,
                emitted_partial: false,
                partial_armed: false,
            }),
            r.0.state().1 == (n_sources == 0),
            n_sources == 0 ==> (r.1 matches Some(m) && m.query_id == query_id && m.scope == scope
                && m.entries@.len() == 0 && !m.partial && m.error == Some(ScopeError::NoPluginsConfigured)),
            n_sources > 0 ==> r.1 is None,
    {
        let timing = ScopeTiming::start(n_sources);
        let run = ScopeRun {
            query_id,
            scope,
            timing,
            collected: Vec::new(),
            seen: Ghost(Seq::empty()),
            done: n_sources == 0,
        };
        if n_sources == 0 {
            (run, Some(crate::search_scoped::no_sources_frame(query_id, scope)))
        } else {
            (run, None)
        }
    }

    /// Take one event (see `run_step`): an answer's entries are collected
    /// while the run is on; the frame sent, if any, carries the run's query
    /// id and scope.
    pub fn step(&mut self, e: RunEvent) -> (f: Option<ScopeResultsMsg>)
        requires
            run_wf(old(self).state()),
            old(self).inv(),
        ensures
            run_wf(final(self).state()),
            final(self).inv(),
            final(self).query() == old(self).query(),
            final(self).scope_spec() == old(self).scope_spec(),
            final(self).state() == run_step(old(self).state(), event_kind(e)).0,
            final(self).collected_spec() == match e {
                RunEvent::Answered(v) => if old(self).state().1 {
                    old(self).collected_spec()
                } else {
                    old(self).collected_spec() + v@
                },
                _ => old(self).collected_spec(),
            },
            is_frame(
                f,
                run_step(old(self).state(), event_kind(e)).1,
                old(self).query(),
                old(self).scope_spec(),
                final(self).collected_spec(),
                final(self).state().0,
            ),
    {
        if self.done {
            return None;
        }
        let kind = match &e {
            RunEvent::Answered(_) => ScopeEvent::Answered,
            RunEvent::Failed => ScopeEvent::Failed,
            RunEvent::PartialDeadline => ScopeEvent::PartialDeadline,
            RunEvent::HardFloor => ScopeEvent::HardFloor,
        };
        match e {
            RunEvent::Answered(v) => {
                let ghost added = v@;
                let mut more = v;
                self.collected.append(&mut more);
                self.seen = Ghost(self.seen@ + added);
            },
            _ => {},
        }
        let action = self.timing.step(kind);
        let response = match kind {
            ScopeEvent::Answered | ScopeEvent::Failed => true,
            _ => false,
        };
        if response && self.timing.finished() {
            self.done = true;
            let error = self.timing.final_error(self.collected.len() == 0);
            let mut taken: Vec<KeyedEntry> = Vec::new();
            std::mem::swap(&mut taken, &mut self.collected);
            let entries = merge_dedupe(taken);
            return Some(ScopeResultsMsg { query_id: self.query_id, scope: self.scope, entries, partial: false, error });
        }
        match action {
            ScopeAction::EmitPartial => {
                let held = copy_keyed(&self.collected);
                let ghost c2 = held@;
                let entries = merge_dedupe(held);
                assert(same_keyed(c2, self.seen@) && deduped(entries@, c2));
                let m = ScopeResultsMsg { query_id: self.query_id, scope: self.scope, entries, partial: true, error: None };
                assert(m.entries@ == entries@);
                assert(deduped(m.entries@, c2));
                assert(same_keyed(c2, self.seen@));
                assert(exists|c3: Seq<KeyedEntry>|
                    #![trigger deduped(m.entries@, c3)]
                    same_keyed(c3, self.seen@) && deduped(m.entries@, c3));
                Some(m)
            },
            ScopeAction::EmitEmptyPartial => Some(
                ScopeResultsMsg {
                    query_id: self.query_id,
                    scope: self.scope,
                    entries: Vec::new(),
                    partial: true,
                    error: None,
                },
            ),
            _ => None,
        }
    }
}

} // verus!
