//! Pure merge functions for per-verb metadata responses.
//!
//! Each function folds the primary source's response (or `None`) and the
//! fallback sources' responses into one canonical payload. All
//! deduplication is first-wins: the earlier (higher-priority) source stays,
//! later duplicates drop.

use vstd::prelude::*;
use crate::abi::{
    ArtworkResponse, ArtworkSize, ArtworkVariant, CastMember, CreditsResponse, CrewMember,
    CrewRole, EnrichResponse, IdMap, PluginEntry, cast_role_eq, cast_role_view, clone_opt_string,
    crew_role_eq, crew_role_view, id_get, id_lookup, ids_unique, is_default_entry,
    lemma_id_lookup_push, lemma_id_lookup_some,
    opt_string_eq, opt_view,
};
use crate::sort::{
    DedupKey, TextKey3, chars3_lt, dedup_first, dedup_first_exec, flatten_vecs,
    is_stable_sort_by, lemma_stable_sort_by_keys, stable_sort, text_key3_view,
};
use crate::text::{chars_of, debug_quoted, owned, push_str, str_debug};

verus! {

// ── Enrich ───────────────────────────────────────────────────────────────────

/// The scalar number-valued optional fields of an entry, by selector:
/// 0 year, 1 rating, 2 duration, 3 track number, 4 season, 5 episode.
pub open spec fn num_field(e: PluginEntry, w: int) -> Option<u32> {
    if w == 0 {
        e.year
    } else if w == 1 {
        e.rating
    } else if w == 2 {
        e.duration
    } else if w == 3 {
        e.track_number
    } else if w == 4 {
        e.season
    } else {
        e.episode
    }
}

/// The scalar text-valued optional fields of an entry, by selector:
/// 0 genre, 1 description, 2 poster url, 3 imdb id, 4 artist name,
/// 5 album name, 6 original language.
pub open spec fn text_field(e: PluginEntry, w: int) -> Option<Seq<char>> {
    if w == 0 {
        opt_view(e.genre)
    } else if w == 1 {
        opt_view(e.description)
    } else if w == 2 {
        opt_view(e.poster_url)
    } else if w == 3 {
        opt_view(e.imdb_id)
    } else if w == 4 {
        opt_view(e.artist_name)
    } else if w == 5 {
        opt_view(e.album_name)
    } else {
        opt_view(e.original_language)
    }
}

/// The first response in `secs` whose number field `w` is present.
pub open spec fn first_num(secs: Seq<EnrichResponse>, w: int) -> Option<u32>
    decreases secs.len(),
{
    if secs.len() == 0 {
        None
    } else {
        let p = first_num(secs.drop_last(), w);
        if p is Some {
            p
        } else {
            num_field(secs.last().entry, w)
        }
    }
}

/// The first response in `secs` whose text field `w` is present.
pub open spec fn first_text(secs: Seq<EnrichResponse>, w: int) -> Option<Seq<char>>
    decreases secs.len(),
{
    if secs.len() == 0 {
        None
    } else {
        let p = first_text(secs.drop_last(), w);
        if p is Some {
            p
        } else {
            text_field(secs.last().entry, w)
        }
    }
}

/// All cross-provider ids of `secs`, in response order.
pub open spec fn all_ids(secs: Seq<EnrichResponse>) -> Seq<(String, String)>
    decreases secs.len(),
{
    if secs.len() == 0 {
        Seq::empty()
    } else {
        all_ids(secs.drop_last()) + secs.last().entry.external_ids@
    }
}

/// `r` is `b` with every absent scalar field filled from the first response
/// in `secs` that has it, and with the cross-provider ids of all responses
/// unioned in (an id already present keeps its value; otherwise the first
/// response that has the namespace supplies it). All other fields are `b`'s.
pub open spec fn entry_filled(r: PluginEntry, b: PluginEntry, secs: Seq<EnrichResponse>) -> bool {
    &&& forall|w: int|
        0 <= w < 6 ==> #[trigger] num_field(r, w) == if num_field(b, w) is Some {
            num_field(b, w)
        } else {
            first_num(secs, w)
        }
    &&& forall|w: int|
        0 <= w < 7 ==> #[trigger] text_field(r, w) == if text_field(b, w) is Some {
            text_field(b, w)
        } else {
            first_text(secs, w)
        }
    &&& forall|k: Seq<char>|
        #[trigger] id_lookup(r.external_ids@, k) == id_lookup(b.external_ids@ + all_ids(secs), k)
    &&& r.id == b.id
    &&& r.kind == b.kind
    &&& r.title == b.title
    &&& r.source == b.source
    &&& r.season_count == b.season_count
    &&& r.season_ids == b.season_ids
    &&& r.has_specials == b.has_specials
    &&& r.ratings == b.ratings
    &&& r.rating_votes == b.rating_votes
}

/// `r` is `base` filled from `secs`, keeping `base`'s confidence.
pub open spec fn enrich_filled(r: EnrichResponse, base: EnrichResponse, secs: Seq<EnrichResponse>) -> bool {
    &&& entry_filled(r.entry, base.entry, secs)
    &&& r.confidence == base.confidence
}

proof fn lemma_first_step(secs: Seq<EnrichResponse>, i: int)
    requires
        0 <= i < secs.len(),
    ensures
        forall|w: int|
            #[trigger] first_num(secs.subrange(0, i + 1), w) == if first_num(
                secs.subrange(0, i),
                w,
            ) is Some {
                first_num(secs.subrange(0, i), w)
            } else {
                num_field(secs[i].entry, w)
            },
        forall|w: int|
            #[trigger] first_text(secs.subrange(0, i + 1), w) == if first_text(
                secs.subrange(0, i),
                w,
            ) is Some {
                first_text(secs.subrange(0, i), w)
            } else {
                text_field(secs[i].entry, w)
            },
        all_ids(secs.subrange(0, i + 1)) == all_ids(secs.subrange(0, i))
            + secs[i].entry.external_ids@,
{
    assert(secs.subrange(0, i + 1).drop_last() =~= secs.subrange(0, i));
}

/// Fill each absent scalar field of `cur` from `s`.
fn fill_scalars(cur: &mut PluginEntry, s: &PluginEntry)
    ensures
        forall|w: int|
            #[trigger] num_field(*final(cur), w) == if num_field(*old(cur), w) is Some {
                num_field(*old(cur), w)
            } else {
                num_field(*s, w)
            },
        forall|w: int|
            #[trigger] text_field(*final(cur), w) == if text_field(*old(cur), w) is Some {
                text_field(*old(cur), w)
            } else {
                text_field(*s, w)
            },
        final(cur).external_ids == old(cur).external_ids,
        final(cur).id == old(cur).id,
        final(cur).kind == old(cur).kind,
        final(cur).title == old(cur).title,
        final(cur).source == old(cur).source,
        final(cur).season_count == old(cur).season_count,
        final(cur).season_ids == old(cur).season_ids,
        final(cur).has_specials == old(cur).has_specials,
        final(cur).ratings == old(cur).ratings,
        final(cur).rating_votes == old(cur).rating_votes,
{
    cur.year = fill_num(cur.year, s.year);
    cur.rating = fill_num(cur.rating, s.rating);
    cur.duration = fill_num(cur.duration, s.duration);
    cur.track_number = fill_num(cur.track_number, s.track_number);
    cur.season = fill_num(cur.season, s.season);
    cur.episode = fill_num(cur.episode, s.episode);
    cur.genre = fill_text(&cur.genre, &s.genre);
    cur.description = fill_text(&cur.description, &s.description);
    cur.poster_url = fill_text(&cur.poster_url, &s.poster_url);
    cur.imdb_id = fill_text(&cur.imdb_id, &s.imdb_id);
    cur.artist_name = fill_text(&cur.artist_name, &s.artist_name);
    cur.album_name = fill_text(&cur.album_name, &s.album_name);
    cur.original_language = fill_text(&cur.original_language, &s.original_language);
}

fn fill_num(cur: Option<u32>, cand: Option<u32>) -> (r: Option<u32>)
    ensures
        r == if cur is Some {
            cur
        } else {
            cand
        },
{
    if cur.is_some() {
        cur
    } else {
        cand
    }
}

fn fill_text(cur: &Option<String>, cand: &Option<String>) -> (r: Option<String>)
    ensures
        opt_view(r) == if cur is Some {
            opt_view(*cur)
        } else {
            opt_view(*cand)
        },
{
    if cur.is_some() {
        clone_opt_string(cur)
    } else {
        clone_opt_string(cand)
    }
}

/// Add each id of `src` whose namespace `dst` lacks; earlier values win.
pub fn union_ids(dst: &mut IdMap, src: &IdMap)
    ensures
        forall|k: Seq<char>|
            #[trigger] id_lookup(final(dst)@, k) == id_lookup(old(dst)@ + src@, k),
        ids_unique(old(dst)@) ==> ids_unique(final(dst)@),
{
    let ghost d0 = dst@;
    let m = src.len();
    let mut j: usize = 0;
    assert(d0 + src@.subrange(0, 0) =~= d0);
    while j < m
        invariant
            m == src@.len(),
            j <= m,
            forall|k: Seq<char>|
                #[trigger] id_lookup(dst@, k) == id_lookup(d0 + src@.subrange(0, j as int), k),
            ids_unique(d0) ==> ids_unique(dst@),
        decreases m - j,
    {
        let e = &src[j];
        let ghost t = d0 + src@.subrange(0, j as int);
        let ghost old_ids = dst@;
        let present = id_get(dst, e.0.as_str());
        proof {
            assert(d0 + src@.subrange(0, j + 1) =~= t.push(*e));
        }
        if present.is_none() {
            let pair = (e.0.clone(), e.1.clone());
            dst.push(pair);
            proof {
                lemma_id_lookup_some(old_ids, e.0@);
                assert forall|a: int, b: int|
                    ids_unique(d0) && 0 <= a < b < dst@.len() implies dst@[a].0@ != dst@[b].0@ by {
                    if b == dst@.len() - 1 {
                        assert(old_ids[a].0@ == dst@[a].0@);
                    }
                }
                assert forall|k: Seq<char>| #[trigger] id_lookup(dst@, k) == id_lookup(
                    t.push(*e),
                    k,
                ) by {
                    lemma_id_lookup_push(old_ids, pair, k);
                    lemma_id_lookup_push(t, *e, k);
                }
            }
        } else {
            proof {
                assert forall|k: Seq<char>| #[trigger] id_lookup(dst@, k) == id_lookup(
                    t.push(*e),
                    k,
                ) by {
                    lemma_id_lookup_push(t, *e, k);
                }
            }
        }
        j += 1;
    }
    assert(src@.subrange(0, m as int) =~= src@);
}

/// Fill `base` from `secondaries` (see `entry_filled`).
pub fn fill_from_secondaries(base: EnrichResponse, secondaries: Vec<EnrichResponse>) -> (r:
    EnrichResponse)
    ensures
        enrich_filled(r, base, secondaries@),
{
    let ghost b = base;
    let ghost secs = secondaries@;
    let mut cur = base;
    let n = secondaries.len();
    let mut i: usize = 0;
    assert(secs.subrange(0, 0) =~= Seq::<EnrichResponse>::empty());
    assert(b.entry.external_ids@ + Seq::<(String, String)>::empty() =~= b.entry.external_ids@);
    while i < n
        invariant
            n == secs.len(),
            secs == secondaries@,
            i <= n,
            enrich_filled(cur, b, secs.subrange(0, i as int)),
        decreases n - i,
    {
        let s = &secondaries[i];
        let ghost before = cur.entry;
        fill_scalars(&mut cur.entry, &s.entry);
        let ghost mid = cur.entry;
        union_ids(&mut cur.entry.external_ids, &s.entry.external_ids);
        proof {
            lemma_first_step(secs, i as int);
            assert forall|w: int| 0 <= w < 6 implies #[trigger] num_field(cur.entry, w) == if num_field(
                b.entry,
                w,
            ) is Some {
                num_field(b.entry, w)
            } else {
                first_num(secs.subrange(0, i + 1), w)
            } by {
                assert(num_field(mid, w) == num_field(cur.entry, w));
                assert(num_field(mid, w) == if num_field(before, w) is Some {
                    num_field(before, w)
                } else {
                    num_field(s.entry, w)
                });
                assert(num_field(before, w) == if num_field(b.entry, w) is Some {
                    num_field(b.entry, w)
                } else {
                    first_num(secs.subrange(0, i as int), w)
                });
            }
            assert forall|w: int| 0 <= w < 7 implies #[trigger] text_field(cur.entry, w) == if text_field(
                b.entry,
                w,
            ) is Some {
                text_field(b.entry, w)
            } else {
                first_text(secs.subrange(0, i + 1), w)
            } by {
                assert(text_field(mid, w) == text_field(cur.entry, w));
                assert(text_field(mid, w) == if text_field(before, w) is Some {
                    text_field(before, w)
                } else {
                    text_field(s.entry, w)
                });
                assert(text_field(before, w) == if text_field(b.entry, w) is Some {
                    text_field(b.entry, w)
                } else {
                    first_text(secs.subrange(0, i as int), w)
                });
            }
            let ba = b.entry.external_ids@ + all_ids(secs.subrange(0, i as int));
            assert(ba + s.entry.external_ids@ =~= b.entry.external_ids@ + all_ids(
                secs.subrange(0, i + 1),
            ));
            assert forall|k: Seq<char>| #[trigger] id_lookup(cur.entry.external_ids@, k)
                == id_lookup(b.entry.external_ids@ + all_ids(secs.subrange(0, i + 1)), k) by {
                lemma_id_lookup_append_congruent(before.external_ids@, ba, s.entry.external_ids@, k);
            }
        }
        i += 1;
    }
    assert(secs.subrange(0, n as int) =~= secs);
    cur
}

/// Lists that answer every lookup alike still do after the same suffix.
proof fn lemma_id_lookup_append_congruent(
    a: Seq<(String, String)>,
    b: Seq<(String, String)>,
    c: Seq<(String, String)>,
    k: Seq<char>,
)
    requires
        forall|q: Seq<char>| #[trigger] id_lookup(a, q) == id_lookup(b, q),
    ensures
        id_lookup(a + c, k) == id_lookup(b + c, k),
    decreases c.len(),
{
    if c.len() == 0 {
        assert(a + c =~= a);
        assert(b + c =~= b);
    } else {
        lemma_id_lookup_append_congruent(a, b, c.drop_last(), k);
        assert((a + c).drop_last() =~= a + c.drop_last());
        assert((b + c).drop_last() =~= b + c.drop_last());
    }
}

/// Merge enrich responses by scalar fallback: the primary response (or,
/// without one, the first secondary) is the base; each absent field is
/// filled from the first later response that has it, and cross-provider
/// ids are unioned. Confidence is the base's. With no response at all the
/// result is the empty entry with zero confidence.
pub fn merge_enrich(primary: Option<EnrichResponse>, secondaries: Vec<EnrichResponse>) -> (r:
    EnrichResponse)
    ensures
        match primary {
            Some(p) => enrich_filled(r, p, secondaries@),
            None => if secondaries@.len() > 0 {
                enrich_filled(r, secondaries@[0], secondaries@.drop_first())
            } else {
                is_default_entry(r.entry) && r.confidence == 0
            },
        },
{
    match primary {
        Some(p) => fill_from_secondaries(p, secondaries),
        None => {
            if secondaries.len() == 0 {
                return EnrichResponse { entry: PluginEntry::default(), confidence: 0 };
            }
            let mut rest = secondaries;
            let first = rest.remove(0);
            fill_from_secondaries(first, rest)
        },
    }
}

// ── Credits ──────────────────────────────────────────────────────────────────

/// Dedup key of a cast row: name, role and character.
pub open spec fn cast_key(c: CastMember) -> (Seq<char>, (int, Seq<char>), Option<Seq<char>>) {
    (c.name@, cast_role_view(c.role), opt_view(c.character))
}

/// Dedup key of a crew row: name and role.
pub open spec fn crew_key(w: CrewMember) -> (Seq<char>, (int, Seq<char>)) {
    (w.name@, crew_role_view(w.role))
}

impl DedupKey for CastMember {
    type Key = (Seq<char>, (int, Seq<char>), Option<Seq<char>>);

    open spec fn dedup_key(self) -> Self::Key {
        cast_key(self)
    }

    fn same_key(&self, other: &Self) -> (r: bool) {
        self.name == other.name && cast_role_eq(&self.role, &other.role) && opt_string_eq(
            &self.character,
            &other.character,
        )
    }
}

impl DedupKey for CrewMember {
    type Key = (Seq<char>, (int, Seq<char>));

    open spec fn dedup_key(self) -> Self::Key {
        crew_key(self)
    }

    fn same_key(&self, other: &Self) -> (r: bool) {
        self.name == other.name && crew_role_eq(&self.role, &other.role)
    }
}

/// The sources of a credits merge: the primary (if any) first, then the
/// secondaries in order.
pub open spec fn credit_sources(primary: Option<CreditsResponse>, secs: Seq<CreditsResponse>) -> Seq<
    CreditsResponse,
> {
    match primary {
        Some(p) => seq![p] + secs,
        None => secs,
    }
}

/// Every cast row of `srcs`, in source order.
pub open spec fn all_cast(srcs: Seq<CreditsResponse>) -> Seq<CastMember> {
    srcs.map_values(|s: CreditsResponse| s.cast@).flatten()
}

/// Every crew row of `srcs`, in source order.
pub open spec fn all_crew(srcs: Seq<CreditsResponse>) -> Seq<CrewMember> {
    srcs.map_values(|s: CreditsResponse| s.crew@).flatten()
}

/// Billing position of a cast row; rows without one sort last.
pub open spec fn billing_key(c: CastMember) -> u64 {
    match c.billing_order {
        Some(b) => b as u64,
        None => 0xffff_ffffu64,
    }
}

/// The `Debug` text of a crew role: the variant name, and for `Other` the
/// quoted text in parentheses.
pub open spec fn crew_role_debug(r: CrewRole) -> Seq<char> {
    match r {
        CrewRole::Director => "Director"@,
        CrewRole::Writer => "Writer"@,
        CrewRole::Producer => "Producer"@,
        CrewRole::ExecutiveProducer => "ExecutiveProducer"@,
        CrewRole::Cinematographer => "Cinematographer"@,
        CrewRole::Editor => "Editor"@,
        CrewRole::Composer => "Composer"@,
        CrewRole::Songwriter => "Songwriter"@,
        CrewRole::Lyricist => "Lyricist"@,
        CrewRole::Arranger => "Arranger"@,
        CrewRole::Instrumentalist => "Instrumentalist"@,
        CrewRole::ProductionDesigner => "ProductionDesigner"@,
        CrewRole::ArtDirector => "ArtDirector"@,
        CrewRole::CostumeDesigner => "CostumeDesigner"@,
        CrewRole::SoundDesigner => "SoundDesigner"@,
        CrewRole::VfxSupervisor => "VfxSupervisor"@,
        CrewRole::AnimationDirector => "AnimationDirector"@,
        CrewRole::LeadAnimator => "LeadAnimator"@,
        CrewRole::Other(s) => "Other("@ + str_debug(s@) + ")"@,
    }
}

/// Crew order: department (absent = empty), then role text, then name.
pub open spec fn crew_sort_view(w: CrewMember) -> (Seq<char>, Seq<char>, Seq<char>) {
    (
        match w.department {
            Some(d) => d@,
            None => Seq::empty(),
        },
        crew_role_debug(w.role),
        w.name@,
    )
}

/// `a` sorts before `b` in the crew list.
pub open spec fn crew_before(a: CrewMember, b: CrewMember) -> bool {
    chars3_lt(crew_sort_view(a), crew_sort_view(b))
}

/// `a` sorts before `b` in the cast list.
pub open spec fn cast_before(a: CastMember, b: CastMember) -> bool {
    billing_key(a) < billing_key(b)
}

/// The `Debug` text of a crew role.
pub fn crew_role_debug_text(r: &CrewRole) -> (s: String)
    ensures
        s@ == crew_role_debug(*r),
{
    match r {
        CrewRole::Director => owned("Director"),
        CrewRole::Writer => owned("Writer"),
        CrewRole::Producer => owned("Producer"),
        CrewRole::ExecutiveProducer => owned("ExecutiveProducer"),
        CrewRole::Cinematographer => owned("Cinematographer"),
        CrewRole::Editor => owned("Editor"),
        CrewRole::Composer => owned("Composer"),
        CrewRole::Songwriter => owned("Songwriter"),
        CrewRole::Lyricist => owned("Lyricist"),
        CrewRole::Arranger => owned("Arranger"),
        CrewRole::Instrumentalist => owned("Instrumentalist"),
        CrewRole::ProductionDesigner => owned("ProductionDesigner"),
        CrewRole::ArtDirector => owned("ArtDirector"),
        CrewRole::CostumeDesigner => owned("CostumeDesigner"),
        CrewRole::SoundDesigner => owned("SoundDesigner"),
        CrewRole::VfxSupervisor => owned("VfxSupervisor"),
        CrewRole::AnimationDirector => owned("AnimationDirector"),
        CrewRole::LeadAnimator => owned("LeadAnimator"),
        CrewRole::Other(s) => {
            let mut t = owned("Other(");
            let q = debug_quoted(s.as_str());
            push_str(&mut t, q.as_str());
            push_str(&mut t, ")");
            t
        },
    }
}

fn crew_sort_key(w: &CrewMember) -> (k: TextKey3)
    ensures
        text_key3_view(k) == crew_sort_view(*w),
{
    let first = match &w.department {
        Some(d) => chars_of(d.as_str()),
        None => Vec::new(),
    };
    let role = crew_role_debug_text(&w.role);
    TextKey3 { first, second: chars_of(role.as_str()), third: chars_of(w.name.as_str()) }
}

/// `r` is the merged credits of `primary` and `secs` (see `merge_credits`).
pub open spec fn credits_merged(
    r: CreditsResponse,
    primary: Option<CreditsResponse>,
    secs: Seq<CreditsResponse>,
) -> bool {
    &&& is_stable_sort_by(
        r.cast@,
        dedup_first(all_cast(credit_sources(primary, secs)), |c: CastMember| c.dedup_key()),
        |a: CastMember, b: CastMember| cast_before(a, b),
    )
    &&& is_stable_sort_by(
        r.crew@,
        dedup_first(all_crew(credit_sources(primary, secs)), |w: CrewMember| w.dedup_key()),
        |a: CrewMember, b: CrewMember| crew_before(a, b),
    )
}

/// Union cast and crew from the primary and the secondaries with first-wins
/// dedup — cast by (name, role, character), crew by (name, role), so one
/// person in two roles keeps two rows. Cast is then sorted stably by billing
/// order (absent last); crew by (department, role, name).
pub fn merge_credits(primary: Option<CreditsResponse>, secondaries: Vec<CreditsResponse>) -> (r:
    CreditsResponse)
    ensures
        is_stable_sort_by(
            r.cast@,
            dedup_first(
                all_cast(credit_sources(primary, secondaries@)),
                |c: CastMember| c.dedup_key(),
            ),
            |a: CastMember, b: CastMember| cast_before(a, b),
        ),
        is_stable_sort_by(
            r.crew@,
            dedup_first(
                all_crew(credit_sources(primary, secondaries@)),
                |w: CrewMember| w.dedup_key(),
            ),
            |a: CrewMember, b: CrewMember| crew_before(a, b),
        ),
{
    let ghost srcs = credit_sources(primary, secondaries@);
    let mut all = secondaries;
    match primary {
        Some(p) => {
            all.insert(0, p);
        },
        None => {},
    }
    assert(all@ =~= srcs);
    // split every response into its cast list and its crew list
    let n = all.len();
    let mut casts: Vec<Vec<CastMember>> = Vec::new();
    let mut crews: Vec<Vec<CrewMember>> = Vec::new();
    let mut i: usize = 0;
    while i < n
        invariant
            n == srcs.len(),
            i <= n,
            all@ == srcs.subrange(i as int, n as int),
            casts@.len() == i,
            crews@.len() == i,
            forall|a: int| 0 <= a < i ==> (#[trigger] casts@[a])@ == srcs[a].cast@,
            forall|a: int| 0 <= a < i ==> (#[trigger] crews@[a])@ == srcs[a].crew@,
        decreases n - i,
    {
        let s = all.remove(0);
        assert(s == srcs[i as int]);
        casts.push(s.cast);
        crews.push(s.crew);
        i += 1;
        assert(all@ =~= srcs.subrange(i as int, n as int));
    }
    assert(casts@.map_values(|x: Vec<CastMember>| x@) =~= srcs.map_values(
        |s: CreditsResponse| s.cast@,
    ));
    assert(crews@.map_values(|x: Vec<CrewMember>| x@) =~= srcs.map_values(
        |s: CreditsResponse| s.crew@,
    ));
    let cast_all = flatten_vecs(casts);
    let crew_all = flatten_vecs(crews);
    let cast = dedup_first_exec(cast_all);
    let crew = dedup_first_exec(crew_all);
    // cast: stable by billing order
    let mut cast_keys: Vec<u64> = Vec::new();
    let mut a: usize = 0;
    while a < cast.len()
        invariant
            a <= cast@.len(),
            cast_keys@.len() == a,
            forall|q: int| 0 <= q < a ==> cast_keys@[q] == billing_key(#[trigger] cast@[q]),
        decreases cast@.len() - a,
    {
        let k: u64 = match cast[a].billing_order {
            Some(b) => b as u64,
            None => 0xffff_ffffu64,
        };
        cast_keys.push(k);
        a += 1;
    }
    let ghost cast_d = cast@;
    let cast_sorted = stable_sort(cast, &cast_keys);
    proof {
        lemma_stable_sort_by_keys(
            cast_sorted@,
            cast_d,
            cast_keys@,
            |x: CastMember, y: CastMember| cast_before(x, y),
        );
    }
    // crew: stable by (department, role, name)
    let mut crew_keys: Vec<TextKey3> = Vec::new();
    let mut c: usize = 0;
    while c < crew.len()
        invariant
            c <= crew@.len(),
            crew_keys@.len() == c,
            forall|q: int|
                0 <= q < c ==> text_key3_view(crew_keys@[q]) == crew_sort_view(
                    #[trigger] crew@[q],
                ),
        decreases crew@.len() - c,
    {
        crew_keys.push(crew_sort_key(&crew[c]));
        c += 1;
    }
    let ghost crew_d = crew@;
    let crew_sorted = stable_sort(crew, &crew_keys);
    proof {
        lemma_stable_sort_by_keys(
            crew_sorted@,
            crew_d,
            crew_keys@,
            |x: CrewMember, y: CrewMember| crew_before(x, y),
        );
    }
    CreditsResponse { cast: cast_sorted, crew: crew_sorted }
}

// ── Artwork ──────────────────────────────────────────────────────────────────

/// Rank of an artwork size: hi-res 3, standard 2, thumbnail 1, any 0.
pub open spec fn size_rank(s: ArtworkSize) -> u8 {
    match s {
        ArtworkSize::HiRes => 3,
        ArtworkSize::Standard => 2,
        ArtworkSize::Thumbnail => 1,
        ArtworkSize::Any => 0,
    }
}

/// Rank of an artwork size: hi-res 3, standard 2, thumbnail 1, any 0.
pub fn size_ord(s: ArtworkSize) -> (r: u8)
    ensures
        r == size_rank(s),
{
    match s {
        ArtworkSize::HiRes => 3,
        ArtworkSize::Standard => 2,
        ArtworkSize::Thumbnail => 1,
        ArtworkSize::Any => 0,
    }
}

/// Width of a variant, absent = 0.
pub open spec fn width_of(v: ArtworkVariant) -> u32 {
    match v.width {
        Some(w) => w,
        None => 0,
    }
}

/// `a` sorts before `b`: larger size first, then wider first.
pub open spec fn artwork_before(a: ArtworkVariant, b: ArtworkVariant) -> bool {
    size_rank(a.size) > size_rank(b.size) || (size_rank(a.size) == size_rank(b.size)
        && width_of(a) > width_of(b))
}

impl DedupKey for ArtworkVariant {
    type Key = Seq<char>;

    open spec fn dedup_key(self) -> Self::Key {
        self.url@
    }

    fn same_key(&self, other: &Self) -> (r: bool) {
        self.url == other.url
    }
}

/// Every variant of `rs`, in response order.
pub open spec fn all_variants(rs: Seq<ArtworkResponse>) -> Seq<ArtworkVariant> {
    rs.map_values(|r: ArtworkResponse| r.variants@).flatten()
}

/// `r` is the merged artwork of `rs` (see `merge_artwork`).
pub open spec fn artwork_merged(r: ArtworkResponse, rs: Seq<ArtworkResponse>) -> bool {
    is_stable_sort_by(
        r.variants@,
        dedup_first(all_variants(rs), |v: ArtworkVariant| v.dedup_key()),
        |a: ArtworkVariant, b: ArtworkVariant| artwork_before(a, b),
    )
}

/// Merged artwork comes in size classes: hi-res first, then standard, then
/// thumbnails, and artwork of unknown size (`Any`) last — no variant of
/// unknown size precedes one with a size; within a class, wider first
/// (an unknown width counting as none).
pub proof fn lemma_artwork_size_classes(r: ArtworkResponse, rs: Seq<ArtworkResponse>, i: int, j: int)
    requires
        artwork_merged(r, rs),
        0 <= i < j < r.variants@.len(),
    ensures
        r.variants@[j].size == ArtworkSize::HiRes ==> r.variants@[i].size == ArtworkSize::HiRes,
        r.variants@[j].size == ArtworkSize::Standard ==> (r.variants@[i].size == ArtworkSize::HiRes
            || r.variants@[i].size == ArtworkSize::Standard),
        r.variants@[j].size != ArtworkSize::Any ==> r.variants@[i].size != ArtworkSize::Any,
        r.variants@[i].size == r.variants@[j].size ==> match (r.variants@[i].width, r.variants@[j].width) {
            (Some(a), Some(b)) => a >= b,
            (None, Some(b)) => b == 0,
            (_, None) => true,
        },
{
    let inp = dedup_first(all_variants(rs), |v: ArtworkVariant| v.dedup_key());
    let lt = |a: ArtworkVariant, b: ArtworkVariant| artwork_before(a, b);
    let out = r.variants@;
    let p = choose|p: Seq<int>|
        {
            &&& p.len() == inp.len()
            &&& out.len() == inp.len()
            &&& forall|i: int| 0 <= i < p.len() ==> 0 <= #[trigger] p[i] < inp.len()
            &&& forall|i: int| 0 <= i < out.len() ==> out[i] == inp[#[trigger] p[i]]
            &&& forall|i: int, j: int|
                0 <= i < j < p.len() ==> {
                    ||| lt(inp[#[trigger] p[i]], inp[#[trigger] p[j]])
                    ||| (!lt(inp[p[j]], inp[p[i]]) && p[i] < p[j])
                }
        };
    assert(out[i] == inp[p[i]]);
    assert(out[j] == inp[p[j]]);
    assert(lt(inp[p[i]], inp[p[j]]) || !lt(inp[p[j]], inp[p[i]]));
}

/// Collect all artwork variants from every source, dedup by `url`
/// (first wins), and sort stably by size descending, then width descending.
pub fn merge_artwork(responses: Vec<ArtworkResponse>) -> (r: ArtworkResponse)
    ensures
        is_stable_sort_by(
            r.variants@,
            dedup_first(all_variants(responses@), |v: ArtworkVariant| v.dedup_key()),
            |a: ArtworkVariant, b: ArtworkVariant| artwork_before(a, b),
        ),
{
    let ghost rs = responses@;
    let n = responses.len();
    let mut all = responses;
    let mut lists: Vec<Vec<ArtworkVariant>> = Vec::new();
    let mut i: usize = 0;
    while i < n
        invariant
            n == rs.len(),
            i <= n,
            all@ == rs.subrange(i as int, n as int),
            lists@.len() == i,
            forall|a: int| 0 <= a < i ==> (#[trigger] lists@[a])@ == rs[a].variants@,
        decreases n - i,
    {
        let x = all.remove(0);
        assert(x == rs[i as int]);
        lists.push(x.variants);
        i += 1;
        assert(all@ =~= rs.subrange(i as int, n as int));
    }
    assert(lists@.map_values(|x: Vec<ArtworkVariant>| x@) =~= rs.map_values(
        |r: ArtworkResponse| r.variants@,
    ));
    let flat = flatten_vecs(lists);
    let variants = dedup_first_exec(flat);
    let mut keys: Vec<u64> = Vec::new();
    let mut a: usize = 0;
    while a < variants.len()
        invariant
            a <= variants@.len(),
            keys@.len() == a,
            forall|q: int|
                0 <= q < a ==> keys@[q] == (3 - size_rank((#[trigger] variants@[q]).size))
                    * 0x1_0000_0000 + (0xffff_ffff - width_of(variants@[q])),
        decreases variants@.len() - a,
    {
        let v = &variants[a];
        let w: u32 = match v.width {
            Some(w) => w,
            None => 0,
        };
        let k: u64 = (3 - size_ord(v.size)) as u64 * 0x1_0000_0000u64 + (0xffff_ffffu64
            - w as u64);
        keys.push(k);
        a += 1;
    }
    let ghost d = variants@;
    let sorted = stable_sort(variants, &keys);
    proof {
        assert forall|x: int, y: int|
            0 <= x < d.len() && 0 <= y < d.len() implies artwork_before(d[x], d[y]) == (keys@[x]
            < keys@[y]) by {
            let (sx, sy) = (size_rank(d[x].size) as int, size_rank(d[y].size) as int);
            let (wx, wy) = (width_of(d[x]) as int, width_of(d[y]) as int);
            assert(keys@[x] == (3 - sx) * 0x1_0000_0000 + (0xffff_ffff - wx));
            assert(keys@[y] == (3 - sy) * 0x1_0000_0000 + (0xffff_ffff - wy));
        }
        lemma_stable_sort_by_keys(
            sorted@,
            d,
            keys@,
            |x: ArtworkVariant, y: ArtworkVariant| artwork_before(x, y),
        );
    }
    ArtworkResponse { variants: sorted }
}

// ── Related ──────────────────────────────────────────────────────────────────

impl DedupKey for PluginEntry {
    type Key = (Seq<char>, Seq<char>);

    open spec fn dedup_key(self) -> Self::Key {
        (self.source@, self.id@)
    }

    fn same_key(&self, other: &Self) -> (r: bool) {
        self.source == other.source && self.id == other.id
    }
}

/// Flatten per-source related-item lists and dedup by `(source, id)`,
/// first wins; input order is kept (ranking is the sources' job).
pub fn merge_related(items: Vec<Vec<PluginEntry>>) -> (r: Vec<PluginEntry>)
    ensures
        r@ == dedup_first(
            items@.map_values(|v: Vec<PluginEntry>| v@).flatten(),
            |e: PluginEntry| e.dedup_key(),
        ),
{
    let flat = flatten_vecs(items);
    dedup_first_exec(flat)
}

} // verus!
