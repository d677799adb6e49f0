//! What a verb's fan-out results become: the merged wire payload, whether
//! the result is authoritative (cached for the full TTL) or transient
//! (cached briefly), and the round-robin keyword merge.

use vstd::prelude::*;
use crate::abi::{ArtworkResponse, CreditsResponse, EnrichResponse, PluginEntry, clone_opt_string};
use crate::merge::{
    artwork_merged, credits_merged, enrich_filled, merge_artwork, merge_credits, merge_enrich,
    merge_related,
};
use crate::sort::{DedupKey, dedup_first, lemma_dedup_push};
use crate::text::{decimal, decimal_string, owned, push_str, str_eq, to_lowercase, trim,
    trim_spec, unicode_lowercase};
use crate::wire::{
    artwork_to_payload, credits_to_payload, enrich_to_payload, is_artwork_payload,
    is_credits_payload, is_enrich_payload, is_related_payload, related_to_payload,
};
use crate::wire_metadata::{MetadataPayload, RatingsAggregatorData};

verus! {

// ── Per-verb outcome ─────────────────────────────────────────────────────────

/// The successful responses of one verb's fan-out, in source order.
pub enum VerbResults {
    Enrich(Vec<EnrichResponse>),
    Credits(Vec<CreditsResponse>),
    Artwork(Vec<ArtworkResponse>),
    Related(Vec<Vec<PluginEntry>>),
}

/// How many sources answered.
pub open spec fn results_len(r: VerbResults) -> nat {
    match r {
        VerbResults::Enrich(v) => v@.len(),
        VerbResults::Credits(v) => v@.len(),
        VerbResults::Artwork(v) => v@.len(),
        VerbResults::Related(v) => v@.len(),
    }
}

/// `p` is the payload of `r`: `Empty` when no source answered, otherwise
/// the wire form of the merged responses (enrich takes the first answer as
/// its base and fills it from the rest).
pub open spec fn verb_payload_of(p: MetadataPayload, r: VerbResults) -> bool {
    if results_len(r) == 0 {
        p == MetadataPayload::Empty
    } else {
        match r {
            VerbResults::Enrich(v) => exists|m: EnrichResponse|
                enrich_filled(m, v@[0], v@.drop_first()) && #[trigger] is_enrich_payload(p, m),
            VerbResults::Credits(v) => exists|m: CreditsResponse|
                credits_merged(m, None, v@) && #[trigger] is_credits_payload(p, m),
            VerbResults::Artwork(v) => exists|m: ArtworkResponse|
                artwork_merged(m, v@) && #[trigger] is_artwork_payload(p, m),
            VerbResults::Related(v) => is_related_payload(
                p,
                dedup_first(
                    v@.map_values(|x: Vec<PluginEntry>| x@).flatten(),
                    |e: PluginEntry| e.dedup_key(),
                ),
            ),
        }
    }
}

/// Turn a verb's fan-out results into its payload, and say whether they
/// are authoritative: with at least one answer the merged payload is
/// (and may be cached for the full TTL); with none (timeout, or every
/// source errored) the payload is `Empty` and must only be cached briefly.
pub fn verb_payload(results: VerbResults) -> (r: (MetadataPayload, bool))
    ensures
        r.1 == (results_len(results) > 0),
        verb_payload_of(r.0, results),
{
    match results {
        VerbResults::Enrich(v) => {
            if v.len() == 0 {
                return (MetadataPayload::Empty, false);
            }
            let ghost vs = v@;
            let m = merge_enrich(None, v);
            let p = enrich_to_payload(m);
            assert(enrich_filled(m, vs[0], vs.drop_first()) && is_enrich_payload(p, m));
            (p, true)
        },
        VerbResults::Credits(v) => {
            if v.len() == 0 {
                return (MetadataPayload::Empty, false);
            }
            let ghost vs = v@;
            let m = merge_credits(None, v);
            let p = credits_to_payload(m);
            assert(credits_merged(m, None, vs) && is_credits_payload(p, m));
            (p, true)
        },
        VerbResults::Artwork(v) => {
            if v.len() == 0 {
                return (MetadataPayload::Empty, false);
            }
            let ghost vs = v@;
            let m = merge_artwork(v);
            let p = artwork_to_payload(m);
            assert(artwork_merged(m, vs) && is_artwork_payload(p, m));
            (p, true)
        },
        VerbResults::Related(v) => {
            if v.len() == 0 {
                return (MetadataPayload::Empty, false);
            }
            let m = merge_related(v);
            (related_to_payload(m), true)
        },
    }
}

/// How a verb's outcome goes into the metadata cache.
#[derive(Debug, Clone, Copy, PartialEq, Eq, Structural)]
pub enum CacheWrite {
    /// Not cached at all.
    Skip,
    /// Cached under the short negative TTL.
    Negative,
    /// Cached under the full TTL.
    Positive,
}

/// Whether `p` is the payload variant of the verb `r` answers.
pub open spec fn is_variant_of(p: MetadataPayload, r: VerbResults) -> bool {
    match r {
        VerbResults::Enrich(_) => p is Enrich,
        VerbResults::Credits(_) => p is Credits,
        VerbResults::Artwork(_) => p is Artwork,
        VerbResults::Related(_) => p is Related,
    }
}

/// A plugin-driven verb's outcome after a cache miss: with no source to ask
/// the payload is `Empty` and nothing is cached; with sources but no answer
/// (every call errored, was skipped or timed out) it is `Empty`, cached
/// under the short negative TTL; otherwise it is the verb's own payload of
/// the merged answers, never `Empty`, cached under the full TTL.
pub fn verb_outcome(sources_empty: bool, results: VerbResults) -> (r: (MetadataPayload, CacheWrite))
    ensures
        sources_empty ==> r.0 == MetadataPayload::Empty && r.1 == CacheWrite::Skip,
        !sources_empty && results_len(results) == 0 ==> r.0 == MetadataPayload::Empty && r.1
            == CacheWrite::Negative,
        !sources_empty && results_len(results) > 0 ==> verb_payload_of(r.0, results) && is_variant_of(
            r.0,
            results,
        ) && r.1 == CacheWrite::Positive,
{
    if sources_empty {
        return (MetadataPayload::Empty, CacheWrite::Skip);
    }
    let ghost rs = results;
    let (p, had_results) = verb_payload(results);
    if had_results {
        proof {
            match rs {
                VerbResults::Enrich(v) => {
                    let m = choose|m: EnrichResponse| enrich_filled(m, v@[0], v@.drop_first()) && #[trigger] is_enrich_payload(p, m);
                    assert(is_enrich_payload(p, m));
                },
                VerbResults::Credits(v) => {
                    let m = choose|m: CreditsResponse| credits_merged(m, None, v@) && #[trigger] is_credits_payload(p, m);
                    assert(is_credits_payload(p, m));
                },
                VerbResults::Artwork(v) => {
                    let m = choose|m: ArtworkResponse| artwork_merged(m, v@) && #[trigger] is_artwork_payload(p, m);
                    assert(is_artwork_payload(p, m));
                },
                VerbResults::Related(_) => {},
            }
        }
        (p, CacheWrite::Positive)
    } else {
        (p, CacheWrite::Negative)
    }
}

/// The rating-aggregator payload for a fetch outcome: the block when the
/// addon has one, `Empty` when it has none or the fetch failed.
pub fn ratings_payload(fetched: Result<Option<RatingsAggregatorData>, String>) -> (p:
    MetadataPayload)
    ensures
        match fetched {
            Ok(Some(d)) => p == MetadataPayload::RatingsAggregator(d),
            _ => p == MetadataPayload::Empty,
        },
{
    match fetched {
        Ok(Some(d)) => MetadataPayload::RatingsAggregator(d),
        _ => MetadataPayload::Empty,
    }
}

// ── Keyword merge ────────────────────────────────────────────────────────────

/// One keyword as a provider returns it.
#[derive(Debug, Clone)]
pub struct Keyword {
    pub name: String,
    pub source_id: Option<String>,
    /// The plugin the keyword came from, stamped by the merge.
    pub provider: Option<String>,
}

/// Response to a keywords call.
#[derive(Debug, Clone)]
pub struct KeywordsResponse {
    pub keywords: Vec<Keyword>,
}

/// Maximum number of merged keywords across all providers.
pub const MAX_MERGED_KEYWORDS: usize = 200;

/// Keywords are the same when their trimmed, lowercased names are.
pub open spec fn keyword_key(name: Seq<char>) -> Seq<char> {
    unicode_lowercase(trim_spec(name))
}

/// `s` deduplicated by keyword key, first occurrence winning.
pub open spec fn dedup_keywords(s: Seq<(String, Keyword)>) -> Seq<(String, Keyword)> {
    dedup_first(s, |v: (String, Keyword)| keyword_key(v.1.name@))
}

/// The keyword lists of the providers that answered, with their names,
/// in provider order.
pub open spec fn ok_lists(outs: Seq<(String, Result<KeywordsResponse, String>)>) -> Seq<
    (String, Vec<Keyword>),
>
    decreases outs.len(),
{
    if outs.len() == 0 {
        Seq::empty()
    } else {
        let prev = ok_lists(outs.drop_last());
        match outs.last().1 {
            Ok(resp) => prev.push((outs.last().0, resp.keywords)),
            Err(_) => prev,
        }
    }
}

/// Round `r` of the round-robin over the first `i` lists: item `r` of each
/// list long enough, with its provider, in provider order.
pub open spec fn round_visits(lists: Seq<(String, Vec<Keyword>)>, r: int, i: int) -> Seq<
    (String, Keyword),
>
    decreases i,
{
    if i <= 0 {
        Seq::empty()
    } else if 0 <= r < lists[i - 1].1@.len() {
        round_visits(lists, r, i - 1).push((lists[i - 1].0, lists[i - 1].1@[r]))
    } else {
        round_visits(lists, r, i - 1)
    }
}

/// Rounds `0..r` of the round-robin, in order.
pub open spec fn visits_upto(lists: Seq<(String, Vec<Keyword>)>, r: int) -> Seq<(String, Keyword)>
    decreases r,
{
    if r <= 0 {
        Seq::empty()
    } else {
        visits_upto(lists, r - 1) + round_visits(lists, r - 1, lists.len() as int)
    }
}

/// Length of the longest of the first `i` lists.
pub open spec fn max_len(lists: Seq<(String, Vec<Keyword>)>, i: int) -> nat
    decreases i,
{
    if i <= 0 {
        0
    } else if max_len(lists, i - 1) >= lists[i - 1].1@.len() {
        max_len(lists, i - 1)
    } else {
        lists[i - 1].1@.len()
    }
}

/// Every keyword of every list, interleaved round-robin so that a provider
/// with many keywords does not crowd out one with few.
pub open spec fn round_robin(lists: Seq<(String, Vec<Keyword>)>) -> Seq<(String, Keyword)> {
    visits_upto(lists, max_len(lists, lists.len() as int) as int)
}

/// A keyword with its provider stamped.
pub open spec fn stamped(v: (String, Keyword)) -> Keyword {
    Keyword { name: v.1.name, source_id: v.1.source_id, provider: Some(v.0) }
}

/// The merged keywords: the round-robin order deduplicated by key (first
/// occurrence wins), capped at `MAX_MERGED_KEYWORDS`, each stamped with
/// the provider it came from.
pub open spec fn merged_keywords(outs: Seq<(String, Result<KeywordsResponse, String>)>) -> Seq<
    Keyword,
> {
    let d = dedup_keywords(round_robin(ok_lists(outs)));
    let n = if d.len() <= MAX_MERGED_KEYWORDS { d.len() } else { MAX_MERGED_KEYWORDS as nat };
    d.take(n as int).map_values(|v: (String, Keyword)| stamped(v))
}

/// The merged keywords are deduplicated case-insensitively and capped: no
/// two share a trimmed, lowercased name, and there are at most
/// `MAX_MERGED_KEYWORDS` of them.
pub proof fn lemma_merged_keywords_distinct(outs: Seq<(String, Result<KeywordsResponse, String>)>)
    ensures
        merged_keywords(outs).len() <= MAX_MERGED_KEYWORDS,
        forall|i: int, j: int|
            0 <= i < j < merged_keywords(outs).len() ==> keyword_key((#[trigger] merged_keywords(outs)[i]).name@)
                != keyword_key((#[trigger] merged_keywords(outs)[j]).name@),
{
    let key = |v: (String, Keyword)| keyword_key(v.1.name@);
    let d = dedup_keywords(round_robin(ok_lists(outs)));
    crate::sort::lemma_dedup_first_distinct(round_robin(ok_lists(outs)), key);
    let m = merged_keywords(outs);
    assert forall|i: int, j: int| 0 <= i < j < m.len() implies keyword_key((#[trigger] m[i]).name@) != keyword_key(
        (#[trigger] m[j]).name@,
    ) by {
        assert(m[i] == stamped(d[i]) && m[j] == stamped(d[j]));
        assert(key(d[i]) != key(d[j]));
    }
}

/// Deduplicating a prefix gives a prefix of the deduplicated whole.
pub proof fn lemma_dedup_prefix<T, K>(s: Seq<T>, i: int, key: spec_fn(T) -> K)
    requires
        0 <= i <= s.len(),
    ensures
        dedup_first(s.subrange(0, i), key).len() <= dedup_first(s, key).len(),
        dedup_first(s, key).subrange(0, dedup_first(s.subrange(0, i), key).len() as int)
            == dedup_first(s.subrange(0, i), key),
    decreases s.len(),
{
    if i == s.len() {
        assert(s.subrange(0, i) =~= s);
        assert(dedup_first(s, key).subrange(0, dedup_first(s, key).len() as int) =~= dedup_first(
            s,
            key,
        ));
    } else {
        let t = s.drop_last();
        assert(t.subrange(0, i) =~= s.subrange(0, i));
        lemma_dedup_prefix(t, i, key);
        assert(s =~= t.push(s.last()));
        lemma_dedup_push(t, s.last(), key);
        let a = dedup_first(s.subrange(0, i), key);
        let b = dedup_first(t, key);
        let c = dedup_first(s, key);
        assert(c.subrange(0, a.len() as int) =~= b.subrange(0, a.len() as int));
    }
}

/// A copy of a keyword.
fn copy_keyword(k: &Keyword) -> (r: Keyword)
    ensures
        r == *k,
{
    Keyword {
        name: k.name.clone(),
        source_id: clone_opt_string(&k.source_id),
        provider: clone_opt_string(&k.provider),
    }
}

/// Split provider outcomes into the answered lists and the error count.
fn split_outcomes(outcomes: Vec<(String, Result<KeywordsResponse, String>)>) -> (r: (
    Vec<(String, Vec<Keyword>)>,
    usize,
))
    ensures
        r.0@ == ok_lists(outcomes@),
        r.1 + r.0@.len() == outcomes@.len(),
{
    let ghost os = outcomes@;
    let n = outcomes.len();
    let mut rest = outcomes;
    let mut lists: Vec<(String, Vec<Keyword>)> = Vec::new();
    let mut errors: usize = 0;
    let mut i: usize = 0;
    while i < n
        invariant
            n == os.len(),
            i <= n,
            rest@ == os.subrange(i as int, n as int),
            lists@ == ok_lists(os.subrange(0, i as int)),
            errors + lists@.len() == i,
        decreases n - i,
    {
        let (name, res) = rest.remove(0);
        assert(os[i as int] == (name, res));
        assert(os.subrange(0, i + 1).drop_last() =~= os.subrange(0, i as int));
        match res {
            Ok(resp) => {
                lists.push((name, resp.keywords));
            },
            Err(_) => {
                errors += 1;
            },
        }
        i += 1;
        assert(rest@ =~= os.subrange(i as int, n as int));
    }
    assert(os.subrange(0, n as int) =~= os);
    (lists, errors)
}

/// The round-robin visiting order of `lists`.
fn round_robin_exec(lists: &Vec<(String, Vec<Keyword>)>) -> (r: Vec<(String, Keyword)>)
    ensures
        r@ == round_robin(lists@),
{
    let n = lists.len();
    let mut maxl: usize = 0;
    let mut i: usize = 0;
    while i < n
        invariant
            n == lists@.len(),
            i <= n,
            maxl == max_len(lists@, i as int),
        decreases n - i,
    {
        if lists[i].1.len() > maxl {
            maxl = lists[i].1.len();
        }
        i += 1;
    }
    let mut visits: Vec<(String, Keyword)> = Vec::new();
    let mut r: usize = 0;
    while r < maxl
        invariant
            n == lists@.len(),
            r <= maxl,
            maxl == max_len(lists@, n as int),
            visits@ == visits_upto(lists@, r as int),
        decreases maxl - r,
    {
        let mut j: usize = 0;
        while j < n
            invariant
                n == lists@.len(),
                j <= n,
                r < maxl,
                visits@ == visits_upto(lists@, r as int) + round_visits(lists@, r as int, j as int),
            decreases n - j,
        {
            let entry = &lists[j];
            if r < entry.1.len() {
                let k = copy_keyword(&entry.1[r]);
                visits.push((entry.0.clone(), k));
            }
            j += 1;
        }
        r += 1;
    }
    visits
}

/// Merge the keyword answers of several providers, given in provider
/// order: the answers are interleaved round-robin, deduplicated by trimmed
/// lowercase name (first occurrence wins), capped at
/// `MAX_MERGED_KEYWORDS`, and each kept keyword is stamped with its
/// provider. Partial failure still merges what answered; only when every
/// provider failed (and there was at least one) is the result an error.
pub fn merge_keywords(outcomes: Vec<(String, Result<KeywordsResponse, String>)>) -> (r: Result<
    KeywordsResponse,
    String,
>)
    ensures
        ok_lists(outcomes@).len() == 0 && outcomes@.len() > 0 ==> r is Err && r->Err_0@ == "all "@
            + decimal(outcomes@.len()) + " keyword providers failed"@,
        !(ok_lists(outcomes@).len() == 0 && outcomes@.len() > 0) ==> r is Ok
            && r->Ok_0.keywords@ == merged_keywords(outcomes@),
{
    let ghost outs = outcomes@;
    let total = outcomes.len();
    let (lists, errors) = split_outcomes(outcomes);
    if lists.len() == 0 && total > 0 {
        let mut msg = owned("all ");
        let count = decimal_string(errors as u64);
        push_str(&mut msg, count.as_str());
        push_str(&mut msg, " keyword providers failed");
        return Err(msg);
    }
    let visits = round_robin_exec(&lists);
    let ghost d = dedup_keywords(visits@);
    let n = visits.len();
    let mut merged: Vec<Keyword> = Vec::new();
    let mut seen: Vec<String> = Vec::new();
    let mut i: usize = 0;
    loop
        invariant_except_break
            merged@.len() < MAX_MERGED_KEYWORDS,
            seen@.len() == dedup_keywords(visits@.subrange(0, i as int)).len(),
            forall|q: int|
                0 <= q < seen@.len() ==> (#[trigger] seen@[q])@ == keyword_key(
                    dedup_keywords(visits@.subrange(0, i as int))[q].1.name@,
                ),
            merged@ == dedup_keywords(visits@.subrange(0, i as int)).map_values(
                |v: (String, Keyword)| stamped(v),
            ),
        invariant
            n == visits@.len(),
            i <= n,
            d == dedup_keywords(visits@),
        ensures
            merged@ == d.take(
                if d.len() <= MAX_MERGED_KEYWORDS {
                    d.len() as int
                } else {
                    MAX_MERGED_KEYWORDS as int
                },
            ).map_values(|v: (String, Keyword)| stamped(v)),
        decreases n - i,
    {
        if i >= n {
            proof {
                assert(visits@.subrange(0, n as int) =~= visits@);
                assert(d.take(d.len() as int) =~= d);
            }
            break;
        }
        let ghost pre = visits@.subrange(0, i as int);
        let v = &visits[i];
        let key = to_lowercase(trim(v.1.name.as_str()).as_str());
        let mut found = false;
        let mut j: usize = 0;
        while j < seen.len()
            invariant
                j <= seen@.len(),
                found == exists|q: int| 0 <= q < j && seen@[q]@ == key@,
            decreases seen@.len() - j,
        {
            if str_eq(seen[j].as_str(), key.as_str()) {
                found = true;
            }
            j += 1;
        }
        proof {
            lemma_dedup_push(pre, *v, |v: (String, Keyword)| keyword_key(v.1.name@));
            assert(visits@.subrange(0, i + 1) =~= pre.push(*v));
            let dp = dedup_keywords(pre);
            if found {
                let q = choose|q: int| 0 <= q < seen@.len() && seen@[q]@ == key@;
                assert(keyword_key((dp[q]).1.name@) == keyword_key((*v).1.name@));
            } else {
                assert(!exists|q: int| 0 <= q < dp.len() && keyword_key((dp[q]).1.name@) == keyword_key((*v).1.name@)) by {
                    if exists|q: int| 0 <= q < dp.len() && keyword_key((dp[q]).1.name@) == keyword_key((*v).1.name@) {
                        let q = choose|q: int| 0 <= q < dp.len() && keyword_key((dp[q]).1.name@) == keyword_key((*v).1.name@);
                        assert(seen@[q]@ == key@);
                    }
                }
            }
        }
        if !found {
            let k = Keyword {
                name: v.1.name.clone(),
                source_id: clone_opt_string(&v.1.source_id),
                provider: Some(v.0.clone()),
            };
            merged.push(k);
            seen.push(key);
            proof {
                let dn = dedup_keywords(visits@.subrange(0, i + 1));
                assert(merged@ =~= dn.map_values(|v: (String, Keyword)| stamped(v)));
            }
            if merged.len() >= MAX_MERGED_KEYWORDS {
                proof {
                    lemma_dedup_prefix(visits@, i + 1, |v: (String, Keyword)| keyword_key(v.1.name@));
                    let dn = dedup_keywords(visits@.subrange(0, i + 1));
                    assert(dn.len() == MAX_MERGED_KEYWORDS);
                    assert(d.take(MAX_MERGED_KEYWORDS as int) =~= dn);
                }
                break;
            }
        }
        i += 1;
    }
    Ok(KeywordsResponse { keywords: merged })
}

} // verus!
