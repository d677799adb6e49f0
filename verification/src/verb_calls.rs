//! The calls a detail view makes for one metadata verb: each source plugin
//! is given the id its manifest says it recognises, and a plugin whose
//! declared id sources the request cannot serve is skipped rather than fed
//! a mismatched id.

use vstd::prelude::*;
use crate::abi::{
    ArtworkRequest, ArtworkSize, CreditsRequest, EnrichRequest, IdMap, MetadataVerb, PluginEntry,
    RelatedRequest, RelationKind,
};
use crate::dispatch::{caps_lookup, verb_sources_lookup, ManifestCapabilityProbe};
use crate::request::{
    entry_kind_from_hint, id_source_as_str, id_source_name, kind_of_hint,
    resolve_id_for_plugin, routed_id, DetailMetadataRequest,
};
use crate::sources::names;

verus! {

/// How many related entries each plugin is asked for.
pub const RELATED_LIMIT: u32 = 20;

/// One plugin call of a detail view.
#[derive(Debug, Clone)]
pub enum VerbCall {
    Enrich(EnrichRequest),
    Credits(CreditsRequest),
    Artwork(ArtworkRequest),
    Related(RelatedRequest),
}

/// The verbs a detail view fans out over plugins.
pub open spec fn is_plugin_verb(verb: MetadataVerb) -> bool {
    !(verb is RatingsAggregator)
}

/// The id sources the manifests declare for `plugin` and `verb`.
pub open spec fn declared_for(probe: ManifestCapabilityProbe, plugin: Seq<char>, verb: MetadataVerb) -> Seq<
    Seq<char>,
> {
    match caps_lookup(probe.plugin_caps@, plugin) {
        Some(c) => verb_sources_lookup(c.verb_id_sources@, verb),
        None => Seq::empty(),
    }
}

/// The `(id, id source)` plugin `plugin` is given for `verb`, if any.
pub open spec fn route_for(
    req: DetailMetadataRequest,
    probe: ManifestCapabilityProbe,
    plugin: Seq<char>,
    verb: MetadataVerb,
) -> Option<(Seq<char>, Seq<char>)> {
    routed_id(req, plugin, declared_for(probe, plugin, verb))
}

/// The plugins of `sources` that can be served for `verb`, in order, each
/// with its route.
pub open spec fn served(
    req: DetailMetadataRequest,
    probe: ManifestCapabilityProbe,
    sources: Seq<String>,
    verb: MetadataVerb,
) -> Seq<(Seq<char>, (Seq<char>, Seq<char>))>
    decreases sources.len(),
{
    if sources.len() == 0 {
        Seq::empty()
    } else {
        let pre = served(req, probe, sources.drop_last(), verb);
        match route_for(req, probe, sources.last()@, verb) {
            Some(route) => pre.push((sources.last()@, route)),
            None => pre,
        }
    }
}

/// The request's year as a plugin entry's year.
pub open spec fn wide_year(y: Option<u16>) -> Option<u32> {
    match y {
        Some(v) => Some(v as u32),
        None => None,
    }
}

/// `e` asks plugin `plugin` to enrich the entry the request describes, under
/// id `id`: kind, title, year and cross-provider ids from the request, every
/// other field empty, the request's id source preferred, no forced refresh.
pub open spec fn is_enrich_request(e: EnrichRequest, req: DetailMetadataRequest, plugin: Seq<char>, id: Seq<char>) -> bool {
    let p = e.partial;
    &&& p.id@ == id
    &&& p.kind == kind_of_hint(req.kind@)
    &&& p.title@ == req.title@
    &&& p.year == wide_year(req.year)
    &&& p.source@ == plugin
    &&& p.external_ids@ == req.external_ids@
    &&& p.genre is None && p.rating is None && p.description is None && p.poster_url is None
    &&& p.imdb_id is None && p.duration is None && p.artist_name is None && p.album_name is None
    &&& p.track_number is None && p.season is None && p.episode is None
    &&& p.original_language is None && p.season_count is None
    &&& p.season_ids@.len() == 0 && !p.has_specials && p.ratings@.len() == 0 && p.rating_votes@.len() == 0
    &&& e.prefer_id_source matches Some(s) && s@ == id_source_name(req.id_source)
    &&& !e.force_refresh
}

/// `c` is the call plugin `plugin` gets for `verb` under `route`.
pub open spec fn is_call(
    c: VerbCall,
    req: DetailMetadataRequest,
    plugin: Seq<char>,
    verb: MetadataVerb,
    route: (Seq<char>, Seq<char>),
) -> bool {
    let kind = kind_of_hint(req.kind@);
    match verb {
        MetadataVerb::Enrich => c matches VerbCall::Enrich(e) && is_enrich_request(e, req, plugin, route.0),
        MetadataVerb::Credits => c matches VerbCall::Credits(q) && q.id@ == route.0 && q.id_source@ == route.1
            && q.kind == kind && !q.force_refresh,
        MetadataVerb::Artwork => c matches VerbCall::Artwork(q) && q.id@ == route.0 && q.id_source@ == route.1
            && q.kind == kind && q.size == ArtworkSize::Any && !q.force_refresh,
        MetadataVerb::Related => c matches VerbCall::Related(q) && q.id@ == route.0 && q.id_source@ == route.1
            && q.kind == kind && q.relation == RelationKind::Any && q.limit == RELATED_LIMIT && !q.force_refresh,
        MetadataVerb::RatingsAggregator => false,
    }
}

/// A copy of an id map.
fn copy_ids(v: &IdMap) -> (r: IdMap)
    ensures
        r@ == v@,
{
    let mut out: IdMap = Vec::new();
    let mut i: usize = 0;
    while i < v.len()
        invariant
            i <= v@.len(),
            out@ == v@.subrange(0, i as int),
        decreases v@.len() - i,
    {
        let (k, x) = &v[i];
        out.push((k.clone(), x.clone()));
        i += 1;
        assert(out@ =~= v@.subrange(0, i as int));
    }
    assert(out@ =~= v@);
    out
}

/// The enrich request plugin `plugin` gets under id `id`.
pub fn enrich_request(req: &DetailMetadataRequest, plugin: &str, id: String) -> (e: EnrichRequest)
    ensures
        is_enrich_request(e, *req, plugin@, id@),
{
    let mut partial = PluginEntry::default();
    partial.id = id;
    partial.kind = entry_kind_from_hint(req.kind.as_str());
    partial.title = req.title.clone();
    partial.year = match req.year {
        Some(y) => Some(y as u32),
        None => None,
    };
    partial.source = plugin.to_string();
    partial.external_ids = copy_ids(&req.external_ids);
    EnrichRequest { partial, prefer_id_source: Some(id_source_as_str(&req.id_source)), force_refresh: false }
}

/// The call for `verb` under the routed `(id, id source)`.
pub fn verb_call(req: &DetailMetadataRequest, plugin: &str, verb: MetadataVerb, id: String, id_source: String) -> (c:
    VerbCall)
    requires
        is_plugin_verb(verb),
    ensures
        is_call(c, *req, plugin@, verb, (id@, id_source@)),
{
    let kind = entry_kind_from_hint(req.kind.as_str());
    match verb {
        MetadataVerb::Enrich => VerbCall::Enrich(enrich_request(req, plugin, id)),
        MetadataVerb::Credits => VerbCall::Credits(CreditsRequest { id, id_source, kind, force_refresh: false }),
        MetadataVerb::Artwork => VerbCall::Artwork(
            ArtworkRequest { id, id_source, kind, size: ArtworkSize::Any, force_refresh: false },
        ),
        _ => VerbCall::Related(
            RelatedRequest {
                id,
                id_source,
                kind,
                relation: RelationKind::Any,
                limit: RELATED_LIMIT,
                force_refresh: false,
            },
        ),
    }
}

/// The calls for `verb` over `sources`, in order: each plugin whose
/// declared id sources the request can serve, with the call it gets.
pub fn plan_verb_calls(
    probe: &ManifestCapabilityProbe,
    sources: &Vec<String>,
    req: &DetailMetadataRequest,
    verb: MetadataVerb,
) -> (r: Vec<(String, VerbCall)>)
    requires
        is_plugin_verb(verb),
    ensures
        r@.len() == served(*req, *probe, sources@, verb).len(),
        forall|i: int|
            #![trigger r@[i]]
            0 <= i < r@.len() ==> r@[i].0@ == served(*req, *probe, sources@, verb)[i].0 && is_call(
                r@[i].1,
                *req,
                r@[i].0@,
                verb,
                served(*req, *probe, sources@, verb)[i].1,
            ),
{
    let mut out: Vec<(String, VerbCall)> = Vec::new();
    let mut i: usize = 0;
    while i < sources.len()
        invariant
            i <= sources@.len(),
            is_plugin_verb(verb),
            out@.len() == served(*req, *probe, sources@.subrange(0, i as int), verb).len(),
            forall|q: int|
                #![trigger out@[q]]
                0 <= q < out@.len() ==> out@[q].0@ == served(*req, *probe, sources@.subrange(0, i as int), verb)[q].0
                    && is_call(
                    out@[q].1,
                    *req,
                    out@[q].0@,
                    verb,
                    served(*req, *probe, sources@.subrange(0, i as int), verb)[q].1,
                ),
        decreases sources@.len() - i,
    {
        let plugin = &sources[i];
        let ghost pre = served(*req, *probe, sources@.subrange(0, i as int), verb);
        let ghost before = out@;
        let ids = probe.id_sources_for(plugin.as_str(), verb);
        let routed = resolve_id_for_plugin(req, plugin.as_str(), &ids);
        proof {
            let s = sources@.subrange(0, i + 1);
            assert(s.drop_last() =~= sources@.subrange(0, i as int));
            assert(s.last() == *plugin);
            assert(names(ids@) == declared_for(*probe, plugin@, verb));
        }
        match routed {
            Some((id, id_source)) => {
                let ghost route = (id@, id_source@);
                let call = verb_call(req, plugin.as_str(), verb, id, id_source);
                out.push((plugin.clone(), call));
                proof {
                    let now = served(*req, *probe, sources@.subrange(0, i + 1), verb);
                    assert(now == pre.push((plugin@, route)));
                    assert forall|q: int| #![trigger out@[q]] 0 <= q < out@.len() implies out@[q].0@ == now[q].0
                        && is_call(out@[q].1, *req, out@[q].0@, verb, now[q].1) by {
                        if q < before.len() {
                            assert(out@[q] == before[q]);
                        }
                    }
                }
            },
            None => {
                proof {
                    let now = served(*req, *probe, sources@.subrange(0, i + 1), verb);
                    assert(now == pre);
                }
            },
        }
        i += 1;
    }
    assert(sources@.subrange(0, sources@.len() as int) =~= sources@);
    out
}

} // verus!
