//! Conversion of merged per-verb responses into their wire payloads.
//!
//! The wire form drops what the detail panel does not show (per-member
//! external ids, MIME types), flattens role and size enums to snake_case
//! strings, and splits artwork into backdrops and posters.

use vstd::prelude::*;
use crate::abi::{
    ArtworkResponse, ArtworkSize, ArtworkVariant, CastMember, CastRole, CreditsResponse,
    CrewMember, CrewRole, EntryKind, EnrichResponse, IdMap, PluginEntry, id_get, id_lookup,
    ids_unique, opt_view,
};
use crate::merge::union_ids;
use crate::text::owned;
use crate::wire_metadata::{
    ArtworkData, ArtworkVariantWire, CastWire, CreditsData, CrewWire, EnrichData,
    MetadataPayload, RelatedData, RelatedItemWire,
};

verus! {

// ── Enrich ───────────────────────────────────────────────────────────────────

/// The id map the enrich payload carries: every id of the entry, plus the
/// dedicated IMDb field under `"imdb"` when the map lacks that key.
pub open spec fn enrich_id_lookup(e: PluginEntry, k: Seq<char>) -> Option<Seq<char>> {
    if id_lookup(e.external_ids@, k) is Some {
        id_lookup(e.external_ids@, k)
    } else if k == "imdb"@ && e.imdb_id is Some {
        Some(e.imdb_id.unwrap()@)
    } else {
        None
    }
}

/// `r` is the enrich payload of `resp` (see `enrich_to_payload`).
pub open spec fn is_enrich_payload(r: MetadataPayload, resp: EnrichResponse) -> bool {
    match r {
        MetadataPayload::Enrich(d) => {
            &&& d.studio is None
            &&& d.networks@.len() == 0
            &&& ids_unique(d.external_ids@)
            &&& forall|k: Seq<char>| #[trigger]
                id_lookup(d.external_ids@, k) == enrich_id_lookup(resp.entry, k)
            &&& d.season_count == resp.entry.season_count
            &&& d.season_ids@.len() == resp.entry.season_ids@.len()
            &&& forall|i: int|
                0 <= i < d.season_ids@.len() ==> (#[trigger] d.season_ids@[i])@
                    == resp.entry.season_ids@[i]@
            &&& d.has_specials == resp.entry.has_specials
        },
        _ => false,
    }
}

/// Convert a merged enrich response into its wire payload: the entry's
/// cross-provider ids (with the IMDb field mirrored under `"imdb"` unless
/// the map already has that key) and its season data. Studio and networks
/// are not carried by entries and stay empty.
pub fn enrich_to_payload(resp: EnrichResponse) -> (r: MetadataPayload)
    ensures
        is_enrich_payload(r, resp),
{
    let entry = resp.entry;
    let mut ids: IdMap = Vec::new();
    assert(ids_unique(ids@));
    assert(ids@ + entry.external_ids@ =~= entry.external_ids@);
    union_ids(&mut ids, &entry.external_ids);
    assert(forall|k: Seq<char>| #[trigger] id_lookup(ids@, k) == id_lookup(entry.external_ids@, k));
    match entry.imdb_id {
        Some(imdb) => {
            let key = owned("imdb");
            let present = id_get(&ids, key.as_str());
            if present.is_none() {
                let ghost before = ids@;
                ids.push((key, imdb));
                proof {
                    crate::abi::lemma_id_lookup_some(before, "imdb"@);
                    assert forall|k: Seq<char>| #[trigger]
                        id_lookup(ids@, k) == enrich_id_lookup(entry, k) by {
                        crate::abi::lemma_id_lookup_push(before, ids@.last(), k);
                    }
                    assert forall|i: int, j: int|
                        0 <= i < j < ids@.len() implies ids@[i].0@ != ids@[j].0@ by {
                        if j == ids@.len() - 1 {
                            assert(before[i].0@ == ids@[i].0@);
                        } else {
                            assert(before[i] == ids@[i] && before[j] == ids@[j]);
                        }
                    }
                }
            } else {
                assert(id_lookup(entry.external_ids@, "imdb"@) is Some);
            }
        },
        None => {},
    }
    let data = EnrichData {
        studio: None,
        networks: Vec::new(),
        external_ids: ids,
        season_count: entry.season_count,
        season_ids: entry.season_ids,
        has_specials: entry.has_specials,
    };
    MetadataPayload::Enrich(data)
}

// ── Credits ──────────────────────────────────────────────────────────────────

/// Wire name of a cast role: snake_case of the variant, or the text of
/// `Other`.
pub open spec fn cast_role_name(r: CastRole) -> Seq<char> {
    match r {
        CastRole::Actor => "actor"@,
        CastRole::Vocalist => "vocalist"@,
        CastRole::FeaturedArtist => "featured_artist"@,
        CastRole::GuestAppearance => "guest_appearance"@,
        CastRole::Other(s) => s@,
    }
}

/// Wire name of a crew role: snake_case of the variant, or the text of
/// `Other`.
pub open spec fn crew_role_name(r: CrewRole) -> Seq<char> {
    match r {
        CrewRole::Director => "director"@,
        CrewRole::Writer => "writer"@,
        CrewRole::Producer => "producer"@,
        CrewRole::ExecutiveProducer => "executive_producer"@,
        CrewRole::Cinematographer => "cinematographer"@,
        CrewRole::Editor => "editor"@,
        CrewRole::Composer => "composer"@,
        CrewRole::Songwriter => "songwriter"@,
        CrewRole::Lyricist => "lyricist"@,
        CrewRole::Arranger => "arranger"@,
        CrewRole::Instrumentalist => "instrumentalist"@,
        CrewRole::ProductionDesigner => "production_designer"@,
        CrewRole::ArtDirector => "art_director"@,
        CrewRole::CostumeDesigner => "costume_designer"@,
        CrewRole::SoundDesigner => "sound_designer"@,
        CrewRole::VfxSupervisor => "vfx_supervisor"@,
        CrewRole::AnimationDirector => "animation_director"@,
        CrewRole::LeadAnimator => "lead_animator"@,
        CrewRole::Other(s) => s@,
    }
}

/// Snake_case wire name of a cast role.
pub fn cast_role_to_str(r: &CastRole) -> (s: String)
    ensures
        s@ == cast_role_name(*r),
{
    match r {
        CastRole::Actor => owned("actor"),
        CastRole::Vocalist => owned("vocalist"),
        CastRole::FeaturedArtist => owned("featured_artist"),
        CastRole::GuestAppearance => owned("guest_appearance"),
        CastRole::Other(s) => s.clone(),
    }
}

/// Snake_case wire name of a crew role.
pub fn crew_role_to_str(r: &CrewRole) -> (s: String)
    ensures
        s@ == crew_role_name(*r),
{
    match r {
        CrewRole::Director => owned("director"),
        CrewRole::Writer => owned("writer"),
        CrewRole::Producer => owned("producer"),
        CrewRole::ExecutiveProducer => owned("executive_producer"),
        CrewRole::Cinematographer => owned("cinematographer"),
        CrewRole::Editor => owned("editor"),
        CrewRole::Composer => owned("composer"),
        CrewRole::Songwriter => owned("songwriter"),
        CrewRole::Lyricist => owned("lyricist"),
        CrewRole::Arranger => owned("arranger"),
        CrewRole::Instrumentalist => owned("instrumentalist"),
        CrewRole::ProductionDesigner => owned("production_designer"),
        CrewRole::ArtDirector => owned("art_director"),
        CrewRole::CostumeDesigner => owned("costume_designer"),
        CrewRole::SoundDesigner => owned("sound_designer"),
        CrewRole::VfxSupervisor => owned("vfx_supervisor"),
        CrewRole::AnimationDirector => owned("animation_director"),
        CrewRole::LeadAnimator => owned("lead_animator"),
        CrewRole::Other(s) => s.clone(),
    }
}

/// `w` is the wire form of cast member `c`.
pub open spec fn is_cast_wire(w: CastWire, c: CastMember) -> bool {
    &&& w.name@ == c.name@
    &&& w.role@ == cast_role_name(c.role)
    &&& opt_view(w.character) == opt_view(c.character)
    &&& w.billing_order == c.billing_order
}

/// `w` is the wire form of crew member `c`.
pub open spec fn is_crew_wire(w: CrewWire, c: CrewMember) -> bool {
    &&& w.name@ == c.name@
    &&& w.role@ == crew_role_name(c.role)
    &&& opt_view(w.department) == opt_view(c.department)
}

/// Wire form of a cast member: name, role name, character, billing order.
pub fn cast_to_wire(c: CastMember) -> (w: CastWire)
    ensures
        is_cast_wire(w, c),
{
    let role = cast_role_to_str(&c.role);
    CastWire { name: c.name, role, character: c.character, billing_order: c.billing_order }
}

/// Wire form of a crew member: name, role name, department.
pub fn crew_to_wire(c: CrewMember) -> (w: CrewWire)
    ensures
        is_crew_wire(w, c),
{
    let role = crew_role_to_str(&c.role);
    CrewWire { name: c.name, role, department: c.department }
}

/// `r` is the credits payload of `resp`, member by member.
pub open spec fn is_credits_payload(r: MetadataPayload, resp: CreditsResponse) -> bool {
    match r {
        MetadataPayload::Credits(d) => {
            &&& d.cast@.len() == resp.cast@.len()
            &&& forall|i: int|
                0 <= i < d.cast@.len() ==> is_cast_wire(#[trigger] d.cast@[i], resp.cast@[i])
            &&& d.crew@.len() == resp.crew@.len()
            &&& forall|i: int|
                0 <= i < d.crew@.len() ==> is_crew_wire(#[trigger] d.crew@[i], resp.crew@[i])
        },
        _ => false,
    }
}

/// Convert merged credits into their wire payload, member by member, in order.
pub fn credits_to_payload(resp: CreditsResponse) -> (r: MetadataPayload)
    ensures
        is_credits_payload(r, resp),
{
    let ghost cast0 = resp.cast@;
    let ghost crew0 = resp.crew@;
    let mut src_cast = resp.cast;
    let mut src_crew = resp.crew;
    let mut cast: Vec<CastWire> = Vec::new();
    let n = src_cast.len();
    let mut i: usize = 0;
    while i < n
        invariant
            n == cast0.len(),
            i <= n,
            src_cast@ == cast0.subrange(i as int, n as int),
            cast@.len() == i,
            forall|a: int| 0 <= a < i ==> is_cast_wire(#[trigger] cast@[a], cast0[a]),
        decreases n - i,
    {
        proof {
            assert(src_cast@.len() > 0);
        }
        let c = src_cast.remove(0);
        assert(c == cast0[i as int]);
        cast.push(cast_to_wire(c));
        i += 1;
        assert(src_cast@ =~= cast0.subrange(i as int, n as int));
    }
    let mut crew: Vec<CrewWire> = Vec::new();
    let m = src_crew.len();
    let mut j: usize = 0;
    while j < m
        invariant
            m == crew0.len(),
            j <= m,
            src_crew@ == crew0.subrange(j as int, m as int),
            crew@.len() == j,
            forall|a: int| 0 <= a < j ==> is_crew_wire(#[trigger] crew@[a], crew0[a]),
        decreases m - j,
    {
        proof {
            assert(src_crew@.len() > 0);
        }
        let c = src_crew.remove(0);
        assert(c == crew0[j as int]);
        crew.push(crew_to_wire(c));
        j += 1;
        assert(src_crew@ =~= crew0.subrange(j as int, m as int));
    }
    MetadataPayload::Credits(CreditsData { cast, crew })
}

// ── Artwork ──────────────────────────────────────────────────────────────────

/// Wire label of an artwork size.
pub open spec fn size_name(s: ArtworkSize) -> Seq<char> {
    match s {
        ArtworkSize::Thumbnail => "thumbnail"@,
        ArtworkSize::Standard => "standard"@,
        ArtworkSize::HiRes => "hi_res"@,
        ArtworkSize::Any => "any"@,
    }
}

/// Wire label of an artwork size.
pub fn size_label(s: &ArtworkSize) -> (r: String)
    ensures
        r@ == size_name(*s),
{
    match s {
        ArtworkSize::Thumbnail => owned("thumbnail"),
        ArtworkSize::Standard => owned("standard"),
        ArtworkSize::HiRes => owned("hi_res"),
        ArtworkSize::Any => owned("any"),
    }
}

/// `w` is the wire form of variant `v`.
pub open spec fn is_variant_wire(w: ArtworkVariantWire, v: ArtworkVariant) -> bool {
    &&& w.url@ == v.url@
    &&& w.width == v.width
    &&& w.height == v.height
    &&& w.size_label@ == size_name(v.size)
}

/// Wire form of an artwork variant: url, dimensions and size label.
pub fn artwork_variant_to_wire(v: ArtworkVariant) -> (w: ArtworkVariantWire)
    ensures
        is_variant_wire(w, v),
{
    let size_label = size_label(&v.size);
    ArtworkVariantWire { url: v.url, width: v.width, height: v.height, size_label }
}

/// A variant is a backdrop when both dimensions are known, the height is
/// positive and the image is wider than tall.
pub open spec fn is_backdrop(v: ArtworkVariant) -> bool {
    match (v.width, v.height) {
        (Some(w), Some(h)) => h > 0 && w > h,
        _ => false,
    }
}

/// The variants of `s` that are backdrops (`want`) or posters (`!want`),
/// in order.
pub open spec fn variants_where(s: Seq<ArtworkVariant>, want: bool) -> Seq<ArtworkVariant>
    decreases s.len(),
{
    if s.len() == 0 {
        Seq::empty()
    } else if is_backdrop(s.last()) == want {
        variants_where(s.drop_last(), want).push(s.last())
    } else {
        variants_where(s.drop_last(), want)
    }
}

/// `ws` is, element by element, the wire form of `vs`.
pub open spec fn are_variant_wires(ws: Seq<ArtworkVariantWire>, vs: Seq<ArtworkVariant>) -> bool {
    &&& ws.len() == vs.len()
    &&& forall|i: int| 0 <= i < ws.len() ==> is_variant_wire(#[trigger] ws[i], vs[i])
}

/// `r` is the artwork payload of `resp`: backdrops and posters, each in order.
pub open spec fn is_artwork_payload(r: MetadataPayload, resp: ArtworkResponse) -> bool {
    match r {
        MetadataPayload::Artwork(d) => {
            &&& are_variant_wires(d.backdrops@, variants_where(resp.variants@, true))
            &&& are_variant_wires(d.posters@, variants_where(resp.variants@, false))
        },
        _ => false,
    }
}

/// Split variants into backdrops and posters by aspect ratio, keeping
/// their order. A variant without both dimensions is a poster.
pub fn artwork_to_payload(resp: ArtworkResponse) -> (r: MetadataPayload)
    ensures
        is_artwork_payload(r, resp),
{
    let ghost vs = resp.variants@;
    let mut src = resp.variants;
    let mut backdrops: Vec<ArtworkVariantWire> = Vec::new();
    let mut posters: Vec<ArtworkVariantWire> = Vec::new();
    let n = src.len();
    let mut i: usize = 0;
    while i < n
        invariant
            n == vs.len(),
            i <= n,
            src@ == vs.subrange(i as int, n as int),
            are_variant_wires(backdrops@, variants_where(vs.subrange(0, i as int), true)),
            are_variant_wires(posters@, variants_where(vs.subrange(0, i as int), false)),
        decreases n - i,
    {
        let v = src.remove(0);
        assert(v == vs[i as int]);
        let is_bd = match (v.width, v.height) {
            (Some(w), Some(h)) => h > 0 && w > h,
            _ => false,
        };
        let wire = artwork_variant_to_wire(v);
        proof {
            let pre = vs.subrange(0, i as int);
            assert(vs.subrange(0, i + 1).drop_last() =~= pre);
            assert(vs.subrange(0, i + 1).last() == v);
        }
        if is_bd {
            backdrops.push(wire);
        } else {
            posters.push(wire);
        }
        i += 1;
        assert(src@ =~= vs.subrange(i as int, n as int));
    }
    assert(vs.subrange(0, n as int) =~= vs);
    MetadataPayload::Artwork(ArtworkData { backdrops, posters })
}

// ── Related ──────────────────────────────────────────────────────────────────

/// Lowercase name of an entry kind.
pub open spec fn kind_name(k: EntryKind) -> Seq<char> {
    match k {
        EntryKind::Artist => "artist"@,
        EntryKind::Album => "album"@,
        EntryKind::Track => "track"@,
        EntryKind::Movie => "movie"@,
        EntryKind::Series => "series"@,
        EntryKind::Episode => "episode"@,
    }
}

/// A year as the wire carries it: dropped when it does not fit in 16 bits.
pub open spec fn wire_year(y: Option<u32>) -> Option<u16> {
    match y {
        Some(v) => if v <= 0xffff { Some(v as u16) } else { None },
        None => None,
    }
}

/// `w` is the wire form of related entry `e`.
pub open spec fn is_related_wire(w: RelatedItemWire, e: PluginEntry) -> bool {
    &&& w.id@ == e.id@
    &&& w.id_source@ == e.source@
    &&& w.title@ == e.title@
    &&& w.year == wire_year(e.year)
    &&& opt_view(w.poster_url) == opt_view(e.poster_url)
    &&& w.kind@ == kind_name(e.kind)
}

/// Wire form of a related entry; its source plugin names the id namespace.
pub fn related_entry_to_wire(e: PluginEntry) -> (w: RelatedItemWire)
    ensures
        is_related_wire(w, e),
{
    let kind = match e.kind {
        EntryKind::Artist => owned("artist"),
        EntryKind::Album => owned("album"),
        EntryKind::Track => owned("track"),
        EntryKind::Movie => owned("movie"),
        EntryKind::Series => owned("series"),
        EntryKind::Episode => owned("episode"),
    };
    let year = match e.year {
        Some(v) => if v <= 0xffff { Some(v as u16) } else { None },
        None => None,
    };
    RelatedItemWire {
        id: e.id,
        id_source: e.source,
        title: e.title,
        year,
        poster_url: e.poster_url,
        kind,
    }
}

/// `r` is the related payload of `items`, item by item.
pub open spec fn is_related_payload(r: MetadataPayload, items: Seq<PluginEntry>) -> bool {
    match r {
        MetadataPayload::Related(d) => {
            &&& d.items.len() == items.len()
            &&& forall|i: int|
                0 <= i < items.len() ==> is_related_wire(#[trigger] d.items[i], items[i])
        },
        _ => false,
    }
}

/// Convert merged related entries into their wire payload, in order.
pub fn related_to_payload(items: Vec<PluginEntry>) -> (r: MetadataPayload)
    ensures
        is_related_payload(r, items@),
{
    let ghost es = items@;
    let mut src = items;
    let mut out: Vec<RelatedItemWire> = Vec::new();
    let n = src.len();
    let mut i: usize = 0;
    while i < n
        invariant
            n == es.len(),
            i <= n,
            src@ == es.subrange(i as int, n as int),
            out@.len() == i,
            forall|a: int| 0 <= a < i ==> is_related_wire(#[trigger] out@[a], es[a]),
        decreases n - i,
    {
        let e = src.remove(0);
        assert(e == es[i as int]);
        out.push(related_entry_to_wire(e));
        i += 1;
        assert(src@ =~= es.subrange(i as int, n as int));
    }
    MetadataPayload::Related(RelatedData { items: out })
}

} // verus!
