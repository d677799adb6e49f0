//! Plugin-facing data model: the entries and per-verb responses that
//! metadata plugins return, and the identifier vocabulary they use.
//!
//! Floating-point scores travel as their IEEE-754 bit patterns (`f32::to_bits`)
//! so that merging can carry them through unchanged.

use vstd::prelude::*;
use crate::text::owned;

verus! {

/// A map from cross-provider namespace (`"imdb"`, `"anilist"`, …) to the id
/// in that namespace, kept as an association list. Lookups take the first
/// entry of a key.
pub type IdMap = Vec<(String, String)>;

/// Lookup in an association list: the value of the first entry with key `k`.
pub open spec fn id_lookup(ids: Seq<(String, String)>, k: Seq<char>) -> Option<Seq<char>>
    decreases ids.len(),
{
    if ids.len() == 0 {
        None
    } else {
        let prev = id_lookup(ids.drop_last(), k);
        if prev is Some {
            prev
        } else if ids.last().0@ == k {
            Some(ids.last().1@)
        } else {
            None
        }
    }
}

/// No key occurs twice in the association list.
pub open spec fn ids_unique(ids: Seq<(String, String)>) -> bool {
    forall|i: int, j: int| 0 <= i < j < ids.len() ==> ids[i].0@ != ids[j].0@
}

/// Appending an entry leaves earlier lookups in place.
pub proof fn lemma_id_lookup_push(ids: Seq<(String, String)>, e: (String, String), k: Seq<char>)
    ensures
        id_lookup(ids.push(e), k) == if id_lookup(ids, k) is Some {
            id_lookup(ids, k)
        } else if e.0@ == k {
            Some(e.1@)
        } else {
            None
        },
{
    assert(ids.push(e).drop_last() =~= ids);
}

/// A key is found exactly when some entry carries it.
pub proof fn lemma_id_lookup_some(ids: Seq<(String, String)>, k: Seq<char>)
    ensures
        id_lookup(ids, k) is Some <==> exists|i: int| 0 <= i < ids.len() && ids[i].0@ == k,
    decreases ids.len(),
{
    if ids.len() > 0 {
        lemma_id_lookup_some(ids.drop_last(), k);
        if id_lookup(ids.drop_last(), k) is Some {
            let i = choose|i: int| 0 <= i < ids.drop_last().len() && ids.drop_last()[i].0@ == k;
            assert(ids[i].0@ == k);
        }
        if exists|i: int| 0 <= i < ids.len() && ids[i].0@ == k {
            let i = choose|i: int| 0 <= i < ids.len() && ids[i].0@ == k;
            if i < ids.len() - 1 {
                assert(ids.drop_last()[i].0@ == k);
            }
        }
    }
}

/// The value stored under `k`, if any.
pub fn id_get(ids: &IdMap, k: &str) -> (r: Option<String>)
    ensures
        match r {
            Some(v) => id_lookup(ids@, k@) == Some(v@),
            None => id_lookup(ids@, k@) is None,
        },
{
    let mut i: usize = 0;
    while i < ids.len()
        invariant
            i <= ids@.len(),
            id_lookup(ids@.subrange(0, i as int), k@) is None,
        decreases ids@.len() - i,
    {
        proof {
            assert(ids@.subrange(0, i + 1) =~= ids@.subrange(0, i as int).push(ids@[i as int]));
            lemma_id_lookup_push(ids@.subrange(0, i as int), ids@[i as int], k@);
        }
        if ids[i].0 == owned(k) {
            proof {
                lemma_id_lookup_prefix(ids@, i + 1, k@);
            }
            return Some(ids[i].1.clone());
        }
        i += 1;
    }
    assert(ids@.subrange(0, i as int) =~= ids@);
    None
}

/// A lookup answered by a prefix is the answer of the whole list.
pub proof fn lemma_id_lookup_prefix(ids: Seq<(String, String)>, n: int, k: Seq<char>)
    requires
        0 <= n <= ids.len(),
        id_lookup(ids.subrange(0, n), k) is Some,
    ensures
        id_lookup(ids, k) == id_lookup(ids.subrange(0, n), k),
    decreases ids.len() - n,
{
    if n < ids.len() {
        assert(ids.subrange(0, n + 1) =~= ids.subrange(0, n).push(ids[n]));
        lemma_id_lookup_push(ids.subrange(0, n), ids[n], k);
        lemma_id_lookup_prefix(ids, n + 1, k);
    } else {
        assert(ids.subrange(0, n) =~= ids);
    }
}

// ── Vocabulary ───────────────────────────────────────────────────────────────

/// The kind of a catalog entry.
#[derive(Debug, Clone, Copy, PartialEq, Eq, Hash, Default, Structural)]
pub enum EntryKind {
    Artist,
    Album,
    #[default]
    Track,
    Movie,
    Series,
    Episode,
}

/// The scope of a catalog search.
#[derive(Debug, Clone, Copy, PartialEq, Eq, Hash, Structural)]
pub enum SearchScope {
    Artist,
    Album,
    Track,
    Movie,
    Series,
    Episode,
}

/// Which metadata verb a request or partial concerns.
#[derive(Debug, Clone, Copy, PartialEq, Eq, Hash, Structural)]
pub enum MetadataVerb {
    Enrich,
    Credits,
    Artwork,
    Related,
    RatingsAggregator,
}

/// Namespace of an entry identifier.
#[derive(Debug, Clone, PartialEq, Eq, Hash)]
pub enum IdSource {
    Imdb,
    Tmdb,
    Tvdb,
    Anilist,
    Kitsu,
    Musicbrainz,
    Discogs,
    Other(String),
}

/// Image size class of an artwork variant.
#[derive(Debug, Clone, Copy, PartialEq, Eq, Hash, Structural)]
pub enum ArtworkSize {
    Thumbnail,
    Standard,
    HiRes,
    Any,
}

/// Role of a cast member.
#[derive(Debug, Clone, PartialEq, Eq, Hash)]
pub enum CastRole {
    Actor,
    Vocalist,
    FeaturedArtist,
    GuestAppearance,
    Other(String),
}

/// Role of a crew member.
#[derive(Debug, Clone, PartialEq, Eq, Hash)]
pub enum CrewRole {
    Director,
    Writer,
    Producer,
    ExecutiveProducer,
    Cinematographer,
    Editor,
    Composer,
    Songwriter,
    Lyricist,
    Arranger,
    Instrumentalist,
    ProductionDesigner,
    ArtDirector,
    CostumeDesigner,
    SoundDesigner,
    VfxSupervisor,
    AnimationDirector,
    LeadAnimator,
    Other(String),
}

// ── Entries and responses ────────────────────────────────────────────────────

/// One catalog / metadata entry as a plugin returns it.
#[derive(Debug, Clone)]
pub struct PluginEntry {
    pub id: String,
    pub kind: EntryKind,
    pub title: String,
    /// Originating plugin id (e.g. "tmdb"); doubles as the id namespace.
    pub source: String,
    pub year: Option<u32>,
    pub genre: Option<String>,
    /// Headline rating, as the bits of an `f32`.
    pub rating: Option<u32>,
    pub description: Option<String>,
    pub poster_url: Option<String>,
    pub imdb_id: Option<String>,
    pub duration: Option<u32>,
    pub artist_name: Option<String>,
    pub album_name: Option<String>,
    pub track_number: Option<u32>,
    pub season: Option<u32>,
    pub episode: Option<u32>,
    pub original_language: Option<String>,
    /// Cross-provider native ids.
    pub external_ids: IdMap,
    pub season_count: Option<u32>,
    pub season_ids: Vec<String>,
    pub has_specials: bool,
    /// Per-source ratings, each as the bits of an `f32`.
    pub ratings: Vec<(String, u32)>,
    /// Per-source vote counts.
    pub rating_votes: Vec<(String, u64)>,
}

/// The empty entry: every text field empty, every optional field absent.
pub open spec fn is_default_entry(e: PluginEntry) -> bool {
    &&& e.id@.len() == 0
    &&& e.kind == EntryKind::Track
    &&& e.title@.len() == 0
    &&& e.source@.len() == 0
    &&& e.year is None
    &&& e.genre is None
    &&& e.rating is None
    &&& e.description is None
    &&& e.poster_url is None
    &&& e.imdb_id is None
    &&& e.duration is None
    &&& e.artist_name is None
    &&& e.album_name is None
    &&& e.track_number is None
    &&& e.season is None
    &&& e.episode is None
    &&& e.original_language is None
    &&& e.external_ids@.len() == 0
    &&& e.season_count is None
    &&& e.season_ids@.len() == 0
    &&& !e.has_specials
    &&& e.ratings@.len() == 0
    &&& e.rating_votes@.len() == 0
}

impl Default for PluginEntry {
    fn default() -> (r: PluginEntry)
        ensures
            is_default_entry(r),
    {
        PluginEntry {
            id: String::new(),
            kind: EntryKind::Track,
            title: String::new(),
            source: String::new(),
            year: None,
            genre: None,
            rating: None,
            description: None,
            poster_url: None,
            imdb_id: None,
            duration: None,
            artist_name: None,
            album_name: None,
            track_number: None,
            season: None,
            episode: None,
            original_language: None,
            external_ids: Vec::new(),
            season_count: None,
            season_ids: Vec::new(),
            has_specials: false,
            ratings: Vec::new(),
            rating_votes: Vec::new(),
        }
    }
}

/// Response to an enrich call.
#[derive(Debug, Clone)]
pub struct EnrichResponse {
    pub entry: PluginEntry,
    /// Match confidence, as the bits of an `f32`.
    pub confidence: u32,
}

/// One credited performer.
#[derive(Debug, Clone)]
pub struct CastMember {
    pub name: String,
    pub role: CastRole,
    pub character: Option<String>,
    pub instrument: Option<String>,
    pub billing_order: Option<u32>,
    pub external_ids: IdMap,
}

/// One credited crew member.
#[derive(Debug, Clone)]
pub struct CrewMember {
    pub name: String,
    pub role: CrewRole,
    pub department: Option<String>,
    pub external_ids: IdMap,
}

/// Response to a credits call.
#[derive(Debug, Clone)]
pub struct CreditsResponse {
    pub cast: Vec<CastMember>,
    pub crew: Vec<CrewMember>,
}

/// One artwork image.
#[derive(Debug, Clone)]
pub struct ArtworkVariant {
    pub size: ArtworkSize,
    pub url: String,
    pub mime: String,
    pub width: Option<u32>,
    pub height: Option<u32>,
}

/// Response to an artwork call.
#[derive(Debug, Clone)]
pub struct ArtworkResponse {
    pub variants: Vec<ArtworkVariant>,
}

// ── Spec views of the enums that carry text ──────────────────────────────────

/// A role compared by value: variant number, and the text of `Other`.
pub open spec fn cast_role_view(r: CastRole) -> (int, Seq<char>) {
    match r {
        CastRole::Actor => (0, Seq::empty()),
        CastRole::Vocalist => (1, Seq::empty()),
        CastRole::FeaturedArtist => (2, Seq::empty()),
        CastRole::GuestAppearance => (3, Seq::empty()),
        CastRole::Other(s) => (4, s@),
    }
}

/// A role compared by value: variant number, and the text of `Other`.
pub open spec fn crew_role_view(r: CrewRole) -> (int, Seq<char>) {
    match r {
        CrewRole::Director => (0, Seq::empty()),
        CrewRole::Writer => (1, Seq::empty()),
        CrewRole::Producer => (2, Seq::empty()),
        CrewRole::ExecutiveProducer => (3, Seq::empty()),
        CrewRole::Cinematographer => (4, Seq::empty()),
        CrewRole::Editor => (5, Seq::empty()),
        CrewRole::Composer => (6, Seq::empty()),
        CrewRole::Songwriter => (7, Seq::empty()),
        CrewRole::Lyricist => (8, Seq::empty()),
        CrewRole::Arranger => (9, Seq::empty()),
        CrewRole::Instrumentalist => (10, Seq::empty()),
        CrewRole::ProductionDesigner => (11, Seq::empty()),
        CrewRole::ArtDirector => (12, Seq::empty()),
        CrewRole::CostumeDesigner => (13, Seq::empty()),
        CrewRole::SoundDesigner => (14, Seq::empty()),
        CrewRole::VfxSupervisor => (15, Seq::empty()),
        CrewRole::AnimationDirector => (16, Seq::empty()),
        CrewRole::LeadAnimator => (17, Seq::empty()),
        CrewRole::Other(s) => (18, s@),
    }
}

/// An optional text compared by value.
pub open spec fn opt_view(o: Option<String>) -> Option<Seq<char>> {
    match o {
        Some(s) => Some(s@),
        None => None,
    }
}

/// Equality of two cast roles by value.
pub fn cast_role_eq(a: &CastRole, b: &CastRole) -> (r: bool)
    ensures
        r == (cast_role_view(*a) == cast_role_view(*b)),
{
    match (a, b) {
        (CastRole::Actor, CastRole::Actor) => true,
        (CastRole::Vocalist, CastRole::Vocalist) => true,
        (CastRole::FeaturedArtist, CastRole::FeaturedArtist) => true,
        (CastRole::GuestAppearance, CastRole::GuestAppearance) => true,
        (CastRole::Other(x), CastRole::Other(y)) => crate::text::str_eq(x.as_str(), y.as_str()),
        _ => false,
    }
}

/// The variant number of a crew role.
fn crew_role_tag(r: &CrewRole) -> (t: u8)
    ensures
        t as int == crew_role_view(*r).0,
{
    match r {
        CrewRole::Director => 0,
        CrewRole::Writer => 1,
        CrewRole::Producer => 2,
        CrewRole::ExecutiveProducer => 3,
        CrewRole::Cinematographer => 4,
        CrewRole::Editor => 5,
        CrewRole::Composer => 6,
        CrewRole::Songwriter => 7,
        CrewRole::Lyricist => 8,
        CrewRole::Arranger => 9,
        CrewRole::Instrumentalist => 10,
        CrewRole::ProductionDesigner => 11,
        CrewRole::ArtDirector => 12,
        CrewRole::CostumeDesigner => 13,
        CrewRole::SoundDesigner => 14,
        CrewRole::VfxSupervisor => 15,
        CrewRole::AnimationDirector => 16,
        CrewRole::LeadAnimator => 17,
        CrewRole::Other(_) => 18,
    }
}

/// Equality of two crew roles by value.
pub fn crew_role_eq(a: &CrewRole, b: &CrewRole) -> (r: bool)
    ensures
        r == (crew_role_view(*a) == crew_role_view(*b)),
{
    match (a, b) {
        (CrewRole::Other(x), CrewRole::Other(y)) => crate::text::str_eq(x.as_str(), y.as_str()),
        _ => {
            let ta = crew_role_tag(a);
            let tb = crew_role_tag(b);
            ta == tb && ta != 18
        },
    }
}

/// Equality of two optional texts by value.
pub fn opt_string_eq(a: &Option<String>, b: &Option<String>) -> (r: bool)
    ensures
        r == (opt_view(*a) == opt_view(*b)),
{
    match (a, b) {
        (Some(x), Some(y)) => crate::text::str_eq(x.as_str(), y.as_str()),
        (None, None) => true,
        _ => false,
    }
}

/// A copy of an optional text.
pub fn clone_opt_string(o: &Option<String>) -> (r: Option<String>)
    ensures
        r == *o,
        opt_view(r) == opt_view(*o),
{
    match o {
        Some(s) => Some(s.clone()),
        None => None,
    }
}

// ── Verb requests ────────────────────────────────────────────────────────────

/// Which relation a related-items request asks for.
#[derive(Debug, Clone, Copy, PartialEq, Eq, Hash, Structural)]
pub enum RelationKind {
    /// Any relation the provider knows.
    Any,
}

/// Request to look one entry up by id.
#[derive(Debug, Clone)]
pub struct LookupRequest {
    pub id: String,
    pub id_source: String,
    pub kind: EntryKind,
}

/// Request to enrich a partial entry.
#[derive(Debug, Clone)]
pub struct EnrichRequest {
    /// What is known of the entry: the id the plugin recognises, title,
    /// year and cross-provider ids.
    pub partial: PluginEntry,
    pub prefer_id_source: Option<String>,
    pub force_refresh: bool,
}

/// Request for an entry's credits.
#[derive(Debug, Clone)]
pub struct CreditsRequest {
    pub id: String,
    pub id_source: String,
    pub kind: EntryKind,
    pub force_refresh: bool,
}

/// Request for an entry's artwork.
#[derive(Debug, Clone)]
pub struct ArtworkRequest {
    pub id: String,
    pub id_source: String,
    pub kind: EntryKind,
    pub size: ArtworkSize,
    pub force_refresh: bool,
}

/// Request for entries related to an entry.
#[derive(Debug, Clone)]
pub struct RelatedRequest {
    pub id: String,
    pub id_source: String,
    pub kind: EntryKind,
    pub relation: RelationKind,
    pub limit: u32,
    pub force_refresh: bool,
}

} // verus!
