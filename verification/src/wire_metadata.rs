//! Wire types of the metadata-enrichment IPC flow: the TUI asks for detail
//! metadata of one entry, and the runtime streams back one merged payload
//! per verb as each finishes.

use vstd::prelude::*;
use crate::abi::IdMap;
use crate::text::{char_to_uppercase, push_char, push_str, unicode_uppercase_char};

verus! {

/// Request to fetch enriched detail metadata for a single entry.
#[derive(Debug, Clone, Default)]
pub struct GetDetailMetadataRequest {
    pub entry_id: String,
    /// `"imdb" | "tmdb" | "tvdb" | "anilist" | "kitsu" | "musicbrainz" | "discogs" | ...`
    pub id_source: String,
    /// `"movies" | "series" | "anime" | "music"`
    pub kind: String,
    pub title: String,
    pub year: Option<u16>,
    pub external_ids: IdMap,
}

/// One merged per-verb payload streamed back to the TUI.
#[derive(Debug, Clone, PartialEq, Eq)]
pub struct DetailMetadataPartial {
    pub entry_id: String,
    /// `"enrich" | "credits" | "artwork" | "related" | "ratings_aggregator"`
    pub verb: String,
    pub payload: MetadataPayload,
}

/// Per-verb payload. `Empty` means "we tried and there's nothing" or
/// "no sources available".
#[derive(Debug, Clone, PartialEq, Eq)]
pub enum MetadataPayload {
    Empty,
    Enrich(EnrichData),
    Credits(CreditsData),
    Artwork(ArtworkData),
    Related(RelatedData),
    RatingsAggregator(RatingsAggregatorData),
}

#[derive(Debug, Clone, PartialEq, Eq, Default)]
pub struct EnrichData {
    pub studio: Option<String>,
    pub networks: Vec<String>,
    pub external_ids: IdMap,
    pub season_count: Option<u32>,
    pub season_ids: Vec<String>,
    pub has_specials: bool,
}

#[derive(Debug, Clone, PartialEq, Eq, Default)]
pub struct CreditsData {
    pub cast: Vec<CastWire>,
    pub crew: Vec<CrewWire>,
}

#[derive(Debug, Clone, PartialEq, Eq)]
pub struct CastWire {
    pub name: String,
    pub role: String,
    pub character: Option<String>,
    pub billing_order: Option<u32>,
}

#[derive(Debug, Clone, PartialEq, Eq)]
pub struct CrewWire {
    pub name: String,
    pub role: String,
    pub department: Option<String>,
}

#[derive(Debug, Clone, PartialEq, Eq, Default)]
pub struct ArtworkData {
    pub backdrops: Vec<ArtworkVariantWire>,
    pub posters: Vec<ArtworkVariantWire>,
}

#[derive(Debug, Clone, PartialEq, Eq)]
pub struct ArtworkVariantWire {
    pub url: String,
    pub width: Option<u32>,
    pub height: Option<u32>,
    pub size_label: String,
}

#[derive(Debug, Clone, PartialEq, Eq, Default)]
pub struct RelatedData {
    pub items: Vec<RelatedItemWire>,
}

#[derive(Debug, Clone, PartialEq, Eq)]
pub struct RelatedItemWire {
    pub id: String,
    pub id_source: String,
    pub title: String,
    pub year: Option<u16>,
    pub poster_url: Option<String>,
    pub kind: String,
}

/// Pre-formatted rating block of the rating-aggregator source.
#[derive(Debug, Clone, PartialEq, Eq, Default)]
pub struct RatingsAggregatorData {
    pub description: String,
    pub external_url: Option<String>,
}

// ── Role humanizing ──────────────────────────────────────────────────────────

/// What character `i` of a snake_case role becomes: `_` becomes a space, the
/// first character of each word is uppercased, the rest is kept.
pub open spec fn humanized_piece(s: Seq<char>, i: int) -> Seq<char> {
    if s[i] == '_' {
        seq![' ']
    } else if i == 0 || s[i - 1] == '_' {
        unicode_uppercase_char(s[i])
    } else {
        seq![s[i]]
    }
}

/// The humanized form of the first `n` characters of `s`.
pub open spec fn humanized_prefix(s: Seq<char>, n: int) -> Seq<char>
    decreases n,
{
    if n <= 0 {
        Seq::empty()
    } else {
        humanized_prefix(s, n - 1) + humanized_piece(s, n - 1)
    }
}

/// Convert a snake_case wire role (`"animation_director"`) to a humanized
/// label (`"Animation Director"`): the text is split at `_`, each word's
/// first character uppercased, and the words joined with spaces.
pub fn humanize_role(wire: &str) -> (r: String)
    ensures
        r@ == humanized_prefix(wire@, wire@.len() as int),
{
    let v = crate::text::chars_of(wire);
    let n = v.len();
    let mut out = String::new();
    let mut i: usize = 0;
    while i < n
        invariant
            v@ == wire@,
            n == wire@.len(),
            i <= n,
            out@ == humanized_prefix(wire@, i as int),
        decreases n - i,
    {
        let c = v[i];
        if c == '_' {
            push_char(&mut out, ' ');
        } else if i == 0 || v[i - 1] == '_' {
            let up = char_to_uppercase(c);
            push_str(&mut out, up.as_str());
        } else {
            push_char(&mut out, c);
        }
        proof {
            assert(humanized_prefix(wire@, i + 1) == humanized_prefix(wire@, i as int)
                + humanized_piece(wire@, i as int));
            assert(out@ =~= humanized_prefix(wire@, i + 1));
        }
        i += 1;
    }
    out
}

} // verus!
