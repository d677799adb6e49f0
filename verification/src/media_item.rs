//! `MediaItem`, the provider-agnostic unit of content: its dedup key, its
//! display rule, and its conversions to and from catalog entries.

use vstd::prelude::*;
use crate::catalog::CatalogEntry;
use crate::cli::parse_usize;
use crate::ipc::MediaType;
use crate::lastfm::parsed_u32;
use crate::media::{EpisodeInfo, MediaId, TrackInfo};
use crate::text::{chars_of, decimal, decimal_string, owned, push_char, push_str, to_lowercase, trim, trim_spec, unicode_lowercase};

verus! {

/// A single piece of media content, whatever provider it came from.
#[derive(Debug, Clone)]
pub struct MediaItem {
    pub id: MediaId,
    pub title: String,
    pub media_type: MediaType,
    pub year: Option<u32>,
    pub description: Option<String>,
    /// Comma-separated genre labels.
    pub genres: Option<String>,
    /// Weighted composite rating text.
    pub rating: Option<String>,
    /// Per-source raw scores, each as the bits of an `f64`.
    pub ratings: Vec<(String, u64)>,
    pub poster_url: Option<String>,
    pub poster_art: Option<String>,
    pub imdb_id: Option<String>,
    /// TMDB id, as decimal text.
    pub tmdb_id: Option<String>,
    pub episode: Option<EpisodeInfo>,
    pub track: Option<TrackInfo>,
    pub provider: String,
    pub tab: String,
}

/// `s` with every space replaced by `-`.
pub open spec fn dashed(s: Seq<char>) -> Seq<char> {
    s.map_values(|c: char| if c == ' ' { '-' } else { c })
}

/// `s` with every space replaced by `-`.
fn dash_spaces(s: &str) -> (r: String)
    ensures
        r@ == dashed(s@),
{
    let v = chars_of(s);
    let mut out = String::new();
    let mut i: usize = 0;
    while i < v.len()
        invariant
            v@ == s@,
            i <= v@.len(),
            out@ == dashed(s@.subrange(0, i as int)),
        decreases v@.len() - i,
    {
        let c = v[i];
        push_char(&mut out, if c == ' ' { '-' } else { c });
        i += 1;
        assert(out@ =~= dashed(s@.subrange(0, i as int)));
    }
    assert(s@.subrange(0, v@.len() as int) =~= s@);
    out
}

/// The dedup key of an item: its IMDb id, else its lowercased, trimmed,
/// dashed title, a colon, and its year (`?` when unknown).
pub open spec fn item_dedup_key(m: MediaItem) -> Seq<char> {
    match m.imdb_id {
        Some(id) => id@,
        None => dashed(trim_spec(unicode_lowercase(m.title@))) + ":"@ + match m.year {
            Some(y) => decimal(y as nat),
            None => "?"@,
        },
    }
}

impl MediaItem {
    /// The dedup key (see `item_dedup_key`).
    pub fn dedup_key(&self) -> (r: String)
        ensures
            r@ == item_dedup_key(*self),
    {
        match &self.imdb_id {
            Some(id) => id.clone(),
            None => {
                let lower = to_lowercase(self.title.as_str());
                let t = trim(lower.as_str());
                let mut s = dash_spaces(t.as_str());
                push_str(&mut s, ":");
                match self.year {
                    Some(y) => {
                        let d = decimal_string(y as u64);
                        push_str(&mut s, d.as_str());
                    },
                    None => push_str(&mut s, "?"),
                }
                s
            },
        }
    }

    /// Whether the item can be shown in the grid: it has a title.
    pub fn is_displayable(&self) -> (r: bool)
        ensures
            r == (self.title@.len() > 0),
    {
        self.title.unicode_len() > 0
    }

    /// The item of a catalog entry: id `<provider>:<id>`, the year parsed
    /// from its text (dropped when it is not a 32-bit number), no episode or
    /// track extras.
    pub fn from_catalog(e: CatalogEntry) -> (m: MediaItem)
        ensures
            m.id.namespace@ == e.provider@,
            m.id.key@ == e.id@,
            m.title == e.title,
            m.media_type == e.media_type,
            m.year == match e.year {
                Some(t) => match parsed_u32(t@) {
                    Some(v) => Some(v as u32),
                    None => None::<u32>,
                },
                None => None::<u32>,
            },
            m.description == e.description,
            m.genres == e.genre,
            m.rating == e.rating,
            m.ratings == e.ratings,
            m.poster_url == e.poster_url,
            m.poster_art == e.poster_art,
            m.imdb_id == e.imdb_id,
            m.tmdb_id == e.tmdb_id,
            m.episode is None,
            m.track is None,
            m.provider == e.provider,
            m.tab == e.tab,
    {
        let year = match &e.year {
            Some(t) => match parse_usize(t.as_str()) {
                Some(v) => if v <= 0xffff_ffff {
                    Some(v as u32)
                } else {
                    None
                },
                None => None,
            },
            None => None,
        };
        let id = MediaId::new(e.provider.as_str(), e.id.as_str());
        MediaItem {
            id,
            title: e.title,
            media_type: e.media_type,
            year,
            description: e.description,
            genres: e.genre,
            rating: e.rating,
            ratings: e.ratings,
            poster_url: e.poster_url,
            poster_art: e.poster_art,
            imdb_id: e.imdb_id,
            tmdb_id: e.tmdb_id,
            episode: None,
            track: None,
            provider: e.provider,
            tab: e.tab,
        }
    }

    /// The catalog entry of an item: its key as id, the year as decimal
    /// text, and nothing the item does not carry.
    pub fn into_catalog(self) -> (e: CatalogEntry)
        ensures
            e.id@ == self.id.key@,
            e.title == self.title,
            match self.year {
                Some(y) => e.year matches Some(t) && t@ == decimal(y as nat),
                None => e.year is None,
            },
            e.genre == self.genres,
            e.rating == self.rating,
            e.ratings == self.ratings,
            e.description == self.description,
            e.poster_url == self.poster_url,
            e.poster_art == self.poster_art,
            e.provider == self.provider,
            e.tab == self.tab,
            e.imdb_id == self.imdb_id,
            e.tmdb_id == self.tmdb_id,
            e.mal_id is None,
            e.media_type == self.media_type,
            e.rating_votes@.len() == 0,
            e.original_language is None,
            e.artist is None,
    {
        let year = match self.year {
            Some(y) => Some(decimal_string(y as u64)),
            None => None,
        };
        CatalogEntry {
            id: self.id.key.clone(),
            title: self.title,
            year,
            genre: self.genres,
            rating: self.rating,
            description: self.description,
            poster_url: self.poster_url,
            poster_art: self.poster_art,
            provider: self.provider,
            tab: self.tab,
            imdb_id: self.imdb_id,
            tmdb_id: self.tmdb_id,
            mal_id: None,
            media_type: self.media_type,
            ratings: self.ratings,
            rating_votes: Vec::new(),
            original_language: None,
            artist: None,
        }
    }
}

} // verus!
