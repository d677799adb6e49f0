//! mdblist.com catalog lists: the list items the catalog seeds from, the
//! bucket a list kind keeps, the request URL, the id-field normalisation,
//! and when a client exists at all.

use vstd::prelude::*;
use crate::text::{decimal, decimal_string, owned, push_str, trim, trim_spec};

verus! {

/// The default list the Movies grid seeds from.
pub fn default_movies_list() -> (r: &'static str)
    ensures
        r@ == "snoak/latest-movies-digital-release"@,
{
    "snoak/latest-movies-digital-release"
}

/// The default list the Series grid seeds from.
pub fn default_series_list() -> (r: &'static str)
    ensures
        r@ == "garycrawfordgc/latest-tv-shows"@,
{
    "garycrawfordgc/latest-tv-shows"
}

/// Which bucket of a list answer to keep.
#[derive(Debug, Clone, Copy, PartialEq, Eq, Structural)]
pub enum ListKind {
    Movies,
    Shows,
}

/// Cross-provider ids of a list item.
#[derive(Debug, Clone, Default)]
pub struct MdblistIds {
    pub imdb: Option<String>,
    /// TMDB id, as decimal text.
    pub tmdb: Option<String>,
    /// TVDB id, as decimal text.
    pub tvdb: Option<String>,
}

/// One row of an mdblist list.
#[derive(Debug, Clone)]
pub struct MdblistItem {
    pub title: String,
    pub release_year: Option<u32>,
    pub release_date: Option<String>,
    pub mediatype: Option<String>,
    pub runtime: Option<u32>,
    pub language: Option<String>,
    pub adult: u8,
    pub ids: MdblistIds,
}

/// A list answer: its movies and its shows.
#[derive(Debug, Clone)]
pub struct MdblistListResponse {
    pub movies: Vec<MdblistItem>,
    pub shows: Vec<MdblistItem>,
}

/// The bucket of a list answer that a kind keeps; the other is dropped.
pub fn select_bucket(resp: MdblistListResponse, kind: ListKind) -> (r: Vec<MdblistItem>)
    ensures
        r@ == match kind {
            ListKind::Movies => resp.movies@,
            ListKind::Shows => resp.shows@,
        },
{
    match kind {
        ListKind::Movies => resp.movies,
        ListKind::Shows => resp.shows,
    }
}

/// The items URL of list `slug` (`username/list-slug`) with the API key.
pub open spec fn list_url_of(slug: Seq<char>, key: Seq<char>) -> Seq<char> {
    "https://api.mdblist.com/lists/"@ + slug + "/items?apikey="@ + key
}

/// The items URL of a list (see `list_url_of`).
pub fn list_url(slug: &str, key: &str) -> (r: String)
    ensures
        r@ == list_url_of(slug@, key@),
{
    let mut s = owned("https://api.mdblist.com/lists/");
    push_str(&mut s, slug);
    push_str(&mut s, "/items?apikey=");
    push_str(&mut s, key);
    s
}

/// An id field as the list answer carries it: a JSON number, a string, or
/// anything else.
#[derive(Debug, Clone)]
pub enum IdField {
    Number(u64),
    Text(String),
    Other,
}

/// The canonical text of an id field: a number in decimal, a non-empty
/// string as is, nothing otherwise.
pub open spec fn id_text_of(f: IdField) -> Option<Seq<char>> {
    match f {
        IdField::Number(n) => Some(decimal(n as nat)),
        IdField::Text(s) => if s@.len() > 0 { Some(s@) } else { None },
        IdField::Other => None,
    }
}

/// The canonical text of an id field (see `id_text_of`).
pub fn stringify_id(f: IdField) -> (r: Option<String>)
    ensures
        match r {
            Some(s) => id_text_of(f) == Some(s@),
            None => id_text_of(f) is None,
        },
{
    match f {
        IdField::Number(n) => Some(decimal_string(n)),
        IdField::Text(s) => if s.unicode_len() > 0 {
            Some(s)
        } else {
            None
        },
        IdField::Other => None,
    }
}

/// The API key a client is built with: `None` (mdblist silently absent)
/// when it is blank.
pub fn usable_api_key(key: String) -> (r: Option<String>)
    ensures
        r == if trim_spec(key@).len() > 0 { Some(key) } else { None::<String> },
{
    let t = trim(key.as_str());
    if t.unicode_len() > 0 {
        Some(key)
    } else {
        None
    }
}

} // verus!
