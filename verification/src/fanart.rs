//! fanart.tv artwork: which slice of a title's answer a slot reads, the
//! order its images are offered in (most liked first, English preferred),
//! the request URL with the project and optional user key, and when a
//! client can be built at all.

use vstd::prelude::*;
use crate::cli::{parse_i64, parsed_i64};
use crate::sort::{SortKey, is_stable_sort, stable_sort};
use crate::sources::names;
use crate::text::{owned, push_str, str_eq, trim, trim_spec};

verus! {

/// Which slice of fanart's per-title answer is wanted.
#[derive(Debug, Clone, Copy, PartialEq, Eq, Structural)]
pub enum ArtworkSlot {
    Poster,
    Background,
    Logo,
}

/// One image of a fanart answer.
#[derive(Debug, Clone)]
pub struct FanartItem {
    pub url: String,
    pub lang: Option<String>,
    /// Community votes, as decimal text.
    pub likes: Option<String>,
}

/// A movie's fanart answer.
#[derive(Debug, Clone)]
pub struct FanartMovie {
    pub movieposter: Vec<FanartItem>,
    pub moviebackground: Vec<FanartItem>,
    pub movielogo: Vec<FanartItem>,
    pub hdmovielogo: Vec<FanartItem>,
}

/// A TV show's fanart answer.
#[derive(Debug, Clone)]
pub struct FanartTv {
    pub tvposter: Vec<FanartItem>,
    pub showbackground: Vec<FanartItem>,
    pub clearlogo: Vec<FanartItem>,
    pub hdtvlogo: Vec<FanartItem>,
}

/// The images of a movie answer for a slot: posters, backgrounds, or the
/// HD logos followed by the plain ones.
pub fn movie_slot_items(payload: FanartMovie, slot: ArtworkSlot) -> (r: Vec<FanartItem>)
    ensures
        r@ == match slot {
            ArtworkSlot::Poster => payload.movieposter@,
            ArtworkSlot::Background => payload.moviebackground@,
            ArtworkSlot::Logo => payload.hdmovielogo@ + payload.movielogo@,
        },
{
    match slot {
        ArtworkSlot::Poster => payload.movieposter,
        ArtworkSlot::Background => payload.moviebackground,
        ArtworkSlot::Logo => {
            let mut combined = payload.hdmovielogo;
            let mut rest = payload.movielogo;
            combined.append(&mut rest);
            combined
        },
    }
}

/// The images of a TV answer for a slot: posters, backgrounds, or the HD
/// logos followed by the clear logos.
pub fn tv_slot_items(payload: FanartTv, slot: ArtworkSlot) -> (r: Vec<FanartItem>)
    ensures
        r@ == match slot {
            ArtworkSlot::Poster => payload.tvposter@,
            ArtworkSlot::Background => payload.showbackground@,
            ArtworkSlot::Logo => payload.hdtvlogo@ + payload.clearlogo@,
        },
{
    match slot {
        ArtworkSlot::Poster => payload.tvposter,
        ArtworkSlot::Background => payload.showbackground,
        ArtworkSlot::Logo => {
            let mut combined = payload.hdtvlogo;
            let mut rest = payload.clearlogo;
            combined.append(&mut rest);
            combined
        },
    }
}

/// An image's like count: its likes text as an integer, else 0.
pub open spec fn likes_of(it: FanartItem) -> int {
    match it.likes {
        Some(t) => match parsed_i64(t@) {
            Some(v) => v,
            None => 0,
        },
        None => 0,
    }
}

/// An image's language rank: English first, no language (`"00"` or none)
/// last, any other language between.
pub open spec fn lang_rank(it: FanartItem) -> int {
    match it.lang {
        Some(l) => if l@ == "en"@ {
            0
        } else if l@ == "00"@ {
            2
        } else {
            1
        },
        None => 2,
    }
}

/// The rank key of an image: more likes first, then by language rank.
pub open spec fn rank_key(it: FanartItem) -> i128 {
    (-likes_of(it) * 4 + lang_rank(it)) as i128
}

/// The rank keys of a list of images.
pub open spec fn rank_keys(items: Seq<FanartItem>) -> Seq<i128> {
    items.map_values(|it: FanartItem| rank_key(it))
}

/// The rank key of one image (see `rank_key`).
fn item_rank_key(it: &FanartItem) -> (k: i128)
    ensures
        k == rank_key(*it),
{
    let likes: i64 = match &it.likes {
        Some(t) => match parse_i64(t.as_str()) {
            Some(v) => v,
            None => 0,
        },
        None => 0,
    };
    let pref: i128 = match &it.lang {
        Some(l) => if str_eq(l.as_str(), "en") {
            0
        } else if str_eq(l.as_str(), "00") {
            2
        } else {
            1
        },
        None => 2,
    };
    -(likes as i128) * 4 + pref
}

/// The image URLs in offer order: sorted stably by most likes, then
/// English first and no language last.
pub fn rank_by_likes_then_lang(items: Vec<FanartItem>) -> (r: Vec<String>)
    ensures
        exists|sorted: Seq<FanartItem>|
            #[trigger] is_stable_sort(sorted, items@, rank_keys(items@)) && names(r@) == sorted.map_values(
                |it: FanartItem| it.url@,
            ),
{
    let mut keys: Vec<i128> = Vec::new();
    let mut i: usize = 0;
    while i < items.len()
        invariant
            i <= items@.len(),
            keys@ == rank_keys(items@.subrange(0, i as int)),
        decreases items@.len() - i,
    {
        let k = item_rank_key(&items[i]);
        keys.push(k);
        i += 1;
        assert(keys@ =~= rank_keys(items@.subrange(0, i as int)));
    }
    assert(items@.subrange(0, items@.len() as int) =~= items@);
    let ghost orig = items@;
    let sorted = stable_sort(items, &keys);
    let mut out: Vec<String> = Vec::new();
    let mut j: usize = 0;
    while j < sorted.len()
        invariant
            j <= sorted@.len(),
            names(out@) == sorted@.subrange(0, j as int).map_values(|it: FanartItem| it.url@),
        decreases sorted@.len() - j,
    {
        let ghost before = out@;
        out.push(sorted[j].url.clone());
        assert(names(out@) =~= names(before).push(sorted@[j as int].url@));
        assert(sorted@.subrange(0, j + 1).map_values(|it: FanartItem| it.url@) =~= sorted@.subrange(
            0,
            j as int,
        ).map_values(|it: FanartItem| it.url@).push(sorted@[j as int].url@));
        j += 1;
    }
    assert(sorted@.subrange(0, sorted@.len() as int) =~= sorted@);
    assert(is_stable_sort(sorted@, orig, rank_keys(orig)));
    out
}

/// The fanart v3 request URL for a title of `kind` (`movies` or `tv`):
/// the project key always, the user's key as `client_key` when present.
pub open spec fn fanart_url_of(project: Seq<char>, user: Option<Seq<char>>, kind: Seq<char>, id: Seq<char>) -> Seq<char> {
    let base = "https://webservice.fanart.tv/v3/"@ + kind + "/"@ + id + "?api_key="@ + project;
    match user {
        Some(u) => base + "&client_key="@ + u,
        None => base,
    }
}

/// The fanart request URL (see `fanart_url_of`).
pub fn fanart_url(project_key: &str, user_key: &Option<String>, kind: &str, id: &str) -> (r: String)
    ensures
        r@ == fanart_url_of(
            project_key@,
            match user_key {
                Some(u) => Some(u@),
                None => None,
            },
            kind@,
            id@,
        ),
{
    let mut s = owned("https://webservice.fanart.tv/v3/");
    push_str(&mut s, kind);
    push_str(&mut s, "/");
    push_str(&mut s, id);
    push_str(&mut s, "?api_key=");
    push_str(&mut s, project_key);
    match user_key {
        Some(u) => {
            push_str(&mut s, "&client_key=");
            push_str(&mut s, u.as_str());
        },
        None => {},
    }
    s
}

/// A key that is blank after trimming counts as absent.
pub open spec fn present_key(k: Option<String>) -> Option<String> {
    match k {
        Some(s) => if trim_spec(s@).len() > 0 { Some(s) } else { None },
        None => None,
    }
}

/// The keys a fanart client is built with: `None` when the project key is
/// blank (fanart is then silently absent); a blank user key is dropped.
pub fn fanart_keys(project_key: String, user_key: Option<String>) -> (r: Option<(String, Option<String>)>)
    ensures
        trim_spec(project_key@).len() == 0 ==> r is None,
        trim_spec(project_key@).len() > 0 ==> r == Some((project_key, present_key(user_key))),
{
    let t = trim(project_key.as_str());
    if t.unicode_len() == 0 {
        return None;
    }
    let user = match user_key {
        Some(u) => {
            let tu = trim(u.as_str());
            if tu.unicode_len() > 0 {
                Some(u)
            } else {
                None
            }
        },
        None => None,
    };
    Some((project_key, user))
}

} // verus!
