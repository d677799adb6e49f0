//! IPC protocol vocabulary shared by the runtime and the TUI: media tabs
//! and types, error scrubbing, and the request / response / event records.
//! Serialisation is the host's business; these are the plain values.

use vstd::prelude::*;
use crate::abi::{EntryKind, SearchScope};
use crate::text::{ascii_lower, chars_of, push_char, push_str};

verus! {

// ── Domain types ─────────────────────────────────────────────────────────────

/// Fine-grained media classification.
#[derive(Debug, Clone, Copy, PartialEq, Eq, Default, Hash, Structural)]
pub enum MediaType {
    #[default]
    Movie,
    Series,
    Episode,
    Music,
    Album,
    Track,
    Unknown,
}

/// Top-level UI tab (coarse navigation category).
#[derive(Debug, Clone, Copy, PartialEq, Eq, Hash, Default, Structural)]
pub enum MediaTab {
    #[default]
    Movies,
    Series,
    Music,
    Library,
    /// Internet radio stations.
    Radio,
    /// Podcast episodes and feeds.
    Podcasts,
    /// Online video.
    Videos,
}

/// The media type a tab's entries get: movies, series and music map to
/// their own type; the other tabs to `Unknown`.
pub open spec fn type_of_tab(tab: MediaTab) -> MediaType {
    match tab {
        MediaTab::Movies => MediaType::Movie,
        MediaTab::Series => MediaType::Series,
        MediaTab::Music => MediaType::Music,
        _ => MediaType::Unknown,
    }
}

/// Display label of a media type (empty for `Unknown`).
pub open spec fn type_label(t: MediaType) -> Seq<char> {
    match t {
        MediaType::Movie => "Movie"@,
        MediaType::Series => "Series"@,
        MediaType::Episode => "Episode"@,
        MediaType::Music => "Music"@,
        MediaType::Album => "Album"@,
        MediaType::Track => "Track"@,
        MediaType::Unknown => ""@,
    }
}

impl MediaType {
    /// The media type a tab's entries get.
    pub fn from_tab(tab: &MediaTab) -> (r: MediaType)
        ensures
            r == type_of_tab(*tab),
    {
        match tab {
            MediaTab::Movies => MediaType::Movie,
            MediaTab::Series => MediaType::Series,
            MediaTab::Music => MediaType::Music,
            MediaTab::Library => MediaType::Unknown,
            MediaTab::Radio => MediaType::Unknown,
            MediaTab::Podcasts => MediaType::Unknown,
            MediaTab::Videos => MediaType::Unknown,
        }
    }

    /// Display label.
    pub fn label(&self) -> (r: &'static str)
        ensures
            r@ == type_label(*self),
    {
        match self {
            MediaType::Movie => "Movie",
            MediaType::Series => "Series",
            MediaType::Episode => "Episode",
            MediaType::Music => "Music",
            MediaType::Album => "Album",
            MediaType::Track => "Track",
            MediaType::Unknown => "",
        }
    }
}

/// Label of a tab in the TUI tab bar.
pub open spec fn tab_bar_label(tab: MediaTab) -> Seq<char> {
    match tab {
        MediaTab::Movies => "Movies"@,
        MediaTab::Series => "Series"@,
        MediaTab::Music => "Music"@,
        MediaTab::Library => "Library"@,
        MediaTab::Radio => "Radio"@,
        MediaTab::Podcasts => "Podcasts"@,
        MediaTab::Videos => "Videos"@,
    }
}

impl MediaTab {
    /// Human-readable label shown in the TUI tab bar.
    pub fn label(&self) -> (r: &'static str)
        ensures
            r@ == tab_bar_label(*self),
    {
        match self {
            MediaTab::Movies => "Movies",
            MediaTab::Series => "Series",
            MediaTab::Music => "Music",
            MediaTab::Library => "Library",
            MediaTab::Radio => "Radio",
            MediaTab::Podcasts => "Podcasts",
            MediaTab::Videos => "Videos",
        }
    }

    /// The tabs shown in the main navigation bar by default: movies,
    /// series, music and library.
    pub fn default_tabs() -> (r: Vec<MediaTab>)
        ensures
            r@ == seq![MediaTab::Movies, MediaTab::Series, MediaTab::Music, MediaTab::Library],
    {
        let mut v: Vec<MediaTab> = Vec::new();
        v.push(MediaTab::Movies);
        v.push(MediaTab::Series);
        v.push(MediaTab::Music);
        v.push(MediaTab::Library);
        assert(v@ =~= seq![MediaTab::Movies, MediaTab::Series, MediaTab::Music, MediaTab::Library]);
        v
    }
}

/// A catalog item as returned by search or trending.
#[derive(Debug, Clone, Default)]
pub struct MediaEntry {
    pub id: String,
    pub title: String,
    pub year: Option<String>,
    pub genre: Option<String>,
    /// Weighted composite rating text (e.g. "8.3").
    pub rating: Option<String>,
    pub description: Option<String>,
    pub poster_url: Option<String>,
    pub provider: String,
    pub tab: MediaTab,
    /// Grid-layer tab classifier.
    pub media_type: MediaType,
    /// Per-source raw scores, each as the bits of an `f64`.
    pub ratings: Vec<(String, u64)>,
    pub imdb_id: Option<String>,
    pub tmdb_id: Option<String>,
    pub mal_id: Option<String>,
    /// AniList catalog id.
    pub anilist_id: Option<String>,
    /// Kitsu catalog id.
    pub kitsu_id: Option<String>,
    /// ISO 639-1 code of the original language.
    pub original_language: Option<String>,
    /// Typed entry kind for scoped search results.
    pub kind: EntryKind,
    /// Originating plugin for scoped-search entries.
    pub source: String,
    pub artist_name: Option<String>,
    pub album_name: Option<String>,
    pub track_number: Option<u32>,
    pub season: Option<u32>,
    pub episode: Option<u32>,
    /// Total seasons a series lookup reported.
    pub season_count: Option<u32>,
    /// Whether the provider has a specials track.
    pub has_specials: bool,
}

/// Error variants for a single-scope search failure.
#[derive(Debug, Clone, Copy, PartialEq, Eq, Structural)]
pub enum ScopeError {
    /// Every provider attempted returned an error.
    AllFailed,
    /// No plugins are configured that cover this scope.
    NoPluginsConfigured,
}

/// Streaming result frame for one search scope. `partial` frames may be
/// followed by more; the final frame has `partial == false`.
#[derive(Debug, Clone)]
pub struct ScopeResultsMsg {
    /// Correlation id of the originating search request.
    pub query_id: u64,
    pub scope: SearchScope,
    pub entries: Vec<MediaEntry>,
    pub partial: bool,
    /// Set when every provider failed or none was configured.
    pub error: Option<ScopeError>,
}

// ── Secret scrubbing ─────────────────────────────────────────────────────────

/// Characters that may precede a key inside a word (ASCII letters, digits,
/// underscore): a key right after one of them is not a key.
pub open spec fn is_word_char(c: char) -> bool {
    ('a' <= c && c <= 'z') || ('A' <= c && c <= 'Z') || ('0' <= c && c <= '9') || c == '_'
}

/// Characters that end a secret value: `&`, a quote, `)`, or ASCII
/// whitespace (space, tab, line feed, form feed, carriage return).
pub open spec fn is_value_end(c: char) -> bool {
    c == '&' || c == '"' || c == '\'' || c == ')' || c == ' ' || c == '\t' || c == '\n' || c == '\x0C'
        || c == '\r'
}

/// Key `k` (lowercase) starts at `i`, compared ASCII-case-insensitively,
/// and is followed by `=`.
pub open spec fn key_matches(s: Seq<char>, i: int, k: Seq<char>) -> bool {
    &&& 0 <= i
    &&& i + k.len() < s.len()
    &&& s[i + k.len()] == '='
    &&& forall|j: int| 0 <= j < k.len() ==> #[trigger] ascii_lower(s[i + j]) == k[j]
}

/// The secret keys, in the order they are tried.
pub open spec fn secret_keys() -> Seq<Seq<char>> {
    seq!["api_key"@, "apikey"@, "access_token"@, "token"@]
}

/// The length of the first secret key that starts at `i` (after a
/// non-word character or at the start) and is followed by `=`.
pub open spec fn key_at(s: Seq<char>, i: int) -> Option<nat> {
    if i > 0 && is_word_char(s[i - 1]) {
        None
    } else if key_matches(s, i, secret_keys()[0]) {
        Some(secret_keys()[0].len())
    } else if key_matches(s, i, secret_keys()[1]) {
        Some(secret_keys()[1].len())
    } else if key_matches(s, i, secret_keys()[2]) {
        Some(secret_keys()[2].len())
    } else if key_matches(s, i, secret_keys()[3]) {
        Some(secret_keys()[3].len())
    } else {
        None
    }
}

/// The scrubbed text from position `i` on. Outside a value each character
/// is copied, except that a secret key with its `=` is copied and followed
/// by `***`, and its value (up to a value-ending character or the end) is
/// dropped.
pub open spec fn scrubbed_from(s: Seq<char>, i: int, in_value: bool) -> Seq<char>
    decreases s.len() - i,
{
    if i >= s.len() || i < 0 {
        Seq::empty()
    } else if in_value {
        if is_value_end(s[i]) {
            seq![s[i]] + scrubbed_from(s, i + 1, false)
        } else {
            scrubbed_from(s, i + 1, true)
        }
    } else {
        match key_at(s, i) {
            Some(n) => s.subrange(i, i + n + 1) + "***"@ + scrubbed_from(s, i + n + 1, true),
            None => seq![s[i]] + scrubbed_from(s, i + 1, false),
        }
    }
}

/// A message without any `=` has no secret parameter and passes through
/// unchanged.
pub proof fn lemma_scrub_passthrough(s: Seq<char>, i: int)
    requires
        0 <= i <= s.len(),
        forall|j: int| 0 <= j < s.len() ==> s[j] != '=',
    ensures
        scrubbed_from(s, i, false) == s.subrange(i, s.len() as int),
    decreases s.len() - i,
{
    if i < s.len() {
        lemma_scrub_passthrough(s, i + 1);
        assert(key_at(s, i) is None) by {
            let ks = secret_keys();
            assert forall|m: int| 0 <= m < 4 implies !key_matches(s, i, #[trigger] ks[m]) by {
                if key_matches(s, i, ks[m]) {
                    assert(s[i + ks[m].len()] == '=');
                }
            }
        }
        assert(seq![s[i]] + s.subrange(i + 1, s.len() as int) =~= s.subrange(i, s.len() as int));
    } else {
        assert(s.subrange(i, s.len() as int) =~= Seq::<char>::empty());
    }
}

/// Text in which no secret key starts anywhere passes through unchanged.
pub proof fn lemma_scrub_no_key(s: Seq<char>, i: int)
    requires
        0 <= i <= s.len(),
        forall|j: int| 0 <= j < s.len() ==> #[trigger] key_at(s, j) is None,
    ensures
        scrubbed_from(s, i, false) == s.subrange(i, s.len() as int),
    decreases s.len() - i,
{
    if i < s.len() {
        lemma_scrub_no_key(s, i + 1);
        assert(key_at(s, i) is None);
        assert(seq![s[i]] + s.subrange(i + 1, s.len() as int) =~= s.subrange(i, s.len() as int));
    } else {
        assert(s.subrange(i, s.len() as int) =~= Seq::<char>::empty());
    }
}

/// The secret keys hold neither `*` nor `=`.
proof fn lemma_secret_key_chars(m: int, j: int)
    requires
        0 <= m < 4,
        0 <= j < secret_keys()[m].len(),
    ensures
        secret_keys()[m][j] != '*',
        secret_keys()[m][j] != '=',
{
    reveal_strlit("api_key");
    reveal_strlit("apikey");
    reveal_strlit("access_token");
    reveal_strlit("token");
}

/// The scrubbed text from a position outside a value is that text itself
/// when no key follows, or agrees with it up to and including the `=` of
/// the first key and then continues with `*`.
proof fn lemma_scrub_prefix(s: Seq<char>, i: int)
    requires
        0 <= i <= s.len(),
    ensures
        scrubbed_from(s, i, false) == s.subrange(i, s.len() as int) || exists|q: int|
            #![trigger s[q - 1]]
            i < q <= s.len() && s[q - 1] == '=' && scrubbed_from(s, i, false).len() > q - i
                && scrubbed_from(s, i, false).subrange(0, q - i) == s.subrange(i, q)
                && scrubbed_from(s, i, false)[q - i] == '*',
    decreases s.len() - i,
{
    let t = scrubbed_from(s, i, false);
    if i >= s.len() {
        assert(s.subrange(i, s.len() as int) =~= Seq::<char>::empty());
    } else {
        match key_at(s, i) {
            Some(n) => {
                let q = i + n + 1;
                let ks = secret_keys();
                assert(exists|m: int| 0 <= m < 4 && key_matches(s, i, ks[m]) && n == ks[m].len());
                assert(s[q - 1] == '=');
                let rest = scrubbed_from(s, q, true);
                assert(t == s.subrange(i, q) + "***"@ + rest);
                reveal_strlit("***");
                assert(t.subrange(0, q - i) =~= s.subrange(i, q));
                assert(t[q - i] == '*');
            },
            None => {
                lemma_scrub_prefix(s, i + 1);
                let t1 = scrubbed_from(s, i + 1, false);
                assert(t == seq![s[i]] + t1);
                if t1 == s.subrange(i + 1, s.len() as int) {
                    assert(t =~= s.subrange(i, s.len() as int));
                } else {
                    let q = choose|q: int|
                        #![trigger s[q - 1]]
                        i + 1 < q <= s.len() && s[q - 1] == '=' && t1.len() > q - (i + 1) && t1.subrange(0, q - (i + 1))
                            == s.subrange(i + 1, q) && t1[q - (i + 1)] == '*';
                    assert forall|j: int| 0 <= j < q - i implies #[trigger] t[j] == s[i + j] by {
                        if j > 0 {
                            assert(t[j] == t1[j - 1]);
                            assert(t1[j - 1] == t1.subrange(0, q - (i + 1))[j - 1]);
                        }
                    }
                    assert(t.subrange(0, q - i) =~= s.subrange(i, q));
                    assert(t[q - i] == t1[q - (i + 1)]);
                }
            },
        }
    }
}

/// In a value, scrubbing drops everything up to the first value-ending
/// character, which it keeps before going on outside the value; with none
/// it gives nothing.
proof fn lemma_scrub_value(s: Seq<char>, j: int)
    requires
        0 <= j <= s.len(),
    ensures
        scrubbed_from(s, j, true).len() == 0 || exists|e: int|
            #![trigger s[e]]
            j <= e < s.len() && is_value_end(s[e]) && scrubbed_from(s, j, true) == seq![s[e]] + scrubbed_from(
                s,
                e + 1,
                false,
            ),
    decreases s.len() - j,
{
    if j < s.len() && !is_value_end(s[j]) {
        lemma_scrub_value(s, j + 1);
    }
}

/// A key matches at the start of the scrubbed text of `s` from `i`, placed
/// after `pre`, exactly when it matches at `i` in `s`.
proof fn lemma_key_matches_agree(s: Seq<char>, i: int, pre: Seq<char>, m: int)
    requires
        0 <= i <= s.len(),
        0 <= m < 4,
    ensures
        key_matches(pre + scrubbed_from(s, i, false), pre.len() as int, secret_keys()[m]) == key_matches(
            s,
            i,
            secret_keys()[m],
        ),
{
    let t = scrubbed_from(s, i, false);
    let o = pre + t;
    let p = pre.len() as int;
    let k = secret_keys()[m];
    lemma_scrub_prefix(s, i);
    assert forall|j: int| 0 <= j < t.len() implies #[trigger] o[p + j] == t[j] by {}
    if t == s.subrange(i, s.len() as int) {
        assert forall|j: int| 0 <= j < s.len() - i implies #[trigger] o[p + j] == s[i + j] by {
            assert(o[p + j] == t[j]);
        }
        if key_matches(o, p, k) {
            assert forall|j: int| 0 <= j < k.len() implies #[trigger] ascii_lower(s[i + j]) == k[j] by {
                assert(ascii_lower(o[p + j]) == k[j]);
                assert(o[p + j] == s[i + j]);
            }
            assert(o[p + k.len()] == s[i + k.len()]);
        }
        if key_matches(s, i, k) {
            assert forall|j: int| 0 <= j < k.len() implies #[trigger] ascii_lower(o[p + j]) == k[j] by {
                assert(ascii_lower(s[i + j]) == k[j]);
                assert(o[p + j] == s[i + j]);
            }
            assert(o[p + k.len()] == s[i + k.len()]);
        }
    } else {
        let q = choose|q: int|
            #![trigger s[q - 1]]
            i < q <= s.len() && s[q - 1] == '=' && t.len() > q - i && t.subrange(0, q - i) == s.subrange(i, q)
                && t[q - i] == '*';
        let l = q - i;
        assert forall|j: int| 0 <= j < l implies #[trigger] o[p + j] == s[i + j] by {
            assert(o[p + j] == t[j]);
            assert(t[j] == t.subrange(0, l)[j]);
        }
        if k.len() < l {
            if key_matches(o, p, k) {
                assert forall|j: int| 0 <= j < k.len() implies #[trigger] ascii_lower(s[i + j]) == k[j] by {
                    assert(ascii_lower(o[p + j]) == k[j]);
                    assert(o[p + j] == s[i + j]);
                }
                assert(o[p + k.len()] == s[i + k.len()]);
            }
            if key_matches(s, i, k) {
                assert forall|j: int| 0 <= j < k.len() implies #[trigger] ascii_lower(o[p + j]) == k[j] by {
                    assert(ascii_lower(s[i + j]) == k[j]);
                    assert(o[p + j] == s[i + j]);
                }
                assert(o[p + k.len()] == s[i + k.len()]);
            }
        } else {
            assert(o[p + l] == '*');
            if key_matches(o, p, k) {
                if k.len() == l {
                    assert(o[p + k.len()] == '=');
                } else {
                    lemma_secret_key_chars(m, l);
                    assert(ascii_lower(o[p + l]) == k[l]);
                }
            }
            if key_matches(s, i, k) {
                lemma_secret_key_chars(m, l - 1);
                assert(ascii_lower(s[i + (l - 1)]) == k[l - 1]);
            }
        }
    }
}

/// The key found at the start of the scrubbed text of `s` from `i` is the
/// one found at `i` in `s`, when the characters before agree on being word
/// characters.
proof fn lemma_key_at_agree(s: Seq<char>, i: int, pre: Seq<char>)
    requires
        0 <= i <= s.len(),
        (i > 0 && is_word_char(s[i - 1])) == (pre.len() > 0 && is_word_char(pre.last())),
    ensures
        key_at(pre + scrubbed_from(s, i, false), pre.len() as int) == key_at(s, i),
{
    let o = pre + scrubbed_from(s, i, false);
    let p = pre.len() as int;
    if p > 0 {
        assert(o[p - 1] == pre.last());
    }
    lemma_key_matches_agree(s, i, pre, 0);
    lemma_key_matches_agree(s, i, pre, 1);
    lemma_key_matches_agree(s, i, pre, 2);
    lemma_key_matches_agree(s, i, pre, 3);
}

/// Scrubbing the scrubbed text from `i` of `s`, placed after `pre`, leaves
/// it as it is.
#[verifier::rlimit(50)]
proof fn lemma_scrub_fixed(s: Seq<char>, i: int, pre: Seq<char>)
    requires
        0 <= i <= s.len(),
        (i > 0 && is_word_char(s[i - 1])) == (pre.len() > 0 && is_word_char(pre.last())),
    ensures
        scrubbed_from(pre + scrubbed_from(s, i, false), pre.len() as int, false) == scrubbed_from(s, i, false),
    decreases s.len() - i,
{
    let t = scrubbed_from(s, i, false);
    let o = pre + t;
    let p = pre.len() as int;
    if i >= s.len() {
        assert(o.len() == p);
    } else {
        lemma_key_at_agree(s, i, pre);
        match key_at(s, i) {
            None => {
                let t1 = scrubbed_from(s, i + 1, false);
                assert(t == seq![s[i]] + t1);
                let pre1 = pre.push(s[i]);
                assert(o =~= pre1 + t1);
                lemma_scrub_fixed(s, i + 1, pre1);
                assert(o[p] == s[i]);
            },
            Some(n) => {
                let q = i + n + 1;
                let t2 = scrubbed_from(s, q, true);
                reveal_strlit("***");
                assert(t == s.subrange(i, q) + "***"@ + t2);
                let ks = secret_keys();
                assert(exists|m: int| 0 <= m < 4 && key_matches(s, i, ks[m]) && n == ks[m].len());
                assert(q <= s.len());
                assert(o.subrange(p, p + n + 1) =~= s.subrange(i, q));
                let v = p + n + 1;
                assert(o[v] == '*' && o[v + 1] == '*' && o[v + 2] == '*');
                assert(o.len() >= v + 3);
                assert(!is_value_end('*'));
                assert(scrubbed_from(o, v, true) == scrubbed_from(o, v + 1, true));
                assert(scrubbed_from(o, v + 1, true) == scrubbed_from(o, v + 2, true));
                assert(scrubbed_from(o, v + 2, true) == scrubbed_from(o, v + 3, true));
                lemma_scrub_value(s, q);
                if t2.len() == 0 {
                    assert(o.len() == v + 3);
                } else {
                    let e = choose|e: int|
                        #![trigger s[e]]
                        q <= e < s.len() && is_value_end(s[e]) && t2 == seq![s[e]] + scrubbed_from(s, e + 1, false);
                    let t3 = scrubbed_from(s, e + 1, false);
                    assert(o[v + 3] == s[e]);
                    let pre3 = o.subrange(0, v + 4);
                    assert(o =~= pre3 + t3);
                    assert(pre3.last() == s[e]);
                    lemma_scrub_fixed(s, e + 1, pre3);
                    assert(scrubbed_from(o, v + 3, true) == seq![s[e]] + scrubbed_from(o, v + 4, false));
                }
            },
        }
    }
}

/// Scrubbing is idempotent: scrubbed text has no secret left to scrub.
pub proof fn lemma_scrub_idempotent(s: Seq<char>)
    ensures
        scrubbed_from(scrubbed_from(s, 0, false), 0, false) == scrubbed_from(s, 0, false),
{
    lemma_scrub_fixed(s, 0, Seq::empty());
    assert(Seq::<char>::empty() + scrubbed_from(s, 0, false) =~= scrubbed_from(s, 0, false));
}

/// Whether lowercase key `k` starts at `i` of `v` and is followed by `=`.
fn key_matches_exec(v: &Vec<char>, i: usize, k: &str) -> (r: bool)
    ensures
        r == key_matches(v@, i as int, k@),
{
    let kv = chars_of(k);
    let kl = kv.len();
    if i >= v.len() || kl >= v.len() - i {
        return false;
    }
    if v[i + kl] != '=' {
        return false;
    }
    let vl = v.len();
    let mut j: usize = 0;
    while j < kl
        invariant
            vl == v@.len(),
            kv@ == k@,
            kl == k@.len(),
            i + kl < v@.len(),
            j <= kl,
            i + j <= i + kl,
            forall|q: int| 0 <= q < j ==> #[trigger] ascii_lower(v@[i + q]) == k@[q],
        decreases kl - j,
    {
        let c = v[i + j];
        let l = if 'A' <= c && c <= 'Z' {
            ((c as u8) + 32) as char
        } else {
            c
        };
        assert(l == ascii_lower(c)) by {
            if 'A' <= c && c <= 'Z' {
                assert((c as u8) as u32 == c as u32);
            }
        }
        if l != kv[j] {
            assert(ascii_lower(v@[i + j]) != k@[j as int]);
            return false;
        }
        j += 1;
    }
    true
}

/// Replace secret-bearing parameters (`api_key`, `apikey`, `access_token`,
/// `token`, matched case-insensitively and only at a word boundary) with
/// `<key>=***`, so error messages can reach logs and the TUI without
/// leaking credentials. The value runs from the `=` to the next `&`,
/// whitespace, quote, `)` or line break, or to the end.
pub fn sanitize_secrets(msg: &str) -> (r: String)
    ensures
        r@ == scrubbed_from(msg@, 0, false),
{
    proof {
        reveal_strlit("api_key");
        reveal_strlit("apikey");
        reveal_strlit("access_token");
        reveal_strlit("token");
    }
    let v = chars_of(msg);
    let n = v.len();
    let mut out = String::new();
    let mut i: usize = 0;
    let mut in_value = false;
    while i < n
        invariant
            v@ == msg@,
            n == msg@.len(),
            i <= n,
            out@ + scrubbed_from(msg@, i as int, in_value) == scrubbed_from(msg@, 0, false),
        decreases n - i,
    {
        let c = v[i];
        if in_value {
            if c == '&' || c == '"' || c == '\'' || c == ')' || c == ' ' || c == '\t' || c == '\n' || c
                == '\x0C' || c == '\r' {
                push_char(&mut out, c);
                in_value = false;
                assert(out@ + scrubbed_from(msg@, i + 1, false) =~= scrubbed_from(msg@, 0, false));
            }
            i += 1;
        } else {
            let boundary = i == 0 || {
                let p = v[i - 1];
                !(('a' <= p && p <= 'z') || ('A' <= p && p <= 'Z') || ('0' <= p && p <= '9')
                    || p == '_')
            };
            let klen: usize = if !boundary {
                0
            } else if key_matches_exec(&v, i, "api_key") {
                7
            } else if key_matches_exec(&v, i, "apikey") {
                6
            } else if key_matches_exec(&v, i, "access_token") {
                12
            } else if key_matches_exec(&v, i, "token") {
                5
            } else {
                0
            };
            proof {
                reveal_strlit("api_key");
                reveal_strlit("apikey");
                reveal_strlit("access_token");
                reveal_strlit("token");
            }
            assert(secret_keys()[0] == "api_key"@ && "api_key"@.len() == 7);
            assert(secret_keys()[1] == "apikey"@ && "apikey"@.len() == 6);
            assert(secret_keys()[2] == "access_token"@ && "access_token"@.len() == 12);
            assert(secret_keys()[3] == "token"@ && "token"@.len() == 5);
            assert(key_at(msg@, i as int) == if klen == 0 {
                None::<nat>
            } else {
                Some(klen as nat)
            });
            if klen > 0 {
                let ghost before = out@;
                let mut j: usize = 0;
                while j <= klen
                    invariant
                        v@ == msg@,
                        n == msg@.len(),
                        i + klen < n,
                        j <= klen + 1,
                        out@ == before + msg@.subrange(i as int, i + j),
                    decreases klen + 1 - j,
                {
                    push_char(&mut out, v[i + j]);
                    j += 1;
                    assert(out@ =~= before + msg@.subrange(i as int, i + j));
                }
                push_str(&mut out, "***");
                i = i + klen + 1;
                in_value = true;
                assert(out@ + scrubbed_from(msg@, i as int, true) =~= scrubbed_from(msg@, 0, false));
            } else {
                push_char(&mut out, c);
                i += 1;
                assert(out@ + scrubbed_from(msg@, i as int, false) =~= scrubbed_from(msg@, 0, false));
            }
        }
    }
    assert(scrubbed_from(msg@, i as int, in_value) =~= Seq::<char>::empty());
    assert(out@ =~= out@ + Seq::<char>::empty());
    out
}

} // verus!
